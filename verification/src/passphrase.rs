//! Passphrases: a few words from a list, joined by hyphens.
//!
//! Which words are drawn is a matter of chance, and chance is the caller's
//! to supply: it hands over one number for each word it wants. The
//! generator says which passphrase those numbers stand for.

use vstd::prelude::*;
use vstd::string::StringExecFns;
use crate::error::NudgeError;

verus! {

/// The word that `draw` picks from `words`.
pub open spec fn spec_pick(words: Seq<Seq<char>>, draw: u64) -> Seq<char> {
    words[draw as int % words.len() as int]
}

/// The passphrase that `draws` stand for: for each draw the word it picks,
/// in the order of the draws and with a hyphen between one word and the next.
pub open spec fn spec_compose(words: Seq<Seq<char>>, draws: Seq<u64>) -> Seq<char>
    decreases draws.len(),
{
    if draws.len() == 0 {
        Seq::empty()
    } else if draws.len() == 1 {
        spec_pick(words, draws[0])
    } else {
        spec_compose(words, draws.drop_last()) + seq!['-'] + spec_pick(words, draws.last())
    }
}

/// What the generator gives for `draws`: without a draw it has nothing to
/// give, else the passphrase that the draws stand for.
pub open spec fn spec_generate(words: Seq<Seq<char>>, draws: Seq<u64>) -> Option<Seq<char>> {
    if draws.len() == 0 {
        None
    } else {
        Some(spec_compose(words, draws))
    }
}

/// The words that a generator draws from unless it is given others.
pub open spec fn spec_default_words() -> Seq<Seq<char>> {
    seq![
        "amber"@,
        "basil"@,
        "cedar"@,
        "delta"@,
        "ember"@,
        "fable"@,
        "glade"@,
        "heron"@,
        "ivory"@,
        "jolly"@,
        "kiosk"@,
        "lemon"@,
        "maple"@,
        "noble"@,
        "olive"@,
        "pearl"@,
    ]
}

/// Turns draws into passphrases.
#[derive(Debug)]
pub struct PassphraseGenerator {
    words: Vec<String>,
}

impl View for PassphraseGenerator {
    type V = Seq<Seq<char>>;

    /// The words that the generator draws from.
    closed spec fn view(&self) -> Seq<Seq<char>> {
        self.words@.map_values(|word: String| word@)
    }
}

impl PassphraseGenerator {
    #[verifier::type_invariant]
    spec fn has_words(self) -> bool {
        self.words@.len() > 0
    }

    /// A generator that draws from the built-in words.
    pub fn new() -> (r: Result<PassphraseGenerator, NudgeError>)
        ensures
            r matches Ok(generator) && generator@ == spec_default_words(),
    {
        let mut words: Vec<String> = Vec::new();
        words.push("amber".to_owned());
        words.push("basil".to_owned());
        words.push("cedar".to_owned());
        words.push("delta".to_owned());
        words.push("ember".to_owned());
        words.push("fable".to_owned());
        words.push("glade".to_owned());
        words.push("heron".to_owned());
        words.push("ivory".to_owned());
        words.push("jolly".to_owned());
        words.push("kiosk".to_owned());
        words.push("lemon".to_owned());
        words.push("maple".to_owned());
        words.push("noble".to_owned());
        words.push("olive".to_owned());
        words.push("pearl".to_owned());
        assert(words@.map_values(|word: String| word@) =~= spec_default_words());
        PassphraseGenerator::with_words(words)
    }

    /// A generator that draws from `words`. Without words there is
    /// nothing to generate from, and no generator.
    pub fn with_words(words: Vec<String>) -> (r: Result<PassphraseGenerator, NudgeError>)
        ensures
            match r {
                Ok(generator) => words@.len() > 0 && generator@ == words@.map_values(
                    |word: String| word@,
                ),
                Err(e) => words@.len() == 0 && e == NudgeError::PassphraseGenerationError,
            },
    {
        if words.len() == 0 {
            Err(NudgeError::PassphraseGenerationError)
        } else {
            Ok(PassphraseGenerator { words })
        }
    }

    /// The passphrase that `draws` stand for, one word for each draw, or
    /// nothing if there is no draw.
    pub fn generate(&self, draws: &[u64]) -> (r: Option<String>)
        ensures
            self@.len() > 0,
            match r {
                Some(passphrase) => spec_generate(self@, draws@) == Some(passphrase@),
                None => spec_generate(self@, draws@) is None,
            },
    {
        proof {
            use_type_invariant(self);
        }
        if draws.len() == 0 {
            return None;
        }
        let count: u64 = self.words.len() as u64;
        let mut passphrase = String::new();
        let mut i: usize = 0;
        while i < draws.len()
            invariant
                i <= draws.len(),
                count == self.words@.len(),
                0 < count <= usize::MAX,
                passphrase@ == spec_compose(self@, draws@.take(i as int)),
            decreases draws.len() - i,
        {
            let ghost now = draws@.take(i + 1);
            proof {
                assert(now.drop_last() =~= draws@.take(i as int));
                reveal_strlit("-");
            }
            if i > 0 {
                passphrase.append("-");
            }
            let draw: u64 = draws[i];
            assert(0 <= (draw as int) % (count as int) < (count as int)) by (nonlinear_arith)
                requires
                    count > 0,
            ;
            let index: usize = (draw % count) as usize;
            passphrase.append(self.words[index].as_str());
            assert(passphrase@ =~= spec_compose(self@, now));
            i += 1;
        }
        assert(draws@.take(i as int) =~= draws@);
        Some(passphrase)
    }
}

} // verus!
