use nudge::error::NudgeError;
use nudge::passphrase::PassphraseGenerator;

fn generator(words: &[&str]) -> PassphraseGenerator {
    PassphraseGenerator::with_words(words.iter().map(|w| w.to_string()).collect()).unwrap()
}

#[test]
fn passphrase_is_one_word_per_draw_joined_by_hyphens() {
    let g = generator(&["correct", "horse", "battery", "staple"]);
    assert_eq!(g.generate(&[0, 1]), Some("correct-horse".to_string()));
    assert_eq!(g.generate(&[3, 2, 1, 0]), Some("staple-battery-horse-correct".to_string()));
    assert_eq!(g.generate(&[2]), Some("battery".to_string()));
    assert_eq!(g.generate(&[1, 1]), Some("horse-horse".to_string()));
}

#[test]
fn draw_picks_its_word_by_remainder() {
    let g = generator(&["zero", "one", "two"]);
    assert_eq!(g.generate(&[3]), Some("zero".to_string()));
    assert_eq!(g.generate(&[4, 5]), Some("one-two".to_string()));
    // 2^64 - 1 = 3 * 6148914691236517205
    assert_eq!(g.generate(&[u64::MAX]), Some("zero".to_string()));
    assert_eq!(g.generate(&[u64::MAX - 1]), Some("two".to_string()));
}

#[test]
fn generator_without_draws_gives_nothing() {
    assert_eq!(generator(&["only"]).generate(&[]), None);
}

#[test]
fn generator_needs_words() {
    match PassphraseGenerator::with_words(Vec::new()) {
        Err(e) => assert_eq!(e, NudgeError::PassphraseGenerationError),
        Ok(g) => panic!("a generator without words: {:?}", g),
    }
}

#[test]
fn single_word_list_always_gives_that_word() {
    let g = generator(&["only"]);
    assert_eq!(g.generate(&[0, 99, u64::MAX]), Some("only-only-only".to_string()));
}

#[test]
fn built_in_words_are_sixteen() {
    let g = PassphraseGenerator::new().unwrap();
    let all: Vec<u64> = (0..16).collect();
    assert_eq!(
        g.generate(&all),
        Some(
            "amber-basil-cedar-delta-ember-fable-glade-heron-ivory-jolly-kiosk-lemon-maple-noble-olive-pearl"
                .to_string()
        )
    );
    assert_eq!(g.generate(&[16]), Some("amber".to_string()));
}
