use nimi::mode::SuliAlaSuli;
use nimi::probability::Probability;
use nimi::random::ScriptedSource;
use nimi::random::ThreadSource;
use nimi::synth::synthesize;

fn scripted(draws: Vec<u64>) -> ScriptedSource {
    assert!(!draws.is_empty());
    ScriptedSource::new(draws)
}

#[test]
fn single_syllable_is_word_initial_first_entry() {
    let mut src = scripted(vec![0]);
    let word = synthesize(1, Probability::never(), SuliAlaSuli::Ala, &mut src);
    assert_eq!(word, "a");
}

#[test]
fn single_syllable_indexes_word_initial_table() {
    let mut src = scripted(vec![7]);
    let word = synthesize(1, Probability::always(), SuliAlaSuli::Suli, &mut src);
    assert_eq!(word, "ki");
}

#[test]
fn single_syllable_never_carries_a_nasal() {
    for raw in [0u64, 3, 19, 45, 46, 1000] {
        let mut src = scripted(vec![raw]);
        let word = synthesize(1, Probability::always(), SuliAlaSuli::Ala, &mut src);
        assert!(!word.ends_with('n'));
        let last = word.chars().last().unwrap();
        assert!(matches!(last, 'a' | 'e' | 'i' | 'o' | 'u'));
    }
}

#[test]
fn zero_probability_concatenates_plain_syllables() {
    let mut src = scripted(vec![0]);
    let word = synthesize(3, Probability::never(), SuliAlaSuli::Ala, &mut src);
    assert_eq!(word, "akaka");
}

#[test]
fn zero_probability_same_in_both_modes() {
    let mut a = scripted(vec![9, 2, 33]);
    let mut b = scripted(vec![9, 2, 33]);
    let w_ala = synthesize(4, Probability::never(), SuliAlaSuli::Ala, &mut a);
    let w_suli = synthesize(4, Probability::never(), SuliAlaSuli::Suli, &mut b);
    assert_eq!(w_ala, w_suli);
}

#[test]
fn scripted_draws_wrap_around() {
    let mut src = scripted(vec![5, 11]);
    let word = synthesize(2, Probability::never(), SuliAlaSuli::Ala, &mut src);
    assert_eq!(word, "kasa");
}

#[test]
fn nasal_draws_from_post_nasal_table() {
    let mut src = scripted(vec![14]);
    let word = synthesize(2, Probability::always(), SuliAlaSuli::Ala, &mut src);
    assert_eq!(word, "sunpa");
}

#[test]
fn always_nasal_not_counting_interleaves_every_boundary() {
    let mut src = scripted(vec![0]);
    let word = synthesize(3, Probability::always(), SuliAlaSuli::Ala, &mut src);
    assert_eq!(word, "ankanka");
    assert_eq!(word.matches('n').count(), 2);
    assert!(!word.ends_with('n'));
}

#[test]
fn always_nasal_counting_spends_budget_on_nasals() {
    let mut src = scripted(vec![0]);
    let word = synthesize(5, Probability::always(), SuliAlaSuli::Suli, &mut src);
    assert_eq!(word, "ankanka");
}

#[test]
fn always_nasal_counting_even_budget_ends_in_nasal() {
    let mut src = scripted(vec![0]);
    let word = synthesize(4, Probability::always(), SuliAlaSuli::Suli, &mut src);
    assert_eq!(word, "ankan");
    assert!(word.ends_with('n'));
}

#[test]
fn nasal_counts_budget_example() {
    let mut src = scripted(vec![0]);
    let word = synthesize(2, Probability::always(), SuliAlaSuli::Suli, &mut src);
    assert_eq!(word, "an");
}

#[test]
fn identical_scripts_give_identical_words() {
    let script = vec![3u64, 9, 14, 2, 27, 40, 8];
    let mut a = scripted(script.clone());
    let mut b = scripted(script);
    let w1 = synthesize(6, Probability::ratio(1, 2), SuliAlaSuli::Suli, &mut a);
    let w2 = synthesize(6, Probability::ratio(1, 2), SuliAlaSuli::Suli, &mut b);
    assert_eq!(w1, w2);
}

#[test]
fn one_source_yields_a_stream_of_words() {
    let mut src = scripted(vec![3, 9, 14, 2, 27]);
    let first = synthesize(2, Probability::ratio(1, 3), SuliAlaSuli::Ala, &mut src);
    let second = synthesize(2, Probability::ratio(1, 3), SuliAlaSuli::Ala, &mut src);
    assert!(!first.is_empty());
    assert!(!second.is_empty());
}

#[test]
fn thread_source_yields_nonempty_words() {
    let mut src = ThreadSource::new();
    for _ in 0..50 {
        let word = synthesize(3, Probability::ratio(1, 2), SuliAlaSuli::Suli, &mut src);
        assert!(!word.is_empty());
    }
}

#[test]
fn thread_source_zero_probability_never_inserts_nasal() {
    let mut src = ThreadSource::new();
    for _ in 0..50 {
        let word = synthesize(3, Probability::never(), SuliAlaSuli::Ala, &mut src);
        // three table syllables of one or two characters, no inserted nasal
        assert!(word.len() >= 4 && word.len() <= 6);
        let last = word.chars().last().unwrap();
        assert!(matches!(last, 'a' | 'e' | 'i' | 'o' | 'u'));
    }
}

#[test]
fn thread_source_certain_probability_inserts_nasal() {
    let mut src = ThreadSource::new();
    for _ in 0..50 {
        let word = synthesize(2, Probability::always(), SuliAlaSuli::Suli, &mut src);
        // one table syllable then a nasal spending the second budget unit
        assert!(word.ends_with('n'));
    }
}

#[test]
fn thread_source_not_counting_never_ends_in_nasal() {
    let mut src = ThreadSource::new();
    for _ in 0..50 {
        let word = synthesize(4, Probability::always(), SuliAlaSuli::Ala, &mut src);
        let last = word.chars().last().unwrap();
        assert!(matches!(last, 'a' | 'e' | 'i' | 'o' | 'u'));
        assert!(word.contains('n'));
    }
}

#[test]
fn from_str_accepts_the_two_tokens() {
    assert_eq!(SuliAlaSuli::from_str("suli"), Ok(SuliAlaSuli::Suli));
    assert_eq!(SuliAlaSuli::from_str("ala"), Ok(SuliAlaSuli::Ala));
}

#[test]
fn from_str_rejects_other_tokens() {
    for bad in ["", "sul", "suli ", "Suli", "ALA", "alaa", "mute"] {
        let r = SuliAlaSuli::from_str(bad);
        assert_eq!(r, Err("nimi ni li nimi 'suli' ala li nimi 'ala' ala".to_string()));
    }
}

#[test]
fn as_text_names_each_mode() {
    assert_eq!(SuliAlaSuli::Suli.as_text(), "suli");
    assert_eq!(SuliAlaSuli::Ala.as_text(), "ala");
}

#[test]
fn as_text_round_trips_through_from_str() {
    for mode in [SuliAlaSuli::Suli, SuliAlaSuli::Ala] {
        assert_eq!(SuliAlaSuli::from_str(mode.as_text()), Ok(mode));
    }
}

#[test]
fn probability_constructors() {
    let never = Probability::never();
    assert_eq!(never.num, 0);
    let always = Probability::always();
    assert_eq!(always.num, always.den);
    let half = Probability::ratio(1, 2);
    assert_eq!(half.num, 1);
    assert_eq!(half.den, 2);
}

#[test]
fn scripted_biased_draw_respects_threshold() {
    // raw % den < num: raw 1 under 1/2 gives a nasal, raw 1 under 1/3 does not
    let mut low = scripted(vec![0, 1, 0]);
    let word_low = synthesize(2, Probability::ratio(2, 3), SuliAlaSuli::Ala, &mut low);
    assert_eq!(word_low, "anka");
    let mut high = scripted(vec![0, 2, 0]);
    let word_high = synthesize(2, Probability::ratio(2, 3), SuliAlaSuli::Ala, &mut high);
    assert_eq!(word_high, "aka");
}
