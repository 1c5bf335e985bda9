use morse_led::MorseElement::{Dash, Dot, Gap, LetterGap, WordGap};
use morse_led::MorseSignal::{Off, On};
use morse_led::MorseValue::{CloseParenthesis, OpenParenthesis, Period, Space, A, E, S, T};
use morse_led::{
    elements_to_signals, encode_message, string_to_values, values_to_elements, Led, MorseError,
    MorseSignal, MorseValue,
};

fn pulses(text: &str, unit: u64) -> Vec<(bool, u64)> {
    encode_message(text, unit).unwrap()
}

fn alternates(signals: &[MorseSignal]) -> bool {
    signals.windows(2).all(|w| match (w[0], w[1]) {
        (On(_), Off(_)) | (Off(_), On(_)) => true,
        _ => false,
    })
}

#[test]
fn single_letter_at_unit_one() {
    assert_eq!(pulses("A", 1), vec![(true, 1), (false, 1), (true, 3), (false, 7)]);
}

#[test]
fn single_letter_scales_with_unit() {
    assert_eq!(pulses("A", 120), vec![(true, 120), (false, 120), (true, 360), (false, 840)]);
}

#[test]
fn two_letters() {
    assert_eq!(
        pulses("HI", 1),
        vec![
            (true, 1), (false, 1), (true, 1), (false, 1), (true, 1), (false, 1), (true, 1),
            (false, 3),
            (true, 1), (false, 1), (true, 1),
            (false, 7),
        ]
    );
}

#[test]
fn two_words_get_a_seven_unit_gap() {
    assert_eq!(
        pulses("HI HI", 1),
        vec![
            (true, 1), (false, 1), (true, 1), (false, 1), (true, 1), (false, 1), (true, 1),
            (false, 3),
            (true, 1), (false, 1), (true, 1),
            (false, 7),
            (true, 1), (false, 1), (true, 1), (false, 1), (true, 1), (false, 1), (true, 1),
            (false, 3),
            (true, 1), (false, 1), (true, 1),
            (false, 7),
        ]
    );
}

#[test]
fn gaps_around_a_space_merge() {
    assert_eq!(pulses("E T", 1), vec![(true, 1), (false, 7), (true, 3), (false, 7)]);
}

#[test]
fn empty_message_is_only_the_guard() {
    assert_eq!(pulses("", 1), vec![(false, 7)]);
    assert_eq!(pulses("", 50), vec![(false, 350)]);
    assert_eq!(elements_to_signals(vec![]), vec![Off(7)]);
    assert_eq!(values_to_elements(vec![]), vec![]);
}

#[test]
fn unsupported_character_is_reported() {
    assert_eq!(
        string_to_values("SoS£"),
        Err(MorseError::UnsupportedCharacter('£'))
    );
    assert_eq!(
        encode_message("SoS£", 1),
        Err(MorseError::UnsupportedCharacter('£'))
    );
}

#[test]
fn first_unsupported_character_wins() {
    assert_eq!(
        string_to_values("a#b~"),
        Err(MorseError::UnsupportedCharacter('#'))
    );
    assert_eq!(
        MorseError::UnsupportedCharacter('~').to_string(),
        "Character not allowed: ~".to_string()
    );
}

#[test]
fn classification_ignores_case() {
    assert_eq!(string_to_values("sos"), string_to_values("SOS"));
    assert_eq!(string_to_values("sOs"), Ok(vec![S, MorseValue::O, S]));
    assert_eq!(MorseValue::from('a'), Ok(A));
    assert_eq!(MorseValue::from('A'), Ok(A));
    assert_eq!(MorseValue::from(' '), Ok(Space));
    assert_eq!(MorseValue::from('é'), Err(MorseError::UnsupportedCharacter('é')));
}

#[test]
fn element_counts_follow_mark_counts() {
    assert_eq!(Space.to_morse_elements(), vec![WordGap]);
    assert_eq!(E.to_morse_elements(), vec![Dot]);
    assert_eq!(T.to_morse_elements().len(), 1);
    assert_eq!(S.to_morse_elements(), vec![Dot, Gap, Dot, Gap, Dot]);
    assert_eq!(Period.to_morse_elements().len(), 2 * 6 - 1);
    assert_eq!(MorseValue::Five.to_morse_elements().len(), 2 * 5 - 1);
}

#[test]
fn parentheses_keep_their_distinct_codes() {
    assert_eq!(
        OpenParenthesis.to_morse_elements(),
        vec![Dash, Gap, Dot, Gap, Dash, Gap, Dash, Gap, Dot]
    );
    assert_eq!(
        CloseParenthesis.to_morse_elements(),
        vec![Dash, Gap, Dot, Gap, Dash, Gap, Dash, Gap, Dot, Gap, Dash]
    );
}

#[test]
fn element_signals() {
    assert_eq!(Dot.to_signal(), On(1));
    assert_eq!(Dash.to_signal(), On(3));
    assert_eq!(Gap.to_signal(), Off(1));
    assert_eq!(LetterGap.to_signal(), Off(3));
    assert_eq!(WordGap.to_signal(), Off(1));
}

#[test]
fn compacted_output_alternates_and_ends_with_guard() {
    let elements = values_to_elements(string_to_values("Paris 2024?").unwrap());
    let signals = elements_to_signals(elements);
    assert!(alternates(&signals));
    assert_eq!(*signals.last().unwrap(), Off(7));
    assert!(signals.iter().all(|s| match s {
        On(n) | Off(n) => *n >= 1,
    }));
}

#[test]
fn leading_gap_has_no_empty_mark_before_it() {
    assert_eq!(elements_to_signals(vec![WordGap, LetterGap, Dot]), vec![Off(4), On(1), Off(7)]);
    assert_eq!(pulses(" E", 1), vec![(false, 4), (true, 1), (false, 7)]);
}

#[test]
fn trailing_space_keeps_the_guard_separate() {
    assert_eq!(elements_to_signals(vec![WordGap]), vec![Off(1), Off(7)]);
    assert_eq!(pulses("E ", 1), vec![(true, 1), (false, 4), (false, 7)]);
}

#[test]
fn led_brightness_follows_state() {
    let led = Led::new(255);
    assert_eq!(led.brightness_for(true), 255);
    assert_eq!(led.brightness_for(false), 0);
}
