use morse_led::MorseElement::{Dash, Dot, Gap, LetterGap, WordGap};
use morse_led::MorseSignal::{Off, On};
use morse_led::MorseValue::{
    Apostrophe, At, CloseParenthesis, Five, Four, One, OpenParenthesis, Six, Space, Three, Two,
    E, H, I, O, S, T,
};
use morse_led::{
    elements_to_signals, string_to_values, values_to_elements, MorseElement, MorseValue,
};

#[test]
fn test_encode_morse_message_single_letter() {
    assert_eq!(
        values_to_elements(vec![MorseValue::A]),
        vec![MorseElement::Dot, MorseElement::Gap, MorseElement::Dash]
    );
}

#[test]
fn test_encode_morse_message_two_letters() {
    assert_eq!(
        values_to_elements(vec![H, I]),
        vec![Dot, Gap, Dot, Gap, Dot, Gap, Dot, LetterGap, Dot, Gap, Dot]
    );
}

#[test]
fn test_encode_morse_message_two_words() {
    assert_eq!(
        values_to_elements(vec![H, I, Space, H, I]),
        vec![
            Dot, Gap, Dot, Gap, Dot, Gap, Dot, LetterGap,
            Dot, Gap, Dot, LetterGap,
            WordGap, LetterGap,
            Dot, Gap, Dot, Gap, Dot, Gap, Dot, LetterGap,
            Dot, Gap, Dot,
        ],
    );
}

#[test]
fn test_encode_morse_message_two_letters_with_space() {
    assert_eq!(
        values_to_elements(vec![E, Space, T]),
        vec![Dot, LetterGap, WordGap, LetterGap, Dash]
    );
}

#[test]
fn test_morse_elements_to_signals() {
    assert_eq!(
        elements_to_signals(vec![Dot, Gap, Dash]),
        vec![On(1), Off(1), On(3), Off(7)]
    );
}

#[test]
fn test_morse_elements_to_signals_compact() {
    assert_eq!(
        elements_to_signals(vec![Dot, LetterGap, WordGap, LetterGap, Dash]),
        vec![On(1), Off(7), On(3), Off(7)]
    );
}

#[test]
fn test_morse_elements_to_signals_multiple_words() {
    assert_eq!(
        elements_to_signals(vec![
            Dot, Gap, Dot, Gap, Dot, Gap, Dot, LetterGap,
            Dot, Gap, Dot, LetterGap,
            WordGap, LetterGap,
            Dot, Gap, Dot, Gap, Dot, Gap, Dot, LetterGap,
            Dot, Gap, Dot,
        ]),
        vec![
            On(1), Off(1), On(1), Off(1), On(1), Off(1), On(1), Off(3),
            On(1), Off(1), On(1),
            Off(7),
            On(1), Off(1), On(1), Off(1), On(1), Off(1), On(1), Off(3),
            On(1), Off(1), On(1),
            Off(7),
        ]
    );
}

#[test]
fn test_string_to_morse_values() {
    assert_eq!(string_to_values("SOS"), Ok(vec![S, O, S]));
}

#[test]
fn test_string_to_morse_values_lower() {
    assert_eq!(
        string_to_values("sos sos"),
        Ok(vec![S, O, S, Space, S, O, S])
    );
}

#[test]
fn test_string_to_morse_values_numbers() {
    assert_eq!(
        string_to_values("123 456"),
        Ok(vec![One, Two, Three, Space, Four, Five, Six])
    );
}

#[test]
fn test_string_to_morse_symbols() {
    assert_eq!(
        string_to_values("hi('@')"),
        Ok(vec![
            H,
            I,
            OpenParenthesis,
            Apostrophe,
            At,
            Apostrophe,
            CloseParenthesis
        ])
    );
}

#[test]
fn test_string_to_morse_values_error() {
    assert_eq!(
        string_to_values("SoS£").map_err(|e| e.to_string()),
        Err("Character not allowed: £".to_string())
    );
}
