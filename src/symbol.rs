use vstd::prelude::*;
use crate::element::MorseElement;
use crate::element::MorseElement::{Dash, Dot, Gap, WordGap};

verus! {

/// One symbol of the Morse alphabet: a letter, a digit, a punctuation mark, or the space
/// between words.
#[derive(PartialEq, Eq, Structural, Clone, Copy, Debug)]
pub enum MorseValue {
    Space,
    A,
    B,
    C,
    D,
    E,
    F,
    G,
    H,
    I,
    J,
    K,
    L,
    M,
    N,
    O,
    P,
    Q,
    R,
    S,
    T,
    U,
    V,
    W,
    X,
    Y,
    Z,
    Zero,
    One,
    Two,
    Three,
    Four,
    Five,
    Six,
    Seven,
    Eight,
    Nine,
    Period,
    Comma,
    Question,
    Apostrophe,
    Quotation,
    Hyphen,
    Slash,
    OpenParenthesis,
    CloseParenthesis,
    At,
    Colon,
}

/// The one error of classification: a character outside the Morse alphabet.
#[derive(PartialEq, Eq, Structural, Clone, Copy, Debug)]
pub enum MorseError {
    UnsupportedCharacter(char),
}

impl MorseError {
    /// The message that reports the error.
    pub fn to_string(&self) -> (r: String)
        ensures
            match self {
                MorseError::UnsupportedCharacter(c) => r@ == "Character not allowed: "@ + seq![*c],
            },
    {
        match self {
            MorseError::UnsupportedCharacter(c) => {
                let mut text = String::from_str("Character not allowed: ");
                let shown = char_text(*c);
                text.append(shown.as_str());
                text
            },
        }
    }
}

/// Relies on `char::to_string`: the string made of the one character.
#[verifier::external_body]
fn char_text(c: char) -> (r: String)
    ensures
        r@ == seq![c],
{
    c.to_string()
}

/// The symbol that a character stands for, if any. Letters are matched without regard to case.
pub open spec fn symbol_of(c: char) -> Option<MorseValue> {
    match c {
        ' ' => Some(MorseValue::Space),
        'A' | 'a' => Some(MorseValue::A),
        'B' | 'b' => Some(MorseValue::B),
        'C' | 'c' => Some(MorseValue::C),
        'D' | 'd' => Some(MorseValue::D),
        'E' | 'e' => Some(MorseValue::E),
        'F' | 'f' => Some(MorseValue::F),
        'G' | 'g' => Some(MorseValue::G),
        'H' | 'h' => Some(MorseValue::H),
        'I' | 'i' => Some(MorseValue::I),
        'J' | 'j' => Some(MorseValue::J),
        'K' | 'k' => Some(MorseValue::K),
        'L' | 'l' => Some(MorseValue::L),
        'M' | 'm' => Some(MorseValue::M),
        'N' | 'n' => Some(MorseValue::N),
        'O' | 'o' => Some(MorseValue::O),
        'P' | 'p' => Some(MorseValue::P),
        'Q' | 'q' => Some(MorseValue::Q),
        'R' | 'r' => Some(MorseValue::R),
        'S' | 's' => Some(MorseValue::S),
        'T' | 't' => Some(MorseValue::T),
        'U' | 'u' => Some(MorseValue::U),
        'V' | 'v' => Some(MorseValue::V),
        'W' | 'w' => Some(MorseValue::W),
        'X' | 'x' => Some(MorseValue::X),
        'Y' | 'y' => Some(MorseValue::Y),
        'Z' | 'z' => Some(MorseValue::Z),
        '0' => Some(MorseValue::Zero),
        '1' => Some(MorseValue::One),
        '2' => Some(MorseValue::Two),
        '3' => Some(MorseValue::Three),
        '4' => Some(MorseValue::Four),
        '5' => Some(MorseValue::Five),
        '6' => Some(MorseValue::Six),
        '7' => Some(MorseValue::Seven),
        '8' => Some(MorseValue::Eight),
        '9' => Some(MorseValue::Nine),
        '.' => Some(MorseValue::Period),
        ',' => Some(MorseValue::Comma),
        '?' => Some(MorseValue::Question),
        '\'' => Some(MorseValue::Apostrophe),
        '"' => Some(MorseValue::Quotation),
        '-' => Some(MorseValue::Hyphen),
        '/' => Some(MorseValue::Slash),
        '(' => Some(MorseValue::OpenParenthesis),
        ')' => Some(MorseValue::CloseParenthesis),
        '@' => Some(MorseValue::At),
        ':' => Some(MorseValue::Colon),
        _ => None,
    }
}

impl MorseValue {
    /// The marks of the symbol's code, in order; empty for the space.
    pub open spec fn marks(self) -> Seq<MorseElement> {
        match self {
            MorseValue::Space => seq![],
            MorseValue::A => seq![Dot, Dash],
            MorseValue::B => seq![Dash, Dot, Dot, Dot],
            MorseValue::C => seq![Dash, Dot, Dash, Dot],
            MorseValue::D => seq![Dash, Dot, Dot],
            MorseValue::E => seq![Dot],
            MorseValue::F => seq![Dot, Dot, Dash, Dot],
            MorseValue::G => seq![Dash, Dash, Dot],
            MorseValue::H => seq![Dot, Dot, Dot, Dot],
            MorseValue::I => seq![Dot, Dot],
            MorseValue::J => seq![Dot, Dash, Dash, Dash],
            MorseValue::K => seq![Dash, Dot, Dash],
            MorseValue::L => seq![Dot, Dash, Dot, Dot],
            MorseValue::M => seq![Dash, Dash],
            MorseValue::N => seq![Dash, Dot],
            MorseValue::O => seq![Dash, Dash, Dash],
            MorseValue::P => seq![Dot, Dash, Dash, Dot],
            MorseValue::Q => seq![Dash, Dash, Dot, Dash],
            MorseValue::R => seq![Dot, Dash, Dot],
            MorseValue::S => seq![Dot, Dot, Dot],
            MorseValue::T => seq![Dash],
            MorseValue::U => seq![Dot, Dot, Dash],
            MorseValue::V => seq![Dot, Dot, Dot, Dash],
            MorseValue::W => seq![Dot, Dash, Dash],
            MorseValue::X => seq![Dash, Dot, Dot, Dash],
            MorseValue::Y => seq![Dash, Dot, Dash, Dash],
            MorseValue::Z => seq![Dash, Dash, Dot, Dot],
            MorseValue::Zero => seq![Dash, Dash, Dash, Dash, Dash],
            MorseValue::One => seq![Dot, Dash, Dash, Dash, Dash],
            MorseValue::Two => seq![Dot, Dot, Dash, Dash, Dash],
            MorseValue::Three => seq![Dot, Dot, Dot, Dash, Dash],
            MorseValue::Four => seq![Dot, Dot, Dot, Dot, Dash],
            MorseValue::Five => seq![Dot, Dot, Dot, Dot, Dot],
            MorseValue::Six => seq![Dash, Dot, Dot, Dot, Dot],
            MorseValue::Seven => seq![Dash, Dash, Dot, Dot, Dot],
            MorseValue::Eight => seq![Dash, Dash, Dash, Dot, Dot],
            MorseValue::Nine => seq![Dash, Dash, Dash, Dash, Dot],
            MorseValue::Period => seq![Dot, Dash, Dot, Dash, Dot, Dash],
            MorseValue::Comma => seq![Dash, Dash, Dot, Dot, Dash, Dash],
            MorseValue::Question => seq![Dot, Dot, Dash, Dash, Dot, Dot],
            MorseValue::Apostrophe => seq![Dot, Dash, Dash, Dash, Dash, Dot],
            MorseValue::Quotation => seq![Dot, Dash, Dot, Dot, Dash, Dot],
            MorseValue::Hyphen => seq![Dash, Dot, Dot, Dot, Dot, Dash],
            MorseValue::Slash => seq![Dash, Dot, Dot, Dash, Dot],
            // The two parentheses have distinct codes, of five and of six marks.
            MorseValue::OpenParenthesis => seq![Dash, Dot, Dash, Dash, Dot],
            MorseValue::CloseParenthesis => seq![Dash, Dot, Dash, Dash, Dot, Dash],
            MorseValue::At => seq![Dot, Dash, Dash, Dot, Dash, Dot],
            MorseValue::Colon => seq![Dash, Dash, Dash, Dot, Dot, Dot],
        }
    }

    /// The elements that the symbol expands to: the space is one word gap; any other symbol is
    /// its marks with one intra-symbol gap between each two of them.
    pub open spec fn elements(self) -> Seq<MorseElement> {
        if self is Space {
            seq![WordGap]
        } else {
            with_gaps(self.marks())
        }
    }

    /// Classifies one character, letters without regard to case.
    pub fn from(c: char) -> (r: Result<Self, MorseError>)
        ensures
            r == (match symbol_of(c) {
                Some(v) => Ok(v),
                None => Err(MorseError::UnsupportedCharacter(c)),
            }),
    {
        match c {
            ' ' => Ok(MorseValue::Space),
            'A' | 'a' => Ok(MorseValue::A),
            'B' | 'b' => Ok(MorseValue::B),
            'C' | 'c' => Ok(MorseValue::C),
            'D' | 'd' => Ok(MorseValue::D),
            'E' | 'e' => Ok(MorseValue::E),
            'F' | 'f' => Ok(MorseValue::F),
            'G' | 'g' => Ok(MorseValue::G),
            'H' | 'h' => Ok(MorseValue::H),
            'I' | 'i' => Ok(MorseValue::I),
            'J' | 'j' => Ok(MorseValue::J),
            'K' | 'k' => Ok(MorseValue::K),
            'L' | 'l' => Ok(MorseValue::L),
            'M' | 'm' => Ok(MorseValue::M),
            'N' | 'n' => Ok(MorseValue::N),
            'O' | 'o' => Ok(MorseValue::O),
            'P' | 'p' => Ok(MorseValue::P),
            'Q' | 'q' => Ok(MorseValue::Q),
            'R' | 'r' => Ok(MorseValue::R),
            'S' | 's' => Ok(MorseValue::S),
            'T' | 't' => Ok(MorseValue::T),
            'U' | 'u' => Ok(MorseValue::U),
            'V' | 'v' => Ok(MorseValue::V),
            'W' | 'w' => Ok(MorseValue::W),
            'X' | 'x' => Ok(MorseValue::X),
            'Y' | 'y' => Ok(MorseValue::Y),
            'Z' | 'z' => Ok(MorseValue::Z),
            '0' => Ok(MorseValue::Zero),
            '1' => Ok(MorseValue::One),
            '2' => Ok(MorseValue::Two),
            '3' => Ok(MorseValue::Three),
            '4' => Ok(MorseValue::Four),
            '5' => Ok(MorseValue::Five),
            '6' => Ok(MorseValue::Six),
            '7' => Ok(MorseValue::Seven),
            '8' => Ok(MorseValue::Eight),
            '9' => Ok(MorseValue::Nine),
            '.' => Ok(MorseValue::Period),
            ',' => Ok(MorseValue::Comma),
            '?' => Ok(MorseValue::Question),
            '\'' => Ok(MorseValue::Apostrophe),
            '"' => Ok(MorseValue::Quotation),
            '-' => Ok(MorseValue::Hyphen),
            '/' => Ok(MorseValue::Slash),
            '(' => Ok(MorseValue::OpenParenthesis),
            ')' => Ok(MorseValue::CloseParenthesis),
            '@' => Ok(MorseValue::At),
            ':' => Ok(MorseValue::Colon),
            _ => Err(MorseError::UnsupportedCharacter(c)),
        }
    }

    /// The marks of the symbol's code, as a vector.
    fn mark_vec(&self) -> (r: Vec<MorseElement>)
        ensures
            r@ == self.marks(),
    {
        match self {
            MorseValue::Space => Vec::new(),
            MorseValue::A => vec![Dot, Dash],
            MorseValue::B => vec![Dash, Dot, Dot, Dot],
            MorseValue::C => vec![Dash, Dot, Dash, Dot],
            MorseValue::D => vec![Dash, Dot, Dot],
            MorseValue::E => vec![Dot],
            MorseValue::F => vec![Dot, Dot, Dash, Dot],
            MorseValue::G => vec![Dash, Dash, Dot],
            MorseValue::H => vec![Dot, Dot, Dot, Dot],
            MorseValue::I => vec![Dot, Dot],
            MorseValue::J => vec![Dot, Dash, Dash, Dash],
            MorseValue::K => vec![Dash, Dot, Dash],
            MorseValue::L => vec![Dot, Dash, Dot, Dot],
            MorseValue::M => vec![Dash, Dash],
            MorseValue::N => vec![Dash, Dot],
            MorseValue::O => vec![Dash, Dash, Dash],
            MorseValue::P => vec![Dot, Dash, Dash, Dot],
            MorseValue::Q => vec![Dash, Dash, Dot, Dash],
            MorseValue::R => vec![Dot, Dash, Dot],
            MorseValue::S => vec![Dot, Dot, Dot],
            MorseValue::T => vec![Dash],
            MorseValue::U => vec![Dot, Dot, Dash],
            MorseValue::V => vec![Dot, Dot, Dot, Dash],
            MorseValue::W => vec![Dot, Dash, Dash],
            MorseValue::X => vec![Dash, Dot, Dot, Dash],
            MorseValue::Y => vec![Dash, Dot, Dash, Dash],
            MorseValue::Z => vec![Dash, Dash, Dot, Dot],
            MorseValue::Zero => vec![Dash, Dash, Dash, Dash, Dash],
            MorseValue::One => vec![Dot, Dash, Dash, Dash, Dash],
            MorseValue::Two => vec![Dot, Dot, Dash, Dash, Dash],
            MorseValue::Three => vec![Dot, Dot, Dot, Dash, Dash],
            MorseValue::Four => vec![Dot, Dot, Dot, Dot, Dash],
            MorseValue::Five => vec![Dot, Dot, Dot, Dot, Dot],
            MorseValue::Six => vec![Dash, Dot, Dot, Dot, Dot],
            MorseValue::Seven => vec![Dash, Dash, Dot, Dot, Dot],
            MorseValue::Eight => vec![Dash, Dash, Dash, Dot, Dot],
            MorseValue::Nine => vec![Dash, Dash, Dash, Dash, Dot],
            MorseValue::Period => vec![Dot, Dash, Dot, Dash, Dot, Dash],
            MorseValue::Comma => vec![Dash, Dash, Dot, Dot, Dash, Dash],
            MorseValue::Question => vec![Dot, Dot, Dash, Dash, Dot, Dot],
            MorseValue::Apostrophe => vec![Dot, Dash, Dash, Dash, Dash, Dot],
            MorseValue::Quotation => vec![Dot, Dash, Dot, Dot, Dash, Dot],
            MorseValue::Hyphen => vec![Dash, Dot, Dot, Dot, Dot, Dash],
            MorseValue::Slash => vec![Dash, Dot, Dot, Dash, Dot],
            MorseValue::OpenParenthesis => vec![Dash, Dot, Dash, Dash, Dot],
            MorseValue::CloseParenthesis => vec![Dash, Dot, Dash, Dash, Dot, Dash],
            MorseValue::At => vec![Dot, Dash, Dash, Dot, Dash, Dot],
            MorseValue::Colon => vec![Dash, Dash, Dash, Dot, Dot, Dot],
        }
    }

    /// The elements that the symbol expands to.
    pub fn to_morse_elements(&self) -> (r: Vec<MorseElement>)
        ensures
            r@ == self.elements(),
    {
        if let MorseValue::Space = self {
            return vec![WordGap];
        }
        let marks = self.mark_vec();
        let mut r: Vec<MorseElement> = Vec::new();
        let mut i: usize = 0;
        while i < marks.len()
            invariant
                i <= marks@.len(),
                marks@ == self.marks(),
                r@ == with_gaps(marks@.take(i as int)),
            decreases marks.len() - i,
        {
            proof {
                lemma_with_gaps_push(marks@.take(i as int), marks@[i as int]);
                assert(marks@.take(i as int).push(marks@[i as int]) =~= marks@.take(i + 1));
            }
            if i > 0 {
                r.push(Gap);
            }
            r.push(marks[i]);
            i += 1;
        }
        proof {
            assert(marks@.take(marks@.len() as int) =~= marks@);
        }
        r
    }
}

/// A sequence of marks with one intra-symbol gap between each two adjacent marks.
pub open spec fn with_gaps(marks: Seq<MorseElement>) -> Seq<MorseElement> {
    if marks.len() == 0 {
        seq![]
    } else {
        Seq::new((2 * marks.len() - 1) as nat, |k: int| if k % 2 == 0 { marks[k / 2] } else { Gap })
    }
}

/// Appending a mark to a sequence of marks appends a gap, unless the sequence was empty, and
/// then the mark.
pub proof fn lemma_with_gaps_push(marks: Seq<MorseElement>, m: MorseElement)
    ensures
        with_gaps(marks.push(m)) == (if marks.len() == 0 {
            seq![m]
        } else {
            with_gaps(marks).push(Gap).push(m)
        }),
{
    if marks.len() == 0 {
        assert(with_gaps(marks.push(m)) =~= seq![m]);
    } else {
        assert(with_gaps(marks.push(m)) =~= with_gaps(marks).push(Gap).push(m));
    }
}

/// Every symbol but the space expands to 2n - 1 elements for its n marks, and has at least one
/// mark; the space expands to a single element.
pub proof fn lemma_elements_len(v: MorseValue)
    ensures
        v is Space ==> v.elements().len() == 1,
        !(v is Space) ==> v.marks().len() >= 1 && v.elements().len() == 2 * v.marks().len() - 1,
{
}

/// No symbol expands to more than eleven elements, and the expansion of every symbol but the
/// space ends with a mark.
pub(crate) proof fn lemma_elements_short(v: MorseValue)
    ensures
        v.elements().len() <= 11,
        !(v is Space) ==> v.elements().last().is_mark(),
{
}

} // verus!
