use vstd::prelude::*;

verus! {

/// The atomic timing primitive of Morse code.
#[derive(PartialEq, Eq, Structural, Clone, Copy, Debug)]
pub enum MorseElement {
    /// A short mark: one unit on.
    Dot,
    /// A long mark: three units on.
    Dash,
    /// The gap between two marks of one symbol: one unit off.
    Gap,
    /// The gap between two symbols: three units off.
    LetterGap,
    /// The gap standing for an explicit space character: one unit off.
    WordGap,
}

/// A compacted run of one polarity, with its duration in timing units.
#[derive(PartialEq, Eq, Structural, Clone, Copy, Debug)]
pub enum MorseSignal {
    On(u64),
    Off(u64),
}

impl MorseElement {
    /// A mark is an element during which the signal is on.
    pub open spec fn is_mark(self) -> bool {
        self is Dot || self is Dash
    }

    /// The primitive signal of one element.
    pub open spec fn signal(self) -> MorseSignal {
        match self {
            MorseElement::Dot => MorseSignal::On(1),
            MorseElement::Dash => MorseSignal::On(3),
            MorseElement::Gap => MorseSignal::Off(1),
            MorseElement::LetterGap => MorseSignal::Off(3),
            MorseElement::WordGap => MorseSignal::Off(1),
        }
    }

    /// The primitive signal of one element: a dot is one unit on, a dash three, a letter gap
    /// three units off, and the other gaps one.
    pub fn to_signal(&self) -> (r: MorseSignal)
        ensures
            r == self.signal(),
    {
        match self {
            MorseElement::Dot => MorseSignal::On(1),
            MorseElement::Dash => MorseSignal::On(3),
            MorseElement::Gap => MorseSignal::Off(1),
            MorseElement::LetterGap => MorseSignal::Off(3),
            MorseElement::WordGap => MorseSignal::Off(1),
        }
    }
}

} // verus!
