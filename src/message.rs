use vstd::prelude::*;
use vstd::std_specs::iter::IteratorSpec;
use crate::compact::{
    alternating, compacted, elements_to_signals, lemma_compacted_alternates, lemma_prefix_shape,
    GUARD_UNITS,
};
use crate::element::MorseElement;
use crate::element::MorseElement::LetterGap;
use crate::element::MorseSignal;
use crate::element::MorseSignal::Off;
use crate::symbol::{lemma_elements_short, symbol_of, MorseError, MorseValue};

verus! {

/// Classification of a whole text, character by character in order, failing with the first
/// character that stands for no symbol.
pub open spec fn symbols_of(s: Seq<char>) -> Result<Seq<MorseValue>, char>
    decreases s.len(),
{
    if s.len() == 0 {
        Ok(seq![])
    } else {
        match symbols_of(s.drop_last()) {
            Err(c) => Err(c),
            Ok(vs) => match symbol_of(s.last()) {
                Some(v) => Ok(vs.push(v)),
                None => Err(s.last()),
            },
        }
    }
}

/// Classifies every character of a text. The first character outside the alphabet fails the
/// whole text, with no partial result; a caller that wants to report every such character
/// classifies the characters one at a time with `MorseValue::from`.
pub fn string_to_values(s: &str) -> (r: Result<Vec<MorseValue>, MorseError>)
    ensures
        match symbols_of(s@) {
            Ok(vs) => r is Ok && r->Ok_0@ == vs,
            Err(c) => r == Err::<Vec<MorseValue>, MorseError>(MorseError::UnsupportedCharacter(c)),
        },
{
    let mut values: Vec<MorseValue> = Vec::new();
    let mut chars = s.chars();
    let ghost mut i: int = 0;
    proof {
        broadcast use vstd::string::axiom_spec_iter;
    }
    loop
        invariant
            0 <= i <= s@.len(),
            chars.remaining() == s@.skip(i),
            symbols_of(s@.take(i)) == Ok::<Seq<MorseValue>, char>(values@),
        ensures
            i == s@.len(),
            symbols_of(s@.take(i)) == Ok::<Seq<MorseValue>, char>(values@),
        decreases s@.len() - i,
    {
        match chars.next() {
            None => {
                proof {
                    assert(s@.skip(i).len() == 0);
                }
                break;
            },
            Some(c) => {
                proof {
                    assert(s@.take(i + 1).drop_last() =~= s@.take(i));
                    assert(s@.skip(i)[0] == s@[i]);
                    assert(s@.skip(i).drop_first() =~= s@.skip(i + 1));
                }
                match MorseValue::from(c) {
                    Ok(v) => values.push(v),
                    Err(e) => {
                        proof {
                            lemma_symbols_of_prefix_err(s@, i + 1);
                        }
                        return Err(e);
                    },
                }
                proof {
                    i = i + 1;
                }
            },
        }
    }
    proof {
        assert(s@.take(i) =~= s@);
    }
    Ok(values)
}

/// Each symbol's elements followed by one letter gap, symbol after symbol.
pub open spec fn padded_elements(vs: Seq<MorseValue>) -> Seq<MorseElement>
    decreases vs.len(),
{
    if vs.len() == 0 {
        seq![]
    } else {
        padded_elements(vs.drop_last()) + vs.last().elements() + seq![LetterGap]
    }
}

/// The element sequence of a message: each symbol's elements, with one letter gap between two
/// adjacent symbols and none after the last.
pub open spec fn message_elements(vs: Seq<MorseValue>) -> Seq<MorseElement> {
    if vs.len() == 0 {
        seq![]
    } else {
        padded_elements(vs).drop_last()
    }
}

/// Joins the elements of the symbols of a message, with a letter gap between two symbols.
pub fn values_to_elements(values: Vec<MorseValue>) -> (r: Vec<MorseElement>)
    ensures
        r@ == message_elements(values@),
{
    let mut result: Vec<MorseElement> = Vec::new();
    let mut i: usize = 0;
    while i < values.len()
        invariant
            i <= values@.len(),
            result@ == padded_elements(values@.take(i as int)),
        decreases values.len() - i,
    {
        proof {
            assert(values@.take(i + 1).drop_last() =~= values@.take(i as int));
        }
        let mut elements = values[i].to_morse_elements();
        result.append(&mut elements);
        result.push(LetterGap);
        i += 1;
    }
    proof {
        assert(values@.take(values@.len() as int) =~= values@);
    }
    result.pop();
    result
}

/// The polarity and duration in milliseconds of each signal, `unit_length` milliseconds to the
/// unit.
pub open spec fn timed(pulses: Seq<(bool, u64)>, signals: Seq<MorseSignal>, unit_length: u64) -> bool {
    &&& pulses.len() == signals.len()
    &&& forall|k: int|
        0 <= k < pulses.len() ==> #[trigger] pulses[k].0 == signals[k].is_on() && pulses[k].1
            == signals[k].units() * unit_length
}

/// Encodes a text into timed pulses: classifies it, joins the symbols' elements, compacts them
/// into signals and scales each signal to `unit_length` milliseconds a unit.
pub fn encode_message(text: &str, unit_length: u64) -> (r: Result<Vec<(bool, u64)>, MorseError>)
    requires
        unit_length >= 1,
        (36 * text@.len() + GUARD_UNITS) * unit_length <= u64::MAX,
    ensures
        match symbols_of(text@) {
            Ok(vs) => r is Ok && timed(r->Ok_0@, compacted(message_elements(vs)), unit_length),
            Err(c) => r == Err::<Vec<(bool, u64)>, MorseError>(
                MorseError::UnsupportedCharacter(c),
            ),
        },
{
    let values = match string_to_values(text) {
        Ok(values) => values,
        Err(e) => return Err(e),
    };
    proof {
        lemma_symbols_of_len(text@);
        lemma_padded_len(values@);
    }
    let elements = values_to_elements(values);
    let ghost bound = 36 * text@.len() + GUARD_UNITS;
    proof {
        assert(bound <= bound * unit_length) by (nonlinear_arith)
            requires
                unit_length >= 1,
                bound >= 0,
        ;
        assert(elements@.len() <= 12 * text@.len());
    }
    let signals = elements_to_signals(elements);
    proof {
        lemma_prefix_shape(elements@);
        assert forall|k: int| 0 <= k < signals@.len() implies #[trigger] signals@[k].units() <= bound by {
            if k < signals@.len() - 1 {
                assert(signals@[k] == signals@.drop_last()[k]);
            }
        }
    }
    let mut pulses: Vec<(bool, u64)> = Vec::new();
    let mut k: usize = 0;
    while k < signals.len()
        invariant
            k <= signals@.len(),
            unit_length >= 1,
            bound * unit_length <= u64::MAX,
            forall|j: int| 0 <= j < signals@.len() ==> #[trigger] signals@[j].units() <= bound,
            pulses@.len() == k,
            forall|j: int|
                0 <= j < k ==> #[trigger] pulses@[j].0 == signals@[j].is_on() && pulses@[j].1
                    == signals@[j].units() * unit_length,
        decreases signals.len() - k,
    {
        let ghost units = signals@[k as int].units();
        proof {
            assert(units * unit_length <= bound * unit_length) by (nonlinear_arith)
                requires
                    units <= bound,
                    unit_length >= 1,
            ;
        }
        match signals[k] {
            MorseSignal::On(n) => pulses.push((true, n * unit_length)),
            MorseSignal::Off(n) => pulses.push((false, n * unit_length)),
        }
        k += 1;
    }
    Ok(pulses)
}

/// A message that does not end with a space ends with a mark, so its compacted signals alternate
/// in polarity, none lasts zero units, and the seven-unit guard closes them.
pub proof fn lemma_message_alternates(vs: Seq<MorseValue>)
    requires
        36 * vs.len() <= u64::MAX,
        vs.len() == 0 || !(vs.last() is Space),
    ensures
        alternating(compacted(message_elements(vs))),
        compacted(message_elements(vs)).last() == Off(GUARD_UNITS),
{
    lemma_padded_len(vs);
    if vs.len() > 0 {
        lemma_elements_short(vs.last());
        let es = padded_elements(vs.drop_last()) + vs.last().elements();
        assert(message_elements(vs) =~= es);
    }
    lemma_compacted_alternates(message_elements(vs));
}

/// A text that classifies has one symbol for each character.
proof fn lemma_symbols_of_len(s: Seq<char>)
    ensures
        symbols_of(s) is Ok ==> symbols_of(s)->Ok_0.len() == s.len(),
    decreases s.len(),
{
    if s.len() > 0 {
        lemma_symbols_of_len(s.drop_last());
    }
}

/// Each symbol takes at most twelve elements, its letter gap included.
proof fn lemma_padded_len(vs: Seq<MorseValue>)
    ensures
        padded_elements(vs).len() <= 12 * vs.len(),
    decreases vs.len(),
{
    if vs.len() > 0 {
        lemma_padded_len(vs.drop_last());
        lemma_elements_short(vs.last());
    }
}

/// Two characters that are equal, or are one letter of the Latin alphabet in upper and in lower
/// case.
pub open spec fn same_ignoring_case(a: char, b: char) -> bool {
    ||| a == b
    ||| 'A' <= a <= 'Z' && b as u32 == a as u32 + 32
    ||| 'A' <= b <= 'Z' && a as u32 == b as u32 + 32
}

/// Classification ignores the case of letters: two texts that differ only in the case of some
/// letters classify alike, into the same symbols or with the same failing character.
pub proof fn lemma_case_insensitive(s: Seq<char>, t: Seq<char>)
    requires
        s.len() == t.len(),
        forall|i: int| 0 <= i < s.len() ==> same_ignoring_case(#[trigger] s[i], t[i]),
    ensures
        symbols_of(s) == symbols_of(t),
    decreases s.len(),
{
    if s.len() > 0 {
        lemma_case_insensitive(s.drop_last(), t.drop_last());
        lemma_symbol_case_insensitive(s.last(), t.last());
    }
}

/// One character's classification ignores its case.
proof fn lemma_symbol_case_insensitive(a: char, b: char)
    requires
        same_ignoring_case(a, b),
    ensures
        symbol_of(a) == symbol_of(b),
        symbol_of(a) is None ==> a == b,
{
}

/// A failure on a prefix of a text is the failure of the whole text.
proof fn lemma_symbols_of_prefix_err(s: Seq<char>, k: int)
    requires
        0 <= k <= s.len(),
        symbols_of(s.take(k)) is Err,
    ensures
        symbols_of(s) == symbols_of(s.take(k)),
    decreases s.len() - k,
{
    if k < s.len() {
        assert(s.take(k + 1).drop_last() =~= s.take(k));
        lemma_symbols_of_prefix_err(s, k + 1);
    } else {
        assert(s.take(k) =~= s);
    }
}

} // verus!
