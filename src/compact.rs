use vstd::prelude::*;
use crate::element::MorseElement;
use crate::element::MorseSignal;
use crate::element::MorseSignal::{Off, On};

verus! {

/// Units of silence that close every compacted message.
pub const GUARD_UNITS: u64 = 7;

impl MorseSignal {
    /// The duration of the signal, in timing units.
    pub open spec fn units(self) -> u64 {
        match self {
            On(n) => n,
            Off(n) => n,
        }
    }

    /// Whether the signal is a mark rather than a silence.
    pub open spec fn is_on(self) -> bool {
        self is On
    }
}

/// Hands a finished run over to the output, unless it lasted no time at all.
pub open spec fn emit(done: Seq<MorseSignal>, run: MorseSignal) -> Seq<MorseSignal> {
    if run.units() == 0 {
        done
    } else {
        done.push(run)
    }
}

/// The compaction fold after the elements `es`: the signals handed over so far, and the running
/// signal. The running signal starts as zero units on; an element of the running signal's
/// polarity adds its units to it, any other element hands it over and starts the next run.
pub open spec fn compact_prefix(es: Seq<MorseElement>) -> (Seq<MorseSignal>, MorseSignal)
    decreases es.len(),
{
    if es.len() == 0 {
        (seq![], On(0))
    } else {
        let (done, run) = compact_prefix(es.drop_last());
        let next = es.last().signal();
        match (run, next) {
            (On(n), On(m)) => (done, On((n + m) as u64)),
            (Off(n), Off(m)) => (done, Off((n + m) as u64)),
            _ => (emit(done, run), next),
        }
    }
}

/// The compacted signals of an element sequence: every maximal run of one polarity summed into
/// one signal, then the closing guard silence.
pub open spec fn compacted(es: Seq<MorseElement>) -> Seq<MorseSignal> {
    let (done, run) = compact_prefix(es);
    emit(done, run).push(Off(GUARD_UNITS))
}

/// No two adjacent signals of `s` share a polarity, and none lasts zero units.
pub open spec fn alternating(s: Seq<MorseSignal>) -> bool {
    &&& forall|k: int| 0 <= k < s.len() ==> #[trigger] s[k].units() >= 1
    &&& forall|k: int| 0 <= k < s.len() - 1 ==> #[trigger] s[k].is_on() != s[k + 1].is_on()
}

/// The shape of the fold's state: what was handed over alternates and has the other polarity
/// than the running signal, which lasts zero units only before the first element and has the
/// polarity of the last element.
pub(crate) proof fn lemma_prefix_shape(es: Seq<MorseElement>)
    requires
        3 * es.len() <= u64::MAX,
    ensures
        ({
            let (done, run) = compact_prefix(es);
            &&& alternating(done)
            &&& alternating(emit(done, run))
            &&& done.len() > 0 ==> done.last().is_on() != run.is_on()
            &&& (run.units() == 0 <==> es.len() == 0)
            &&& run.units() <= 3 * es.len()
            &&& forall|k: int| 0 <= k < done.len() ==> #[trigger] done[k].units() <= 3 * es.len()
            &&& es.len() > 0 ==> (run.is_on() <==> es.last().is_mark())
        }),
    decreases es.len(),
{
    if es.len() > 0 {
        lemma_prefix_shape(es.drop_last());
    }
}

/// Compacts an element sequence into signals: adjacent elements of one polarity merge into one
/// signal whose units are their sum, and a guard silence of seven units closes the sequence.
pub fn elements_to_signals(elements: Vec<MorseElement>) -> (r: Vec<MorseSignal>)
    requires
        3 * elements@.len() <= u64::MAX,
    ensures
        r@ == compacted(elements@),
        alternating(r@.drop_last()),
        r@.last() == Off(GUARD_UNITS),
{
    let mut signals: Vec<MorseSignal> = Vec::new();
    let mut current = On(0);
    let mut i: usize = 0;
    while i < elements.len()
        invariant
            i <= elements@.len(),
            3 * elements@.len() <= u64::MAX,
            (signals@, current) == compact_prefix(elements@.take(i as int)),
        decreases elements.len() - i,
    {
        proof {
            assert(elements@.take(i + 1).drop_last() =~= elements@.take(i as int));
            lemma_prefix_shape(elements@.take(i as int));
        }
        let next = elements[i].to_signal();
        match (current, next) {
            (On(n), On(m)) => {
                current = On(n + m);
            },
            (Off(n), Off(m)) => {
                current = Off(n + m);
            },
            (On(n), Off(_)) | (Off(n), On(_)) => {
                if n > 0 {
                    signals.push(current);
                }
                current = next;
            },
        }
        i += 1;
    }
    proof {
        assert(elements@.take(elements@.len() as int) =~= elements@);
        lemma_prefix_shape(elements@);
    }
    match current {
        On(n) | Off(n) => {
            if n > 0 {
                signals.push(current);
            }
        },
    }
    signals.push(Off(GUARD_UNITS));
    proof {
        assert(signals@.drop_last() =~= emit(compact_prefix(elements@).0, compact_prefix(elements@).1));
    }
    signals
}

/// Compacting an element sequence that is empty or ends with a mark leaves no two adjacent
/// signals of one polarity and no signal of zero units, and closes with seven units off.
pub proof fn lemma_compacted_alternates(es: Seq<MorseElement>)
    requires
        3 * es.len() <= u64::MAX,
        es.len() == 0 || es.last().is_mark(),
    ensures
        alternating(compacted(es)),
        compacted(es).last() == Off(GUARD_UNITS),
        compacted(es).last().units() >= 7,
{
    lemma_prefix_shape(es);
}

} // verus!
