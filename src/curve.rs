use vstd::prelude::*;
use crate::sweep::{CurvePoint, ascending, descending};

verus! {

/// A curve point as exchanged with the user: voltage (µV), frequency (kHz), offset (kHz).
#[derive(Clone, Copy, Debug, PartialEq, Eq, Structural)]
pub struct VfPoint {
    pub voltage: u32,
    pub frequency: u32,
    pub delta: i32,
}

/// `start <= index < end`, with no upper bound when `end` is `None`.
pub open spec fn index_in_range(index: usize, start: usize, end: Option<usize>) -> bool {
    start <= index && match end {
        Some(e) => index < e,
        None => true,
    }
}

/// The points of `curve` (lowest index first) whose index is in range, highest first.
pub open spec fn sweep_selection(curve: Seq<CurvePoint>, start: usize, end: Option<usize>) -> Seq<CurvePoint>
    decreases curve.len(),
{
    if curve.len() == 0 {
        Seq::empty()
    } else {
        let rest = sweep_selection(curve.drop_first(), start, end);
        if index_in_range(curve[0].index, start, end) {
            rest.push(curve[0])
        } else {
            rest
        }
    }
}

proof fn lemma_selection_members(curve: Seq<CurvePoint>, start: usize, end: Option<usize>)
    ensures
        forall|p: CurvePoint| #[trigger] sweep_selection(curve, start, end).contains(p) ==> curve.contains(p),
    decreases curve.len(),
{
    if curve.len() > 0 {
        lemma_selection_members(curve.drop_first(), start, end);
        let rest = sweep_selection(curve.drop_first(), start, end);
        assert forall|p: CurvePoint| #[trigger] sweep_selection(curve, start, end).contains(p) implies curve.contains(p) by {
            if rest.contains(p) {
                let i = choose|i: int| 0 <= i < curve.drop_first().len() && curve.drop_first()[i] == p;
                assert(curve[i + 1] == p);
            } else {
                let s = sweep_selection(curve, start, end);
                let i = choose|i: int| 0 <= i < s.len() && s[i] == p;
                if i < rest.len() {
                    assert(s[i] == rest[i]);
                }
                assert(curve[0] == p);
            }
        }
    }
}

proof fn lemma_selection_descending(curve: Seq<CurvePoint>, start: usize, end: Option<usize>)
    requires
        ascending(curve),
    ensures
        descending(sweep_selection(curve, start, end)),
    decreases curve.len(),
{
    if curve.len() > 0 {
        let tail = curve.drop_first();
        assert(ascending(tail));
        lemma_selection_descending(tail, start, end);
        lemma_selection_members(tail, start, end);
        let rest = sweep_selection(tail, start, end);
        let s = sweep_selection(curve, start, end);
        if index_in_range(curve[0].index, start, end) {
            assert forall|i: int, j: int| 0 <= i < j < s.len() implies s[i].index > s[j].index by {
                if j == s.len() - 1 {
                    assert(s[i] == rest[i]);
                    assert(rest.contains(rest[i]));
                    let k = choose|k: int| 0 <= k < tail.len() && tail[k] == rest[i];
                    assert(curve[k + 1] == rest[i]);
                } else {
                    assert(s[i] == rest[i] && s[j] == rest[j]);
                }
            }
        }
    }
}

/// The points a sweep covers: those of `curve` (lowest index first) with
/// `start <= index < end`, highest index first.
pub fn sweep_points(curve: &Vec<CurvePoint>, start: usize, end: Option<usize>) -> (r: Vec<CurvePoint>)
    requires
        ascending(curve@),
    ensures
        r@ == sweep_selection(curve@, start, end),
        descending(r@),
{
    let mut out: Vec<CurvePoint> = Vec::new();
    let n = curve.len();
    let mut i: usize = n;
    while i > 0
        invariant
            i <= n,
            n == curve@.len(),
            out@ == sweep_selection(curve@.subrange(i as int, n as int), start, end),
        decreases i,
    {
        i = i - 1;
        let p = curve[i];
        let ghost sub = curve@.subrange(i as int, n as int);
        assert(sub.drop_first() =~= curve@.subrange(i + 1, n as int));
        let in_range = start <= p.index && match end {
            Some(e) => p.index < e,
            None => true,
        };
        if in_range {
            out.push(p);
        }
    }
    assert(curve@.subrange(0, n as int) =~= curve@);
    proof {
        lemma_selection_descending(curve@, start, end);
    }
    out
}

/// Pairs each curve point `(index, voltage, frequency)` with the offset recorded for
/// it, position by position. `None` when an index differs between the two lists.
pub fn merge_curve(points: &Vec<(usize, u32, u32)>, deltas: &Vec<(usize, i32)>) -> (r: Option<Vec<CurvePoint>>)
    ensures
        r is None <==> exists|i: int| 0 <= i < points@.len() && i < deltas@.len() && points@[i].0 != deltas@[i].0,
        r matches Some(v) ==> {
            &&& v@.len() == if points@.len() < deltas@.len() { points@.len() } else { deltas@.len() }
            &&& forall|i: int| 0 <= i < v@.len() ==> #[trigger] v@[i] == (CurvePoint {
                index: points@[i].0,
                voltage: points@[i].1,
                frequency: points@[i].2,
                delta: deltas@[i].1,
            })
        },
{
    let n = if points.len() < deltas.len() { points.len() } else { deltas.len() };
    let mut out: Vec<CurvePoint> = Vec::new();
    let mut i: usize = 0;
    while i < n
        invariant
            n <= points@.len(),
            n <= deltas@.len(),
            n == points@.len() || n == deltas@.len(),
            i <= n,
            out@.len() == i,
            forall|k: int| 0 <= k < i ==> points@[k].0 == deltas@[k].0,
            forall|k: int| 0 <= k < i ==> #[trigger] out@[k] == (CurvePoint {
                index: points@[k].0,
                voltage: points@[k].1,
                frequency: points@[k].2,
                delta: deltas@[k].1,
            }),
        decreases n - i,
    {
        let (index, voltage, frequency) = points[i];
        let (index_d, delta) = deltas[i];
        if index != index_d {
            return None;
        }
        out.push(CurvePoint { index, voltage, frequency, delta });
        i = i + 1;
    }
    Some(out)
}

/// The index of the first curve point with the given voltage.
pub open spec fn index_for_voltage(curve: Seq<CurvePoint>, voltage: u32) -> Option<usize>
    decreases curve.len(),
{
    if curve.len() == 0 {
        None
    } else if curve[0].voltage == voltage {
        Some(curve[0].index)
    } else {
        index_for_voltage(curve.drop_first(), voltage)
    }
}

/// The `(index, delta)` pairs an imported curve gives, in import order: each imported
/// point goes to the first curve point with its voltage, and is dropped if none has it.
pub open spec fn imported_deltas(curve: Seq<CurvePoint>, imported: Seq<VfPoint>) -> Seq<(usize, i32)>
    decreases imported.len(),
{
    if imported.len() == 0 {
        Seq::empty()
    } else {
        let prev = imported_deltas(curve, imported.drop_last());
        match index_for_voltage(curve, imported.last().voltage) {
            Some(i) => prev.push((i, imported.last().delta)),
            None => prev,
        }
    }
}

/// Finds the index of the first curve point with the given voltage.
pub fn find_voltage(curve: &Vec<CurvePoint>, voltage: u32) -> (r: Option<usize>)
    ensures
        r == index_for_voltage(curve@, voltage),
{
    let n = curve.len();
    let mut c: usize = 0;
    assert(curve@.subrange(0, n as int) =~= curve@);
    while c < n
        invariant
            c <= n,
            n == curve@.len(),
            index_for_voltage(curve@, voltage) == index_for_voltage(curve@.subrange(c as int, n as int), voltage),
        decreases n - c,
    {
        let ghost sub = curve@.subrange(c as int, n as int);
        assert(sub.drop_first() =~= curve@.subrange(c + 1, n as int));
        if curve[c].voltage == voltage {
            return Some(curve[c].index);
        }
        c = c + 1;
    }
    assert(curve@.subrange(c as int, n as int).len() == 0);
    None
}

/// The offsets to write for an imported curve (see `imported_deltas`).
pub fn import_deltas(curve: &Vec<CurvePoint>, imported: &Vec<VfPoint>) -> (r: Vec<(usize, i32)>)
    ensures
        r@ == imported_deltas(curve@, imported@),
{
    let mut out: Vec<(usize, i32)> = Vec::new();
    let mut i: usize = 0;
    while i < imported.len()
        invariant
            i <= imported@.len(),
            out@ == imported_deltas(curve@, imported@.subrange(0, i as int)),
        decreases imported@.len() - i,
    {
        let ghost pre = imported@.subrange(0, i + 1);
        assert(pre.drop_last() =~= imported@.subrange(0, i as int));
        assert(pre.last() == imported@[i as int]);
        match find_voltage(curve, imported[i].voltage) {
            Some(index) => out.push((index, imported[i].delta)),
            None => {},
        }
        i = i + 1;
    }
    assert(imported@.subrange(0, i as int) =~= imported@);
    out
}

} // verus!
