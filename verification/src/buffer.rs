//! The buffer of transform rows that is filled for each frame.

use vstd::prelude::*;
use crate::params::ROW_LEN;

verus! {

/// The number of values that `rows` transform rows hold.
pub open spec fn values_in_rows(rows: u32) -> int {
    rows * ROW_LEN
}

/// The length of a buffer of `len` values once `rows` rows must fit.
pub open spec fn grown_len(len: int, rows: u32) -> int {
    if len < values_in_rows(rows) {
        values_in_rows(rows)
    } else {
        len
    }
}

/// A buffer after growth: what it held, followed by zeros up to `grown_len`.
pub open spec fn grown(values: Seq<u32>, rows: u32) -> Seq<u32> {
    Seq::new(
        grown_len(values.len() as int, rows) as nat,
        |i: int| if i < values.len() { values[i] } else { 0u32 },
    )
}

/// A buffer after room was made for each of `requests` in turn.
pub open spec fn grown_through(values: Seq<u32>, requests: Seq<u32>) -> Seq<u32>
    decreases requests.len(),
{
    if requests.len() == 0 {
        values
    } else {
        grown(grown_through(values, requests.drop_last()), requests.last())
    }
}

/// Making room for `rows` rows leaves a buffer of at least `rows * 9` values
/// that is no shorter than before and starts with what it held.
pub proof fn lemma_grown_keeps(values: Seq<u32>, rows: u32)
    ensures
        grown(values, rows).len() >= values_in_rows(rows),
        grown(values, rows).len() >= values.len(),
        grown(values, rows).len() == values.len() || grown(values, rows).len() == values_in_rows(
            rows,
        ),
        grown(values, rows).subrange(0, values.len() as int) == values,
{
    assert(grown(values, rows).subrange(0, values.len() as int) =~= values);
}

/// Over any sequence of requests for room the buffer never shrinks: after
/// the first `served` of them it is no longer than after all, it holds at
/// least the rows of the latest request, and what it held at first stays at
/// its front.
pub proof fn lemma_capacity_never_shrinks(values: Seq<u32>, requests: Seq<u32>, served: int)
    requires
        0 <= served <= requests.len(),
    ensures
        grown_through(values, requests.take(served)).len() <= grown_through(values, requests).len(),
        values.len() <= grown_through(values, requests).len(),
        requests.len() > 0 ==> grown_through(values, requests).len() >= values_in_rows(
            requests.last(),
        ),
        grown_through(values, requests).subrange(0, values.len() as int) == values,
    decreases requests.len(),
{
    if requests.len() == 0 {
        assert(requests.take(served) =~= requests);
        assert(values.subrange(0, values.len() as int) =~= values);
    } else {
        let earlier = requests.drop_last();
        let before = grown_through(values, earlier);
        lemma_grown_keeps(before, requests.last());
        if served == requests.len() {
            assert(requests.take(served) =~= requests);
            lemma_capacity_never_shrinks(values, earlier, 0);
        } else {
            assert(requests.take(served) =~= earlier.take(served));
            lemma_capacity_never_shrinks(values, earlier, served);
        }
        assert(grown_through(values, requests).subrange(0, values.len() as int)
            =~= before.subrange(0, values.len() as int));
    }
}

/// A growable sequence of binary32 bit patterns, read as rows of nine.
///
/// The buffer only ever grows, so that a frame that needs no more rows than
/// an earlier one costs no allocation.
pub struct ParamsBuffer {
    values: Vec<u32>,
}

impl View for ParamsBuffer {
    type V = Seq<u32>;

    closed spec fn view(&self) -> Seq<u32> {
        self.values@
    }
}

impl ParamsBuffer {
    /// An empty buffer.
    pub fn new() -> (buffer: ParamsBuffer)
        ensures
            buffer@ == Seq::<u32>::empty(),
    {
        ParamsBuffer { values: Vec::new() }
    }

    /// The number of values held.
    pub fn len(&self) -> (len: usize)
        ensures
            len == self@.len(),
    {
        self.values.len()
    }

    /// Makes room for `rows` rows. A buffer that is too short is extended
    /// with zeros to exactly `rows` rows; one that is long enough is left
    /// as it is.
    pub fn ensure_capacity(&mut self, rows: u32)
        requires
            values_in_rows(rows) <= usize::MAX,
        ensures
            final(self)@ == grown(old(self)@, rows),
    {
        let wanted: usize = rows as usize * ROW_LEN;
        if self.values.len() < wanted {
            self.values.resize(wanted, 0u32);
        }
        assert(self.values@ =~= grown(old(self)@, rows));
    }

    /// The values held.
    pub fn as_slice(&self) -> (values: &[u32])
        ensures
            values@ == self@,
    {
        self.values.as_slice()
    }

    /// The first `rows` rows, to be written. What lies behind them is kept.
    pub fn rows_mut(&mut self, rows: u32) -> (window: &mut [u32])
        requires
            values_in_rows(rows) <= old(self)@.len(),
        ensures
            window@ == old(self)@.subrange(0, values_in_rows(rows)),
            final(self)@ == final(window)@ + old(self)@.subrange(
                values_in_rows(rows),
                old(self)@.len() as int,
            ),
    {
        assert(self.values@.len() <= usize::MAX) by {
            vstd::std_specs::vec::axiom_spec_len(&self.values);
        }
        let wanted: usize = rows as usize * ROW_LEN;
        let (window, _rest) = self.values.as_mut_slice().split_at_mut(wanted);
        window
    }
}

} // verus!
