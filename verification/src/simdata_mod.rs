//! The trajectory log: an append-only time series of numeric rows with a
//! timestamp column, supporting random access by row and column.

use vstd::prelude::*;

use crate::scalar::Scalar;

verus! {

/// Append-only log of simulation output.  One row is appended per logged
/// iteration; rows are never mutated or truncated.  Column `0` is the
/// timestamp; column `c >= 1` is element `c - 1` of the row payload.
pub struct SimulationData<S> {
    /// Number of rows appended so far.
    pub len: u64,
    /// Timestamp of each row.
    pub time: Vec<S>,
    /// Payload of each row.
    pub data: Vec<Vec<S>>,
}

impl<S: Scalar> SimulationData<S> {
    /// The payload rows as mathematical sequences.
    pub open spec fn rows_view(self) -> Seq<Seq<S>> {
        Seq::new(self.data@.len(), |i: int| self.data@[i]@)
    }

    /// The timestamp column.
    pub open spec fn times_view(self) -> Seq<S> {
        self.time@
    }

    /// The row counter matches the stored columns.
    pub open spec fn inv(self) -> bool {
        self.len as int == self.time@.len() && self.time@.len() == self.data@.len()
    }

    /// An empty log.
    pub fn new() -> (r: Self)
        ensures
            r.inv(),
            r.len == 0,
            r.times_view() == Seq::<S>::empty(),
            r.rows_view() == Seq::<Seq<S>>::empty(),
    {
        let r = Self { len: 0, time: Vec::new(), data: Vec::new() };
        proof {
            assert(r.rows_view() =~= Seq::<Seq<S>>::empty());
        }
        r
    }

    /// Append one row.  The log grows by exactly that row; nothing already
    /// logged moves.
    pub fn add_row(&mut self, row: Vec<S>, time: S)
        requires
            old(self).inv(),
            old(self).len < u64::MAX,
        ensures
            final(self).inv(),
            final(self).len == old(self).len + 1,
            final(self).times_view() == old(self).times_view().push(time),
            final(self).rows_view() == old(self).rows_view().push(row@),
    {
        self.len = self.len + 1;
        self.time.push(time);
        self.data.push(row);
        proof {
            assert(self.rows_view() =~= old(self).rows_view().push(self.data@.last()@));
        }
    }

    /// Number of rows logged so far.
    pub fn get_len(&self) -> (r: usize)
        ensures
            r == self.times_view().len(),
    {
        self.time.len()
    }

    /// Appending a row and reading it back is the identity: the timestamp
    /// lands in column `0` of the new row and payload element `c - 1` in
    /// column `c`, exactly as passed in.  Together with the contract of
    /// [`SimulationData::get_val`] this is the append/get round trip.
    pub proof fn lemma_round_trip(log0: SimulationData<S>, log1: SimulationData<S>, row: Seq<S>, t: S)
        requires
            log0.inv(),
            log1.times_view() == log0.times_view().push(t),
            log1.rows_view() == log0.rows_view().push(row),
        ensures
            log1.times_view()[log0.times_view().len() as int] == t,
            log1.rows_view()[log0.times_view().len() as int] == row,
            forall|c: int|
                0 <= c < row.len() ==> log1.rows_view()[log0.times_view().len() as int][c]
                    == row[c],
    {
    }

    /// Random access by `(row, column)`.  Column `0` is the timestamp;
    /// column `c >= 1` reads payload element `c - 1`.  A row index at or
    /// past the end, or a column past the row's payload, is an explicit
    /// `None`, never a silent default.
    pub fn get_val(&self, index: usize, col: usize) -> (r: Option<S>)
        requires
            self.inv(),
        ensures
            index < self.times_view().len() && col == 0 ==> r == Some(self.times_view()[index as int]),
            index < self.times_view().len() && 1 <= col && col - 1 < self.rows_view()[index as int].len()
                ==> r == Some(self.rows_view()[index as int][col - 1]),
            index >= self.times_view().len() ==> r is None,
            index < self.times_view().len() && 1 <= col && col - 1 >= self.rows_view()[index as int].len()
                ==> r is None,
    {
        if index >= self.time.len() {
            return None;
        }
        if col == 0 {
            Some(self.time[index])
        } else {
            let row: &Vec<S> = &self.data[index];
            if col - 1 < row.len() {
                Some(row[col - 1])
            } else {
                None
            }
        }
    }
}

} // verus!
