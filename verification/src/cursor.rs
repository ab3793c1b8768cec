//! A forward-only, single-use cursor over the rows a query matched, and the
//! one access pattern this layer supports: fetch the single record matching
//! the query, stepping the cursor at most once.

use vstd::prelude::*;

use crate::marshal::build_fields;
use crate::marshal::marshal_fields;
use crate::marshal::record_result_view;
use crate::marshal::Descriptor;
use crate::outcome::BuildError;
use crate::outcome::ErrorView;
use crate::row::Row;
use crate::row::RowView;

verus! {

/// Mathematical image of a [`Cursor`]: the rows not yet yielded, and how
/// often the cursor was advanced.
pub struct CursorView {
    pub rows: Seq<RowView>,
    pub advances: nat,
}

/// A forward-only enumerator over the rows matching a query.  Rows it has
/// not yielded stay owned by the cursor and go back to the provider with it;
/// a yielded row becomes the caller's to drive and drop.
#[derive(Debug)]
pub struct Cursor {
    rows: Vec<Row>,
    advances: usize,
}

impl View for Cursor {
    type V = CursorView;

    closed spec fn view(&self) -> CursorView {
        CursorView { rows: self.rows.deep_view(), advances: self.advances as nat }
    }
}

impl Cursor {
    /// A cursor over the given rows, not yet advanced.
    pub fn new(rows: Vec<Row>) -> (r: Cursor)
        ensures
            r@.rows == rows.deep_view(),
            r@.advances == 0,
    {
        Cursor { rows, advances: 0 }
    }

    /// How many rows the cursor still holds.
    pub fn remaining(&self) -> (r: usize)
        ensures
            r == self@.rows.len(),
    {
        self.rows.len()
    }

    /// How often the cursor has been advanced.
    pub fn advance_count(&self) -> (r: usize)
        ensures
            r == self@.advances,
    {
        self.advances
    }

    /// Advances the cursor: yields the first remaining row, or nothing when
    /// the result set is exhausted.
    pub fn next(&mut self) -> (r: Option<Row>)
        requires
            old(self)@.advances < usize::MAX,
        ensures
            final(self)@.advances == old(self)@.advances + 1,
            match r {
                Some(row) => {
                    &&& old(self)@.rows.len() > 0
                    &&& row@ == old(self)@.rows[0]
                    &&& final(self)@.rows == old(self)@.rows.skip(1)
                },
                None => {
                    &&& old(self)@.rows.len() == 0
                    &&& final(self)@.rows == old(self)@.rows
                },
            },
    {
        self.advances = self.advances + 1;
        if self.rows.len() == 0 {
            None
        } else {
            let ghost before = self.rows.deep_view();
            let row = self.rows.remove(0);
            proof {
                assert(self.rows.deep_view() =~= before.skip(1));
            }
            Some(row)
        }
    }
}

/// Builds the one record a query is expected to match: advances the cursor
/// exactly once, and marshals the first row through the shape `descs`, or
/// reports that no record was found.  Rows past the first are never read and
/// stay with the cursor.
pub fn fetch_record(cursor: &mut Cursor, descs: &Vec<Descriptor>) -> (r: Result<
    Vec<Option<String>>,
    BuildError,
>)
    requires
        old(cursor)@.advances < usize::MAX,
        old(cursor)@.rows.len() > 0 ==> old(cursor)@.rows[0].fetched + descs@.len() <= usize::MAX
            && old(cursor)@.rows[0].released <= old(cursor)@.rows[0].fetched,
    ensures
        final(cursor)@.advances == old(cursor)@.advances + 1,
        old(cursor)@.rows.len() == 0 ==> final(cursor)@.rows == old(cursor)@.rows
            && record_result_view(r) == Err::<Seq<Option<Seq<char>>>, ErrorView>(
            ErrorView::RecordNotFound,
        ),
        old(cursor)@.rows.len() > 0 ==> final(cursor)@.rows == old(cursor)@.rows.skip(1)
            && record_result_view(r) == marshal_fields(old(cursor)@.rows[0], descs.deep_view()),
{
    match cursor.next() {
        None => Err(BuildError::RecordNotFound),
        Some(mut row) => build_fields(&mut row, descs),
    }
}

} // verus!
