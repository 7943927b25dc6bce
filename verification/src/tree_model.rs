//! The child data model that a filter stands in front of, and positions in it.

use vstd::prelude::*;
use crate::value::{Content, Value};

verus! {

/// A position in a [`TreeModel`]: the number of a row.
#[derive(Clone, Copy, Debug, PartialEq, Eq, Structural)]
pub struct TreeIter {
    position: usize,
}

impl View for TreeIter {
    type V = usize;

    closed spec fn view(&self) -> usize {
        self.position
    }
}

impl TreeIter {
    /// The position of row `position`.
    pub fn new(position: usize) -> (iter: TreeIter)
        ensures
            iter@ == position,
    {
        TreeIter { position }
    }

    /// The number of the row that this position names.
    pub fn position(&self) -> (p: usize)
        ensures
            p == self@,
    {
        self.position
    }
}

/// A table of values: rows of cells, each cell a tagged value.
pub struct TreeModel {
    rows: Vec<Vec<Value>>,
}

/// The content of one row.
pub open spec fn row_content(row: Vec<Value>) -> Seq<Content> {
    row@.map_values(|v: Value| v@)
}

impl View for TreeModel {
    type V = Seq<Seq<Content>>;

    closed spec fn view(&self) -> Seq<Seq<Content>> {
        self.rows@.map_values(|row: Vec<Value>| row_content(row))
    }
}

impl TreeModel {
    /// A model without rows.
    pub fn new() -> (m: TreeModel)
        ensures
            m@ == Seq::<Seq<Content>>::empty(),
    {
        let m = TreeModel { rows: Vec::new() };
        assert(m@ =~= Seq::<Seq<Content>>::empty());
        m
    }

    /// Appends `row` after the rows that are there, and gives its position.
    pub fn append(&mut self, row: Vec<Value>) -> (iter: TreeIter)
        ensures
            final(self)@ == old(self)@.push(row_content(row)),
            iter@ == old(self)@.len(),
    {
        let position = self.rows.len();
        self.rows.push(row);
        assert(self@ =~= old(self)@.push(row_content(row)));
        TreeIter { position }
    }

    /// The number of rows.
    pub fn n_rows(&self) -> (n: usize)
        ensures
            n == self@.len(),
    {
        self.rows.len()
    }

    /// A copy of the cell in row `iter` and column `column`; `None` where the
    /// model has no such row or the row no such column.
    pub fn value(&self, iter: &TreeIter, column: i32) -> (v: Option<Value>)
        ensures
            v is Some <==> iter@ < self@.len() && 0 <= column < self@[iter@ as int].len(),
            v matches Some(cell) ==> cell@ == self@[iter@ as int][column as int],
    {
        if iter.position < self.rows.len() && column >= 0 {
            let row = &self.rows[iter.position];
            assert(self@[iter@ as int] == row_content(*row));
            let c: usize = column as usize;
            if c < row.len() {
                Some(row[c].copy())
            } else {
                None
            }
        } else {
            None
        }
    }
}

} // verus!
