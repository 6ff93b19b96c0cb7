use vstd::prelude::*;
use crate::de::db_value::DbValue;

verus! {

/// One fetched record: column values that are taken one by one, in row
/// order, and the names of all its columns, which stay as they are while the
/// values are taken.
pub trait DeserializableRow: Sized {
    /// The type of a column value.
    type V: DbValue;

    /// The values that have not been taken yet, in row order.
    spec fn pending(&self) -> Seq<Self::V>;

    /// The name of every column the row was made with, by the place it has among them;
    /// `None` where a column has no name.
    spec fn names(&self) -> Seq<Option<Seq<char>>>;

    /// The number of values that have not been taken yet.
    fn len(&self) -> (n: usize)
        ensures
            n == self.pending().len(),
    ;

    /// The number of columns the row was made with.
    fn number_of_fields(&self) -> (n: usize)
        ensures
            n == self.names().len(),
    ;

    /// The name of the column at the given place among all the columns.
    fn fieldname(&self, idx: usize) -> (name: Option<&String>)
        ensures
            name_view(name) == name_at(self.names(), idx as int),
    ;

    /// Takes the next value out of the row.
    fn next(&mut self) -> (v: Option<Self::V>)
        ensures
            final(self).names() == old(self).names(),
            old(self).pending().len() == 0 ==> v is None
                && final(self).pending() == old(self).pending(),
            old(self).pending().len() > 0 ==> v == Some(old(self).pending()[0])
                && final(self).pending() == old(self).pending().skip(1),
    ;
}

/// The name at a place among the columns, `None` outside the row's columns.
pub open spec fn name_at(names: Seq<Option<Seq<char>>>, idx: int) -> Option<Seq<char>> {
    if 0 <= idx < names.len() {
        names[idx]
    } else {
        None
    }
}

/// An optional name, taken by its view.
pub open spec fn name_view(name: Option<&String>) -> Option<Seq<char>> {
    match name {
        Some(s) => Some(s@),
        None => None,
    }
}

/// The row's invariant: no more values are pending than it has columns.
pub open spec fn row_wf<R: DeserializableRow>(row: R) -> bool {
    row.pending().len() <= row.names().len()
}

/// The place, among all the columns, of the column whose value is taken next.
pub open spec fn current_index<R: DeserializableRow>(row: R) -> int {
    row.names().len() - row.pending().len()
}

/// `after` is `before` with its first `k` pending values taken.
pub open spec fn taken<R: DeserializableRow>(before: R, after: R, k: int) -> bool {
    &&& after.names() == before.names()
    &&& 0 <= k <= before.pending().len()
    &&& after.pending() == before.pending().skip(k)
}

/// Taking `j` values and then `k` more is taking `j + k`, and the value that
/// is next after the first `j` is the one at position `j`.
pub proof fn lemma_taken_again<R: DeserializableRow>(a: R, b: R, c: R, j: int, k: int)
    requires
        taken(a, b, j),
        taken(b, c, k),
    ensures
        taken(a, c, j + k),
        b.pending().len() == a.pending().len() - j,
        b.pending().len() > 0 ==> b.pending()[0] == a.pending()[j],
{
    assert(a.pending().skip(j).skip(k) =~= a.pending().skip(j + k));
}

/// A row is itself with nothing taken.
pub proof fn lemma_taken_none<R: DeserializableRow>(a: R)
    ensures
        taken(a, a, 0),
{
    assert(a.pending().skip(0) =~= a.pending());
}

} // verus!
