use vstd::pervasive::unreached;
use vstd::prelude::*;

use crate::error::Error;
use crate::error::column_error;
use crate::error::is_column_error;
use crate::text::decimal_string;
use crate::text::spec_decimal;
use crate::text::str_eq;
use crate::value::Value;
use crate::value::ValueInto;
use crate::value::ValueModel;

verus! {

/// An owned snapshot of one result row: an ordered sequence of dynamically
/// typed values together with the result set's column names, so that values
/// can be addressed by name or by position. A row is independent of the
/// sequence that produced it and safe to retain past its next advance.
#[derive(Debug)]
pub struct Row {
    row: Vec<Value>,
    columns: Vec<String>,
}

/// The position `name` resolves to among `names`: the position of the last
/// column carrying that name, if any does.
pub open spec fn spec_lookup(names: Seq<Seq<char>>, name: Seq<char>) -> Option<int>
    decreases names.len(),
{
    if names.len() == 0 {
        None
    } else if names.last() == name {
        Some(names.len() - 1)
    } else {
        spec_lookup(names.drop_last(), name)
    }
}

/// Among pairwise distinct names, a name resolves to its own position.
pub proof fn lemma_lookup_distinct(names: Seq<Seq<char>>, i: int)
    requires
        0 <= i < names.len(),
        forall|j: int, k: int| 0 <= j < k < names.len() ==> names[j] != names[k],
    ensures
        spec_lookup(names, names[i]) == Some(i),
    decreases names.len(),
{
    if i < names.len() - 1 {
        assert(names.last() != names[i]);
        lemma_lookup_distinct(names.drop_last(), i);
    }
}

/// Find the position of the last column named `name`, if any is.
fn lookup_name(columns: &Vec<String>, name: &str) -> (result: Option<usize>)
    ensures
        match result {
            Some(i) => spec_lookup(columns.deep_view(), name@) == Some(i as int) && i
                < columns@.len(),
            None => spec_lookup(columns.deep_view(), name@) is None,
        },
{
    let ghost names = columns.deep_view();
    let n = columns.len();
    let mut i: usize = n;
    proof {
        assert(names.take(n as int) =~= names);
    }
    while i > 0
        invariant
            i <= n,
            n == names.len(),
            n == columns@.len(),
            names == columns.deep_view(),
            spec_lookup(names, name@) == spec_lookup(names.take(i as int), name@),
        decreases i,
    {
        i = i - 1;
        proof {
            assert(names[i as int] == columns@[i as int]@);
            assert(names.take(i + 1).last() == names[i as int]);
            assert(names.take(i + 1).drop_last() =~= names.take(i as int));
        }
        if str_eq(columns[i].as_str(), name) {
            return Some(i);
        }
    }
    proof {
        assert(names.take(0) =~= Seq::<Seq<char>>::empty());
    }
    None
}

/// A capability to address one value inside a row: a column name or a
/// zero-based position.
pub trait ColumnIndex {
    /// The position in `row` this selector resolves to, if it addresses one.
    spec fn spec_resolve(&self, row: Row) -> Option<int>;

    /// How the selector reads in an access error.
    spec fn spec_description(&self) -> Seq<char>;

    /// The value this selector addresses in `row`, if it addresses one.
    fn get_value(&self, row: &Row) -> (result: Option<Value>)
        ensures
            match self.spec_resolve(*row) {
                Some(i) => result matches Some(value) && value@ == row.values()[i],
                None => result is None,
            },
    ;

    /// Render the selector for an access error.
    fn describe(&self) -> (result: String)
        ensures
            result@ == self.spec_description(),
    ;
}

impl<'s> ColumnIndex for &'s str {
    /// A name addresses the last column carrying it, when the row holds a
    /// value at that position.
    open spec fn spec_resolve(&self, row: Row) -> Option<int> {
        match spec_lookup(row.names(), self@) {
            Some(i) => if 0 <= i < row.values().len() {
                Some(i)
            } else {
                None
            },
            None => None,
        }
    }

    /// The name, quoted.
    open spec fn spec_description(&self) -> Seq<char> {
        "\""@ + self@ + "\""@
    }

    fn get_value(&self, row: &Row) -> (result: Option<Value>) {
        match lookup_name(&row.columns, self) {
            Some(i) => if i < row.row.len() {
                proof {
                    assert(row.values()[i as int] == row.row@[i as int]@);
                }
                Some(row.row[i].clone())
            } else {
                None
            },
            None => None,
        }
    }

    fn describe(&self) -> (result: String) {
        let mut description = String::from_str("\"");
        description.append(self);
        description.append("\"");
        description
    }
}

impl ColumnIndex for usize {
    /// A position addresses the value it indexes, when the row is long
    /// enough.
    open spec fn spec_resolve(&self, row: Row) -> Option<int> {
        if (*self as int) < row.values().len() {
            Some(*self as int)
        } else {
            None
        }
    }

    /// The position, in decimal.
    open spec fn spec_description(&self) -> Seq<char> {
        spec_decimal(*self as nat)
    }

    fn get_value(&self, row: &Row) -> (result: Option<Value>) {
        if *self < row.row.len() {
            proof {
                assert(row.values()[*self as int] == row.row@[*self as int]@);
            }
            Some(row.row[*self].clone())
        } else {
            None
        }
    }

    fn describe(&self) -> (result: String) {
        decimal_string(*self)
    }
}

/// The outcome of a typed access to `row` through a selector that resolved
/// to `resolved`: the extracted value, or nothing when the selector does not
/// resolve or the value's tag is not accepted by `T`.
pub open spec fn spec_try_get<T: ValueInto>(row: Row, resolved: Option<int>) -> Option<T::V> {
    match resolved {
        Some(i) => T::spec_convert(row.values()[i]),
        None => None,
    }
}

impl Row {
    /// The models of the row's values, in column order.
    pub closed spec fn values(&self) -> Seq<ValueModel> {
        self.row.deep_view()
    }

    /// The row's column names, in column order.
    pub closed spec fn names(&self) -> Seq<Seq<char>> {
        self.columns.deep_view()
    }

    /// Assemble a row from its column names and its values.
    pub fn new(columns: Vec<String>, values: Vec<Value>) -> (row: Row)
        ensures
            row.names() == columns.deep_view(),
            row.values() == values.deep_view(),
    {
        Row { row: values, columns }
    }

    /// Typed, fallible access: resolve the selector, then apply `T`'s
    /// extraction. An unknown selector or a tag the type does not accept
    /// yields an access error naming the selector, never an abort.
    pub fn try_get<T: ValueInto, C: ColumnIndex>(&self, column: C) -> (result: Result<T, Error>)
        ensures
            match spec_try_get::<T>(*self, column.spec_resolve(*self)) {
                Some(extracted) => result matches Ok(value) && value.deep_view() == extracted,
                None => result matches Err(error) && is_column_error(
                    error,
                    column.spec_description(),
                ),
            },
    {
        match column.get_value(self) {
            Some(value) => match T::try_convert_value_into(&value) {
                Some(extracted) => Ok(extracted),
                None => Err(column_error(column.describe())),
            },
            None => Err(column_error(column.describe())),
        }
    }

    /// Typed access for a selector known to be correct at the call site: the
    /// same resolution and extraction as `try_get`, demanded to succeed.
    pub fn get<T: ValueInto, C: ColumnIndex>(&self, column: C) -> (result: T)
        requires
            spec_try_get::<T>(*self, column.spec_resolve(*self)) is Some,
        ensures
            Some(result.deep_view()) == spec_try_get::<T>(*self, column.spec_resolve(*self)),
    {
        match self.try_get::<T, C>(column) {
            Ok(value) => value,
            Err(_) => unreached(),
        }
    }
}

/// Reading a row back by a column's name and by its position is the same
/// access whenever the column names are pairwise distinct: both selectors
/// resolve to that position, so the same typed extraction is applied to the
/// same value.
pub proof fn lemma_name_position_round_trip<T: ValueInto>(row: Row, name: &str, i: usize)
    requires
        row.names().len() == row.values().len(),
        (i as int) < row.names().len(),
        name@ == row.names()[i as int],
        forall|j: int, k: int| 0 <= j < k < row.names().len() ==> row.names()[j] != row.names()[k],
    ensures
        name.spec_resolve(row) == Some(i as int),
        i.spec_resolve(row) == Some(i as int),
        spec_try_get::<T>(row, name.spec_resolve(row)) == spec_try_get::<T>(
            row,
            i.spec_resolve(row),
        ),
{
    lemma_lookup_distinct(row.names(), i as int);
}

} // verus!
