//! A row of a foreign table as the database hands it over: named columns, each
//! holding a value or SQL NULL.

use vstd::prelude::*;
use crate::text::str_eq;

verus! {

/// A column value.
#[derive(Debug)]
pub enum Datum {
    Null,
    Int(i32),
    Text(String),
}

/// The mathematical value of a [`Datum`].
pub enum DatumView {
    Null,
    Int(i32),
    Text(Seq<char>),
}

impl View for Datum {
    type V = DatumView;

    open spec fn view(&self) -> DatumView {
        match self {
            Datum::Null => DatumView::Null,
            Datum::Int(i) => DatumView::Int(*i),
            Datum::Text(s) => DatumView::Text(s@),
        }
    }
}

/// Reading a value as a 32-bit integer: SQL NULL is refused with the message
/// the database binding gives. Text is refused too, with a message of this
/// library's own; the declared column types keep it from arising.
pub open spec fn int_of(d: DatumView) -> Result<i32, Seq<char>> {
    match d {
        DatumView::Null => Err("datum was NULL"@),
        DatumView::Int(i) => Ok(i),
        DatumView::Text(_) => Err("datum is not an integer"@),
    }
}

/// Reading a value as text: SQL NULL is refused with the message the database
/// binding gives. An integer is refused too, with a message of this library's
/// own; the declared column types keep it from arising.
pub open spec fn text_of(d: DatumView) -> Result<Seq<char>, Seq<char>> {
    match d {
        DatumView::Null => Err("datum was NULL"@),
        DatumView::Int(_) => Err("datum is not text"@),
        DatumView::Text(s) => Ok(s),
    }
}

/// A result whose error is a `String`, with the error taken by its view.
pub open spec fn res_view<T>(r: Result<T, String>) -> Result<T, Seq<char>> {
    match r {
        Ok(v) => Ok(v),
        Err(e) => Err(e@),
    }
}

impl Datum {
    /// Whether this is SQL NULL.
    pub fn is_null(&self) -> (b: bool)
        ensures
            b == (self@ is Null),
    {
        match self {
            Datum::Null => true,
            _ => false,
        }
    }

    /// This value as a 32-bit integer.
    pub fn to_i32(&self) -> (r: Result<i32, String>)
        ensures
            res_view(r) == int_of(self@),
    {
        match self {
            Datum::Null => Err(String::from_str("datum was NULL")),
            Datum::Int(i) => Ok(*i),
            Datum::Text(_) => Err(String::from_str("datum is not an integer")),
        }
    }

    /// This value as text.
    pub fn to_text(&self) -> (r: Result<String, String>)
        ensures
            match r {
                Ok(s) => text_of(self@) == Ok::<Seq<char>, Seq<char>>(s@),
                Err(e) => text_of(self@) == Err::<Seq<char>, Seq<char>>(e@),
            },
    {
        match self {
            Datum::Null => Err(String::from_str("datum was NULL")),
            Datum::Int(_) => Err(String::from_str("datum is not text")),
            Datum::Text(s) => Ok(s.clone()),
        }
    }
}

/// The named columns of a row, in the order the database gave them.
pub struct Row {
    pub columns: Vec<(String, Datum)>,
}

impl View for Row {
    type V = Seq<(Seq<char>, DatumView)>;

    open spec fn view(&self) -> Seq<(Seq<char>, DatumView)> {
        self.columns@.map_values(|c: (String, Datum)| (c.0@, c.1@))
    }
}

/// The value of the first column called `name`, if there is one.
pub open spec fn lookup(cols: Seq<(Seq<char>, DatumView)>, name: Seq<char>) -> Option<DatumView>
    decreases cols.len(),
{
    if cols.len() == 0 {
        None
    } else if cols[0].0 == name {
        Some(cols[0].1)
    } else {
        lookup(cols.drop_first(), name)
    }
}

/// The value found for `name` is that of the first column called `name`.
pub proof fn lemma_lookup_at(cols: Seq<(Seq<char>, DatumView)>, i: int, name: Seq<char>)
    requires
        0 <= i < cols.len(),
        cols[i].0 == name,
        forall|j: int| 0 <= j < i ==> cols[j].0 != name,
    ensures
        lookup(cols, name) == Some(cols[i].1),
    decreases i,
{
    if i > 0 {
        let rest = cols.drop_first();
        assert forall|j: int| 0 <= j < i - 1 implies rest[j].0 != name by {
            assert(rest[j] == cols[j + 1]);
        }
        lemma_lookup_at(rest, i - 1, name);
    }
}

/// No value is found for a name no column has.
pub proof fn lemma_lookup_absent(cols: Seq<(Seq<char>, DatumView)>, name: Seq<char>)
    requires
        forall|j: int| 0 <= j < cols.len() ==> cols[j].0 != name,
    ensures
        lookup(cols, name) is None,
    decreases cols.len(),
{
    if cols.len() > 0 {
        let rest = cols.drop_first();
        assert forall|j: int| 0 <= j < rest.len() implies rest[j].0 != name by {
            assert(rest[j] == cols[j + 1]);
        }
        lemma_lookup_absent(rest, name);
    }
}

/// A looked-up value, taken by its view.
pub open spec fn opt_view(o: Option<&Datum>) -> Option<DatumView> {
    match o {
        Some(d) => Some(d@),
        None => None,
    }
}

impl Row {
    /// The value of the column called `name`.
    pub fn get(&self, name: &str) -> (res: Option<&Datum>)
        ensures
            opt_view(res) == lookup(self@, name@),
    {
        let n = self.columns.len();
        let mut i: usize = 0;
        assert(self@.skip(0) =~= self@);
        while i < n
            invariant
                n == self.columns@.len(),
                i <= n,
                lookup(self@, name@) == lookup(self@.skip(i as int), name@),
            decreases n - i,
        {
            let ghost rest = self@.skip(i as int);
            assert(rest[0] == (self.columns@[i as int].0@, self.columns@[i as int].1@));
            if str_eq(self.columns[i].0.as_str(), name) {
                return Some(&self.columns[i].1);
            }
            assert(rest.drop_first() =~= self@.skip(i + 1));
            i = i + 1;
        }
        assert(self@.skip(n as int) =~= Seq::<(Seq<char>, DatumView)>::empty());
        None
    }
}

/// What reading an optional integer column gives: an absent column is
/// `None`; a present one must hold an integer, which is read bit for bit as
/// unsigned.
pub open spec fn column_spec(row: Seq<(Seq<char>, DatumView)>, name: Seq<char>) -> Result<
    Option<u32>,
    Seq<char>,
> {
    match lookup(row, name) {
        None => Ok(None),
        Some(d) => match int_of(d) {
            Ok(i) => Ok(Some(i as u32)),
            Err(e) => Err(e),
        },
    }
}

/// Reads the optional integer column `name`.
pub fn get_column(row: &Row, name: &str) -> (res: Result<Option<u32>, String>)
    ensures
        res_view(res) == column_spec(row@, name@),
{
    match row.get(name) {
        Some(v) => match v.to_i32() {
            Ok(i) => Ok(Some(i as u32)),
            Err(e) => Err(e),
        },
        None => Ok(None),
    }
}

/// What reading a required integer column gives. An absent column gives the
/// same message whatever its name.
pub open spec fn number_column_spec(row: Seq<(Seq<char>, DatumView)>, column: Seq<char>) -> Result<
    u32,
    Seq<char>,
> {
    match lookup(row, column) {
        None => Err("tried to update inventory without a position!"@),
        Some(d) => match int_of(d) {
            Ok(i) => Ok(i as u32),
            Err(e) => Err("couldn't convert "@ + column + ": "@ + e),
        },
    }
}

/// Reads the required integer column `column`.
pub fn get_number_column(row: &Row, column: &str) -> (res: Result<u32, String>)
    ensures
        res_view(res) == number_column_spec(row@, column@),
{
    match row.get(column) {
        Some(v) => match v.to_i32() {
            Ok(i) => Ok(i as u32),
            Err(err) => {
                let mut msg = String::from_str("couldn't convert ");
                msg.append(column);
                msg.append(": ");
                msg.append(err.as_str());
                Err(msg)
            },
        },
        None => Err(String::from_str("tried to update inventory without a position!")),
    }
}

} // verus!
