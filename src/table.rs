//! Column edits of a whole table: a header record followed by data records.
use vstd::prelude::*;

use crate::layout::{find_column, insert_before, insert_field, move_before, move_field};

verus! {

/// Why a table could not be rewritten.
#[derive(Debug, Clone, Copy, PartialEq, Eq, Structural)]
pub enum TableError {
    /// The text is not a well-formed comma-separated table.
    Parse,
    /// The header names no column of the requested name.
    ColumnNotFound,
    /// A data record has no field at the index of the column being moved.
    FieldMissing,
}

/// A table as its records: each record a sequence of fields, each field text.
pub type Records = Seq<Seq<Seq<char>>>;

/// The header record: the first record, or no fields for an empty table.
pub open spec fn header_of(records: Records) -> Seq<Seq<char>> {
    if records.len() > 0 {
        records[0]
    } else {
        Seq::empty()
    }
}

/// The data records: every record after the header.
pub open spec fn data_of(records: Records) -> Records {
    if records.len() > 0 {
        records.drop_first()
    } else {
        Seq::empty()
    }
}

/// The records written after inserting `column` at the 1-based position
/// `order`: the header receives `column` and every data record receives
/// `default`, each in front of its field at index `order - 1`, and a record
/// with no field there receives nothing.
pub open spec fn inserted_records(
    records: Records,
    column: Seq<char>,
    default: Seq<char>,
    order: int,
) -> Records {
    seq![insert_before(header_of(records), order - 1, column)] + data_of(records).map_values(
        |row: Seq<Seq<char>>| insert_before(row, order - 1, default),
    )
}

/// The records written after moving the first header field equal to
/// `column` to the 1-based position `order`, or the reason it cannot be done.
pub open spec fn reordered_records(records: Records, column: Seq<char>, order: int) -> Result<
    Records,
    TableError,
> {
    let header = header_of(records);
    let data = data_of(records);
    match header.index_of_first(column) {
        None => Err(TableError::ColumnNotFound),
        Some(k) => if k == order - 1 {
            Ok(seq![header] + data)
        } else if exists|i: int| 0 <= i < data.len() && #[trigger] data[i].len() <= k {
            Err(TableError::FieldMissing)
        } else {
            Ok(
                seq![move_before(header, k, order - 1)] + data.map_values(
                    |row: Seq<Seq<char>>| move_before(row, k, order - 1),
                ),
            )
        },
    }
}

/// The header of `records`, copied.
pub fn header_copy(records: &Vec<Vec<String>>) -> (r: Vec<String>)
    ensures
        r.deep_view() == header_of(records.deep_view()),
{
    if records.len() > 0 {
        let h = records[0].clone();
        assert(h.deep_view() =~= records[0].deep_view());
        h
    } else {
        let h: Vec<String> = Vec::new();
        assert(h.deep_view() =~= Seq::<Seq<char>>::empty());
        h
    }
}

/// Inserts a column named `column` at the 1-based position `order`, with
/// `default_value` in every data record.
pub fn insert_column_records(
    records: &Vec<Vec<String>>,
    column: &str,
    default_value: &str,
    order: i32,
) -> (r: Vec<Vec<String>>)
    ensures
        r.deep_view() == inserted_records(
            records.deep_view(),
            column@,
            default_value@,
            order as int,
        ),
{
    let ghost src = records.deep_view();
    let ghost target = inserted_records(src, column@, default_value@, order as int);
    let at: i64 = order as i64 - 1;
    let header = header_copy(records);
    let mut out: Vec<Vec<String>> = Vec::new();
    out.push(insert_field(&header, at, column));
    let mut i: usize = 1;
    while i < records.len()
        invariant
            1 <= i,
            i <= records.len() || records.len() == 0,
            src == records.deep_view(),
            at == order - 1,
            target == inserted_records(src, column@, default_value@, order as int),
            out.len() == (if records.len() == 0 { 1 } else { i as int }),
            out.deep_view() == target.take(out.len() as int),
        decreases records.len() - i,
    {
        let ghost before = out.deep_view();
        out.push(insert_field(&records[i], at, default_value));
        assert(out.deep_view() =~= before.push(target[i as int]));
        i = i + 1;
        assert(out.deep_view() =~= target.take(out.len() as int));
    }
    assert(out.deep_view() =~= target);
    out
}

/// Moves the first header field equal to `column` to the 1-based position
/// `order`, and the field at the same index of every data record with it.
pub fn reorder_records(records: &Vec<Vec<String>>, column: &String, order: i32) -> (r: Result<
    Vec<Vec<String>>,
    TableError,
>)
    ensures
        match r {
            Ok(out) => reordered_records(records.deep_view(), column@, order as int) == Ok::<
                Records,
                TableError,
            >(out.deep_view()),
            Err(e) => reordered_records(records.deep_view(), column@, order as int) == Err::<
                Records,
                TableError,
            >(e),
        },
{
    let ghost src = records.deep_view();
    let ghost data = data_of(src);
    let at: i64 = order as i64 - 1;
    let header = header_copy(records);
    let k = match find_column(&header, column) {
        None => return Err(TableError::ColumnNotFound),
        Some(k) => k,
    };
    proof {
        header.deep_view().index_of_first_ensures(column@);
    }
    let mut out: Vec<Vec<String>> = Vec::new();
    if at >= 0 && at as u64 == k as u64 {
        out.push(header);
        let mut i: usize = 1;
        while i < records.len()
            invariant
                1 <= i,
                i <= records.len() || records.len() == 0,
                src == records.deep_view(),
                out.len() == (if records.len() == 0 { 1 } else { i as int }),
                out.deep_view() == (seq![header_of(src)] + data_of(src)).take(out.len() as int),
            decreases records.len() - i,
        {
            let ghost before = out.deep_view();
            let row = records[i].clone();
            assert(row.deep_view() =~= records[i as int].deep_view());
            out.push(row);
            assert(out.deep_view() =~= before.push(src[i as int]));
            i = i + 1;
            assert(out.deep_view() =~= (seq![header_of(src)] + data_of(src)).take(out.len() as int));
        }
        assert(out.deep_view() =~= seq![header_of(src)] + data_of(src));
        assert(header_of(src).index_of_first(column@) == Some(k as int));
        return Ok(out);
    }
    let ghost target = seq![move_before(header_of(src), k as int, order - 1)] + data.map_values(
        |row: Seq<Seq<char>>| move_before(row, k as int, order - 1),
    );
    out.push(move_field(&header, k, at));
    let mut i: usize = 1;
    while i < records.len()
        invariant
            1 <= i,
            i <= records.len() || records.len() == 0,
            src == records.deep_view(),
            data == data_of(src),
            at == order - 1,
            k < header_of(src).len(),
            k != order - 1,
            header_of(src).index_of_first(column@) == Some(k as int),
            target == seq![move_before(header_of(src), k as int, order - 1)] + data.map_values(
                |row: Seq<Seq<char>>| move_before(row, k as int, order - 1),
            ),
            forall|j: int| 0 <= j < i - 1 ==> #[trigger] data[j].len() > k,
            out.len() == (if records.len() == 0 { 1 } else { i as int }),
            out.deep_view() == target.take(out.len() as int),
        decreases records.len() - i,
    {
        if records[i].len() <= k {
            assert(data[i - 1] == records[i as int].deep_view());
            assert(data[i - 1].len() <= k);
            assert(reordered_records(src, column@, order as int) == Err::<Records, TableError>(
                TableError::FieldMissing,
            ));
            return Err(TableError::FieldMissing);
        }
        let ghost before = out.deep_view();
        out.push(move_field(&records[i], k, at));
        assert(out.deep_view() =~= before.push(target[i as int]));
        i = i + 1;
        assert(out.deep_view() =~= target.take(out.len() as int));
    }
    assert(out.deep_view() =~= target);
    assert(forall|j: int| 0 <= j < data.len() ==> #[trigger] data[j].len() > k);
    Ok(out)
}

} // verus!
