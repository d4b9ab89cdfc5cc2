//! Laws of the column edits, stated over the records they produce.
use vstd::prelude::*;

use crate::codec::{csv_records, csv_text};
use crate::layout::{insert_before, move_before};
use crate::migration::reorder_outcome;
use crate::table::{data_of, header_of, inserted_records, reordered_records, Records, TableError};

verus! {

/// `after` is `before` with `v` placed at index `at`: one element longer,
/// `v` at `at`, the elements in front of `at` where they were, and the
/// elements from `at` on one place further right.
pub open spec fn placed<T>(before: Seq<T>, after: Seq<T>, at: int, v: T) -> bool {
    &&& after.len() == before.len() + 1
    &&& after[at] == v
    &&& forall|i: int| 0 <= i < at ==> after[i] == before[i]
    &&& forall|i: int| at <= i < before.len() ==> after[i + 1] == before[i]
}

/// `after` is `before` with its element at `from` moved to index `to`: as
/// long, with that element at `to`, and with the other elements in their
/// old relative order.
pub open spec fn moved_to<T>(before: Seq<T>, after: Seq<T>, from: int, to: int) -> bool {
    &&& after.len() == before.len()
    &&& after[to] == before[from]
    &&& after.remove(to) == before.remove(from)
}

/// Inserting a column at a position `order` from 1 to the header's width
/// places its name at index `order - 1` of the header, and the default value
/// at that index of every data record that reaches it, each time shifting
/// the fields from that index one place right. No record is added or lost.
pub proof fn insert_places_column(records: Records, column: Seq<char>, default: Seq<char>, order: int)
    requires
        1 <= order <= header_of(records).len(),
    ensures
        inserted_records(records, column, default, order).len() == records.len(),
        placed(
            header_of(records),
            inserted_records(records, column, default, order)[0],
            order - 1,
            column,
        ),
        forall|j: int|
            1 <= j < records.len() && order <= records[j].len() ==> placed(
                records[j],
                #[trigger] inserted_records(records, column, default, order)[j],
                order - 1,
                default,
            ),
{
    let out = inserted_records(records, column, default, order);
    assert forall|j: int| 1 <= j < records.len() && order <= records[j].len() implies placed(
        records[j],
        #[trigger] out[j],
        order - 1,
        default,
    ) by {
        assert(out[j] == insert_before(data_of(records)[j - 1], order - 1, default));
    }
}

/// Inserting at the position just past the header's last column places
/// nothing: the header, and every data record no wider than it, come out
/// unchanged.
pub proof fn insert_past_end_places_nothing(records: Records, column: Seq<char>, default: Seq<char>)
    ensures
        inserted_records(records, column, default, header_of(records).len() + 1 as int)[0] == header_of(
            records,
        ),
        forall|j: int|
            1 <= j < records.len() && records[j].len() <= header_of(records).len()
                ==> #[trigger] inserted_records(
                records,
                column,
                default,
                header_of(records).len() + 1 as int,
            )[j] == records[j],
{
    let order = header_of(records).len() + 1 as int;
    let out = inserted_records(records, column, default, order);
    assert forall|j: int|
        1 <= j < records.len() && records[j].len() <= header_of(records).len() implies #[trigger] out[j]
        == records[j] by {
        assert(out[j] == insert_before(data_of(records)[j - 1], order - 1, default));
    }
}

/// Moving a column to the position that it already holds gives the records
/// back as they were.
pub proof fn reorder_in_place_is_identity(records: Records, column: Seq<char>, order: int)
    requires
        records.len() > 0,
        header_of(records).index_of_first(column) == Some(order - 1),
    ensures
        reordered_records(records, column, order) == Ok::<Records, TableError>(records),
{
    assert(seq![header_of(records)] + data_of(records) =~= records);
}

/// In a table whose records all have the header's width, moving the column
/// found first at index `k` to a position `order` other than `k + 1` succeeds;
/// in the header and in every data record the field at `k` lands at index
/// `order - 1`, at the last index where `order` is past the width, or at the
/// first where `order` is below 1, and the other fields keep their relative
/// order. No record is added or lost.
pub proof fn reorder_moves_column(records: Records, column: Seq<char>, order: int, k: int)
    requires
        header_of(records).index_of_first(column) == Some(k),
        k != order - 1,
        forall|j: int| 0 <= j < records.len() ==> #[trigger] records[j].len() == header_of(records).len(),
    ensures
        reordered_records(records, column, order) matches Ok(out) && out.len() == records.len()
            && forall|j: int|
            0 <= j < records.len() ==> moved_to(
                records[j],
                #[trigger] out[j],
                k,
                if order < 1 {
                    0
                } else if order - 1 < header_of(records).len() - 1 {
                    order - 1
                } else {
                    header_of(records).len() - 1
                },
            ),
{
    header_of(records).index_of_first_ensures(column);
    let header = header_of(records);
    let data = data_of(records);
    let n = header.len();
    let to = if order < 1 {
        0
    } else if order - 1 < n - 1 {
        order - 1
    } else {
        n - 1
    };
    assert(forall|i: int| 0 <= i < data.len() ==> #[trigger] data[i].len() == records[i + 1].len());
    assert(!(exists|i: int| 0 <= i < data.len() && #[trigger] data[i].len() <= k));
    let out = reordered_records(records, column, order)->Ok_0;
    assert forall|j: int| 0 <= j < records.len() implies moved_to(records[j], #[trigger] out[j], k, to) by {
        let row = records[j];
        assert(out[j] == move_before(row, k, order - 1));
        let rest = row.remove(k);
        if order < 1 {
            assert(rest.insert(0, row[k]).remove(0) =~= rest);
        } else if order - 1 < n - 1 {
            assert(rest.insert(order - 1, row[k]).remove(order - 1) =~= rest);
        } else {
            assert(rest.push(row[k]).remove(n - 1) =~= rest);
        }
    }
}

/// Moving a column fails with `ColumnNotFound` exactly when the header does
/// not name it.
pub proof fn reorder_missing_column_fails(records: Records, column: Seq<char>, order: int)
    ensures
        (reordered_records(records, column, order) == Err::<Records, TableError>(
            TableError::ColumnNotFound,
        )) <==> !header_of(records).contains(column),
{
    header_of(records).index_of_first_ensures(column);
}

/// Rewriting a table file by moving a column to the position that it already
/// holds succeeds and gives the encoding of the very records read from the
/// file.
pub proof fn reorder_in_place_rewrites_same_records(content: Seq<char>, column: Seq<char>, order: int)
    requires
        csv_records(content) matches Some(records) && records.len() > 0 && header_of(
            records,
        ).index_of_first(column) == Some(order - 1),
    ensures
        forall|r: Result<String, TableError>|
            #[trigger] reorder_outcome(content, column, order, r) ==> (r matches Ok(text)
                && text@ == csv_text(csv_records(content)->Some_0)),
{
    reorder_in_place_is_identity(csv_records(content)->Some_0, column, order);
}

/// Rewriting a table file by moving a column that its header does not name
/// fails with `ColumnNotFound` and gives no text to write back.
pub proof fn reorder_missing_column_gives_no_text(content: Seq<char>, column: Seq<char>, order: int)
    requires
        csv_records(content) matches Some(records) && !header_of(records).contains(column),
    ensures
        forall|r: Result<String, TableError>|
            #[trigger] reorder_outcome(content, column, order, r) ==> r == Err::<String, TableError>(
                TableError::ColumnNotFound,
            ),
{
    reorder_missing_column_fails(csv_records(content)->Some_0, column, order);
}

} // verus!
