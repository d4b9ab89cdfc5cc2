//! Positional edits of a single row of fields.
use vstd::prelude::*;

verus! {

/// `s` with `v` placed in front of the element at `at`. When `at` names no
/// element of `s` (negative, or at or past the end) nothing is placed and `s`
/// comes back unchanged.
pub open spec fn insert_before<T>(s: Seq<T>, at: int, v: T) -> Seq<T> {
    if 0 <= at < s.len() {
        s.insert(at, v)
    } else {
        s
    }
}

/// `s` with `v` placed in front of the element at `at`: at the front when
/// `at` is negative, after the last element when `at` is at or past the end.
pub open spec fn place_at<T>(s: Seq<T>, at: int, v: T) -> Seq<T> {
    if at < 0 {
        s.insert(0, v)
    } else if at < s.len() {
        s.insert(at, v)
    } else {
        s.push(v)
    }
}

/// `s` with its element at `from` taken out and placed, in what remains, at
/// `at` as `place_at` places it.
pub open spec fn move_before<T>(s: Seq<T>, from: int, at: int) -> Seq<T>
    recommends
        0 <= from < s.len(),
{
    place_at(s.remove(from), at, s[from])
}

/// A copy of `row` with `value` placed in front of the field at the 0-based
/// index `at`; a row with no field at `at` is copied unchanged.
pub fn insert_field(row: &Vec<String>, at: i64, value: &str) -> (r: Vec<String>)
    ensures
        r.deep_view() == insert_before(row.deep_view(), at as int, value@),
{
    let ghost src = row.deep_view();
    let mut out: Vec<String> = Vec::new();
    let mut i: usize = 0;
    while i < row.len()
        invariant
            i <= row.len(),
            src == row.deep_view(),
            out.deep_view() == (if 0 <= at < i {
                src.take(at as int) + seq![value@] + src.subrange(at as int, i as int)
            } else {
                src.take(i as int)
            }),
        decreases row.len() - i,
    {
        let ghost before = out.deep_view();
        if at >= 0 && at as u64 == i as u64 {
            out.push(value.to_owned());
            assert(out.deep_view() =~= before.push(value@));
        }
        let ghost mid = out.deep_view();
        out.push(row[i].clone());
        assert(out.deep_view() =~= mid.push(src[i as int]));
        i = i + 1;
        assert(out.deep_view() =~= (if 0 <= at < i {
            src.take(at as int) + seq![value@] + src.subrange(at as int, i as int)
        } else {
            src.take(i as int)
        }));
    }
    assert(out.deep_view() =~= insert_before(src, at as int, value@));
    out
}

/// A copy of `row` with its field at `from` moved in front of the field at
/// the 0-based index `at` of the row that remains once it is taken out, or
/// to the end where that row has no field at `at`, or to the front where `at`
/// is negative.
pub fn move_field(row: &Vec<String>, from: usize, at: i64) -> (r: Vec<String>)
    requires
        from < row.len(),
    ensures
        r.deep_view() == move_before(row.deep_view(), from as int, at as int),
{
    let ghost src = row.deep_view();
    let mut rest: Vec<String> = Vec::new();
    let mut i: usize = 0;
    while i < row.len()
        invariant
            from < row.len(),
            i <= row.len(),
            src == row.deep_view(),
            rest.deep_view() == (if from < i {
                src.take(from as int) + src.subrange(from + 1, i as int)
            } else {
                src.take(i as int)
            }),
        decreases row.len() - i,
    {
        if i != from {
            let ghost before = rest.deep_view();
            rest.push(row[i].clone());
            assert(rest.deep_view() =~= before.push(src[i as int]));
        }
        i = i + 1;
        assert(rest.deep_view() =~= (if from < i {
            src.take(from as int) + src.subrange(from + 1, i as int)
        } else {
            src.take(i as int)
        }));
    }
    assert(rest.deep_view() =~= src.remove(from as int));
    let pos: i64 = if at < 0 {
        0
    } else {
        at
    };
    let mut out = insert_field(&rest, pos, row[from].as_str());
    if pos as u64 >= rest.len() as u64 {
        let ghost before = out.deep_view();
        out.push(row[from].clone());
        assert(out.deep_view() =~= before.push(src[from as int]));
    }
    out
}

/// The 0-based index of the first field of `row` equal to `name`, if any.
pub fn find_column(row: &Vec<String>, name: &String) -> (r: Option<usize>)
    ensures
        r matches Some(k) ==> row.deep_view().index_of_first(name@) == Some(k as int),
        r is None ==> row.deep_view().index_of_first(name@) is None,
{
    proof {
        row.deep_view().index_of_first_ensures(name@);
    }
    let mut i: usize = 0;
    while i < row.len()
        invariant
            i <= row.len(),
            forall|j: int| 0 <= j < i ==> row.deep_view()[j] != name@,
        decreases row.len() - i,
    {
        if row[i] == *name {
            proof {
                row.deep_view().index_of_first_ensures(name@);
                assert(row.deep_view()[i as int] == name@);
            }
            return Some(i);
        }
        i = i + 1;
    }
    assert(!row.deep_view().contains(name@));
    None
}

} // verus!
