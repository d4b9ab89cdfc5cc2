//! Which directory entries a scan for table files descends into or keeps.
use vstd::prelude::*;

verus! {

/// What a scan does with one directory entry.
#[derive(Debug, Clone, Copy, PartialEq, Eq, Structural)]
pub enum EntryAction {
    /// A directory: scan it too, and keep what it holds.
    Descend,
    /// A table file: keep it.
    Take,
    /// Anything else: pass over it.
    Skip,
}

/// `ext` is the table-file extension `csv`, in any mix of cases.
pub open spec fn is_table_extension_text(ext: Seq<char>) -> bool {
    &&& ext.len() == 3
    &&& (ext[0] == 'c' || ext[0] == 'C')
    &&& (ext[1] == 's' || ext[1] == 'S')
    &&& (ext[2] == 'v' || ext[2] == 'V')
}

/// The action for an entry: directories are descended into, files whose
/// extension is a table extension are kept, the rest is skipped.
pub open spec fn action_of(is_dir: bool, extension: Option<Seq<char>>) -> EntryAction {
    if is_dir {
        EntryAction::Descend
    } else if extension matches Some(ext) && is_table_extension_text(ext) {
        EntryAction::Take
    } else {
        EntryAction::Skip
    }
}

/// Whether `ext` is the table-file extension, compared without regard to
/// ASCII case.
pub fn is_table_extension(ext: &str) -> (r: bool)
    ensures
        r == is_table_extension_text(ext@),
{
    if ext.unicode_len() != 3 {
        return false;
    }
    let a = ext.get_char(0);
    let b = ext.get_char(1);
    let c = ext.get_char(2);
    (a == 'c' || a == 'C') && (b == 's' || b == 'S') && (c == 'v' || c == 'V')
}

/// What to do with a directory entry, given whether it is a directory and
/// its extension (`None` where it has none that is text).
pub fn entry_action(is_dir: bool, extension: Option<&str>) -> (r: EntryAction)
    ensures
        r == action_of(is_dir, extension.deep_view()),
{
    if is_dir {
        EntryAction::Descend
    } else {
        match extension {
            Some(ext) => if is_table_extension(ext) {
                EntryAction::Take
            } else {
                EntryAction::Skip
            },
            None => EntryAction::Skip,
        }
    }
}

} // verus!
