//! Directory scanning: from a directory's immediate entries, keep the
//! regular files whose names the anchored pattern matches, in directory
//! order. Enumeration itself is the caller's concern; this module holds the
//! filter.

use vstd::prelude::*;
use vstd::string::*;
use crate::pattern::Pattern;
use crate::pattern::regex_match;

verus! {

/// What the file-type lookup said of a directory entry.
#[derive(Clone, Copy, PartialEq, Eq, Structural, Debug)]
pub enum EntryKind {
    /// A regular file.
    File,
    /// A directory, a symlink, or another non-regular entry.
    NotFile,
    /// The file-type lookup itself failed. Such an entry fails open toward
    /// visibility: it is not silently dropped by the type filter.
    TypeUnknown,
}

/// One directory entry: the final path component of its name, and what the
/// file-type lookup said of it. Enumerated fresh on each run.
#[derive(Debug)]
pub struct CandidateEntry {
    pub name: String,
    pub kind: EntryKind,
}

/// The type filter retains regular files and entries whose type could not
/// be determined.
pub open spec fn retained_by_type(k: EntryKind) -> bool {
    k is File || k is TypeUnknown
}

/// An entry is selected when the type filter retains it and the pattern
/// matches its name.
pub open spec fn spec_selected(e: CandidateEntry, pat: Seq<char>) -> bool {
    retained_by_type(e.kind) && regex_match(pat, e.name@)
}

/// The selection predicate for a fixed pattern text.
pub open spec fn selected_pred(pat: Seq<char>) -> spec_fn(CandidateEntry) -> bool {
    |e: CandidateEntry| spec_selected(e, pat)
}

/// Keep exactly the entries the pattern selects: regular files (and
/// entries of undetermined type) whose whole name matches, in the order
/// the enumeration yielded them.
pub fn get_matching_files(entries: Vec<CandidateEntry>, pattern: &Pattern) -> (r: Vec<
    CandidateEntry,
>)
    ensures
        r@ == entries@.filter(selected_pred(pattern@)),
{
    let ghost all = entries@;
    let ghost pred = selected_pred(pattern@);
    let mut rest = entries;
    let mut out: Vec<CandidateEntry> = Vec::new();
    let ghost mut done: int = 0;
    proof {
        reveal(Seq::filter);
        assert(all.take(0).filter(pred) =~= Seq::<CandidateEntry>::empty());
    }
    while rest.len() > 0
        invariant
            0 <= done <= all.len(),
            rest@ =~= all.skip(done),
            out@ == all.take(done).filter(pred),
            pred == selected_pred(pattern@),
        decreases rest@.len(),
    {
        let e = rest.remove(0);
        proof {
            assert(e == all[done]);
            assert(rest@ =~= all.skip(done + 1));
        }
        let retained = match e.kind {
            EntryKind::NotFile => false,
            _ => true,
        };
        let keep = retained && pattern.is_match(e.name.as_str());
        proof {
            assert(keep == pred(all[done]));
            assert(all.take(done + 1).drop_last() =~= all.take(done));
            assert(all.take(done + 1).last() == all[done]);
            reveal(Seq::filter);
            assert(all.take(done + 1).filter(pred) == if pred(all[done]) {
                all.take(done).filter(pred).push(all[done])
            } else {
                all.take(done).filter(pred)
            });
        }
        if keep {
            out.push(e);
        }
        proof {
            done = done + 1;
        }
    }
    proof {
        assert(all.take(done) =~= all);
    }
    out
}

/// The directory a run operates on: the given target directory, or the
/// current working directory when none was given.
pub fn resolve_target(target_dir: Option<String>) -> (r: String)
    ensures
        target_dir matches Some(d) ==> r@ == d@,
        target_dir is None ==> r@ == "."@,
{
    match target_dir {
        Some(d) => d,
        None => String::from_str("."),
    }
}

} // verus!
