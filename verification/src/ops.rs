//! The three traversal operations over a filesystem snapshot: shallow
//! listing, deep listing, and byte-total aggregation.

use vstd::prelude::*;

use crate::model::FsError;
use crate::model::FsNode;
use crate::model::child_listing;
use crate::model::deep_entry_listing;
use crate::model::deep_listing;
use crate::model::entries_size;
use crate::model::entry_paths;
use crate::model::first_unreadable;
use crate::model::lemma_deep_entry_listing_take_snoc;
use crate::model::lemma_entries_size_take_le;
use crate::model::lemma_entries_size_take_snoc;
use crate::model::lemma_first_unreadable_at;
use crate::model::node_path;
use crate::model::node_size;
use crate::model::paths_view;
use crate::model::readable;
use crate::model::shallow_listing;

verus! {

/// Everything `ls` promises of its result: the listing of a readable
/// node, or the node's own path as the failure when the node itself
/// cannot be read.
pub open spec fn ls_post(t: FsNode, r: Result<Vec<String>, FsError>) -> bool {
    match r {
        Ok(v) => !(t is Unreadable) && paths_view(v) == shallow_listing(t),
        Err(e) => t is Unreadable && (e matches FsError::Unreadable { path }
            && path@ == node_path(t)),
    }
}

/// Shallow listing. On a directory, the paths of its direct children in
/// enumeration order; on any other node, that node's path alone. Fails
/// exactly when the node itself is unreadable.
pub fn ls(t: &FsNode) -> (r: Result<Vec<String>, FsError>)
    ensures
        ls_post(*t, r),
{
    match t {
        FsNode::Unreadable { path } => Err(FsError::Unreadable { path: path.clone() }),
        FsNode::File { path, .. } => {
            let mut out: Vec<String> = Vec::new();
            out.push(path.clone());
            proof {
                assert(paths_view(out) =~= shallow_listing(*t));
            }
            Ok(out)
        },
        FsNode::Dir { entries, .. } => {
            let mut out: Vec<String> = Vec::new();
            let mut i: usize = 0;
            while i < entries.len()
                invariant
                    i <= entries@.len(),
                    out@.len() == i,
                    forall|j: int| 0 <= j < i ==> #[trigger] out@[j]@ == node_path(entries@[j]),
                decreases entries@.len() - i,
            {
                let p = entries[i].path().clone();
                out.push(p);
                i = i + 1;
            }
            proof {
                assert(paths_view(out) =~= entry_paths(entries@));
            }
            Ok(out)
        },
    }
}

/// Everything `ls_rec` promises of its result: the deep listing of a
/// readable node, or the path of the first unreadable node, in traversal
/// order, as the failure.
pub open spec fn ls_rec_post(t: FsNode, r: Result<Vec<String>, FsError>) -> bool {
    match r {
        Ok(v) => readable(t) && paths_view(v) == deep_listing(t),
        Err(e) => !readable(t) && (e matches FsError::Unreadable { path }
            && path@ == first_unreadable(t)),
    }
}

/// Deep listing. On a directory, every descendant path, depth-first,
/// pre-order (each directory before its own children, the root itself
/// excluded); on any other node, that node's path alone. Fails exactly
/// when some node met by the traversal is unreadable, and names the
/// first such node.
#[verifier::loop_isolation(false)]
pub fn ls_rec(t: &FsNode) -> (r: Result<Vec<String>, FsError>)
    ensures
        ls_rec_post(*t, r),
    decreases *t,
{
    match t {
        FsNode::Unreadable { path } => Err(FsError::Unreadable { path: path.clone() }),
        FsNode::File { path, .. } => {
            let mut out: Vec<String> = Vec::new();
            out.push(path.clone());
            proof {
                assert(paths_view(out) =~= deep_listing(*t));
            }
            Ok(out)
        },
        FsNode::Dir { entries, .. } => {
            let mut out: Vec<String> = Vec::new();
            let mut i: usize = 0;
            while i < entries.len()
                invariant
                    i <= entries@.len(),
                    forall|j: int| 0 <= j < i ==> readable(#[trigger] entries@[j]),
                    paths_view(out) == deep_entry_listing(entries@.take(i as int)),
                decreases entries@.len() - i,
            {
                let e = &entries[i];
                match e {
                    FsNode::Unreadable { path } => {
                        proof {
                            assert(!readable(entries@[i as int]));
                            assert(first_unreadable(entries@[i as int]) == path@);
                            lemma_first_unreadable_at(entries@, i as int);
                            assert(!readable(*t));
                        }
                        return Err(FsError::Unreadable { path: path.clone() });
                    },
                    _ => {},
                }
                out.push(e.path().clone());
                if e.is_dir() {
                    match ls_rec(e) {
                        Ok(mut sub) => {
                            let ghost subv = sub@;
                            out.append(&mut sub);
                            proof {
                                assert(paths_view(out) =~= deep_entry_listing(
                                    entries@.take(i as int),
                                ) + child_listing(entries@[i as int])) by {
                                    assert(deep_listing(entries@[i as int])
                                        == subv.map_values(|s: String| s@));
                                }
                            }
                        },
                        Err(err) => {
                            proof {
                                lemma_first_unreadable_at(entries@, i as int);
                            }
                            return Err(err);
                        },
                    }
                } else {
                    proof {
                        assert(paths_view(out) =~= deep_entry_listing(entries@.take(i as int))
                            + child_listing(entries@[i as int]));
                    }
                }
                i = i + 1;
                proof {
                    lemma_deep_entry_listing_take_snoc(entries@, i - 1);
                }
            }
            proof {
                assert(entries@.take(i as int) =~= entries@);
            }
            Ok(out)
        },
    }
}

/// Everything `size` promises of its result: the byte total of a fully
/// readable node when it fits in a `u64`; otherwise the reason it could
/// not be computed.
pub open spec fn size_post(t: FsNode, r: Result<u64, FsError>) -> bool {
    match r {
        Ok(s) => readable(t) && node_size(t) <= u64::MAX && s == node_size(t),
        Err(FsError::Unreadable { path }) => !readable(t) && path@ == first_unreadable(t),
        Err(FsError::TooLarge) => readable(t) && node_size(t) > u64::MAX,
    }
}

/// Walks the snapshot and reports the first unreadable node, in
/// depth-first traversal order, if there is one.
#[verifier::loop_isolation(false)]
fn check_readable(t: &FsNode) -> (r: Result<(), FsError>)
    ensures
        match r {
            Ok(_) => readable(*t),
            Err(e) => !readable(*t) && (e matches FsError::Unreadable { path }
                && path@ == first_unreadable(*t)),
        },
    decreases *t,
{
    match t {
        FsNode::Unreadable { path } => Err(FsError::Unreadable { path: path.clone() }),
        FsNode::File { .. } => Ok(()),
        FsNode::Dir { entries, .. } => {
            let mut i: usize = 0;
            while i < entries.len()
                invariant
                    i <= entries@.len(),
                    forall|j: int| 0 <= j < i ==> readable(#[trigger] entries@[j]),
                decreases entries@.len() - i,
            {
                match check_readable(&entries[i]) {
                    Ok(_) => {},
                    Err(e) => {
                        proof {
                            lemma_first_unreadable_at(entries@, i as int);
                        }
                        return Err(e);
                    },
                }
                i = i + 1;
            }
            Ok(())
        },
    }
}

/// Sums the byte totals of the snapshot's nodes, or reports that the
/// total does not fit in a `u64`.
#[verifier::loop_isolation(false)]
fn sum_size(t: &FsNode) -> (r: Option<u64>)
    ensures
        match r {
            Some(s) => s == node_size(*t),
            None => node_size(*t) > u64::MAX,
        },
    decreases *t,
{
    match t {
        FsNode::File { len, .. } => Some(*len),
        FsNode::Unreadable { .. } => Some(0),
        FsNode::Dir { entries, .. } => {
            let mut acc: u64 = 0;
            let mut i: usize = 0;
            while i < entries.len()
                invariant
                    i <= entries@.len(),
                    acc == entries_size(entries@.take(i as int)),
                decreases entries@.len() - i,
            {
                match sum_size(&entries[i]) {
                    Some(c) => {
                        if acc > u64::MAX - c {
                            proof {
                                lemma_entries_size_take_snoc(entries@, i as int);
                                lemma_entries_size_take_le(entries@, i as int + 1);
                            }
                            return None;
                        }
                        acc = acc + c;
                    },
                    None => {
                        proof {
                            lemma_entries_size_take_snoc(entries@, i as int);
                            lemma_entries_size_take_le(entries@, i as int + 1);
                        }
                        return None;
                    },
                }
                i = i + 1;
                proof {
                    lemma_entries_size_take_snoc(entries@, i - 1);
                }
            }
            proof {
                assert(entries@.take(i as int) =~= entries@);
            }
            Some(acc)
        },
    }
}

/// Byte-total aggregation. On a directory, the sum of the byte lengths
/// of every non-directory node anywhere below it (directories contribute
/// no bytes of their own); on any other node, that node's own byte
/// length. Fails exactly when some node met by the traversal is
/// unreadable (naming the first such node), or when the total does not
/// fit in a `u64`.
pub fn size(t: &FsNode) -> (r: Result<u64, FsError>)
    ensures
        size_post(*t, r),
{
    match check_readable(t) {
        Err(e) => Err(e),
        Ok(_) => match sum_size(t) {
            Some(s) => Ok(s),
            None => Err(FsError::TooLarge),
        },
    }
}

} // verus!
