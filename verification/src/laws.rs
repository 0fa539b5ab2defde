//! General properties of the traversal operations, proved once and for
//! all snapshots: the deep listing yields exactly the tree's paths, the
//! byte total is the sum of the non-directory lengths, and each
//! operation's contract determines its result, so repeated calls on an
//! unmodified snapshot agree.

use vstd::prelude::*;
use vstd::seq_lib::lemma_seq_concat_contains_all_elements;

use crate::model::FsError;
use crate::model::FsNode;
use crate::model::child_listing;
use crate::model::deep_entry_listing;
use crate::model::deep_listing;
use crate::model::entries_size;
use crate::model::file_lens;
use crate::model::file_lens_in;
use crate::model::in_child;
use crate::model::in_tree;
use crate::model::len_sum;
use crate::model::list_result_view;
use crate::model::node_path;
use crate::model::node_size;
use crate::model::size_result_view;
use crate::ops::ls_post;
use crate::ops::ls_rec_post;
use crate::ops::size_post;

verus! {

/// The paths in the child listing of `c` are exactly those that name
/// `c` or lie below it.
proof fn lemma_child_listing_complete(c: FsNode)
    ensures
        forall|p: Seq<char>| #[trigger] child_listing(c).contains(p) <==> in_child(c, p),
    decreases c, 1int,
{
    broadcast use lemma_seq_concat_contains_all_elements;

    if c is Dir {
        lemma_deep_listing_complete(c);
        assert forall|p: Seq<char>| #[trigger] child_listing(c).contains(p) <==> in_child(
            c,
            p,
        ) by {
            assert(child_listing(c) == seq![node_path(c)] + deep_listing(c));
            if child_listing(c).contains(p) {
                assert((seq![node_path(c)] + deep_listing(c)).contains(p));
                if seq![node_path(c)].contains(p) {
                    let i = choose|i: int|
                        0 <= i < seq![node_path(c)].len() && seq![node_path(c)][i] == p;
                    assert(i == 0);
                } else {
                    assert(deep_listing(c).contains(p));
                }
            }
            if in_child(c, p) {
                if node_path(c) == p {
                    assert(seq![node_path(c)][0] == p);
                    assert(seq![node_path(c)].contains(p));
                } else {
                    assert(deep_listing(c).contains(p));
                }
                assert((seq![node_path(c)] + deep_listing(c)).contains(p));
            }
        }
    } else {
        assert forall|p: Seq<char>| #[trigger] child_listing(c).contains(p) <==> in_child(
            c,
            p,
        ) by {
            if node_path(c) == p {
                assert(child_listing(c)[0] == p);
            }
            if child_listing(c).contains(p) {
                let i = choose|i: int| 0 <= i < child_listing(c).len() && child_listing(c)[i] == p;
                assert(i == 0);
            }
        }
    }
}

/// The paths in the concatenated child listings of `es` are exactly
/// those that name one of the nodes of `es` or lie below one of them.
proof fn lemma_deep_entry_listing_complete(es: Seq<FsNode>)
    ensures
        forall|p: Seq<char>| #[trigger] deep_entry_listing(es).contains(p) <==> exists|i: int|
            0 <= i < es.len() && in_child(#[trigger] es[i], p),
    decreases es, 2int,
{
    broadcast use lemma_seq_concat_contains_all_elements;

    if es.len() > 0 {
        lemma_child_listing_complete(es[0]);
        lemma_deep_entry_listing_complete(es.drop_first());
        assert forall|p: Seq<char>| #[trigger] deep_entry_listing(es).contains(p) implies exists|
            i: int,
        | 0 <= i < es.len() && in_child(#[trigger] es[i], p) by {
            assert((child_listing(es[0]) + deep_entry_listing(es.drop_first())).contains(p));
            if child_listing(es[0]).contains(p) {
                assert(in_child(es[0], p));
            } else {
                assert(deep_entry_listing(es.drop_first()).contains(p));
                let j = choose|j: int|
                    0 <= j < es.drop_first().len() && in_child(#[trigger] es.drop_first()[j], p);
                assert(es.drop_first()[j] == es[j + 1]);
                assert(in_child(es[j + 1], p));
            }
        }
        assert forall|p: Seq<char>| (exists|i: int|
            0 <= i < es.len() && in_child(#[trigger] es[i], p)) implies #[trigger] deep_entry_listing(
            es,
        ).contains(p) by {
            let i = choose|i: int| 0 <= i < es.len() && in_child(#[trigger] es[i], p);
            if i == 0 {
                assert(child_listing(es[0]).contains(p));
            } else {
                assert(es.drop_first()[i - 1] == es[i]);
                assert(in_child(es.drop_first()[i - 1], p));
                assert(deep_entry_listing(es.drop_first()).contains(p));
            }
            assert((child_listing(es[0]) + deep_entry_listing(es.drop_first())).contains(p));
        }
    }
}

/// The deep listing of a snapshot yields every path in it and no other:
/// for a directory, the path of every descendant node, directories and
/// non-directories alike; for any other node, its own path.
pub proof fn lemma_deep_listing_complete(n: FsNode)
    ensures
        forall|p: Seq<char>| #[trigger] deep_listing(n).contains(p) <==> in_tree(n, p),
    decreases n, 0int,
{
    match n {
        FsNode::Dir { entries, .. } => {
            lemma_deep_entry_listing_complete(entries@);
            assert forall|p: Seq<char>| #[trigger] deep_listing(n).contains(p) <==> in_tree(
                n,
                p,
            ) by {
                assert(deep_listing(n) == deep_entry_listing(entries@));
                assert(deep_entry_listing(entries@).contains(p) <==> exists|i: int|
                    0 <= i < entries@.len() && in_child(#[trigger] entries@[i], p));
            }
        },
        _ => {
            assert forall|p: Seq<char>| #[trigger] deep_listing(n).contains(p) <==> in_tree(
                n,
                p,
            ) by {
                if node_path(n) == p {
                    assert(deep_listing(n)[0] == p);
                }
                if deep_listing(n).contains(p) {
                    let i = choose|i: int|
                        0 <= i < deep_listing(n).len() && deep_listing(n)[i] == p;
                    assert(i == 0);
                }
            }
        },
    }
}

/// Summing two runs of byte lengths one after the other sums both.
proof fn lemma_len_sum_add(a: Seq<u64>, b: Seq<u64>)
    ensures
        len_sum(a + b) == len_sum(a) + len_sum(b),
    decreases a,
{
    if a.len() == 0 {
        assert(a + b =~= b);
    } else {
        assert((a + b).drop_first() =~= a.drop_first() + b);
        lemma_len_sum_add(a.drop_first(), b);
    }
}

/// The byte total contributed by the nodes of `es` is the sum of the
/// byte lengths they contribute.
proof fn lemma_entries_size_is_len_sum(es: Seq<FsNode>)
    ensures
        entries_size(es) == len_sum(file_lens_in(es)),
    decreases es,
{
    if es.len() > 0 {
        lemma_size_is_file_len_sum(es[0]);
        lemma_entries_size_is_len_sum(es.drop_first());
        lemma_len_sum_add(file_lens(es[0]), file_lens_in(es.drop_first()));
    }
}

/// The byte total of a snapshot is the sum of the byte lengths of its
/// non-directory nodes alone: directories contribute no bytes of their
/// own.
pub proof fn lemma_size_is_file_len_sum(n: FsNode)
    ensures
        node_size(n) == len_sum(file_lens(n)),
    decreases n,
{
    match n {
        FsNode::Dir { entries, .. } => {
            lemma_entries_size_is_len_sum(entries@);
            assert(node_size(n) == entries_size(entries@));
            assert(file_lens(n) == file_lens_in(entries@));
        },
        FsNode::File { len, .. } => {
            assert(seq![len].drop_first() =~= Seq::<u64>::empty());
            assert(len_sum(seq![len].drop_first()) == 0);
        },
        FsNode::Unreadable { .. } => {},
    }
}

/// Calling `ls` twice on an unmodified snapshot yields identical
/// results: the contract determines the result's content.
pub proof fn lemma_ls_deterministic(
    t: FsNode,
    r1: Result<Vec<String>, FsError>,
    r2: Result<Vec<String>, FsError>,
)
    requires
        ls_post(t, r1),
        ls_post(t, r2),
    ensures
        list_result_view(r1) == list_result_view(r2),
{
}

/// Calling `ls_rec` twice on an unmodified snapshot yields identical
/// results: the contract determines the result's content.
pub proof fn lemma_ls_rec_deterministic(
    t: FsNode,
    r1: Result<Vec<String>, FsError>,
    r2: Result<Vec<String>, FsError>,
)
    requires
        ls_rec_post(t, r1),
        ls_rec_post(t, r2),
    ensures
        list_result_view(r1) == list_result_view(r2),
{
}

/// Calling `size` twice on an unmodified snapshot yields identical
/// results: the contract determines the result's content.
pub proof fn lemma_size_deterministic(
    t: FsNode,
    r1: Result<u64, FsError>,
    r2: Result<u64, FsError>,
)
    requires
        size_post(t, r1),
        size_post(t, r2),
    ensures
        size_result_view(r1) == size_result_view(r2),
{
}

} // verus!
