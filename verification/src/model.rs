//! The snapshot model of a filesystem subtree, and the specification
//! functions that the traversal contracts are stated over.

use vstd::prelude::*;

verus! {

/// One node of a filesystem snapshot, classified by its own link metadata:
/// a symbolic link is never followed, so a link counts as a non-directory
/// node whatever it points at, and cyclic links cannot occur in a snapshot.
#[derive(Debug, PartialEq, Eq)]
pub enum FsNode {
    /// A non-directory node (regular file, symbolic link, ...) together
    /// with its own byte length, as link metadata reports it.
    File { path: String, len: u64 },
    /// A directory together with its direct children, in the order the
    /// filesystem enumerated them (no order is guaranteed).
    Dir { path: String, entries: Vec<FsNode> },
    /// A node whose metadata could not be read, or a directory whose
    /// contents could not be enumerated.
    Unreadable { path: String },
}

/// Why a traversal operation failed.
#[derive(Debug, PartialEq, Eq)]
pub enum FsError {
    /// I/O failure: carries the path of the first node, in traversal
    /// order, that could not be read.
    Unreadable { path: String },
    /// The byte total does not fit in a `u64`.
    TooLarge,
}

/// The node's own path.
pub open spec fn node_path(n: FsNode) -> Seq<char> {
    match n {
        FsNode::File { path, .. } => path@,
        FsNode::Dir { path, .. } => path@,
        FsNode::Unreadable { path } => path@,
    }
}

/// The paths of a sequence of nodes, in order.
pub open spec fn entry_paths(es: Seq<FsNode>) -> Seq<Seq<char>> {
    es.map_values(|c: FsNode| node_path(c))
}

/// What a shallow listing of a readable node contains: the direct
/// children of a directory, or the node itself otherwise.
pub open spec fn shallow_listing(n: FsNode) -> Seq<Seq<char>> {
    match n {
        FsNode::Dir { entries, .. } => entry_paths(entries@),
        _ => seq![node_path(n)],
    }
}

/// Whether a deep traversal of the node meets no unreadable node.
pub open spec fn readable(n: FsNode) -> bool
    decreases n,
{
    match n {
        FsNode::Unreadable { .. } => false,
        FsNode::File { .. } => true,
        FsNode::Dir { entries, .. } => forall|i: int|
            0 <= i < entries@.len() ==> readable(#[trigger] entries@[i]),
    }
}

/// The path of the first node, in depth-first traversal order, that a
/// deep traversal cannot read. Meaningful only when `!readable(n)`.
pub open spec fn first_unreadable(n: FsNode) -> Seq<char>
    decreases n,
{
    match n {
        FsNode::Unreadable { path } => path@,
        FsNode::File { .. } => Seq::empty(),
        FsNode::Dir { entries, .. } => first_unreadable_in(entries@),
    }
}

/// The path of the first unreadable node found below any of the nodes of
/// `es`, scanning them in order and descending depth-first.
pub open spec fn first_unreadable_in(es: Seq<FsNode>) -> Seq<char>
    decreases es,
{
    if es.len() == 0 {
        Seq::empty()
    } else if !readable(es[0]) {
        first_unreadable(es[0])
    } else {
        first_unreadable_in(es.drop_first())
    }
}

/// What a deep listing of one child contributes: the child's own path,
/// followed by the child's deep listing when the child is a directory.
pub open spec fn child_listing(c: FsNode) -> Seq<Seq<char>>
    decreases c, 1int,
{
    if c is Dir {
        seq![node_path(c)] + deep_listing(c)
    } else {
        seq![node_path(c)]
    }
}

/// What a deep listing of a readable node contains: every descendant of
/// a directory, depth-first, pre-order (the directory itself excluded),
/// or the node itself otherwise.
pub open spec fn deep_listing(n: FsNode) -> Seq<Seq<char>>
    decreases n, 0int,
{
    match n {
        FsNode::Dir { entries, .. } => deep_entry_listing(entries@),
        _ => seq![node_path(n)],
    }
}

/// The concatenation of the child listings of the nodes of `es`, in order.
pub open spec fn deep_entry_listing(es: Seq<FsNode>) -> Seq<Seq<char>>
    decreases es, 2int,
{
    if es.len() == 0 {
        Seq::empty()
    } else {
        child_listing(es[0]) + deep_entry_listing(es.drop_first())
    }
}

/// The byte total of the node: the sum over a directory's children, each
/// contributing its own byte total; the length of a non-directory node;
/// directories themselves contribute no bytes of their own.
pub open spec fn node_size(n: FsNode) -> nat
    decreases n,
{
    match n {
        FsNode::Dir { entries, .. } => entries_size(entries@),
        FsNode::File { len, .. } => len as nat,
        FsNode::Unreadable { .. } => 0,
    }
}

/// The sum of the byte totals of the nodes of `es`.
pub open spec fn entries_size(es: Seq<FsNode>) -> nat
    decreases es,
{
    if es.len() == 0 {
        0
    } else {
        node_size(es[0]) + entries_size(es.drop_first())
    }
}

/// The view of a vector of paths: each path as its character sequence.
pub open spec fn paths_view(v: Vec<String>) -> Seq<Seq<char>> {
    v@.map_values(|s: String| s@)
}

/// Whether `p` names the node `c` itself or, when `c` is a directory,
/// some node below it.
pub open spec fn in_child(c: FsNode, p: Seq<char>) -> bool
    decreases c, 1int,
{
    node_path(c) == p || (c is Dir && in_tree(c, p))
}

/// Whether `p` is a path that a deep traversal of `n` yields: the path
/// of some descendant of a directory, or a non-directory node's own
/// path.
pub open spec fn in_tree(n: FsNode, p: Seq<char>) -> bool
    decreases n, 0int,
{
    match n {
        FsNode::Dir { entries, .. } => exists|i: int|
            0 <= i < entries@.len() && in_child(#[trigger] entries@[i], p),
        _ => node_path(n) == p,
    }
}

/// The byte lengths that make up the byte total: one per non-directory
/// node below a directory, or the non-directory node's own length.
pub open spec fn file_lens(n: FsNode) -> Seq<u64>
    decreases n,
{
    match n {
        FsNode::Dir { entries, .. } => file_lens_in(entries@),
        FsNode::File { len, .. } => seq![len],
        FsNode::Unreadable { .. } => Seq::empty(),
    }
}

/// The byte lengths contributed by the nodes of `es`, in order.
pub open spec fn file_lens_in(es: Seq<FsNode>) -> Seq<u64>
    decreases es,
{
    if es.len() == 0 {
        Seq::empty()
    } else {
        file_lens(es[0]) + file_lens_in(es.drop_first())
    }
}

/// The sum of a sequence of byte lengths.
pub open spec fn len_sum(s: Seq<u64>) -> nat
    decreases s,
{
    if s.len() == 0 {
        0
    } else {
        s[0] as nat + len_sum(s.drop_first())
    }
}

/// A listing result reduced to its mathematical content: the listed
/// paths in order, or the failure (the unreadable path, if the failure
/// names one).
pub open spec fn list_result_view(r: Result<Vec<String>, FsError>) -> Result<
    Seq<Seq<char>>,
    Option<Seq<char>>,
> {
    match r {
        Ok(v) => Ok(paths_view(v)),
        Err(FsError::Unreadable { path }) => Err(Some(path@)),
        Err(FsError::TooLarge) => Err(None),
    }
}

/// A byte-total result reduced to its mathematical content.
pub open spec fn size_result_view(r: Result<u64, FsError>) -> Result<u64, Option<Seq<char>>> {
    match r {
        Ok(s) => Ok(s),
        Err(FsError::Unreadable { path }) => Err(Some(path@)),
        Err(FsError::TooLarge) => Err(None),
    }
}

/// When every node before position `i` is readable and the node at `i`
/// is not, the first unreadable node below the sequence lies below the
/// node at `i`.
pub proof fn lemma_first_unreadable_at(es: Seq<FsNode>, i: int)
    requires
        0 <= i < es.len(),
        forall|j: int| 0 <= j < i ==> readable(#[trigger] es[j]),
        !readable(es[i]),
    ensures
        first_unreadable_in(es) == first_unreadable(es[i]),
    decreases i,
{
    if i > 0 {
        lemma_first_unreadable_at(es.drop_first(), i - 1);
    }
}

/// Extending a prefix of `es` by one node appends that node's child
/// listing to the prefix's deep listing.
pub proof fn lemma_deep_entry_listing_take_snoc(es: Seq<FsNode>, i: int)
    requires
        0 <= i < es.len(),
    ensures
        deep_entry_listing(es.take(i + 1)) == deep_entry_listing(es.take(i)) + child_listing(
            es[i],
        ),
    decreases i,
{
    if i == 0 {
        assert(es.take(0) =~= Seq::<FsNode>::empty());
        assert(es.take(1).drop_first() =~= Seq::<FsNode>::empty());
        assert(deep_entry_listing(es.take(1)) =~= deep_entry_listing(es.take(0)) + child_listing(
            es[0],
        ));
    } else {
        lemma_deep_entry_listing_take_snoc(es.drop_first(), i - 1);
        assert(es.take(i + 1).drop_first() =~= es.drop_first().take(i));
        assert(es.take(i).drop_first() =~= es.drop_first().take(i - 1));
        assert(deep_entry_listing(es.take(i + 1)) =~= deep_entry_listing(es.take(i))
            + child_listing(es[i]));
    }
}

/// Extending a prefix of `es` by one node adds that node's byte total to
/// the prefix's byte total.
pub proof fn lemma_entries_size_take_snoc(es: Seq<FsNode>, i: int)
    requires
        0 <= i < es.len(),
    ensures
        entries_size(es.take(i + 1)) == entries_size(es.take(i)) + node_size(es[i]),
    decreases i,
{
    if i == 0 {
        assert(es.take(0) =~= Seq::<FsNode>::empty());
        assert(es.take(1).drop_first() =~= Seq::<FsNode>::empty());
    } else {
        lemma_entries_size_take_snoc(es.drop_first(), i - 1);
        assert(es.take(i + 1).drop_first() =~= es.drop_first().take(i));
        assert(es.take(i).drop_first() =~= es.drop_first().take(i - 1));
    }
}

/// The byte total of a prefix never exceeds the byte total of the whole
/// sequence.
pub proof fn lemma_entries_size_take_le(es: Seq<FsNode>, i: int)
    requires
        0 <= i <= es.len(),
    ensures
        entries_size(es.take(i)) <= entries_size(es),
    decreases es.len() - i,
{
    if i == es.len() {
        assert(es.take(i) =~= es);
    } else {
        lemma_entries_size_take_snoc(es, i);
        lemma_entries_size_take_le(es, i + 1);
    }
}

impl FsNode {
    /// The node's own path.
    pub fn path(&self) -> (p: &String)
        ensures
            p@ == node_path(*self),
    {
        match self {
            FsNode::File { path, .. } => path,
            FsNode::Dir { path, .. } => path,
            FsNode::Unreadable { path } => path,
        }
    }

    /// Whether the node is a directory.
    pub fn is_dir(&self) -> (b: bool)
        ensures
            b == (*self is Dir),
    {
        match self {
            FsNode::Dir { .. } => true,
            _ => false,
        }
    }
}

} // verus!
