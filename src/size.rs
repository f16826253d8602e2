use vstd::prelude::*;

verus! {

broadcast use vstd::std_specs::vec::group_vec_axioms;

/// A directory tree as read from disk, symbolic links not followed.
pub enum FsNode {
    /// A regular file of this many bytes.
    File(u64),
    /// A directory and what it holds.
    Dir(Vec<FsNode>),
    /// Anything else: a symbolic link, a device, a socket.
    Other,
}

/// Sizes of the regular files of a tree, depth first.
pub open spec fn file_sizes(n: FsNode) -> Seq<u64>
    decreases n, 0nat,
{
    match n {
        FsNode::File(len) => seq![len],
        FsNode::Dir(cs) => forest_sizes(cs@, cs@.len() as int),
        FsNode::Other => seq![],
    }
}

/// Sizes of the regular files of the first `i` trees of `cs`.
pub open spec fn forest_sizes(cs: Seq<FsNode>, i: int) -> Seq<u64>
    decreases cs, i,
{
    if i <= 0 || i > cs.len() {
        seq![]
    } else {
        forest_sizes(cs, i - 1) + file_sizes(cs[i - 1])
    }
}

/// Exact sum of a sequence of sizes.
pub open spec fn total(s: Seq<u64>) -> nat
    decreases s.len(),
{
    if s.len() == 0 {
        0
    } else {
        total(s.drop_last()) + s.last() as nat
    }
}

/// `x`, or `u64::MAX` where `x` does not fit.
pub open spec fn saturate(x: nat) -> u64 {
    if x > u64::MAX {
        u64::MAX
    } else {
        x as u64
    }
}

/// Bytes held by a path: the regular files under it, zero when it is missing.
pub open spec fn tree_bytes(root: Option<FsNode>) -> nat {
    match root {
        Some(n) => total(file_sizes(n)),
        None => 0,
    }
}

pub proof fn lemma_total_concat(a: Seq<u64>, b: Seq<u64>)
    ensures
        total(a + b) == total(a) + total(b),
    decreases b.len(),
{
    if b.len() > 0 {
        lemma_total_concat(a, b.drop_last());
        assert((a + b).drop_last() =~= a + b.drop_last());
    } else {
        assert(a + b =~= a);
    }
}

fn node_size(n: &FsNode) -> (r: u64)
    ensures
        r == saturate(total(file_sizes(*n))),
    decreases n,
{
    match n {
        FsNode::File(len) => {
            assert(seq![*len].drop_last() =~= Seq::<u64>::empty());
            assert(total(seq![*len]) == total(Seq::<u64>::empty()) + *len);
            *len
        },
        FsNode::Other => 0,
        FsNode::Dir(cs) => {
            let mut acc: u64 = 0;
            let mut i: usize = 0;
            while i < cs.len()
                invariant
                    *n == FsNode::Dir(*cs),
                    i <= cs@.len(),
                    acc == saturate(total(forest_sizes(cs@, i as int))),
                decreases cs@.len() - i,
            {
                proof {
                    assert(decreases_to!(*n => (*n)->Dir_0));
                    assert(decreases_to!(*cs => cs[i as int]));
                }
                let part = node_size(&cs[i]);
                proof {
                    lemma_total_concat(
                        forest_sizes(cs@, i as int),
                        file_sizes(cs@[i as int]),
                    );
                }
                acc = acc.saturating_add(part);
                i = i + 1;
            }
            acc
        },
    }
}

/// Total size of the regular files under a path: its own length for a file,
/// the sum over the whole tree for a directory, zero for a missing path.
/// The sum stops at `u64::MAX` rather than wrap.
pub fn calculate_dir_size(root: &Option<FsNode>) -> (r: u64)
    ensures
        r == saturate(tree_bytes(*root)),
{
    match root {
        Some(n) => node_size(n),
        None => 0,
    }
}

/// The size of a tree depends on its files alone, not on how deeply they are
/// nested: a directory weighs the sum of what it holds, placing a tree one
/// level deeper in a new directory keeps its size, and a missing path weighs
/// nothing.
pub proof fn lemma_size_ignores_nesting(n: FsNode, cs: Vec<FsNode>, wrapper: Vec<FsNode>)
    requires
        wrapper@ == seq![n],
    ensures
        total(file_sizes(FsNode::Dir(cs))) == total(forest_sizes(cs@, cs@.len() as int)),
        total(file_sizes(FsNode::Dir(wrapper))) == total(file_sizes(n)),
        tree_bytes(None) == 0,
{
    assert(forest_sizes(wrapper@, 1) == forest_sizes(wrapper@, 0) + file_sizes(n));
    assert(forest_sizes(wrapper@, 0) + file_sizes(n) =~= file_sizes(n));
}

} // verus!
