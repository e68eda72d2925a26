//! The password store as a tree of named entries, and the flat list of its leaves.
use vstd::prelude::*;

verus! {

/// A node of the store: a leaf when `children` is `None`, a folder otherwise.
pub struct PassEntry {
    pub name: String,
    pub children: Option<Vec<PassEntry>>,
}

pub type PassList = Vec<PassEntry>;

/// One leaf of the tree: its own name and the slash-joined names leading to it.
pub struct Leaf {
    pub name: Seq<char>,
    pub path: Seq<char>,
}

/// The leaves under `entries`, depth first, left to right, each path starting with `prefix`.
pub open spec fn leaves(entries: Seq<PassEntry>, prefix: Seq<char>) -> Seq<Leaf>
    decreases entries,
{
    if entries.len() == 0 {
        Seq::empty()
    } else {
        let e = entries.last();
        leaves(entries.drop_last(), prefix) + match e.children {
            None => seq![Leaf { name: e.name@, path: prefix + e.name@ }],
            Some(c) => leaves(c@, prefix + e.name@ + seq!['/']),
        }
    }
}

/// `t` occurs in `s` as a contiguous run.
pub open spec fn contains_seq(s: Seq<char>, t: Seq<char>) -> bool {
    exists|i: int| 0 <= i && i + t.len() <= s.len() && #[trigger] s.subrange(i, i + t.len()) == t
}

/// Leaves of two lists side by side are the leaves of each, in turn.
pub proof fn lemma_leaves_concat(a: Seq<PassEntry>, b: Seq<PassEntry>, prefix: Seq<char>)
    ensures
        leaves(a + b, prefix) == leaves(a, prefix) + leaves(b, prefix),
    decreases b.len(),
{
    if b.len() == 0 {
        assert(a + b == a);
        assert(leaves(b, prefix) == Seq::<Leaf>::empty());
        assert(leaves(a, prefix) + leaves(b, prefix) == leaves(a, prefix));
    } else {
        assert((a + b).drop_last() == a + b.drop_last());
        assert((a + b).last() == b.last());
        lemma_leaves_concat(a, b.drop_last(), prefix);
    }
}

/// Relies on `str::contains`: true exactly when `pattern` occurs in `s` as a contiguous run.
#[verifier::external_body]
pub(crate) fn str_contains(s: &str, pattern: &str) -> (r: bool)
    ensures
        r == contains_seq(s@, pattern@),
{
    s.contains(pattern)
}

} // verus!
