//! The persisted interaction-state arena: one entry per tree position,
//! owned by the host toolkit across frames. Configurations are rebuilt
//! every frame; these entries are not. The host's diffing maps old to new
//! positions and resets exactly the entries whose component kind changed.

use vstd::prelude::*;

use crate::widgets::sidebar_item::Status;

verus! {

/// What kind of state lives at a tree position. Positions whose kind
/// changes between frames lose their state.
#[derive(Clone, Copy, Debug, PartialEq, Eq, Structural)]
pub enum Tag {
    /// A component that keeps no state (plain rectangles, labels).
    Stateless,
    /// An interactive component persisting an interaction [`Status`].
    Interactive,
}

/// The state entry at one tree position.
#[derive(Clone, Copy, Debug, PartialEq, Eq, Structural)]
pub struct Tree {
    pub tag: Tag,
    pub status: Status,
}

impl Tree {
    /// The entry a node gets the first time it occupies a tree position.
    pub fn fresh(tag: Tag) -> (t: Tree)
        ensures
            t == (Tree { tag, status: Status::Inactive }),
    {
        Tree { tag, status: Status::Inactive }
    }
}

/// The entry position `i` holds after diffing an old state row against the
/// new frame's component kinds: kept where the kind is unchanged, fresh
/// (and `Inactive`) where the position is new or its kind changed.
pub open spec fn diffed_spec(old_trees: Seq<Tree>, tags: Seq<Tag>, i: int) -> Tree {
    if i < old_trees.len() && old_trees[i].tag == tags[i] {
        old_trees[i]
    } else {
        Tree { tag: tags[i], status: Status::Inactive }
    }
}

/// Diff one row of the state arena against the component kinds of the new
/// frame: state survives at every position whose kind is unchanged, and
/// only there; positions beyond the new row are destroyed.
pub fn diff_children(trees: &mut Vec<Tree>, tags: &Vec<Tag>)
    ensures
        final(trees)@.len() == tags@.len(),
        forall|i: int|
            0 <= i < tags@.len() ==> final(trees)@[i] == diffed_spec(old(trees)@, tags@, i),
{
    let mut out: Vec<Tree> = Vec::new();
    let mut i: usize = 0;
    while i < tags.len()
        invariant
            i <= tags@.len(),
            out@.len() == i,
            forall|j: int| 0 <= j < i ==> out@[j] == diffed_spec(trees@, tags@, j),
        decreases tags@.len() - i,
    {
        if i < trees.len() && trees[i].tag == tags[i] {
            out.push(trees[i]);
        } else {
            out.push(Tree::fresh(tags[i]));
        }
        i = i + 1;
    }
    *trees = out;
}

/// State persistence: a component whose tree position keeps its kind
/// across two frames retains its interaction state through the diff; a
/// position taken over by a different kind of component resets to
/// `Inactive`.
pub proof fn lemma_state_persistence(old_trees: Seq<Tree>, tags: Seq<Tag>, i: int)
    requires
        0 <= i < tags.len(),
    ensures
        i < old_trees.len() && old_trees[i].tag == tags[i] ==> diffed_spec(old_trees, tags, i)
            == old_trees[i],
        !(i < old_trees.len() && old_trees[i].tag == tags[i]) ==> diffed_spec(old_trees, tags, i)
            == (Tree { tag: tags[i], status: Status::Inactive }),
{
}

} // verus!
