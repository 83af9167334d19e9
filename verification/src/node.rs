//! Identities of visual nodes and the fixed places they take in a button's
//! private tree.

use vstd::prelude::*;

verus! {

/// Identifies one visual node. Instructions and pointer events address nodes
/// by it.
#[derive(Clone, Copy, Debug, PartialEq, Eq, Hash, Structural)]
pub struct NodeId(pub u64);

/// The three places in a button's tree. They are fixed and never renamed.
#[derive(Clone, Copy, Debug, PartialEq, Eq, Hash, Structural)]
pub enum NodePath {
    /// The root: the surface that the pointer hits.
    Control,
    /// The background image, below the control.
    Image,
    /// The label, below the image.
    Text,
}

impl NodePath {
    /// The path as the layout engine spells it.
    pub open spec fn spelled(self) -> Seq<char> {
        match self {
            NodePath::Control => "Control"@,
            NodePath::Image => "Control/Image"@,
            NodePath::Text => "Control/Image/Text"@,
        }
    }

    /// Only the control surface takes pointer hits.
    pub open spec fn takes_hits(self) -> bool {
        self == NodePath::Control
    }

    /// The path as the layout engine spells it.
    pub fn as_str(&self) -> (s: &'static str)
        ensures
            s@ == self.spelled(),
    {
        match self {
            NodePath::Control => "Control",
            NodePath::Image => "Control/Image",
            NodePath::Text => "Control/Image/Text",
        }
    }

    /// Whether a node at this path takes pointer hits.
    pub fn hit_testable(&self) -> (b: bool)
        ensures
            b == self.takes_hits(),
    {
        match self {
            NodePath::Control => true,
            _ => false,
        }
    }
}

/// Different paths are spelled differently.
pub proof fn lemma_paths_distinct(p: NodePath, q: NodePath)
    ensures
        p.spelled() == q.spelled() ==> p == q,
{
    reveal_strlit("Control");
    reveal_strlit("Control/Image");
    reveal_strlit("Control/Image/Text");
    assert("Control"@.len() == 7);
    assert("Control/Image"@.len() == 13);
    assert("Control/Image/Text"@.len() == 18);
}

} // verus!
