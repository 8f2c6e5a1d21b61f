//! Trees and tree updates.
//!
//! A tree records its root and optional toolkit metadata. A tree update is
//! the unit handed to the engine: an ordered sequence of `(id, node)` pairs,
//! an optional tree record, and a required focus id. Nodes and trees are
//! exclusively owned until pushed into an update, at which point the update
//! owns them and the original handle is permanently invalid.

use vstd::prelude::*;
use crate::handle::HandleStore;
use crate::node::Node;
use crate::node::NodeAbs;
use crate::node::NodeId;
use crate::text;

verus! {

/// Rarely changing information about a tree as a whole.
#[derive(Clone, Debug, PartialEq)]
pub struct Tree {
    pub root: NodeId,
    pub toolkit_name: Option<Vec<char>>,
    pub toolkit_version: Option<Vec<char>>,
}

/// The mathematical value of a tree record.
#[verifier::ext_equal]
pub ghost struct TreeAbs {
    pub root: NodeId,
    pub toolkit_name: Option<Seq<char>>,
    pub toolkit_version: Option<Seq<char>>,
}

impl View for Tree {
    type V = TreeAbs;

    open spec fn view(&self) -> TreeAbs {
        TreeAbs {
            root: self.root,
            toolkit_name: crate::node::opt_text_abs(self.toolkit_name),
            toolkit_version: crate::node::opt_text_abs(self.toolkit_version),
        }
    }
}

impl Tree {
    /// A fresh tree record with the given root and no toolkit metadata.
    pub fn new(root: NodeId) -> (tree: Tree)
        ensures
            tree@ == (TreeAbs { root, toolkit_name: None, toolkit_version: None }),
    {
        Tree { root, toolkit_name: None, toolkit_version: None }
    }

    /// Hands the toolkit name out in its zero-terminated boundary form, as
    /// a fresh owned handle in the string store, or the null handle when it
    /// is absent.
    pub fn toolkit_name_c_string(&self, strings: &mut HandleStore<Vec<u8>>) -> (h: usize)
        requires
            self@.toolkit_name is Some ==> text::nul_free(self@.toolkit_name.unwrap()),
        ensures
            self@.toolkit_name is None ==> h == 0 && *final(strings) == *old(strings),
            self@.toolkit_name is Some ==> h != 0 && !old(strings).live(h)
                && final(strings).live(h) && final(strings).value_of(h)@
                == text::c_string_bytes(self@.toolkit_name.unwrap())
                && final(strings).contents() == old(strings).contents().insert(
                h,
                final(strings).value_of(h),
            ),
    {
        match &self.toolkit_name {
            None => 0,
            Some(text) => {
                let bytes = text::encode_c_string(text);
                let h = strings.to_handle(bytes);
                proof {
                    assert(strings.contents()[h] == strings.value_of(h));
                }
                h
            },
        }
    }

    /// Replaces the toolkit name, taking ownership of the text.
    pub fn set_toolkit_name(&mut self, text: Vec<char>)
        ensures
            final(self)@ == (TreeAbs { toolkit_name: Some(text@), ..old(self)@ }),
    {
        self.toolkit_name = Some(text);
    }

    /// Replaces the toolkit name from a zero-terminated byte sequence,
    /// decoding the bytes before the terminator as UTF-8 with lossy
    /// replacement. The caller keeps its buffer.
    pub fn set_toolkit_name_c_string(&mut self, bytes: &Vec<u8>)
        requires
            bytes@.contains(0),
        ensures
            final(self)@ == (TreeAbs {
                toolkit_name: Some(text::lossy_decode(bytes@.take(text::nul_index(bytes@)))),
                ..old(self)@
            }),
    {
        let text = text::decode_c_string(bytes);
        self.toolkit_name = Some(text);
    }

    /// Replaces the toolkit name from a length-prefixed byte sequence,
    /// decoding it as UTF-8 with lossy replacement. The caller keeps its
    /// buffer.
    pub fn set_toolkit_name_bytes(&mut self, bytes: &Vec<u8>)
        ensures
            final(self)@ == (TreeAbs {
                toolkit_name: Some(text::lossy_decode(bytes@)),
                ..old(self)@
            }),
    {
        let text = text::decode_text_lossy(bytes);
        self.toolkit_name = Some(text);
    }

    /// Clears the toolkit name.
    pub fn clear_toolkit_name(&mut self)
        ensures
            final(self)@ == (TreeAbs { toolkit_name: None, ..old(self)@ }),
    {
        self.toolkit_name = None;
    }

    /// Hands the toolkit version out in its zero-terminated boundary form,
    /// as a fresh owned handle in the string store, or the null handle when
    /// it is absent.
    pub fn toolkit_version_c_string(&self, strings: &mut HandleStore<Vec<u8>>) -> (h: usize)
        requires
            self@.toolkit_version is Some ==> text::nul_free(self@.toolkit_version.unwrap()),
        ensures
            self@.toolkit_version is None ==> h == 0 && *final(strings) == *old(strings),
            self@.toolkit_version is Some ==> h != 0 && !old(strings).live(h)
                && final(strings).live(h) && final(strings).value_of(h)@
                == text::c_string_bytes(self@.toolkit_version.unwrap())
                && final(strings).contents() == old(strings).contents().insert(
                h,
                final(strings).value_of(h),
            ),
    {
        match &self.toolkit_version {
            None => 0,
            Some(text) => {
                let bytes = text::encode_c_string(text);
                let h = strings.to_handle(bytes);
                proof {
                    assert(strings.contents()[h] == strings.value_of(h));
                }
                h
            },
        }
    }

    /// Replaces the toolkit version, taking ownership of the text.
    pub fn set_toolkit_version(&mut self, text: Vec<char>)
        ensures
            final(self)@ == (TreeAbs { toolkit_version: Some(text@), ..old(self)@ }),
    {
        self.toolkit_version = Some(text);
    }

    /// Replaces the toolkit version from a zero-terminated byte sequence,
    /// decoding the bytes before the terminator as UTF-8 with lossy
    /// replacement. The caller keeps its buffer.
    pub fn set_toolkit_version_c_string(&mut self, bytes: &Vec<u8>)
        requires
            bytes@.contains(0),
        ensures
            final(self)@ == (TreeAbs {
                toolkit_version: Some(text::lossy_decode(bytes@.take(text::nul_index(bytes@)))),
                ..old(self)@
            }),
    {
        let text = text::decode_c_string(bytes);
        self.toolkit_version = Some(text);
    }

    /// Replaces the toolkit version from a length-prefixed byte sequence,
    /// decoding it as UTF-8 with lossy replacement. The caller keeps its
    /// buffer.
    pub fn set_toolkit_version_bytes(&mut self, bytes: &Vec<u8>)
        ensures
            final(self)@ == (TreeAbs {
                toolkit_version: Some(text::lossy_decode(bytes@)),
                ..old(self)@
            }),
    {
        let text = text::decode_text_lossy(bytes);
        self.toolkit_version = Some(text);
    }

    /// Clears the toolkit version.
    pub fn clear_toolkit_version(&mut self)
        ensures
            final(self)@ == (TreeAbs { toolkit_version: None, ..old(self)@ }),
    {
        self.toolkit_version = None;
    }
}

/// A batch of node insertions or replacements, an optional tree record, and
/// the required focus id.
#[derive(Clone, Debug, PartialEq)]
pub struct TreeUpdate {
    pub nodes: Vec<(NodeId, Node)>,
    pub tree: Option<Tree>,
    pub focus: NodeId,
}

/// The mathematical value of a tree update.
#[verifier::ext_equal]
pub ghost struct TreeUpdateAbs {
    pub nodes: Seq<(NodeId, NodeAbs)>,
    pub tree: Option<TreeAbs>,
    pub focus: NodeId,
}

/// The abstraction of one `(id, node)` entry.
pub open spec fn entry_abs(entry: (NodeId, Node)) -> (NodeId, NodeAbs) {
    (entry.0, entry.1@)
}

/// The abstraction of an optional tree record.
pub open spec fn opt_tree_abs(tree: Option<Tree>) -> Option<TreeAbs> {
    match tree {
        Some(t) => Some(t@),
        None => None,
    }
}

impl View for TreeUpdate {
    type V = TreeUpdateAbs;

    open spec fn view(&self) -> TreeUpdateAbs {
        TreeUpdateAbs {
            nodes: self.nodes@.map_values(|entry: (NodeId, Node)| entry_abs(entry)),
            tree: opt_tree_abs(self.tree),
            focus: self.focus,
        }
    }
}

impl TreeUpdate {
    /// A fresh update with no nodes, no tree record, and the given focus.
    pub fn with_focus(focus: NodeId) -> (update: TreeUpdate)
        ensures
            update@ == (TreeUpdateAbs {
                nodes: Seq::<(NodeId, NodeAbs)>::empty(),
                tree: None,
                focus,
            }),
    {
        let update = TreeUpdate { nodes: Vec::new(), tree: None, focus };
        proof {
            assert(update@.nodes =~= Seq::<(NodeId, NodeAbs)>::empty());
        }
        update
    }

    /// As `with_focus`, with room reserved for `capacity` nodes. Capacity
    /// is a performance hint with no observable effect on the value.
    pub fn with_capacity_and_focus(capacity: usize, focus: NodeId) -> (update: TreeUpdate)
        ensures
            update@ == (TreeUpdateAbs {
                nodes: Seq::<(NodeId, NodeAbs)>::empty(),
                tree: None,
                focus,
            }),
    {
        let update = TreeUpdate { nodes: Vec::with_capacity(capacity), tree: None, focus };
        proof {
            assert(update@.nodes =~= Seq::<(NodeId, NodeAbs)>::empty());
        }
        update
    }

    /// Appends `(id, node)` to the update's node list, taking ownership of
    /// the node. Order is preserved.
    pub fn push_node(&mut self, id: NodeId, node: Node)
        ensures
            final(self)@ == (TreeUpdateAbs {
                nodes: old(self)@.nodes.push((id, node@)),
                ..old(self)@
            }),
    {
        self.nodes.push((id, node));
        proof {
            assert(self.nodes@.map_values(|entry: (NodeId, Node)| entry_abs(entry)) =~= old(
                self,
            )@.nodes.push((id, node@)));
        }
    }

    /// Appends the node a live handle owns, transferring ownership out of
    /// the store: the handle is permanently invalid afterwards and must not
    /// be reused or freed again.
    pub fn push_node_from_handle(
        &mut self,
        id: NodeId,
        nodes: &mut HandleStore<Node>,
        h: usize,
    )
        requires
            old(nodes).live(h),
        ensures
            final(self)@ == (TreeUpdateAbs {
                nodes: old(self)@.nodes.push((id, old(nodes).value_of(h)@)),
                ..old(self)@
            }),
            !final(nodes).live(h),
            final(nodes).contents() == old(nodes).contents().remove(h),
    {
        let node = nodes.release(h);
        self.push_node(id, node);
    }

    /// Replaces the update's tree record, taking ownership of it.
    pub fn set_tree(&mut self, tree: Tree)
        ensures
            final(self)@ == (TreeUpdateAbs { tree: Some(tree@), ..old(self)@ }),
    {
        self.tree = Some(tree);
    }

    /// Replaces the update's tree record with the one a live handle owns,
    /// transferring ownership out of the store: the handle is permanently
    /// invalid afterwards.
    pub fn set_tree_from_handle(&mut self, trees: &mut HandleStore<Tree>, h: usize)
        requires
            old(trees).live(h),
        ensures
            final(self)@ == (TreeUpdateAbs {
                tree: Some(old(trees).value_of(h)@),
                ..old(self)@
            }),
            !final(trees).live(h),
            final(trees).contents() == old(trees).contents().remove(h),
    {
        let tree = trees.release(h);
        self.set_tree(tree);
    }

    /// Clears the update's tree record.
    pub fn clear_tree(&mut self)
        ensures
            final(self)@ == (TreeUpdateAbs { tree: None, ..old(self)@ }),
    {
        self.tree = None;
    }

    /// Replaces the focus id.
    pub fn set_focus(&mut self, focus: NodeId)
        ensures
            final(self)@ == (TreeUpdateAbs { focus, ..old(self)@ }),
    {
        self.focus = focus;
    }
}

} // verus!
