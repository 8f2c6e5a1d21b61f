//! Structural equality of model values.
//!
//! The capture log deduplicates consecutive identical tree updates, so the
//! crate needs equality tests whose meaning is pinned to the mathematical
//! value of each type: two values compare equal exactly when their
//! abstractions are equal.

use vstd::prelude::*;
use crate::node::CustomAction;
use crate::node::Node;
use crate::node::NodeId;
use crate::tree::Tree;
use crate::tree::TreeUpdate;

verus! {

/// Whether two texts are equal character for character.
pub fn text_eq(a: &Vec<char>, b: &Vec<char>) -> (r: bool)
    ensures
        r == (a@ == b@),
{
    if a.len() != b.len() {
        proof {
            assert(a@ != b@);
        }
        return false;
    }
    let mut i: usize = 0;
    while i < a.len()
        invariant
            a@.len() == b@.len(),
            i <= a@.len(),
            forall|j: int| 0 <= j < i ==> a@[j] == b@[j],
        decreases a@.len() - i,
    {
        if a[i] != b[i] {
            proof {
                assert(a@ != b@);
            }
            return false;
        }
        i = i + 1;
    }
    proof {
        assert(a@ =~= b@);
    }
    true
}

/// Whether two optional texts are equal.
pub fn opt_text_eq(a: &Option<Vec<char>>, b: &Option<Vec<char>>) -> (r: bool)
    ensures
        r == (crate::node::opt_text_abs(*a) == crate::node::opt_text_abs(*b)),
{
    match (a, b) {
        (None, None) => true,
        (Some(x), Some(y)) => text_eq(x, y),
        _ => false,
    }
}

/// Whether two id sequences are equal element for element.
pub fn ids_eq(a: &Vec<NodeId>, b: &Vec<NodeId>) -> (r: bool)
    ensures
        r == (a@ == b@),
{
    if a.len() != b.len() {
        proof {
            assert(a@ != b@);
        }
        return false;
    }
    let mut i: usize = 0;
    while i < a.len()
        invariant
            a@.len() == b@.len(),
            i <= a@.len(),
            forall|j: int| 0 <= j < i ==> a@[j] == b@[j],
        decreases a@.len() - i,
    {
        if a[i] != b[i] {
            proof {
                assert(a@ != b@);
            }
            return false;
        }
        i = i + 1;
    }
    proof {
        assert(a@ =~= b@);
    }
    true
}

/// Whether two byte sequences are equal element for element.
pub fn bytes_eq(a: &Vec<u8>, b: &Vec<u8>) -> (r: bool)
    ensures
        r == (a@ == b@),
{
    if a.len() != b.len() {
        proof {
            assert(a@ != b@);
        }
        return false;
    }
    let mut i: usize = 0;
    while i < a.len()
        invariant
            a@.len() == b@.len(),
            i <= a@.len(),
            forall|j: int| 0 <= j < i ==> a@[j] == b@[j],
        decreases a@.len() - i,
    {
        if a[i] != b[i] {
            proof {
                assert(a@ != b@);
            }
            return false;
        }
        i = i + 1;
    }
    proof {
        assert(a@ =~= b@);
    }
    true
}

/// Whether two custom actions have the same id and description.
pub fn custom_action_eq(a: &CustomAction, b: &CustomAction) -> (r: bool)
    ensures
        r == (a@ == b@),
{
    let r = a.id == b.id && text_eq(&a.description, &b.description);
    proof {
        if a@.id == b@.id && a@.description == b@.description {
            assert(a@ =~= b@);
        }
    }
    r
}

/// Whether two custom action sequences are equal element for element.
pub fn custom_actions_eq(a: &Vec<CustomAction>, b: &Vec<CustomAction>) -> (r: bool)
    ensures
        r == (a@.map_values(|c: CustomAction| c@) == b@.map_values(|c: CustomAction| c@)),
{
    let ghost av = a@.map_values(|c: CustomAction| c@);
    let ghost bv = b@.map_values(|c: CustomAction| c@);
    if a.len() != b.len() {
        proof {
            assert(av.len() != bv.len());
        }
        return false;
    }
    let mut i: usize = 0;
    while i < a.len()
        invariant
            a@.len() == b@.len(),
            i <= a@.len(),
            av == a@.map_values(|c: CustomAction| c@),
            bv == b@.map_values(|c: CustomAction| c@),
            forall|j: int| 0 <= j < i ==> av[j] == bv[j],
        decreases a@.len() - i,
    {
        if !custom_action_eq(&a[i], &b[i]) {
            proof {
                assert(av[i as int] != bv[i as int]);
            }
            return false;
        }
        i = i + 1;
    }
    proof {
        assert(av =~= bv);
    }
    true
}

/// Whether two nodes are structurally equal: same role, same action and
/// flag masks, and the same value for every property.
pub fn node_eq(a: &Node, b: &Node) -> (r: bool)
    ensures
        r == (a@ == b@),
{
    let r = a.role == b.role && a.actions == b.actions && a.child_actions == b.child_actions
        && a.flags == b.flags && ids_eq(&a.children, &b.children) && a.active_descendant
        == b.active_descendant && opt_text_eq(&a.label, &b.label) && a.level == b.level
        && a.color_value == b.color_value && a.toggled == b.toggled && a.selected == b.selected
        && bytes_eq(&a.character_lengths, &b.character_lengths) && custom_actions_eq(
        &a.custom_actions,
        &b.custom_actions,
    ) && a.text_selection == b.text_selection;
    proof {
        if r {
            assert(a@ =~= b@);
        }
    }
    r
}

/// Whether two tree records are structurally equal.
pub fn tree_eq(a: &Tree, b: &Tree) -> (r: bool)
    ensures
        r == (a@ == b@),
{
    let r = a.root == b.root && opt_text_eq(&a.toolkit_name, &b.toolkit_name) && opt_text_eq(
        &a.toolkit_version,
        &b.toolkit_version,
    );
    proof {
        if r {
            assert(a@ =~= b@);
        }
    }
    r
}

/// Whether two tree updates are structurally equal: the same node entries
/// in the same order, the same tree record, and the same focus.
pub fn update_eq(a: &TreeUpdate, b: &TreeUpdate) -> (r: bool)
    ensures
        r == (a@ == b@),
{
    let ghost av = a@;
    let ghost bv = b@;
    if a.focus != b.focus {
        return false;
    }
    let trees_equal = match (&a.tree, &b.tree) {
        (None, None) => true,
        (Some(x), Some(y)) => tree_eq(x, y),
        _ => false,
    };
    if !trees_equal {
        return false;
    }
    if a.nodes.len() != b.nodes.len() {
        proof {
            assert(av.nodes.len() != bv.nodes.len());
        }
        return false;
    }
    let mut i: usize = 0;
    while i < a.nodes.len()
        invariant
            a.nodes@.len() == b.nodes@.len(),
            i <= a.nodes@.len(),
            av == a@,
            bv == b@,
            forall|j: int| 0 <= j < i ==> av.nodes[j] == bv.nodes[j],
        decreases a.nodes@.len() - i,
    {
        let (id_a, node_a) = &a.nodes[i];
        let (id_b, node_b) = &b.nodes[i];
        if id_a != id_b || !node_eq(node_a, node_b) {
            proof {
                assert(av.nodes[i as int] != bv.nodes[i as int]);
            }
            return false;
        }
        proof {
            assert(av.nodes[i as int] == bv.nodes[i as int]);
        }
        i = i + 1;
    }
    proof {
        assert(av.nodes =~= bv.nodes);
        assert(av =~= bv);
    }
    true
}

} // verus!
