//! The owned accessibility-node data model.
//!
//! A node records a role, a set of supported actions, a set of boolean
//! flags, and one optional or sequence-valued property per property family.
//! Nodes are built through the marshaling primitives and exclusively owned
//! until they are pushed into a tree update. The per-property accessors come
//! in the same families as the boundary exposes: a getter, a setter fed by
//! the matching codec, and a clearer, plus a pusher for sequence-valued
//! properties.

use vstd::prelude::*;
use crate::bits;
use crate::handle::HandleStore;
use crate::optional::OptValue;
use crate::optional;
use crate::text;

verus! {

/// The identifier a node is known by in its tree.
pub type NodeId = u64;

/// What a node is: the role determines how assistive technology presents
/// it.
#[derive(Clone, Copy, Debug, PartialEq, Eq, Structural)]
pub enum Role {
    Unknown,
    TextInput,
    Button,
    CheckBox,
    ComboBox,
    Dialog,
    Image,
    Label,
    Link,
    List,
    ListItem,
    Menu,
    MenuItem,
    ProgressIndicator,
    RadioButton,
    Row,
    Slider,
    Window,
}

/// An operation a node can support, stored as one bit of the node's action
/// mask.
#[derive(Clone, Copy, Debug, PartialEq, Eq, Structural)]
pub enum Action {
    Click,
    Focus,
    Blur,
    Collapse,
    Expand,
    CustomAction,
    Decrement,
    Increment,
    HideTooltip,
    ShowTooltip,
    ReplaceSelectedText,
    ScrollDown,
    ScrollLeft,
    ScrollRight,
    ScrollUp,
    ScrollIntoView,
    ScrollToPoint,
    SetScrollOffset,
    SetTextSelection,
    SetSequentialFocusNavigationStartingPoint,
    SetValue,
    ShowContextMenu,
}

/// A boolean property of a node, stored as one bit of the node's flag mask.
#[derive(Clone, Copy, Debug, PartialEq, Eq, Structural)]
pub enum Flag {
    Hidden,
    Multiselectable,
    Required,
    Visited,
    Busy,
    LiveAtomic,
    Modal,
    TouchTransparent,
    ReadOnly,
    Disabled,
    Bold,
    Italic,
    ClipsChildren,
    IsLineBreakingObject,
    IsPageBreakingObject,
    IsSpellingError,
    IsGrammarError,
    IsSearchMatch,
    IsSuggestion,
}

/// The checked state of a toggleable node.
#[derive(Clone, Copy, Debug, PartialEq, Eq, Structural)]
pub enum Toggled {
    False,
    True,
    Mixed,
}

/// A position in a node's text: the node and a character index into it.
#[derive(Clone, Copy, Debug, PartialEq, Eq, Structural)]
pub struct TextPosition {
    pub node: NodeId,
    pub character_index: usize,
}

/// A text selection: an anchor position and a focus position.
#[derive(Clone, Copy, Debug, PartialEq, Eq, Structural)]
pub struct TextSelection {
    pub anchor: TextPosition,
    pub focus: TextPosition,
}

/// An application-defined action: a numeric identifier and a description.
#[derive(Clone, Debug, PartialEq, Eq)]
pub struct CustomAction {
    pub id: i32,
    pub description: Vec<char>,
}

/// The mathematical value of a custom action.
#[verifier::ext_equal]
pub ghost struct CustomActionAbs {
    pub id: i32,
    pub description: Seq<char>,
}

impl View for CustomAction {
    type V = CustomActionAbs;

    open spec fn view(&self) -> CustomActionAbs {
        CustomActionAbs { id: self.id, description: self.description@ }
    }
}

/// The bit index of an action in a node's action mask.
pub open spec fn spec_action_code(a: Action) -> u32 {
    match a {
        Action::Click => 0,
        Action::Focus => 1,
        Action::Blur => 2,
        Action::Collapse => 3,
        Action::Expand => 4,
        Action::CustomAction => 5,
        Action::Decrement => 6,
        Action::Increment => 7,
        Action::HideTooltip => 8,
        Action::ShowTooltip => 9,
        Action::ReplaceSelectedText => 10,
        Action::ScrollDown => 11,
        Action::ScrollLeft => 12,
        Action::ScrollRight => 13,
        Action::ScrollUp => 14,
        Action::ScrollIntoView => 15,
        Action::ScrollToPoint => 16,
        Action::SetScrollOffset => 17,
        Action::SetTextSelection => 18,
        Action::SetSequentialFocusNavigationStartingPoint => 19,
        Action::SetValue => 20,
        Action::ShowContextMenu => 21,
    }
}

/// The bit index of an action, computed.
pub fn action_code(a: Action) -> (k: u32)
    ensures
        k == spec_action_code(a),
        k < 32,
{
    match a {
        Action::Click => 0,
        Action::Focus => 1,
        Action::Blur => 2,
        Action::Collapse => 3,
        Action::Expand => 4,
        Action::CustomAction => 5,
        Action::Decrement => 6,
        Action::Increment => 7,
        Action::HideTooltip => 8,
        Action::ShowTooltip => 9,
        Action::ReplaceSelectedText => 10,
        Action::ScrollDown => 11,
        Action::ScrollLeft => 12,
        Action::ScrollRight => 13,
        Action::ScrollUp => 14,
        Action::ScrollIntoView => 15,
        Action::ScrollToPoint => 16,
        Action::SetScrollOffset => 17,
        Action::SetTextSelection => 18,
        Action::SetSequentialFocusNavigationStartingPoint => 19,
        Action::SetValue => 20,
        Action::ShowContextMenu => 21,
    }
}

/// Distinct actions occupy distinct bits.
pub proof fn lemma_action_codes_distinct(a: Action, b: Action)
    requires
        a != b,
    ensures
        spec_action_code(a) != spec_action_code(b),
{
}

/// The numeric code a role is written as in capture records.
pub open spec fn spec_role_code(r: Role) -> u32 {
    match r {
        Role::Unknown => 0,
        Role::TextInput => 1,
        Role::Button => 2,
        Role::CheckBox => 3,
        Role::ComboBox => 4,
        Role::Dialog => 5,
        Role::Image => 6,
        Role::Label => 7,
        Role::Link => 8,
        Role::List => 9,
        Role::ListItem => 10,
        Role::Menu => 11,
        Role::MenuItem => 12,
        Role::ProgressIndicator => 13,
        Role::RadioButton => 14,
        Role::Row => 15,
        Role::Slider => 16,
        Role::Window => 17,
    }
}

/// The numeric code of a role, computed.
pub fn role_code(r: Role) -> (k: u32)
    ensures
        k == spec_role_code(r),
{
    match r {
        Role::Unknown => 0,
        Role::TextInput => 1,
        Role::Button => 2,
        Role::CheckBox => 3,
        Role::ComboBox => 4,
        Role::Dialog => 5,
        Role::Image => 6,
        Role::Label => 7,
        Role::Link => 8,
        Role::List => 9,
        Role::ListItem => 10,
        Role::Menu => 11,
        Role::MenuItem => 12,
        Role::ProgressIndicator => 13,
        Role::RadioButton => 14,
        Role::Row => 15,
        Role::Slider => 16,
        Role::Window => 17,
    }
}

/// The numeric code a toggled state is written as in capture records.
pub open spec fn spec_toggled_code(t: Toggled) -> u32 {
    match t {
        Toggled::False => 0,
        Toggled::True => 1,
        Toggled::Mixed => 2,
    }
}

/// The numeric code of a toggled state, computed.
pub fn toggled_code(t: Toggled) -> (k: u32)
    ensures
        k == spec_toggled_code(t),
{
    match t {
        Toggled::False => 0,
        Toggled::True => 1,
        Toggled::Mixed => 2,
    }
}

/// The bit index of a flag in a node's flag mask.
pub open spec fn spec_flag_code(f: Flag) -> u32 {
    match f {
        Flag::Hidden => 0,
        Flag::Multiselectable => 1,
        Flag::Required => 2,
        Flag::Visited => 3,
        Flag::Busy => 4,
        Flag::LiveAtomic => 5,
        Flag::Modal => 6,
        Flag::TouchTransparent => 7,
        Flag::ReadOnly => 8,
        Flag::Disabled => 9,
        Flag::Bold => 10,
        Flag::Italic => 11,
        Flag::ClipsChildren => 12,
        Flag::IsLineBreakingObject => 13,
        Flag::IsPageBreakingObject => 14,
        Flag::IsSpellingError => 15,
        Flag::IsGrammarError => 16,
        Flag::IsSearchMatch => 17,
        Flag::IsSuggestion => 18,
    }
}

/// The bit index of a flag, computed.
pub fn flag_code(f: Flag) -> (k: u32)
    ensures
        k == spec_flag_code(f),
        k < 32,
{
    match f {
        Flag::Hidden => 0,
        Flag::Multiselectable => 1,
        Flag::Required => 2,
        Flag::Visited => 3,
        Flag::Busy => 4,
        Flag::LiveAtomic => 5,
        Flag::Modal => 6,
        Flag::TouchTransparent => 7,
        Flag::ReadOnly => 8,
        Flag::Disabled => 9,
        Flag::Bold => 10,
        Flag::Italic => 11,
        Flag::ClipsChildren => 12,
        Flag::IsLineBreakingObject => 13,
        Flag::IsPageBreakingObject => 14,
        Flag::IsSpellingError => 15,
        Flag::IsGrammarError => 16,
        Flag::IsSearchMatch => 17,
        Flag::IsSuggestion => 18,
    }
}

/// Distinct flags occupy distinct bits.
pub proof fn lemma_flag_codes_distinct(a: Flag, b: Flag)
    requires
        a != b,
    ensures
        spec_flag_code(a) != spec_flag_code(b),
{
}

/// True when the action mask `bits` contains `a`.
pub open spec fn has_action(bits: u32, a: Action) -> bool {
    bits::bit_set(bits, spec_action_code(a))
}

/// True when the flag mask `bits` contains `f`.
pub open spec fn has_flag(bits: u32, f: Flag) -> bool {
    bits::bit_set(bits, spec_flag_code(f))
}

/// The optional value of a text property, abstracted.
pub open spec fn opt_text_abs(o: Option<Vec<char>>) -> Option<Seq<char>> {
    match o {
        Some(v) => Some(v@),
        None => None,
    }
}

/// An owned accessibility node.
#[derive(Clone, Debug, PartialEq)]
pub struct Node {
    pub role: Role,
    pub actions: u32,
    pub child_actions: u32,
    pub flags: u32,
    pub children: Vec<NodeId>,
    pub active_descendant: Option<NodeId>,
    pub label: Option<Vec<char>>,
    pub level: Option<usize>,
    pub color_value: Option<u32>,
    pub toggled: Option<Toggled>,
    pub selected: Option<bool>,
    pub character_lengths: Vec<u8>,
    pub custom_actions: Vec<CustomAction>,
    pub text_selection: Option<TextSelection>,
}

/// The mathematical value of a node.
#[verifier::ext_equal]
pub ghost struct NodeAbs {
    pub role: Role,
    pub actions: u32,
    pub child_actions: u32,
    pub flags: u32,
    pub children: Seq<NodeId>,
    pub active_descendant: Option<NodeId>,
    pub label: Option<Seq<char>>,
    pub level: Option<usize>,
    pub color_value: Option<u32>,
    pub toggled: Option<Toggled>,
    pub selected: Option<bool>,
    pub character_lengths: Seq<u8>,
    pub custom_actions: Seq<CustomActionAbs>,
    pub text_selection: Option<TextSelection>,
}

impl View for Node {
    type V = NodeAbs;

    open spec fn view(&self) -> NodeAbs {
        NodeAbs {
            role: self.role,
            actions: self.actions,
            child_actions: self.child_actions,
            flags: self.flags,
            children: self.children@,
            active_descendant: self.active_descendant,
            label: opt_text_abs(self.label),
            level: self.level,
            color_value: self.color_value,
            toggled: self.toggled,
            selected: self.selected,
            character_lengths: self.character_lengths@,
            custom_actions: self.custom_actions@.map_values(|c: CustomAction| c@),
            text_selection: self.text_selection,
        }
    }
}

impl Node {
    /// A fresh node with the given role and every property absent.
    pub fn new(role: Role) -> (node: Node)
        ensures
            node@ == (NodeAbs {
                role,
                actions: 0,
                child_actions: 0,
                flags: 0,
                children: Seq::<NodeId>::empty(),
                active_descendant: None,
                label: None,
                level: None,
                color_value: None,
                toggled: None,
                selected: None,
                character_lengths: Seq::<u8>::empty(),
                custom_actions: Seq::<CustomActionAbs>::empty(),
                text_selection: None,
            }),
    {
        let node = Node {
            role,
            actions: 0,
            child_actions: 0,
            flags: 0,
            children: Vec::new(),
            active_descendant: None,
            label: None,
            level: None,
            color_value: None,
            toggled: None,
            selected: None,
            character_lengths: Vec::new(),
            custom_actions: Vec::new(),
            text_selection: None,
        };
        proof {
            assert(node@ =~= (NodeAbs {
                role,
                actions: 0,
                child_actions: 0,
                flags: 0,
                children: Seq::<NodeId>::empty(),
                active_descendant: None,
                label: None,
                level: None,
                color_value: None,
                toggled: None,
                selected: None,
                character_lengths: Seq::<u8>::empty(),
                custom_actions: Seq::<CustomActionAbs>::empty(),
                text_selection: None,
            }));
        }
        node
    }

    /// The node's role.
    pub fn role(&self) -> (r: Role)
        ensures
            r == self.role,
    {
        self.role
    }

    /// Replaces the node's role.
    pub fn set_role(&mut self, role: Role)
        ensures
            final(self)@ == (NodeAbs { role, ..old(self)@ }),
    {
        self.role = role;
    }

    /// Whether the node supports `action`.
    pub fn supports_action(&self, action: Action) -> (r: bool)
        ensures
            r == has_action(self.actions, action),
    {
        bits::test_bit(self.actions, action_code(action))
    }

    /// Adds `action` to the supported set; every other action keeps its
    /// membership.
    pub fn add_action(&mut self, action: Action)
        ensures
            final(self)@ == (NodeAbs { actions: final(self).actions, ..old(self)@ }),
            final(self).actions == (old(self).actions | (1u32 << spec_action_code(action))),
            has_action(final(self).actions, action),
            forall|b: Action|
                b != action ==> has_action(final(self).actions, b) == has_action(
                    old(self).actions,
                    b,
                ),
    {
        self.actions = bits::with_bit(self.actions, action_code(action));
        proof {
            assert forall|b: Action|
                b != action implies has_action(self.actions, b) == has_action(
                old(self).actions,
                b,
            ) by {
                lemma_action_codes_distinct(action, b);
            }
        }
    }

    /// Removes `action` from the supported set; every other action keeps
    /// its membership.
    pub fn remove_action(&mut self, action: Action)
        ensures
            final(self)@ == (NodeAbs { actions: final(self).actions, ..old(self)@ }),
            final(self).actions == (old(self).actions & !(1u32 << spec_action_code(action))),
            !has_action(final(self).actions, action),
            forall|b: Action|
                b != action ==> has_action(final(self).actions, b) == has_action(
                    old(self).actions,
                    b,
                ),
    {
        self.actions = bits::without_bit(self.actions, action_code(action));
        proof {
            assert forall|b: Action|
                b != action implies has_action(self.actions, b) == has_action(
                old(self).actions,
                b,
            ) by {
                lemma_action_codes_distinct(action, b);
            }
        }
    }

    /// Empties the supported action set.
    pub fn clear_actions(&mut self)
        ensures
            final(self)@ == (NodeAbs { actions: 0, ..old(self)@ }),
            forall|b: Action| !has_action(final(self).actions, b),
    {
        self.actions = 0;
        proof {
            assert forall|b: Action| !has_action(self.actions, b) by {
                bits::lemma_empty_mask(spec_action_code(b));
            }
        }
    }

    /// Whether `action` is supported on the node's direct children in the
    /// filtered tree.
    pub fn child_supports_action(&self, action: Action) -> (r: bool)
        ensures
            r == has_action(self.child_actions, action),
    {
        bits::test_bit(self.child_actions, action_code(action))
    }

    /// Adds `action` to the set supported on the node's direct children.
    pub fn add_child_action(&mut self, action: Action)
        ensures
            final(self)@ == (NodeAbs { child_actions: final(self).child_actions, ..old(self)@ }),
            final(self).child_actions == (old(self).child_actions | (1u32 << spec_action_code(
                action,
            ))),
            has_action(final(self).child_actions, action),
            forall|b: Action|
                b != action ==> has_action(final(self).child_actions, b) == has_action(
                    old(self).child_actions,
                    b,
                ),
    {
        self.child_actions = bits::with_bit(self.child_actions, action_code(action));
        proof {
            assert forall|b: Action|
                b != action implies has_action(self.child_actions, b) == has_action(
                old(self).child_actions,
                b,
            ) by {
                lemma_action_codes_distinct(action, b);
            }
        }
    }

    /// Removes `action` from the set supported on the node's direct
    /// children.
    pub fn remove_child_action(&mut self, action: Action)
        ensures
            final(self)@ == (NodeAbs { child_actions: final(self).child_actions, ..old(self)@ }),
            final(self).child_actions == (old(self).child_actions & !(1u32 << spec_action_code(
                action,
            ))),
            !has_action(final(self).child_actions, action),
            forall|b: Action|
                b != action ==> has_action(final(self).child_actions, b) == has_action(
                    old(self).child_actions,
                    b,
                ),
    {
        self.child_actions = bits::without_bit(self.child_actions, action_code(action));
        proof {
            assert forall|b: Action|
                b != action implies has_action(self.child_actions, b) == has_action(
                old(self).child_actions,
                b,
            ) by {
                lemma_action_codes_distinct(action, b);
            }
        }
    }

    /// Empties the set of actions supported on the node's direct children.
    pub fn clear_child_actions(&mut self)
        ensures
            final(self)@ == (NodeAbs { child_actions: 0, ..old(self)@ }),
    {
        self.child_actions = 0;
    }

    /// Whether the boolean property `flag` is set.
    pub fn flag(&self, flag: Flag) -> (r: bool)
        ensures
            r == has_flag(self.flags, flag),
    {
        bits::test_bit(self.flags, flag_code(flag))
    }

    /// Sets the boolean property `flag`; every other flag keeps its value.
    pub fn set_flag(&mut self, flag: Flag)
        ensures
            final(self)@ == (NodeAbs { flags: final(self).flags, ..old(self)@ }),
            final(self).flags == (old(self).flags | (1u32 << spec_flag_code(flag))),
            has_flag(final(self).flags, flag),
            forall|g: Flag|
                g != flag ==> has_flag(final(self).flags, g) == has_flag(old(self).flags, g),
    {
        self.flags = bits::with_bit(self.flags, flag_code(flag));
        proof {
            assert forall|g: Flag|
                g != flag implies has_flag(self.flags, g) == has_flag(old(self).flags, g) by {
                lemma_flag_codes_distinct(flag, g);
            }
        }
    }

    /// Clears the boolean property `flag`; every other flag keeps its
    /// value.
    pub fn clear_flag(&mut self, flag: Flag)
        ensures
            final(self)@ == (NodeAbs { flags: final(self).flags, ..old(self)@ }),
            final(self).flags == (old(self).flags & !(1u32 << spec_flag_code(flag))),
            !has_flag(final(self).flags, flag),
            forall|g: Flag|
                g != flag ==> has_flag(final(self).flags, g) == has_flag(old(self).flags, g),
    {
        self.flags = bits::without_bit(self.flags, flag_code(flag));
        proof {
            assert forall|g: Flag|
                g != flag implies has_flag(self.flags, g) == has_flag(old(self).flags, g) by {
                lemma_flag_codes_distinct(flag, g);
            }
        }
    }

    /// The node's children, in order.
    pub fn children(&self) -> (r: &Vec<NodeId>)
        ensures
            r@ == self@.children,
    {
        &self.children
    }

    /// Replaces the children with a caller-supplied sequence, copied
    /// element for element in order: the caller keeps its buffer.
    pub fn set_children(&mut self, values: &Vec<NodeId>)
        ensures
            final(self)@ == (NodeAbs { children: values@, ..old(self)@ }),
    {
        let mut copied: Vec<NodeId> = Vec::new();
        let mut i: usize = 0;
        while i < values.len()
            invariant
                i <= values@.len(),
                copied@ == values@.take(i as int),
            decreases values@.len() - i,
        {
            copied.push(values[i]);
            proof {
                assert(copied@ =~= values@.take(i + 1));
            }
            i = i + 1;
        }
        proof {
            assert(values@.take(values@.len() as int) =~= values@);
        }
        self.children = copied;
    }

    /// Appends one child id, preserving the order of the others.
    pub fn push_child(&mut self, id: NodeId)
        ensures
            final(self)@ == (NodeAbs { children: old(self)@.children.push(id), ..old(self)@ }),
    {
        self.children.push(id);
    }

    /// Removes every child.
    pub fn clear_children(&mut self)
        ensures
            final(self)@ == (NodeAbs { children: Seq::<NodeId>::empty(), ..old(self)@ }),
    {
        self.children = Vec::new();
        proof {
            assert(self.children@ =~= Seq::<NodeId>::empty());
        }
    }

    /// The active descendant, if any.
    pub fn active_descendant(&self) -> (r: Option<NodeId>)
        ensures
            r == self.active_descendant,
    {
        self.active_descendant
    }

    /// The active descendant in its boundary encoding.
    pub fn active_descendant_opt(&self) -> (r: OptValue<NodeId>)
        ensures
            r == optional::spec_encode(self.active_descendant, 0u64),
    {
        optional::encode(self.active_descendant, 0)
    }

    /// Points the active descendant at `id`.
    pub fn set_active_descendant(&mut self, id: NodeId)
        ensures
            final(self)@ == (NodeAbs { active_descendant: Some(id), ..old(self)@ }),
    {
        self.active_descendant = Some(id);
    }

    /// Clears the active descendant.
    pub fn clear_active_descendant(&mut self)
        ensures
            final(self)@ == (NodeAbs { active_descendant: None, ..old(self)@ }),
    {
        self.active_descendant = None;
    }

    /// The label text, if any.
    pub fn label(&self) -> (r: &Option<Vec<char>>)
        ensures
            opt_text_abs(*r) == self@.label,
    {
        &self.label
    }

    /// Replaces the label, taking ownership of the text.
    pub fn set_label(&mut self, text: Vec<char>)
        ensures
            final(self)@ == (NodeAbs { label: Some(text@), ..old(self)@ }),
    {
        self.label = Some(text);
    }

    /// Replaces the label from a length-prefixed byte sequence, decoding it
    /// as UTF-8 with lossy replacement. The caller keeps its buffer.
    pub fn set_label_bytes(&mut self, bytes: &Vec<u8>)
        ensures
            final(self)@ == (NodeAbs { label: Some(text::lossy_decode(bytes@)), ..old(self)@ }),
    {
        let text = text::decode_text_lossy(bytes);
        self.label = Some(text);
    }

    /// Replaces the label from a zero-terminated byte sequence, decoding the
    /// bytes before the terminator as UTF-8 with lossy replacement. The
    /// caller keeps its buffer.
    pub fn set_label_c_string(&mut self, bytes: &Vec<u8>)
        requires
            bytes@.contains(0),
        ensures
            final(self)@ == (NodeAbs {
                label: Some(text::lossy_decode(bytes@.take(text::nul_index(bytes@)))),
                ..old(self)@
            }),
    {
        let text = text::decode_c_string(bytes);
        self.label = Some(text);
    }

    /// Clears the label.
    pub fn clear_label(&mut self)
        ensures
            final(self)@ == (NodeAbs { label: None, ..old(self)@ }),
    {
        self.label = None;
    }

    /// Hands the label out in its zero-terminated boundary form, as a fresh
    /// owned handle in the string store, or the null handle when the label
    /// is absent. A label with an embedded NUL cannot cross in this form;
    /// that is a contract violation ruled out by `requires`.
    pub fn label_c_string(&self, strings: &mut HandleStore<Vec<u8>>) -> (h: usize)
        requires
            self@.label is Some ==> text::nul_free(self@.label.unwrap()),
        ensures
            self@.label is None ==> h == 0 && *final(strings) == *old(strings),
            self@.label is Some ==> h != 0 && !old(strings).live(h) && final(strings).live(h)
                && final(strings).value_of(h)@ == text::c_string_bytes(self@.label.unwrap())
                && final(strings).contents() == old(strings).contents().insert(
                h,
                final(strings).value_of(h),
            ),
    {
        match &self.label {
            None => 0,
            Some(text) => {
                let bytes = text::encode_c_string(text);
                let h = strings.to_handle(bytes);
                proof {
                    assert(strings.contents()[h] == strings.value_of(h));
                    assert(strings.value_of(h) == bytes);
                }
                h
            },
        }
    }

    /// The structural level, if any.
    pub fn level(&self) -> (r: Option<usize>)
        ensures
            r == self.level,
    {
        self.level
    }

    /// The structural level in its boundary encoding.
    pub fn level_opt(&self) -> (r: OptValue<usize>)
        ensures
            r == optional::spec_encode(self.level, 0usize),
    {
        optional::encode(self.level, 0)
    }

    /// Replaces the structural level.
    pub fn set_level(&mut self, level: usize)
        ensures
            final(self)@ == (NodeAbs { level: Some(level), ..old(self)@ }),
    {
        self.level = Some(level);
    }

    /// Clears the structural level.
    pub fn clear_level(&mut self)
        ensures
            final(self)@ == (NodeAbs { level: None, ..old(self)@ }),
    {
        self.level = None;
    }

    /// The color value, if any.
    pub fn color_value(&self) -> (r: Option<u32>)
        ensures
            r == self.color_value,
    {
        self.color_value
    }

    /// Replaces the color value.
    pub fn set_color_value(&mut self, color: u32)
        ensures
            final(self)@ == (NodeAbs { color_value: Some(color), ..old(self)@ }),
    {
        self.color_value = Some(color);
    }

    /// Clears the color value.
    pub fn clear_color_value(&mut self)
        ensures
            final(self)@ == (NodeAbs { color_value: None, ..old(self)@ }),
    {
        self.color_value = None;
    }

    /// The toggled state, if any.
    pub fn toggled(&self) -> (r: Option<Toggled>)
        ensures
            r == self.toggled,
    {
        self.toggled
    }

    /// Replaces the toggled state.
    pub fn set_toggled(&mut self, value: Toggled)
        ensures
            final(self)@ == (NodeAbs { toggled: Some(value), ..old(self)@ }),
    {
        self.toggled = Some(value);
    }

    /// Clears the toggled state.
    pub fn clear_toggled(&mut self)
        ensures
            final(self)@ == (NodeAbs { toggled: None, ..old(self)@ }),
    {
        self.toggled = None;
    }

    /// The selected state, if any.
    pub fn selected(&self) -> (r: Option<bool>)
        ensures
            r == self.selected,
    {
        self.selected
    }

    /// The selected state in its boundary encoding.
    pub fn selected_opt(&self) -> (r: OptValue<bool>)
        ensures
            r == optional::spec_encode(self.selected, false),
    {
        optional::encode(self.selected, false)
    }

    /// Replaces the selected state.
    pub fn set_selected(&mut self, value: bool)
        ensures
            final(self)@ == (NodeAbs { selected: Some(value), ..old(self)@ }),
    {
        self.selected = Some(value);
    }

    /// Clears the selected state.
    pub fn clear_selected(&mut self)
        ensures
            final(self)@ == (NodeAbs { selected: None, ..old(self)@ }),
    {
        self.selected = None;
    }

    /// The per-character byte lengths of the node's text.
    pub fn character_lengths(&self) -> (r: &Vec<u8>)
        ensures
            r@ == self@.character_lengths,
    {
        &self.character_lengths
    }

    /// Replaces the per-character lengths with a caller-supplied sequence,
    /// copied element for element in order: the caller keeps its buffer.
    pub fn set_character_lengths(&mut self, values: &Vec<u8>)
        ensures
            final(self)@ == (NodeAbs { character_lengths: values@, ..old(self)@ }),
    {
        let mut copied: Vec<u8> = Vec::new();
        let mut i: usize = 0;
        while i < values.len()
            invariant
                i <= values@.len(),
                copied@ == values@.take(i as int),
            decreases values@.len() - i,
        {
            copied.push(values[i]);
            proof {
                assert(copied@ =~= values@.take(i + 1));
            }
            i = i + 1;
        }
        proof {
            assert(values@.take(values@.len() as int) =~= values@);
        }
        self.character_lengths = copied;
    }

    /// Clears the per-character lengths.
    pub fn clear_character_lengths(&mut self)
        ensures
            final(self)@ == (NodeAbs { character_lengths: Seq::<u8>::empty(), ..old(self)@ }),
    {
        self.character_lengths = Vec::new();
        proof {
            assert(self.character_lengths@ =~= Seq::<u8>::empty());
        }
    }

    /// Appends one custom action, preserving the order of the others.
    pub fn push_custom_action(&mut self, action: CustomAction)
        ensures
            final(self)@ == (NodeAbs {
                custom_actions: old(self)@.custom_actions.push(action@),
                ..old(self)@
            }),
    {
        self.custom_actions.push(action);
        proof {
            assert(self.custom_actions@.map_values(|c: CustomAction| c@) =~= old(
                self,
            )@.custom_actions.push(action@));
        }
    }

    /// Replaces the custom actions, taking ownership of the sequence.
    pub fn set_custom_actions(&mut self, actions: Vec<CustomAction>)
        ensures
            final(self)@ == (NodeAbs {
                custom_actions: actions@.map_values(|c: CustomAction| c@),
                ..old(self)@
            }),
    {
        self.custom_actions = actions;
    }

    /// Clears the custom actions.
    pub fn clear_custom_actions(&mut self)
        ensures
            final(self)@ == (NodeAbs {
                custom_actions: Seq::<CustomActionAbs>::empty(),
                ..old(self)@
            }),
    {
        self.custom_actions = Vec::new();
        proof {
            assert(self.custom_actions@.map_values(|c: CustomAction| c@)
                =~= Seq::<CustomActionAbs>::empty());
        }
    }

    /// The custom actions, in order.
    pub fn custom_actions(&self) -> (r: &Vec<CustomAction>)
        ensures
            r@.map_values(|c: CustomAction| c@) == self@.custom_actions,
    {
        &self.custom_actions
    }

    /// The text selection in its boundary encoding: a presence flag and a
    /// selection record that is meaningful only when the flag is set.
    pub fn text_selection_opt(&self) -> (r: OptValue<TextSelection>)
        ensures
            r == optional::spec_encode(
                self.text_selection,
                (TextSelection {
                    anchor: (TextPosition { node: 0, character_index: 0 }),
                    focus: (TextPosition { node: 0, character_index: 0 }),
                }),
            ),
    {
        optional::encode(
            self.text_selection,
            TextSelection {
                anchor: TextPosition { node: 0, character_index: 0 },
                focus: TextPosition { node: 0, character_index: 0 },
            },
        )
    }

    /// Replaces the text selection.
    pub fn set_text_selection(&mut self, selection: TextSelection)
        ensures
            final(self)@ == (NodeAbs { text_selection: Some(selection), ..old(self)@ }),
    {
        self.text_selection = Some(selection);
    }

    /// Clears the text selection.
    pub fn clear_text_selection(&mut self)
        ensures
            final(self)@ == (NodeAbs { text_selection: None, ..old(self)@ }),
    {
        self.text_selection = None;
    }
}

} // verus!
