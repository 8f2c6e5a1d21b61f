use accesskit_c::eq::{node_eq, tree_eq, update_eq};
use accesskit_c::handle::HandleStore;
use accesskit_c::node::{Action, CustomAction, Flag, Node, Role, TextPosition, TextSelection, Toggled};
use accesskit_c::text::string_free;
use accesskit_c::tree::{Tree, TreeUpdate};

fn chars(s: &str) -> Vec<char> {
    s.chars().collect()
}

#[test]
fn node_new_has_no_properties() {
    let node = Node::new(Role::Button);
    assert_eq!(node.role(), Role::Button);
    assert!(!node.supports_action(Action::Click));
    assert!(!node.flag(Flag::Hidden));
    assert!(node.children().is_empty());
    assert!(node.label().is_none());
    assert_eq!(node.level(), None);
    assert_eq!(node.toggled(), None);
}

#[test]
fn node_actions_add_remove() {
    let mut node = Node::new(Role::Button);
    node.add_action(Action::Click);
    node.add_action(Action::Focus);
    assert!(node.supports_action(Action::Click));
    assert!(node.supports_action(Action::Focus));
    assert!(!node.supports_action(Action::Blur));
    node.remove_action(Action::Click);
    assert!(!node.supports_action(Action::Click));
    assert!(node.supports_action(Action::Focus));
    node.clear_actions();
    assert!(!node.supports_action(Action::Focus));
}

#[test]
fn node_child_actions() {
    let mut node = Node::new(Role::List);
    node.add_child_action(Action::ScrollIntoView);
    assert!(node.child_supports_action(Action::ScrollIntoView));
    assert!(!node.supports_action(Action::ScrollIntoView));
    node.remove_child_action(Action::ScrollIntoView);
    assert!(!node.child_supports_action(Action::ScrollIntoView));
}

#[test]
fn node_flags_are_independent() {
    let mut node = Node::new(Role::TextInput);
    node.set_flag(Flag::ReadOnly);
    node.set_flag(Flag::Bold);
    assert!(node.flag(Flag::ReadOnly));
    assert!(node.flag(Flag::Bold));
    assert!(!node.flag(Flag::Hidden));
    node.clear_flag(Flag::ReadOnly);
    assert!(!node.flag(Flag::ReadOnly));
    assert!(node.flag(Flag::Bold));
}

#[test]
fn node_children_order_kept() {
    let mut node = Node::new(Role::List);
    node.set_children(&vec![5, 3]);
    node.push_child(8);
    assert_eq!(node.children(), &vec![5, 3, 8]);
    node.clear_children();
    assert!(node.children().is_empty());
}

#[test]
fn node_label_from_bytes() {
    let mut node = Node::new(Role::Label);
    node.set_label_bytes(&vec![0x68, 0x69]);
    assert_eq!(node.label().as_ref().unwrap(), &chars("hi"));
    node.set_label_c_string(&vec![0x6F, 0x6B, 0, 0x7A]);
    assert_eq!(node.label().as_ref().unwrap(), &chars("ok"));
    node.clear_label();
    assert!(node.label().is_none());
}

#[test]
fn node_label_c_string_out() {
    let mut strings: HandleStore<Vec<u8>> = HandleStore::new();
    let mut node = Node::new(Role::Label);
    assert_eq!(node.label_c_string(&mut strings), 0);
    node.set_label(chars("ab"));
    let h = node.label_c_string(&mut strings);
    assert!(h != 0);
    assert_eq!(*strings.from_handle(h), vec![0x61, 0x62, 0]);
    string_free(&mut strings, h);
}

#[test]
fn node_scalar_properties() {
    let mut node = Node::new(Role::Row);
    node.set_level(3);
    assert_eq!(node.level(), Some(3));
    let enc = node.level_opt();
    assert!(enc.has_value && enc.value == 3);
    node.clear_level();
    assert!(!node.level_opt().has_value);

    node.set_color_value(0x00FF00FF);
    assert_eq!(node.color_value(), Some(0x00FF00FF));
    node.clear_color_value();
    assert_eq!(node.color_value(), None);

    node.set_toggled(Toggled::Mixed);
    assert_eq!(node.toggled(), Some(Toggled::Mixed));
    node.clear_toggled();

    node.set_selected(true);
    assert_eq!(node.selected(), Some(true));
    let enc = node.selected_opt();
    assert!(enc.has_value && enc.value);
    node.clear_selected();
    assert!(!node.selected_opt().has_value);
}

#[test]
fn node_character_lengths_copied() {
    let mut node = Node::new(Role::TextInput);
    let buffer: Vec<u8> = vec![1, 2, 1];
    node.set_character_lengths(&buffer);
    assert_eq!(node.character_lengths(), &buffer);
    node.clear_character_lengths();
    assert!(node.character_lengths().is_empty());
}

#[test]
fn node_text_selection() {
    let mut node = Node::new(Role::TextInput);
    assert!(!node.text_selection_opt().has_value);
    let sel = TextSelection {
        anchor: TextPosition { node: 1, character_index: 0 },
        focus: TextPosition { node: 1, character_index: 4 },
    };
    node.set_text_selection(sel);
    let enc = node.text_selection_opt();
    assert!(enc.has_value);
    assert_eq!(enc.value, sel);
    node.clear_text_selection();
    assert!(!node.text_selection_opt().has_value);
}

#[test]
fn tree_toolkit_metadata() {
    let mut strings: HandleStore<Vec<u8>> = HandleStore::new();
    let mut tree = Tree::new(7);
    assert_eq!(tree.toolkit_name_c_string(&mut strings), 0);
    tree.set_toolkit_name(chars("kit"));
    tree.set_toolkit_version_c_string(&vec![0x31, 0x2E, 0x30, 0]);
    let h = tree.toolkit_name_c_string(&mut strings);
    assert_eq!(*strings.from_handle(h), vec![0x6B, 0x69, 0x74, 0]);
    string_free(&mut strings, h);
    let h = tree.toolkit_version_c_string(&mut strings);
    assert_eq!(*strings.from_handle(h), vec![0x31, 0x2E, 0x30, 0]);
    string_free(&mut strings, h);
    tree.clear_toolkit_name();
    tree.clear_toolkit_version();
    assert_eq!(tree.toolkit_name_c_string(&mut strings), 0);
    assert_eq!(tree.toolkit_version_c_string(&mut strings), 0);
}

#[test]
fn tree_toolkit_name_lossy_from_bytes() {
    let mut tree = Tree::new(1);
    tree.set_toolkit_name_bytes(&vec![0xE0, 0xA0]);
    // The truncated sequence is one maximal subpart: one replacement
    // character, exactly as the length-prefixed decoding states.
    assert_eq!(tree.toolkit_name.as_ref().unwrap(), &vec!['\u{fffd}']);
}

#[test]
fn update_push_preserves_order() {
    let mut update = TreeUpdate::with_focus(1);
    update.push_node(1, Node::new(Role::Window));
    update.push_node(2, Node::new(Role::Button));
    assert_eq!(update.nodes.len(), 2);
    assert_eq!(update.nodes[0].0, 1);
    assert_eq!(update.nodes[1].0, 2);
    assert_eq!(update.focus, 1);
}

#[test]
fn update_push_node_from_handle_transfers() {
    let mut nodes: HandleStore<Node> = HandleStore::new();
    let h = nodes.to_handle(Node::new(Role::Image));
    let mut update = TreeUpdate::with_capacity_and_focus(4, 9);
    update.push_node_from_handle(3, &mut nodes, h);
    assert_eq!(update.nodes[0].0, 3);
    assert_eq!(update.nodes[0].1.role(), Role::Image);
}

#[test]
fn update_set_tree_from_handle() {
    let mut trees: HandleStore<Tree> = HandleStore::new();
    let h = trees.to_handle(Tree::new(4));
    let mut update = TreeUpdate::with_focus(4);
    update.set_tree_from_handle(&mut trees, h);
    assert_eq!(update.tree.as_ref().unwrap().root, 4);
    update.clear_tree();
    assert!(update.tree.is_none());
    update.set_focus(8);
    assert_eq!(update.focus, 8);
}

#[test]
fn structural_equality() {
    let mut a = Node::new(Role::Button);
    a.set_label(chars("go"));
    a.push_custom_action(CustomAction { id: 1, description: chars("do") });
    let mut b = Node::new(Role::Button);
    b.set_label(chars("go"));
    b.push_custom_action(CustomAction { id: 1, description: chars("do") });
    assert!(node_eq(&a, &b));
    b.set_label(chars("stop"));
    assert!(!node_eq(&a, &b));

    let t1 = Tree::new(1);
    let mut t2 = Tree::new(1);
    assert!(tree_eq(&t1, &t2));
    t2.set_toolkit_name(chars("kit"));
    assert!(!tree_eq(&t1, &t2));

    let mut u1 = TreeUpdate::with_focus(1);
    u1.push_node(1, a);
    let mut u2 = TreeUpdate::with_focus(1);
    let mut a2 = Node::new(Role::Button);
    a2.set_label(chars("go"));
    a2.push_custom_action(CustomAction { id: 1, description: chars("do") });
    u2.push_node(1, a2);
    assert!(update_eq(&u1, &u2));
    u2.set_focus(2);
    assert!(!update_eq(&u1, &u2));
}
