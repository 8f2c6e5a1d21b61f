use accesskit_c::capture::{
    apply_init, capture_step, commit, wants_capture, CaptureLog, CaptureState,
};
use accesskit_c::node::{Node, Role};
use accesskit_c::record::{node_record_bytes, tree_record_bytes, update_record_bytes};
use accesskit_c::tree::{Tree, TreeUpdate};

fn chars(s: &str) -> Vec<char> {
    s.chars().collect()
}

#[test]
fn wants_capture_needs_nonempty_path() {
    assert!(!wants_capture(&None));
    assert!(!wants_capture(&Some(Vec::new())));
    assert!(wants_capture(&Some(chars("/tmp/capture.log"))));
}

#[test]
fn init_is_one_way() {
    let mut log = CaptureLog::Uninitialized;
    apply_init(&mut log, false);
    assert!(matches!(log, CaptureLog::Disabled));

    let mut log = CaptureLog::Uninitialized;
    apply_init(&mut log, true);
    assert!(matches!(log, CaptureLog::Enabled(CaptureState { last: None })));
}

#[test]
fn disabled_capture_is_a_no_op() {
    // A failed open (for example, a directory that does not exist)
    // disables capture for good; every later call writes nothing.
    let mut log = CaptureLog::Uninitialized;
    apply_init(&mut log, false);
    let update = TreeUpdate::with_focus(1);
    assert!(capture_step(&log, &update).is_none());
    assert!(capture_step(&log, &TreeUpdate::with_focus(2)).is_none());
}

#[test]
fn duplicate_updates_write_one_record() {
    let mut log = CaptureLog::Enabled(CaptureState { last: None });
    let update = TreeUpdate::with_focus(1);
    let line = capture_step(&log, &update).expect("first submission is recorded");
    assert!(line.ends_with(b"\n"));
    commit(&mut log, update.clone());
    // The same value submitted again in a row is skipped.
    assert!(capture_step(&log, &update).is_none());
}

#[test]
fn distinct_updates_write_two_records_in_order() {
    let mut log = CaptureLog::Enabled(CaptureState { last: None });
    let first = TreeUpdate::with_focus(1);
    let second = TreeUpdate::with_focus(2);
    let line1 = capture_step(&log, &first).expect("first recorded");
    commit(&mut log, first);
    let line2 = capture_step(&log, &second).expect("second recorded");
    assert!(line1 != line2);
    let mut expected2 = update_record_bytes(&second);
    expected2.push(b'\n');
    assert_eq!(line2, expected2);
}

#[test]
fn record_of_empty_update() {
    let update = TreeUpdate::with_focus(1);
    let bytes = update_record_bytes(&update);
    assert_eq!(
        String::from_utf8(bytes).unwrap(),
        "{\"focus\":1,\"tree\":null,\"nodes\":[]}"
    );
}

#[test]
fn record_of_full_update() {
    let mut node = Node::new(Role::Button);
    node.add_action(accesskit_c::node::Action::Click);
    node.set_label(chars("Go"));
    node.set_level(2);
    let mut tree = Tree::new(1);
    tree.set_toolkit_name(chars("kit"));
    let mut update = TreeUpdate::with_focus(1);
    update.set_tree(tree);
    update.push_node(1, node);
    let bytes = update_record_bytes(&update);
    let text = String::from_utf8(bytes).unwrap();
    let expected = "{\"focus\":1,\"tree\":{\"root\":1,\"toolkit_name\":\"kit\",\"toolkit_version\":null},\"nodes\":[[1,{\"role\":2,\"actions\":1,\"child_actions\":0,\"flags\":0,\"children\":[],\"active_descendant\":null,\"label\":\"Go\",\"level\":2,\"color_value\":null,\"toggled\":null,\"selected\":null,\"character_lengths\":[],\"custom_actions\":[],\"text_selection\":null}]]}";
    assert_eq!(text, expected);
}

#[test]
fn record_escapes_label_text() {
    let mut node = Node::new(Role::Label);
    node.set_label(vec!['a', '"', '\\', '\n', 'b']);
    let mut update = TreeUpdate::with_focus(3);
    update.push_node(3, node);
    let bytes = update_record_bytes(&update);
    let text = String::from_utf8(bytes).unwrap();
    assert!(text.contains("\"label\":\"a\\\"\\\\\\nb\""));
    // The record never spans lines: the raw newline was escaped.
    assert!(!text.contains('\n'));
}

#[test]
fn record_numbers_are_decimal() {
    let update = TreeUpdate::with_focus(1234567890123);
    let bytes = update_record_bytes(&update);
    let text = String::from_utf8(bytes).unwrap();
    assert!(text.starts_with("{\"focus\":1234567890123,"));
}

#[test]
fn record_of_single_node() {
    let mut node = Node::new(Role::CheckBox);
    node.set_toggled(accesskit_c::node::Toggled::True);
    let text = String::from_utf8(node_record_bytes(&node)).unwrap();
    let expected = "{\"role\":3,\"actions\":0,\"child_actions\":0,\"flags\":0,\"children\":[],\"active_descendant\":null,\"label\":null,\"level\":null,\"color_value\":null,\"toggled\":1,\"selected\":null,\"character_lengths\":[],\"custom_actions\":[],\"text_selection\":null}";
    assert_eq!(text, expected);
}

#[test]
fn record_of_single_tree() {
    let tree = Tree::new(42);
    let text = String::from_utf8(tree_record_bytes(&tree)).unwrap();
    assert_eq!(
        text,
        "{\"root\":42,\"toolkit_name\":null,\"toolkit_version\":null}"
    );
}
