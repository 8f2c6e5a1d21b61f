use accesskit_c::action::{
    custom_action_new, custom_action_new_with_length, decode_custom_action,
    encode_action_data, encode_action_request, encode_custom_actions, free_custom_actions,
    release_action_data, release_action_request, ActionData, ActionDataEnc, ActionRequest,
    ScrollHint, ScrollUnit,
};
use accesskit_c::bridge::{
    decode_activation_result, take_factory_update, update_if_active, ActionBridge,
    ActivationBridge, AdapterGate, DeactivationBridge,
};
use accesskit_c::handle::HandleStore;
use accesskit_c::node::{Action, CustomAction, Node, Role, TextPosition, TextSelection};
use accesskit_c::tree::TreeUpdate;

fn chars(s: &str) -> Vec<char> {
    s.chars().collect()
}

#[test]
fn action_data_value_allocates_string() {
    let mut strings: HandleStore<Vec<u8>> = HandleStore::new();
    let enc = encode_action_data(ActionData::Value(chars("new text")), &mut strings);
    match enc {
        ActionDataEnc::Value(h) => {
            assert!(h != 0);
            let stored = strings.from_handle(h).clone();
            assert_eq!(stored, b"new text\0".to_vec());
            release_action_data(enc, &mut strings);
        }
        _ => panic!("expected a string payload"),
    }
}

#[test]
fn action_data_passthrough_variants() {
    let mut strings: HandleStore<Vec<u8>> = HandleStore::new();
    let enc = encode_action_data(ActionData::CustomAction(7), &mut strings);
    assert_eq!(enc, ActionDataEnc::CustomAction(7));
    release_action_data(enc, &mut strings);

    let enc = encode_action_data(ActionData::ScrollUnit(ScrollUnit::Page), &mut strings);
    assert_eq!(enc, ActionDataEnc::ScrollUnit(ScrollUnit::Page));

    let enc = encode_action_data(ActionData::ScrollHint(ScrollHint::TopEdge), &mut strings);
    assert_eq!(enc, ActionDataEnc::ScrollHint(ScrollHint::TopEdge));

    let sel = TextSelection {
        anchor: TextPosition { node: 2, character_index: 1 },
        focus: TextPosition { node: 2, character_index: 3 },
    };
    let enc = encode_action_data(ActionData::SetTextSelection(sel), &mut strings);
    assert_eq!(enc, ActionDataEnc::SetTextSelection(sel));
}

#[test]
fn action_request_round_trip_ownership() {
    let mut strings: HandleStore<Vec<u8>> = HandleStore::new();
    let req = ActionRequest {
        action: Action::ReplaceSelectedText,
        target: 12,
        data: Some(ActionData::Value(chars("abc"))),
    };
    let enc = encode_action_request(req, &mut strings);
    assert_eq!(enc.action, Action::ReplaceSelectedText);
    assert_eq!(enc.target, 12);
    assert!(enc.data.has_value);
    release_action_request(enc, &mut strings);
}

#[test]
fn action_request_without_data() {
    let mut strings: HandleStore<Vec<u8>> = HandleStore::new();
    let req = ActionRequest { action: Action::Click, target: 3, data: None };
    let enc = encode_action_request(req, &mut strings);
    assert!(!enc.data.has_value);
    release_action_request(enc, &mut strings);
}

#[test]
fn custom_action_from_c_string() {
    let mut strings: HandleStore<Vec<u8>> = HandleStore::new();
    let rec = custom_action_new(5, &b"press\0".to_vec(), &mut strings);
    assert_eq!(rec.id, 5);
    assert_eq!(*strings.from_handle(rec.description), b"press\0".to_vec());
    let decoded = decode_custom_action(&rec, &strings);
    assert_eq!(decoded.id, 5);
    assert_eq!(decoded.description, chars("press"));
    accesskit_c::action::release_custom_action(rec, &mut strings);
}

#[test]
fn custom_action_with_length_lossy() {
    let mut strings: HandleStore<Vec<u8>> = HandleStore::new();
    let rec = custom_action_new_with_length(-2, &vec![0x68, 0xFF], &mut strings);
    assert_eq!(rec.id, -2);
    let stored = strings.from_handle(rec.description).clone();
    // The invalid byte is replaced by U+FFFD, re-encoded as UTF-8.
    assert_eq!(stored, vec![0x68, 0xEF, 0xBF, 0xBD, 0]);
    accesskit_c::action::release_custom_action(rec, &mut strings);
}

#[test]
fn custom_actions_collection_round_trip() {
    let mut strings: HandleStore<Vec<u8>> = HandleStore::new();
    let actions = vec![
        CustomAction { id: 1, description: chars("one") },
        CustomAction { id: 2, description: chars("two") },
    ];
    let arr = encode_custom_actions(&actions, &mut strings);
    assert_eq!(arr.length(), 2);
    assert_eq!(arr.get(0).id, 1);
    assert_eq!(arr.get(1).id, 2);
    assert_eq!(*strings.from_handle(arr.get(0).description), b"one\0".to_vec());
    assert_eq!(*strings.from_handle(arr.get(1).description), b"two\0".to_vec());
    free_custom_actions(arr, &mut strings);
}

#[test]
fn bridges_store_callback_and_context() {
    let activation = ActivationBridge::new(Some(11), 21);
    assert_eq!(activation.callback, 11);
    assert_eq!(activation.context, 21);
    let action = ActionBridge::new(Some(12), 22);
    assert_eq!(action.callback, 12);
    let deactivation = DeactivationBridge::new(Some(13), 23);
    assert_eq!(deactivation.context, 23);
}

#[test]
fn activation_null_means_no_update() {
    let mut updates: HandleStore<TreeUpdate> = HandleStore::new();
    assert!(decode_activation_result(&mut updates, 0).is_none());
}

#[test]
fn activation_valid_handle_transfers_update() {
    let mut updates: HandleStore<TreeUpdate> = HandleStore::new();
    let h = updates.to_handle(TreeUpdate::with_focus(5));
    let got = decode_activation_result(&mut updates, h);
    // Distinguishable from the null case even for an empty update.
    let update = got.expect("an owned update");
    assert_eq!(update.focus, 5);
    assert!(update.nodes.is_empty());
}

#[test]
fn factory_update_transfers_exactly_once() {
    let mut updates: HandleStore<TreeUpdate> = HandleStore::new();
    let mut produced = TreeUpdate::with_focus(6);
    produced.push_node(6, Node::new(Role::Window));
    let h = updates.to_handle(produced);
    let update = take_factory_update(&mut updates, h);
    assert_eq!(update.focus, 6);
    assert_eq!(update.nodes.len(), 1);
}

#[test]
fn custom_action_truncated_sequence_single_replacement() {
    let mut strings: HandleStore<Vec<u8>> = HandleStore::new();
    // A truncated three-byte sequence is one maximal subpart: a single
    // replacement character, re-encoded and terminated.
    let rec = custom_action_new_with_length(1, &vec![0xE0, 0xA0], &mut strings);
    let stored = strings.from_handle(rec.description).clone();
    assert_eq!(stored, vec![0xEF, 0xBF, 0xBD, 0]);
    accesskit_c::action::release_custom_action(rec, &mut strings);
}

#[test]
fn update_if_active_takes_update_only_when_active() {
    let mut updates: HandleStore<TreeUpdate> = HandleStore::new();
    let mut gate = AdapterGate::new();
    // Inactive: the factory is not consulted, so no result is supplied
    // and none comes out.
    assert!(update_if_active(&gate, None, &mut updates).is_none());
    gate.activate();
    let h = updates.to_handle(TreeUpdate::with_focus(7));
    let update = update_if_active(&gate, Some(h), &mut updates).expect("an owned update");
    assert_eq!(update.focus, 7);
}

#[test]
fn adapter_gate_controls_factory() {
    let mut gate = AdapterGate::new();
    assert!(!gate.needs_update());
    gate.activate();
    assert!(gate.needs_update());
    gate.deactivate();
    assert!(!gate.needs_update());
}
