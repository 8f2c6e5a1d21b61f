//! Action requests and their boundary encoding.
//!
//! The engine produces an action request — an action kind, a target node,
//! and an optional tagged payload — and transfers it to the foreign side
//! exactly once. The payload is a closed set of variants dispatched by its
//! discriminant; the one variant carrying an owned string is the only one
//! with cleanup responsibility, handled by a single centralized release
//! routine keyed on the discriminant.

use vstd::prelude::*;
use crate::collection::OwnedArray;
use crate::handle::HandleStore;
use crate::node::Action;
use crate::node::CustomAction;
use crate::node::NodeId;
use crate::node::TextSelection;
use crate::optional::OptValue;
use crate::optional;
use crate::text;

verus! {

/// The amount to scroll by in a scroll action.
#[derive(Clone, Copy, Debug, PartialEq, Eq, Structural)]
pub enum ScrollUnit {
    Item,
    Page,
}

/// The preferred position of a scroll target relative to the viewport.
#[derive(Clone, Copy, Debug, PartialEq, Eq, Structural)]
pub enum ScrollHint {
    TopLeft,
    BottomRight,
    TopEdge,
    BottomEdge,
    LeftEdge,
    RightEdge,
}

/// The payload of an action request, engine side.
#[derive(Clone, Debug, PartialEq)]
pub enum ActionData {
    CustomAction(i32),
    Value(Vec<char>),
    ScrollUnit(ScrollUnit),
    ScrollHint(ScrollHint),
    SetTextSelection(TextSelection),
}

/// The payload in its boundary encoding. The `Value` variant carries the
/// handle of an owned zero-terminated string in the string store; it is the
/// only variant whose release has anything to free.
#[derive(Clone, Copy, Debug, PartialEq, Eq, Structural)]
pub enum ActionDataEnc {
    CustomAction(i32),
    Value(usize),
    ScrollUnit(ScrollUnit),
    ScrollHint(ScrollHint),
    SetTextSelection(TextSelection),
}

/// An action request, engine side.
#[derive(Clone, Debug, PartialEq)]
pub struct ActionRequest {
    pub action: Action,
    pub target: NodeId,
    pub data: Option<ActionData>,
}

/// An action request in its boundary encoding, owned by the foreign side
/// until explicitly released.
#[derive(Clone, Copy, Debug, PartialEq, Eq, Structural)]
pub struct ActionRequestEnc {
    pub action: Action,
    pub target: NodeId,
    pub data: OptValue<ActionDataEnc>,
}

/// The placeholder payload stored when no payload is present.
pub open spec fn absent_data() -> ActionDataEnc {
    ActionDataEnc::CustomAction(0)
}

/// How an encoded payload relates to its source: pass-through variants
/// leave the string store untouched, while a string payload is freshly
/// allocated in the store in zero-terminated form.
pub open spec fn action_data_encoded(
    data: ActionData,
    enc: ActionDataEnc,
    pre: HandleStore<Vec<u8>>,
    post: HandleStore<Vec<u8>>,
) -> bool {
    match data {
        ActionData::CustomAction(id) => enc == ActionDataEnc::CustomAction(id) && post == pre,
        ActionData::Value(v) => enc matches ActionDataEnc::Value(h) && h != 0 && !pre.live(h)
            && post.live(h) && post.value_of(h)@ == text::c_string_bytes(v@) && post.contents()
            == pre.contents().insert(h, post.value_of(h)),
        ActionData::ScrollUnit(u) => enc == ActionDataEnc::ScrollUnit(u) && post == pre,
        ActionData::ScrollHint(hint) => enc == ActionDataEnc::ScrollHint(hint) && post == pre,
        ActionData::SetTextSelection(sel) => enc == ActionDataEnc::SetTextSelection(sel) && post
            == pre,
    }
}

/// Encodes a payload for the boundary. A string payload with an embedded
/// NUL cannot cross in zero-terminated form; that is a contract violation
/// ruled out by `requires`.
pub fn encode_action_data(data: ActionData, strings: &mut HandleStore<Vec<u8>>) -> (enc:
    ActionDataEnc)
    requires
        data matches ActionData::Value(v) ==> text::nul_free(v@),
    ensures
        action_data_encoded(data, enc, *old(strings), *final(strings)),
{
    match data {
        ActionData::CustomAction(id) => ActionDataEnc::CustomAction(id),
        ActionData::Value(v) => {
            let bytes = text::encode_c_string(&v);
            let h = strings.to_handle(bytes);
            proof {
                assert(strings.contents()[h] == strings.value_of(h));
            }
            ActionDataEnc::Value(h)
        },
        ActionData::ScrollUnit(u) => ActionDataEnc::ScrollUnit(u),
        ActionData::ScrollHint(hint) => ActionDataEnc::ScrollHint(hint),
        ActionData::SetTextSelection(sel) => ActionDataEnc::SetTextSelection(sel),
    }
}

/// How a released payload relates to its encoding: only the string variant
/// removes anything from the store.
pub open spec fn action_data_released(
    enc: ActionDataEnc,
    pre: HandleStore<Vec<u8>>,
    post: HandleStore<Vec<u8>>,
) -> bool {
    match enc {
        ActionDataEnc::Value(h) => post.contents() == pre.contents().remove(h),
        _ => post == pre,
    }
}

/// The centralized payload cleanup, keyed on the discriminant: the string
/// variant releases its owned string through the single string release
/// function; every other variant owns nothing.
pub fn release_action_data(data: ActionDataEnc, strings: &mut HandleStore<Vec<u8>>)
    requires
        data matches ActionDataEnc::Value(h) ==> h != 0 && old(strings).live(h),
    ensures
        action_data_released(data, *old(strings), *final(strings)),
{
    match data {
        ActionDataEnc::Value(h) => text::string_free(strings, h),
        _ => {},
    }
}

/// Encodes an action request for transfer to the foreign side: the action
/// and target cross unchanged, and the optional payload crosses in the
/// presence-flagged encoding, with its string allocated in the store when
/// present.
pub fn encode_action_request(req: ActionRequest, strings: &mut HandleStore<Vec<u8>>) -> (enc:
    ActionRequestEnc)
    requires
        req.data matches Some(d) ==> (d matches ActionData::Value(v) ==> text::nul_free(v@)),
    ensures
        enc.action == req.action,
        enc.target == req.target,
        req.data is None ==> enc.data == optional::spec_encode(
            None::<ActionDataEnc>,
            absent_data(),
        ) && *final(strings) == *old(strings),
        req.data matches Some(d) ==> enc.data.has_value && action_data_encoded(
            d,
            enc.data.value,
            *old(strings),
            *final(strings),
        ),
{
    let data = match req.data {
        None => optional::encode(None, ActionDataEnc::CustomAction(0)),
        Some(d) => {
            let enc_data = encode_action_data(d, strings);
            optional::encode(Some(enc_data), ActionDataEnc::CustomAction(0))
        },
    };
    ActionRequestEnc { action: req.action, target: req.target, data }
}

/// Releases an action request after the foreign side is done with it,
/// freeing the payload string exactly when the payload is present and
/// carries one.
pub fn release_action_request(req: ActionRequestEnc, strings: &mut HandleStore<Vec<u8>>)
    requires
        req.data.has_value ==> (req.data.value matches ActionDataEnc::Value(h) ==> h != 0 && old(
            strings,
        ).live(h)),
    ensures
        req.data.has_value ==> action_data_released(req.data.value, *old(strings), *final(strings)),
        !req.data.has_value ==> *final(strings) == *old(strings),
{
    match optional::decode(req.data) {
        Some(data) => release_action_data(data, strings),
        None => {},
    }
}

/// An application-defined action in its boundary encoding: the description
/// is the handle of an owned zero-terminated string in the string store.
#[derive(Clone, Copy, Debug, PartialEq, Eq, Structural)]
pub struct CustomActionRec {
    pub id: i32,
    pub description: usize,
}

/// Builds a boundary custom action from a zero-terminated description: the
/// bytes before the terminator are decoded as UTF-8 with lossy replacement
/// and re-encoded as a fresh owned zero-terminated string. The caller keeps
/// its buffer.
pub fn custom_action_new(
    id: i32,
    description: &Vec<u8>,
    strings: &mut HandleStore<Vec<u8>>,
) -> (rec: CustomActionRec)
    requires
        description@.contains(0),
    ensures
        rec.id == id,
        rec.description != 0,
        !old(strings).live(rec.description),
        final(strings).live(rec.description),
        final(strings).value_of(rec.description)@ == text::c_string_bytes(
            text::lossy_decode(description@.take(text::nul_index(description@))),
        ),
        final(strings).contents() == old(strings).contents().insert(
            rec.description,
            final(strings).value_of(rec.description),
        ),
{
    let text = text::decode_c_string(description);
    proof {
        text::lemma_nul_index_terminator(description@);
        text::lemma_nul_index_prefix_nonzero(description@);
        let prefix = description@.take(text::nul_index(description@));
        assert forall|j: int| 0 <= j < prefix.len() implies prefix[j] != 0 by {
            assert(prefix[j] == description@[j]);
        }
        text::lemma_lossy_decode_nul_free(prefix);
    }
    let bytes = text::encode_c_string(&text);
    let h = strings.to_handle(bytes);
    proof {
        assert(strings.contents()[h] == strings.value_of(h));
    }
    CustomActionRec { id, description: h }
}

/// Builds a boundary custom action from a length-prefixed description,
/// decoded as UTF-8 with lossy replacement. A zero byte in the description
/// would decode to an embedded NUL, which cannot be re-encoded in
/// zero-terminated form: that is a contract violation ruled out by
/// `requires`.
pub fn custom_action_new_with_length(
    id: i32,
    description: &Vec<u8>,
    strings: &mut HandleStore<Vec<u8>>,
) -> (rec: CustomActionRec)
    requires
        forall|j: int| 0 <= j < description@.len() ==> description@[j] != 0,
    ensures
        rec.id == id,
        rec.description != 0,
        !old(strings).live(rec.description),
        final(strings).live(rec.description),
        final(strings).value_of(rec.description)@ == text::c_string_bytes(
            text::lossy_decode(description@),
        ),
        final(strings).contents() == old(strings).contents().insert(
            rec.description,
            final(strings).value_of(rec.description),
        ),
{
    let text = text::decode_text_lossy(description);
    proof {
        text::lemma_lossy_decode_nul_free(description@);
    }
    let bytes = text::encode_c_string(&text);
    let h = strings.to_handle(bytes);
    proof {
        assert(strings.contents()[h] == strings.value_of(h));
    }
    CustomActionRec { id, description: h }
}

/// Releases a boundary custom action, freeing its description string.
pub fn release_custom_action(rec: CustomActionRec, strings: &mut HandleStore<Vec<u8>>)
    requires
        rec.description != 0,
        old(strings).live(rec.description),
    ensures
        !final(strings).live(rec.description),
        final(strings).contents() == old(strings).contents().remove(rec.description),
{
    text::string_free(strings, rec.description);
}

/// Decodes a boundary custom action into the engine's form, copying the
/// description out of the store: the boundary record stays live and still
/// owns its string.
pub fn decode_custom_action(rec: &CustomActionRec, strings: &HandleStore<Vec<u8>>) -> (a:
    CustomAction)
    requires
        strings.live(rec.description),
        strings.value_of(rec.description)@.contains(0),
    ensures
        a.id == rec.id,
        a.description@ == text::lossy_decode(
            strings.value_of(rec.description)@.take(
                text::nul_index(strings.value_of(rec.description)@),
            ),
        ),
{
    let bytes = strings.from_handle(rec.description);
    let description = text::decode_c_string(bytes);
    CustomAction { id: rec.id, description }
}

/// Encodes an owned sequence of custom actions for the boundary: an
/// engine-produced, caller-freed collection whose elements appear in the
/// original order, each description freshly allocated in the string store
/// in zero-terminated form. Every binding the store already held is
/// untouched.
pub fn encode_custom_actions(
    actions: &Vec<CustomAction>,
    strings: &mut HandleStore<Vec<u8>>,
) -> (arr: OwnedArray<CustomActionRec>)
    requires
        forall|i: int|
            0 <= i < actions@.len() ==> text::nul_free(#[trigger] actions@[i].description@),
    ensures
        arr@.len() == actions@.len(),
        forall|i: int|
            0 <= i < arr@.len() ==> (#[trigger] arr@[i]).id == actions@[i].id
                && arr@[i].description != 0 && !old(strings).live(arr@[i].description)
                && final(strings).live(arr@[i].description) && final(strings).value_of(arr@[i].description)@
                == text::c_string_bytes(actions@[i].description@),
        forall|i: int, j: int|
            0 <= i < j < arr@.len() ==> (#[trigger] arr@[i]).description != (
            #[trigger] arr@[j]).description,
        forall|h: usize|
            old(strings).live(h) ==> final(strings).live(h) && final(strings).value_of(h) == old(
                strings,
            ).value_of(h),
{
    let mut values: Vec<CustomActionRec> = Vec::new();
    let mut i: usize = 0;
    while i < actions.len()
        invariant
            i <= actions@.len(),
            values@.len() == i,
            forall|k: int|
                0 <= k < actions@.len() ==> text::nul_free(#[trigger] actions@[k].description@),
            forall|k: int|
                0 <= k < i ==> (#[trigger] values@[k]).id == actions@[k].id
                    && values@[k].description != 0 && !old(strings).live(values@[k].description)
                    && strings.live(values@[k].description) && strings.value_of(
                    values@[k].description,
                )@ == text::c_string_bytes(actions@[k].description@),
            forall|k: int, l: int|
                0 <= k < l < i ==> (#[trigger] values@[k]).description != (
                #[trigger] values@[l]).description,
            forall|h: usize|
                old(strings).live(h) ==> strings.live(h) && strings.value_of(h) == old(
                    strings,
                ).value_of(h),
        decreases actions@.len() - i,
    {
        let action = &actions[i];
        let bytes = text::encode_c_string(&action.description);
        let ghost pre = *strings;
        let h = strings.to_handle(bytes);
        proof {
            strings.lemma_contents_at(h);
            pre.lemma_contents_at(h);
            assert forall|h2: usize|
                pre.live(h2) implies strings.live(h2) && strings.value_of(h2) == pre.value_of(
                h2,
            ) && h2 != h by {
                pre.lemma_contents_at(h2);
                strings.lemma_contents_at(h2);
            }
        }
        values.push(CustomActionRec { id: action.id, description: h });
        i = i + 1;
    }
    OwnedArray::from_vec(values)
}

/// The paired release function for an owned custom action collection:
/// reconstructs the allocation and frees each element's description
/// exactly once, in order. Every other binding in the store is untouched.
pub fn free_custom_actions(arr: OwnedArray<CustomActionRec>, strings: &mut HandleStore<Vec<u8>>)
    requires
        forall|i: int|
            0 <= i < arr@.len() ==> (#[trigger] arr@[i]).description != 0 && old(strings).live(
                arr@[i].description,
            ),
        forall|i: int, j: int|
            0 <= i < j < arr@.len() ==> (#[trigger] arr@[i]).description != (
            #[trigger] arr@[j]).description,
    ensures
        forall|i: int| 0 <= i < arr@.len() ==> !final(strings).live((#[trigger] arr@[i]).description),
        forall|h: usize|
            old(strings).live(h) && (forall|i: int|
                0 <= i < arr@.len() ==> (#[trigger] arr@[i]).description != h)
                ==> final(strings).live(h) && final(strings).value_of(h) == old(strings).value_of(h),
{
    let ghost view = arr@;
    let values = arr.into_vec();
    let mut i: usize = 0;
    while i < values.len()
        invariant
            values@ == view,
            i <= view.len(),
            forall|k: int, l: int|
                0 <= k < l < view.len() ==> (#[trigger] view[k]).description != (
                #[trigger] view[l]).description,
            forall|k: int| 0 <= k < i ==> !strings.live((#[trigger] view[k]).description),
            forall|k: int|
                i <= k < view.len() ==> (#[trigger] view[k]).description != 0 && strings.live(
                    view[k].description,
                ) && strings.value_of(view[k].description) == old(strings).value_of(
                    view[k].description,
                ),
            forall|h: usize|
                old(strings).live(h) && (forall|k: int|
                    0 <= k < view.len() ==> (#[trigger] view[k]).description != h)
                    ==> strings.live(h) && strings.value_of(h) == old(strings).value_of(h),
        decreases view.len() - i,
    {
        let rec = &values[i];
        let ghost pre = *strings;
        text::string_free(strings, rec.description);
        proof {
            let d = view[i as int].description;
            assert forall|h: usize|
                pre.live(h) && h != d implies strings.live(h) && strings.value_of(h)
                == pre.value_of(h) by {
                pre.lemma_contents_at(h);
                strings.lemma_contents_at(h);
            }
            assert forall|h: usize| !pre.live(h) implies !strings.live(h) by {
                pre.lemma_contents_at(h);
                strings.lemma_contents_at(h);
            }
            strings.lemma_contents_at(d);
        }
        i = i + 1;
    }
}

} // verus!
