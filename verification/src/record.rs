//! The capture record format.
//!
//! Each captured tree update is serialized as one self-describing text
//! record: a single line of UTF-8 with every field named, numbers in
//! decimal, and text values quoted with the quote, backslash, newline and
//! carriage-return bytes escaped, so that one record never spans lines.
//! The spec functions here are the format's definition; the emitters
//! produce exactly those bytes.

use vstd::prelude::*;
use vstd::string::StrSliceExecFns;
use vstd::utf8::encode_utf8;
use crate::node::CustomAction;
use crate::node::CustomActionAbs;
use crate::node::Node;
use crate::node::NodeAbs;
use crate::node::NodeId;
use crate::node::TextPosition;
use crate::node::TextSelection;
use crate::text;
use crate::tree::Tree;
use crate::tree::TreeAbs;
use crate::tree::TreeUpdate;
use crate::tree::TreeUpdateAbs;

verus! {

/// Byte values of the punctuation the format uses.
pub const B_QUOTE: u8 = 34;

pub const B_BACKSLASH: u8 = 92;

pub const B_NEWLINE: u8 = 10;

pub const B_RETURN: u8 = 13;

pub const B_MINUS: u8 = 45;

pub const B_LBRACK: u8 = 91;

pub const B_RBRACK: u8 = 93;

pub const B_COMMA: u8 = 44;

pub const B_RBRACE: u8 = 125;

pub const B_LOWER_N: u8 = 110;

pub const B_LOWER_R: u8 = 114;


/// The byte of a decimal digit.
pub open spec fn digit_byte(d: nat) -> u8
    recommends
        d < 10,
{
    (48 + d) as u8
}

/// The decimal form of a number, most significant digit first.
pub open spec fn dec_u64(n: nat) -> Seq<u8>
    decreases n,
{
    if n < 10 {
        seq![digit_byte(n)]
    } else {
        dec_u64(n / 10).push(digit_byte(n % 10))
    }
}

/// The decimal form of a signed number.
pub open spec fn dec_i32(n: int) -> Seq<u8> {
    if n < 0 {
        seq![B_MINUS] + dec_u64((-n) as nat)
    } else {
        dec_u64(n as nat)
    }
}

/// How one byte appears inside a quoted value: quote, backslash, newline
/// and carriage return are escaped, every other byte stands for itself.
pub open spec fn escaped_byte(b: u8) -> Seq<u8> {
    if b == B_QUOTE {
        seq![B_BACKSLASH, B_QUOTE]
    } else if b == B_BACKSLASH {
        seq![B_BACKSLASH, B_BACKSLASH]
    } else if b == B_NEWLINE {
        seq![B_BACKSLASH, B_LOWER_N]
    } else if b == B_RETURN {
        seq![B_BACKSLASH, B_LOWER_R]
    } else {
        seq![b]
    }
}

/// The escaped form of a byte sequence.
pub open spec fn escape_bytes(s: Seq<u8>) -> Seq<u8>
    decreases s.len(),
{
    if s.len() == 0 {
        seq![]
    } else {
        escaped_byte(s[0]) + escape_bytes(s.drop_first())
    }
}

/// Escaping distributes over concatenation.
pub proof fn lemma_escape_bytes_concat(a: Seq<u8>, b: Seq<u8>)
    ensures
        escape_bytes(a + b) == escape_bytes(a) + escape_bytes(b),
    decreases a.len(),
{
    if a.len() == 0 {
        assert(a + b =~= b);
        assert(escape_bytes(a) + escape_bytes(b) =~= escape_bytes(b));
    } else {
        assert((a + b).drop_first() =~= a.drop_first() + b);
        lemma_escape_bytes_concat(a.drop_first(), b);
        assert(escape_bytes(a + b) =~= escape_bytes(a) + escape_bytes(b));
    }
}

/// A quoted text value: its UTF-8 bytes, escaped, between quote bytes.
pub open spec fn quoted(text: Seq<char>) -> Seq<u8> {
    seq![B_QUOTE] + escape_bytes(encode_utf8(text)) + seq![B_QUOTE]
}

/// A quoted text value or the word `null`.
pub open spec fn opt_quoted(text: Option<Seq<char>>) -> Seq<u8> {
    match text {
        Some(t) => quoted(t),
        None => encode_utf8("null"@),
    }
}

/// A decimal number or the word `null`.
pub open spec fn opt_dec(n: Option<nat>) -> Seq<u8> {
    match n {
        Some(v) => dec_u64(v),
        None => encode_utf8("null"@),
    }
}

/// The items of an id list after the first.
pub open spec fn ids_rest(s: Seq<u64>) -> Seq<u8>
    decreases s.len(),
{
    if s.len() == 0 {
        seq![]
    } else {
        seq![B_COMMA] + dec_u64(s[0] as nat) + ids_rest(s.drop_first())
    }
}

/// A bracketed, comma-separated list of ids.
pub open spec fn ids_list(s: Seq<u64>) -> Seq<u8> {
    if s.len() == 0 {
        seq![B_LBRACK, B_RBRACK]
    } else {
        seq![B_LBRACK] + dec_u64(s[0] as nat) + ids_rest(s.drop_first()) + seq![B_RBRACK]
    }
}

/// The items of a byte-value list after the first.
pub open spec fn lens_rest(s: Seq<u8>) -> Seq<u8>
    decreases s.len(),
{
    if s.len() == 0 {
        seq![]
    } else {
        seq![B_COMMA] + dec_u64(s[0] as nat) + lens_rest(s.drop_first())
    }
}

/// A bracketed, comma-separated list of byte values.
pub open spec fn lens_list(s: Seq<u8>) -> Seq<u8> {
    if s.len() == 0 {
        seq![B_LBRACK, B_RBRACK]
    } else {
        seq![B_LBRACK] + dec_u64(s[0] as nat) + lens_rest(s.drop_first()) + seq![B_RBRACK]
    }
}

/// One custom action: its id and quoted description as a pair.
pub open spec fn custom_record(c: CustomActionAbs) -> Seq<u8> {
    seq![B_LBRACK] + dec_i32(c.id as int) + seq![B_COMMA] + quoted(c.description) + seq![B_RBRACK]
}

/// The custom actions after the first.
pub open spec fn customs_rest(s: Seq<CustomActionAbs>) -> Seq<u8>
    decreases s.len(),
{
    if s.len() == 0 {
        seq![]
    } else {
        seq![B_COMMA] + custom_record(s[0]) + customs_rest(s.drop_first())
    }
}

/// A bracketed, comma-separated list of custom actions.
pub open spec fn customs_list(s: Seq<CustomActionAbs>) -> Seq<u8> {
    if s.len() == 0 {
        seq![B_LBRACK, B_RBRACK]
    } else {
        seq![B_LBRACK] + custom_record(s[0]) + customs_rest(s.drop_first()) + seq![B_RBRACK]
    }
}

/// A text position record.
pub open spec fn position_record(p: TextPosition) -> Seq<u8> {
    encode_utf8("{\"node\":"@) + dec_u64(p.node as nat) + encode_utf8(",\"character_index\":"@)
        + dec_u64(p.character_index as nat) + seq![B_RBRACE]
}

/// A text selection record.
pub open spec fn selection_record(s: TextSelection) -> Seq<u8> {
    encode_utf8("{\"anchor\":"@) + position_record(s.anchor) + encode_utf8(",\"focus\":"@)
        + position_record(s.focus) + seq![B_RBRACE]
}

/// A text selection record or the word `null`.
pub open spec fn opt_selection(s: Option<TextSelection>) -> Seq<u8> {
    match s {
        Some(sel) => selection_record(sel),
        None => encode_utf8("null"@),
    }
}

/// The word for a boolean.
pub open spec fn bool_bytes(b: bool) -> Seq<u8> {
    if b {
        encode_utf8("true"@)
    } else {
        encode_utf8("false"@)
    }
}

/// A boolean or the word `null`.
pub open spec fn opt_bool_bytes(b: Option<bool>) -> Seq<u8> {
    match b {
        Some(v) => bool_bytes(v),
        None => encode_utf8("null"@),
    }
}

/// The first half of a node record: role, action and flag masks, children
/// and active descendant.
pub open spec fn node_record_head(n: NodeAbs) -> Seq<u8> {
    encode_utf8("{\"role\":"@) + dec_u64(crate::node::spec_role_code(n.role) as nat)
        + encode_utf8(",\"actions\":"@) + dec_u64(n.actions as nat)
        + encode_utf8(",\"child_actions\":"@) + dec_u64(n.child_actions as nat)
        + encode_utf8(",\"flags\":"@) + dec_u64(n.flags as nat)
        + encode_utf8(",\"children\":"@) + ids_list(n.children)
        + encode_utf8(",\"active_descendant\":"@) + opt_dec(
        match n.active_descendant {
            Some(id) => Some(id as nat),
            None => None,
        },
    )
}

/// The optional scalar properties of a node record.
pub open spec fn node_record_mid(n: NodeAbs) -> Seq<u8> {
    encode_utf8(",\"label\":"@) + opt_quoted(n.label) + encode_utf8(",\"level\":"@) + opt_dec(
        match n.level {
            Some(v) => Some(v as nat),
            None => None,
        },
    ) + encode_utf8(",\"color_value\":"@) + opt_dec(
        match n.color_value {
            Some(v) => Some(v as nat),
            None => None,
        },
    ) + encode_utf8(",\"toggled\":"@) + opt_dec(
        match n.toggled {
            Some(t) => Some(crate::node::spec_toggled_code(t) as nat),
            None => None,
        },
    )
}

/// The sequence-valued properties of a node record.
pub open spec fn node_record_tail(n: NodeAbs) -> Seq<u8> {
    encode_utf8(",\"selected\":"@) + opt_bool_bytes(n.selected)
        + encode_utf8(",\"character_lengths\":"@) + lens_list(n.character_lengths)
        + encode_utf8(",\"custom_actions\":"@) + customs_list(n.custom_actions)
}

/// The text selection of a node record, and its close.
pub open spec fn node_record_close(n: NodeAbs) -> Seq<u8> {
    encode_utf8(",\"text_selection\":"@) + opt_selection(n.text_selection) + seq![B_RBRACE]
}

/// A node record: every property named, in declaration order.
pub open spec fn node_record(n: NodeAbs) -> Seq<u8> {
    node_record_head(n) + node_record_mid(n) + node_record_tail(n) + node_record_close(n)
}

/// A tree record.
pub open spec fn tree_record(t: TreeAbs) -> Seq<u8> {
    encode_utf8("{\"root\":"@) + dec_u64(t.root as nat) + encode_utf8(",\"toolkit_name\":"@)
        + opt_quoted(t.toolkit_name) + encode_utf8(",\"toolkit_version\":"@) + opt_quoted(
        t.toolkit_version,
    ) + seq![B_RBRACE]
}

/// A tree record or the word `null`.
pub open spec fn opt_tree_record(t: Option<TreeAbs>) -> Seq<u8> {
    match t {
        Some(tree) => tree_record(tree),
        None => encode_utf8("null"@),
    }
}

/// One node entry of an update: its id and its node record as a pair.
pub open spec fn entry_record(e: (NodeId, NodeAbs)) -> Seq<u8> {
    seq![B_LBRACK] + dec_u64(e.0 as nat) + seq![B_COMMA] + node_record(e.1) + seq![B_RBRACK]
}

/// The node entries after the first.
pub open spec fn entries_rest(s: Seq<(NodeId, NodeAbs)>) -> Seq<u8>
    decreases s.len(),
{
    if s.len() == 0 {
        seq![]
    } else {
        seq![B_COMMA] + entry_record(s[0]) + entries_rest(s.drop_first())
    }
}

/// A bracketed, comma-separated list of node entries, in update order.
pub open spec fn entries_list(s: Seq<(NodeId, NodeAbs)>) -> Seq<u8> {
    if s.len() == 0 {
        seq![B_LBRACK, B_RBRACK]
    } else {
        seq![B_LBRACK] + entry_record(s[0]) + entries_rest(s.drop_first()) + seq![B_RBRACK]
    }
}

/// The full record of one tree update: one line of self-describing text.
pub open spec fn update_record(u: TreeUpdateAbs) -> Seq<u8> {
    encode_utf8("{\"focus\":"@) + dec_u64(u.focus as nat) + encode_utf8(",\"tree\":"@)
        + opt_tree_record(u.tree) + encode_utf8(",\"nodes\":"@) + entries_list(u.nodes)
        + seq![B_RBRACE]
}

/// Appends the UTF-8 bytes of a literal fragment.
fn push_lit(out: &mut Vec<u8>, s: &str)
    ensures
        final(out)@ == old(out)@ + encode_utf8(s@),
{
    let mut bytes = s.as_bytes_vec();
    out.append(&mut bytes);
}

/// Appends the decimal form of a number.
fn push_dec_u64(out: &mut Vec<u8>, n: u64)
    ensures
        final(out)@ == old(out)@ + dec_u64(n as nat),
    decreases n,
{
    if n >= 10 {
        push_dec_u64(out, n / 10);
    }
    out.push(48 + (n % 10) as u8);
    proof {
        assert(out@ =~= old(out)@ + dec_u64(n as nat));
    }
}

/// Appends the decimal form of a signed number.
fn push_dec_i32(out: &mut Vec<u8>, n: i32)
    ensures
        final(out)@ == old(out)@ + dec_i32(n as int),
{
    let wide: i64 = n as i64;
    if wide < 0 {
        out.push(B_MINUS);
        push_dec_u64(out, (-wide) as u64);
        proof {
            assert(out@ =~= old(out)@ + dec_i32(n as int));
        }
    } else {
        push_dec_u64(out, wide as u64);
    }
}

/// Appends a quoted text value, escaping its UTF-8 bytes.
fn push_quoted(out: &mut Vec<u8>, text: &Vec<char>)
    ensures
        final(out)@ == old(out)@ + quoted(text@),
{
    let bytes = text::encode_text(text);
    out.push(B_QUOTE);
    let ghost base = out@;
    let mut i: usize = 0;
    while i < bytes.len()
        invariant
            i <= bytes@.len(),
            out@ == base + escape_bytes(bytes@.take(i as int)),
        decreases bytes@.len() - i,
    {
        let b = bytes[i];
        proof {
            assert(bytes@.take(i + 1) =~= bytes@.take(i as int) + seq![b]);
            lemma_escape_bytes_concat(bytes@.take(i as int), seq![b]);
            assert(escape_bytes(seq![b]) =~= escaped_byte(b)) by {
                reveal_with_fuel(escape_bytes, 2);
                assert(seq![b].drop_first() =~= Seq::<u8>::empty());
            }
        }
        if b == B_QUOTE {
            out.push(B_BACKSLASH);
            out.push(B_QUOTE);
        } else if b == B_BACKSLASH {
            out.push(B_BACKSLASH);
            out.push(B_BACKSLASH);
        } else if b == B_NEWLINE {
            out.push(B_BACKSLASH);
            out.push(B_LOWER_N);
        } else if b == B_RETURN {
            out.push(B_BACKSLASH);
            out.push(B_LOWER_R);
        } else {
            out.push(b);
        }
        proof {
            assert(out@ =~= base + escape_bytes(bytes@.take(i as int)) + escaped_byte(b));
            assert(out@ =~= base + escape_bytes(bytes@.take(i + 1)));
        }
        i = i + 1;
    }
    out.push(B_QUOTE);
    proof {
        assert(bytes@.take(bytes@.len() as int) =~= bytes@);
        assert(out@ =~= old(out)@ + quoted(text@));
    }
}

/// Appends a quoted optional text value or `null`.
fn push_opt_quoted(out: &mut Vec<u8>, text: &Option<Vec<char>>)
    ensures
        final(out)@ == old(out)@ + opt_quoted(crate::node::opt_text_abs(*text)),
{
    match text {
        Some(t) => push_quoted(out, t),
        None => push_lit(out, "null"),
    }
}

/// Appends a bracketed list of ids.
fn push_ids(out: &mut Vec<u8>, values: &Vec<u64>)
    ensures
        final(out)@ == old(out)@ + ids_list(values@),
{
    out.push(B_LBRACK);
    if values.len() > 0 {
        push_dec_u64(out, values[0]);
        let mut i: usize = 1;
        while i < values.len()
            invariant
                1 <= i <= values@.len(),
                old(out)@ + ids_list(values@) =~= out@ + ids_rest(values@.skip(i as int))
                    + seq![B_RBRACK],
            decreases values@.len() - i,
        {
            let ghost rest = values@.skip(i as int);
            proof {
                assert(rest[0] == values@[i as int]);
                assert(rest.drop_first() =~= values@.skip(i + 1));
            }
            out.push(B_COMMA);
            push_dec_u64(out, values[i]);
            proof {
                assert(old(out)@ + ids_list(values@) =~= out@ + ids_rest(values@.skip(i + 1))
                    + seq![B_RBRACK]);
            }
            i = i + 1;
        }
        proof {
            assert(ids_rest(values@.skip(values@.len() as int)) =~= Seq::<u8>::empty()) by {
                assert(values@.skip(values@.len() as int) =~= Seq::<u64>::empty());
            }
        }
        out.push(B_RBRACK);
        proof {
            assert(out@ =~= old(out)@ + ids_list(values@));
        }
    } else {
        out.push(B_RBRACK);
        proof {
            assert(out@ =~= old(out)@ + ids_list(values@));
        }
    }
}

/// Appends a bracketed list of byte values.
fn push_lens(out: &mut Vec<u8>, values: &Vec<u8>)
    ensures
        final(out)@ == old(out)@ + lens_list(values@),
{
    out.push(B_LBRACK);
    if values.len() > 0 {
        push_dec_u64(out, values[0] as u64);
        let mut i: usize = 1;
        while i < values.len()
            invariant
                1 <= i <= values@.len(),
                old(out)@ + lens_list(values@) =~= out@ + lens_rest(values@.skip(i as int))
                    + seq![B_RBRACK],
            decreases values@.len() - i,
        {
            let ghost rest = values@.skip(i as int);
            proof {
                assert(rest[0] == values@[i as int]);
                assert(rest.drop_first() =~= values@.skip(i + 1));
            }
            out.push(B_COMMA);
            push_dec_u64(out, values[i] as u64);
            proof {
                assert(old(out)@ + lens_list(values@) =~= out@ + lens_rest(values@.skip(i + 1))
                    + seq![B_RBRACK]);
            }
            i = i + 1;
        }
        proof {
            assert(lens_rest(values@.skip(values@.len() as int)) =~= Seq::<u8>::empty()) by {
                assert(values@.skip(values@.len() as int) =~= Seq::<u8>::empty());
            }
        }
        out.push(B_RBRACK);
        proof {
            assert(out@ =~= old(out)@ + lens_list(values@));
        }
    } else {
        out.push(B_RBRACK);
        proof {
            assert(out@ =~= old(out)@ + lens_list(values@));
        }
    }
}

/// Appends one custom action pair.
fn push_custom(out: &mut Vec<u8>, c: &CustomAction)
    ensures
        final(out)@ == old(out)@ + custom_record(c@),
{
    out.push(B_LBRACK);
    push_dec_i32(out, c.id);
    out.push(B_COMMA);
    push_quoted(out, &c.description);
    out.push(B_RBRACK);
    proof {
        assert(out@ =~= old(out)@ + custom_record(c@));
    }
}

/// Appends a bracketed list of custom actions.
fn push_customs(out: &mut Vec<u8>, values: &Vec<CustomAction>)
    ensures
        final(out)@ == old(out)@ + customs_list(values@.map_values(|c: CustomAction| c@)),
{
    let ghost view = values@.map_values(|c: CustomAction| c@);
    out.push(B_LBRACK);
    if values.len() > 0 {
        push_custom(out, &values[0]);
        let mut i: usize = 1;
        while i < values.len()
            invariant
                1 <= i <= values@.len(),
                view == values@.map_values(|c: CustomAction| c@),
                old(out)@ + customs_list(view) =~= out@ + customs_rest(view.skip(i as int))
                    + seq![B_RBRACK],
            decreases values@.len() - i,
        {
            let ghost rest = view.skip(i as int);
            proof {
                assert(rest[0] == view[i as int]);
                assert(rest.drop_first() =~= view.skip(i + 1));
            }
            out.push(B_COMMA);
            push_custom(out, &values[i]);
            proof {
                assert(old(out)@ + customs_list(view) =~= out@ + customs_rest(view.skip(i + 1))
                    + seq![B_RBRACK]);
            }
            i = i + 1;
        }
        proof {
            assert(customs_rest(view.skip(view.len() as int)) =~= Seq::<u8>::empty()) by {
                assert(view.skip(view.len() as int) =~= Seq::<CustomActionAbs>::empty());
            }
        }
        out.push(B_RBRACK);
        proof {
            assert(out@ =~= old(out)@ + customs_list(view));
        }
    } else {
        out.push(B_RBRACK);
        proof {
            assert(out@ =~= old(out)@ + customs_list(view));
        }
    }
}

/// Appends a text position record.
fn push_position(out: &mut Vec<u8>, p: &TextPosition)
    ensures
        final(out)@ == old(out)@ + position_record(*p),
{
    push_lit(out, "{\"node\":");
    push_dec_u64(out, p.node);
    push_lit(out, ",\"character_index\":");
    push_dec_u64(out, p.character_index as u64);
    out.push(B_RBRACE);
    proof {
        assert(out@ =~= old(out)@ + position_record(*p));
    }
}

/// Appends a text selection record.
fn push_selection(out: &mut Vec<u8>, s: &TextSelection)
    ensures
        final(out)@ == old(out)@ + selection_record(*s),
{
    push_lit(out, "{\"anchor\":");
    push_position(out, &s.anchor);
    push_lit(out, ",\"focus\":");
    push_position(out, &s.focus);
    out.push(B_RBRACE);
    proof {
        assert(out@ =~= old(out)@ + selection_record(*s));
    }
}

/// Appends the first half of a node record.
#[verifier::rlimit(60)]
fn push_node_record_head(out: &mut Vec<u8>, n: &Node)
    ensures
        final(out)@ == old(out)@ + node_record_head(n@),
{
    push_lit(out, "{\"role\":");
    push_dec_u64(out, crate::node::role_code(n.role) as u64);
    push_lit(out, ",\"actions\":");
    push_dec_u64(out, n.actions as u64);
    push_lit(out, ",\"child_actions\":");
    push_dec_u64(out, n.child_actions as u64);
    push_lit(out, ",\"flags\":");
    push_dec_u64(out, n.flags as u64);
    push_lit(out, ",\"children\":");
    push_ids(out, &n.children);
    push_lit(out, ",\"active_descendant\":");
    match n.active_descendant {
        Some(id) => push_dec_u64(out, id),
        None => push_lit(out, "null"),
    }
    proof {
        assert(out@ =~= old(out)@ + node_record_head(n@));
    }
}

/// Appends the optional scalar properties of a node record.
#[verifier::rlimit(60)]
fn push_node_record_mid(out: &mut Vec<u8>, n: &Node)
    ensures
        final(out)@ == old(out)@ + node_record_mid(n@),
{
    push_lit(out, ",\"label\":");
    push_opt_quoted(out, &n.label);
    push_lit(out, ",\"level\":");
    match n.level {
        Some(v) => push_dec_u64(out, v as u64),
        None => push_lit(out, "null"),
    }
    push_lit(out, ",\"color_value\":");
    match n.color_value {
        Some(v) => push_dec_u64(out, v as u64),
        None => push_lit(out, "null"),
    }
    push_lit(out, ",\"toggled\":");
    match n.toggled {
        Some(t) => push_dec_u64(out, crate::node::toggled_code(t) as u64),
        None => push_lit(out, "null"),
    }
    proof {
        assert(out@ =~= old(out)@ + node_record_mid(n@));
    }
}

/// Appends the sequence-valued properties of a node record, closing it.
#[verifier::rlimit(100)]
fn push_node_record_tail(out: &mut Vec<u8>, n: &Node)
    ensures
        final(out)@ == old(out)@ + node_record_tail(n@),
{
    push_lit(out, ",\"selected\":");
    match n.selected {
        Some(true) => push_lit(out, "true"),
        Some(false) => push_lit(out, "false"),
        None => push_lit(out, "null"),
    }
    proof {
        assert(out@ =~= old(out)@ + encode_utf8(",\"selected\":"@) + opt_bool_bytes(
            n@.selected,
        ));
    }
    let ghost p1 = out@;
    push_lit(out, ",\"character_lengths\":");
    push_lens(out, &n.character_lengths);
    push_lit(out, ",\"custom_actions\":");
    push_customs(out, &n.custom_actions);
    proof {
        assert(out@ =~= p1 + encode_utf8(",\"character_lengths\":"@) + lens_list(
            n@.character_lengths,
        ) + encode_utf8(",\"custom_actions\":"@) + customs_list(n@.custom_actions));
    }
    proof {
        assert(out@ =~= old(out)@ + node_record_tail(n@));
    }
}

/// Appends the text selection of a node record, closing it.
#[verifier::rlimit(60)]
fn push_node_record_close(out: &mut Vec<u8>, n: &Node)
    ensures
        final(out)@ == old(out)@ + node_record_close(n@),
{
    push_lit(out, ",\"text_selection\":");
    match &n.text_selection {
        Some(sel) => push_selection(out, sel),
        None => push_lit(out, "null"),
    }
    out.push(B_RBRACE);
    proof {
        assert(out@ =~= old(out)@ + node_record_close(n@));
    }
}

/// Appends a node record.
fn push_node_record(out: &mut Vec<u8>, n: &Node)
    ensures
        final(out)@ == old(out)@ + node_record(n@),
{
    push_node_record_head(out, n);
    push_node_record_mid(out, n);
    push_node_record_tail(out, n);
    push_node_record_close(out, n);
    proof {
        assert(out@ =~= old(out)@ + node_record(n@));
    }
}

/// Serializes one node as its self-describing record, the textual
/// representation handed out for inspection.
pub fn node_record_bytes(n: &Node) -> (r: Vec<u8>)
    ensures
        r@ == node_record(n@),
{
    let mut out: Vec<u8> = Vec::new();
    push_node_record(&mut out, n);
    proof {
        assert(out@ =~= node_record(n@));
    }
    out
}

/// Serializes one tree record as its self-describing record.
pub fn tree_record_bytes(t: &Tree) -> (r: Vec<u8>)
    ensures
        r@ == tree_record(t@),
{
    let mut out: Vec<u8> = Vec::new();
    push_tree_record(&mut out, t);
    proof {
        assert(out@ =~= tree_record(t@));
    }
    out
}

/// Appends a tree record.
fn push_tree_record(out: &mut Vec<u8>, t: &Tree)
    ensures
        final(out)@ == old(out)@ + tree_record(t@),
{
    push_lit(out, "{\"root\":");
    push_dec_u64(out, t.root);
    push_lit(out, ",\"toolkit_name\":");
    push_opt_quoted(out, &t.toolkit_name);
    push_lit(out, ",\"toolkit_version\":");
    push_opt_quoted(out, &t.toolkit_version);
    out.push(B_RBRACE);
    proof {
        assert(out@ =~= old(out)@ + tree_record(t@));
    }
}

/// Serializes a tree update as one self-describing record, exactly as the
/// format's definition states.
#[verifier::rlimit(100)]
pub fn update_record_bytes(u: &TreeUpdate) -> (r: Vec<u8>)
    ensures
        r@ == update_record(u@),
{
    let ghost entries = u@.nodes;
    let mut out: Vec<u8> = Vec::new();
    push_lit(&mut out, "{\"focus\":");
    push_dec_u64(&mut out, u.focus);
    push_lit(&mut out, ",\"tree\":");
    match &u.tree {
        Some(t) => push_tree_record(&mut out, t),
        None => push_lit(&mut out, "null"),
    }
    proof {
        assert(out@ =~= encode_utf8("{\"focus\":"@) + dec_u64(u.focus as nat) + encode_utf8(
            ",\"tree\":"@,
        ) + opt_tree_record(u@.tree));
    }
    push_lit(&mut out, ",\"nodes\":");
    push_entries(&mut out, &u.nodes);
    out.push(B_RBRACE);
    proof {
        assert(out@ =~= update_record(u@));
    }
    out
}

/// Appends the bracketed list of node entries of an update, in order.
#[verifier::rlimit(100)]
fn push_entries(out: &mut Vec<u8>, nodes: &Vec<(NodeId, Node)>)
    ensures
        final(out)@ == old(out)@ + entries_list(
            nodes@.map_values(|entry: (NodeId, Node)| crate::tree::entry_abs(entry)),
        ),
{
    let ghost entries = nodes@.map_values(
        |entry: (NodeId, Node)| crate::tree::entry_abs(entry),
    );
    out.push(B_LBRACK);
    if nodes.len() > 0 {
        let (id0, node0) = &nodes[0];
        push_dec_entry(out, *id0, node0);
        proof {
            assert(entries[0] == crate::tree::entry_abs(nodes@[0]));
        }
        let mut i: usize = 1;
        while i < nodes.len()
            invariant
                1 <= i <= nodes@.len(),
                entries == nodes@.map_values(|entry: (NodeId, Node)| crate::tree::entry_abs(
                    entry,
                )),
                old(out)@ + entries_list(entries) =~= out@ + entries_rest(
                    entries.skip(i as int),
                ) + seq![B_RBRACK],
            decreases nodes@.len() - i,
        {
            let ghost rest = entries.skip(i as int);
            proof {
                assert(rest[0] == entries[i as int]);
                assert(rest.drop_first() =~= entries.skip(i + 1));
            }
            out.push(B_COMMA);
            let (id, node) = &nodes[i];
            push_dec_entry(out, *id, node);
            proof {
                assert(entries[i as int] == crate::tree::entry_abs(nodes@[i as int]));
                assert(old(out)@ + entries_list(entries) =~= out@ + entries_rest(
                    entries.skip(i + 1),
                ) + seq![B_RBRACK]);
            }
            i = i + 1;
        }
        proof {
            assert(entries_rest(entries.skip(entries.len() as int)) =~= Seq::<u8>::empty()) by {
                assert(entries.skip(entries.len() as int) =~= Seq::<(NodeId, NodeAbs)>::empty());
            }
        }
        out.push(B_RBRACK);
        proof {
            assert(out@ =~= old(out)@ + entries_list(entries));
        }
    } else {
        out.push(B_RBRACK);
        proof {
            assert(entries.len() == 0);
            assert(out@ =~= old(out)@ + entries_list(entries));
        }
    }
}

/// Appends one node entry pair.
fn push_dec_entry(out: &mut Vec<u8>, id: u64, node: &Node)
    ensures
        final(out)@ == old(out)@ + entry_record((id, node@)),
{
    out.push(B_LBRACK);
    push_dec_u64(out, id);
    out.push(B_COMMA);
    push_node_record(out, node);
    out.push(B_RBRACK);
    proof {
        assert(out@ =~= old(out)@ + entry_record((id, node@)));
    }
}

} // verus!
