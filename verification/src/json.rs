//! Verified JSON framing for the documents this layer publishes: the
//! server announcement and the tool list.  Strings are escaped byte by
//! byte; multi-byte UTF-8 sequences contain no byte below 0x80 and pass
//! through unchanged, so escaping at the byte level is UTF-8-correct.

use vstd::prelude::*;
use vstd::string::StringSliceAdditionalSpecFns;
use crate::types::ServerInfo;

verus! {

/// The hex digit (lowercase) for a value below 16.
pub open spec fn spec_hex_digit(n: u8) -> u8 {
    if n < 10 {
        (n + 48) as u8
    } else {
        (n + 87) as u8
    }
}

/// How one byte of a string is rendered inside a JSON string literal:
/// quote and backslash get a backslash, control bytes become `\u00xx`,
/// everything else stands as it is.
pub open spec fn spec_esc_byte(b: u8) -> Seq<u8> {
    if b == 34 {
        seq![92u8, 34u8]
    } else if b == 92 {
        seq![92u8, 92u8]
    } else if b < 32 {
        seq![92u8, 117u8, 48u8, 48u8, spec_hex_digit(b / 16), spec_hex_digit(b % 16)]
    } else {
        seq![b]
    }
}

/// A whole byte string escaped for a JSON string literal.
pub open spec fn spec_escape(s: Seq<u8>) -> Seq<u8>
    decreases s.len(),
{
    if s.len() == 0 {
        Seq::empty()
    } else {
        spec_escape(s.drop_last()) + spec_esc_byte(s.last())
    }
}

/// A JSON string literal: quote, escaped bytes, quote.
pub open spec fn spec_json_string(s: Seq<u8>) -> Seq<u8> {
    seq![34u8] + spec_escape(s) + seq![34u8]
}

/// An optional string as a JSON value: a string literal or `null`.
pub open spec fn spec_json_string_opt(o: Option<String>) -> Seq<u8> {
    match o {
        Some(s) => spec_json_string(vstd::utf8::encode_utf8(s@)),
        None => "null".spec_bytes(),
    }
}

/// The announcement document: the server's about, name and version as one
/// JSON object (keys in alphabetical order).
pub open spec fn spec_announcement(info: ServerInfo) -> Seq<u8> {
    "{\"about\":".spec_bytes() + spec_json_string_opt(info.about) + ",\"name\":".spec_bytes()
        + spec_json_string_opt(info.name) + ",\"version\":".spec_bytes() + spec_json_string_opt(
        info.version,
    ) + "}".spec_bytes()
}

/// The pre-serialized tool documents joined with commas.
pub open spec fn spec_join_docs(items: Seq<String>) -> Seq<u8>
    decreases items.len(),
{
    if items.len() == 0 {
        Seq::empty()
    } else if items.len() == 1 {
        vstd::utf8::encode_utf8(items[0]@)
    } else {
        spec_join_docs(items.drop_last()) + ",".spec_bytes() + vstd::utf8::encode_utf8(items.last()@)
    }
}

/// The tool-list document: one JSON object wrapping the list of
/// pre-serialized tool documents.
pub open spec fn spec_tools_list(items: Seq<String>) -> Seq<u8> {
    "{\"tools\":[".spec_bytes() + spec_join_docs(items) + "]}".spec_bytes()
}

/// Append one byte escaped.
fn push_escaped_byte(out: &mut Vec<u8>, b: u8)
    ensures
        final(out)@ == old(out)@ + spec_esc_byte(b),
{
    if b == 34 {
        out.push(92);
        out.push(34);
        assert(out@ =~= old(out)@ + spec_esc_byte(b));
    } else if b == 92 {
        out.push(92);
        out.push(92);
        assert(out@ =~= old(out)@ + spec_esc_byte(b));
    } else if b < 32 {
        out.push(92);
        out.push(117);
        out.push(48);
        out.push(48);
        let hi = b / 16;
        let lo = b % 16;
        out.push(if hi < 10 { hi + 48 } else { hi + 87 });
        out.push(if lo < 10 { lo + 48 } else { lo + 87 });
        assert(out@ =~= old(out)@ + spec_esc_byte(b));
    } else {
        out.push(b);
        assert(out@ =~= old(out)@ + spec_esc_byte(b));
    }
}

/// Append a string as a JSON string literal, quotes included.
pub fn push_json_string(out: &mut Vec<u8>, s: &str)
    ensures
        final(out)@ == old(out)@ + spec_json_string(s.spec_bytes()),
{
    let ghost start = out@;
    out.push(34);
    let bytes = s.as_bytes();
    let n = bytes.len();
    let mut i: usize = 0;
    while i < n
        invariant
            n == bytes@.len(),
            0 <= i <= n,
            out@ == start + seq![34u8] + spec_escape(bytes@.subrange(0, i as int)),
        decreases n - i,
    {
        let ghost prefix = bytes@.subrange(0, i as int);
        push_escaped_byte(out, bytes[i]);
        proof {
            let next = bytes@.subrange(0, i + 1);
            assert(next.drop_last() =~= prefix);
            assert(next.last() == bytes@[i as int]);
        }
        i += 1;
    }
    proof {
        assert(bytes@.subrange(0, n as int) =~= bytes@);
    }
    out.push(34);
    proof {
        assert(out@ =~= start + spec_json_string(s.spec_bytes()));
    }
}

/// Append an optional string as a JSON value (`null` when absent).
fn push_json_string_opt(out: &mut Vec<u8>, o: &Option<String>)
    ensures
        final(out)@ == old(out)@ + spec_json_string_opt(*o),
{
    match o {
        Some(s) => push_json_string(out, s.as_str()),
        None => crate::bytes::push_bytes(out, "null".as_bytes()),
    }
}

/// Build the announcement document for `info`: its about, name and
/// version as one JSON object.
pub fn announcement_json(info: &ServerInfo) -> (r: Vec<u8>)
    ensures
        r@ == spec_announcement(*info),
{
    let mut out: Vec<u8> = Vec::new();
    crate::bytes::push_bytes(&mut out, "{\"about\":".as_bytes());
    push_json_string_opt(&mut out, &info.about);
    crate::bytes::push_bytes(&mut out, ",\"name\":".as_bytes());
    push_json_string_opt(&mut out, &info.name);
    crate::bytes::push_bytes(&mut out, ",\"version\":".as_bytes());
    push_json_string_opt(&mut out, &info.version);
    crate::bytes::push_bytes(&mut out, "}".as_bytes());
    proof {
        assert(out@ =~= spec_announcement(*info));
    }
    out
}

/// Build the tool-list document wrapping the given pre-serialized tool
/// documents.
pub fn tools_list_json(tools: &Vec<String>) -> (r: Vec<u8>)
    ensures
        r@ == spec_tools_list(tools@),
{
    let mut out: Vec<u8> = Vec::new();
    crate::bytes::push_bytes(&mut out, "{\"tools\":[".as_bytes());
    let n = tools.len();
    let mut i: usize = 0;
    while i < n
        invariant
            n == tools@.len(),
            0 <= i <= n,
            out@ == "{\"tools\":[".spec_bytes() + spec_join_docs(tools@.subrange(0, i as int)),
        decreases n - i,
    {
        let ghost prefix = tools@.subrange(0, i as int);
        if i > 0 {
            crate::bytes::push_bytes(&mut out, ",".as_bytes());
        }
        crate::bytes::push_bytes(&mut out, tools[i].as_str().as_bytes());
        proof {
            let next = tools@.subrange(0, i + 1);
            assert(next.drop_last() =~= prefix);
            assert(next.last() == tools@[i as int]);
            if i == 0 {
                assert(next.len() == 1);
            }
        }
        i += 1;
    }
    proof {
        assert(tools@.subrange(0, n as int) =~= tools@);
    }
    crate::bytes::push_bytes(&mut out, "]}".as_bytes());
    proof {
        assert(out@ =~= spec_tools_list(tools@));
    }
    out
}

} // verus!
