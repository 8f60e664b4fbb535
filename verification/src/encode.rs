//! The request bodies the client sends, rendered as JSON text.
//!
//! The wire shapes are small and fixed, so the library renders them
//! itself, character by character, with an exact contract: string values
//! are escaped as JSON requires, integers are rendered in decimal, floats
//! keep the canonical literal the coercion produced.

use vstd::prelude::*;

use crate::models::ColorRequest;
use crate::models::EffectStartRequest;
use crate::numbers::digit_char;
use crate::numbers::int_rep;
use crate::numbers::push_dec_i64;
use crate::text::chars_to_string;
use crate::text::push_chars;
use crate::text::str_chars;
use crate::values::ParamMap;
use crate::values::ParamValue;
use crate::values::ValueModel;

verus! {

/// The lowercase hex digit with value `d` (meaningful for `0 <= d < 16`).
pub open spec fn hex_digit(d: int) -> char {
    if d < 10 {
        digit_char(d)
    } else {
        (d - 10 + 'a' as int) as char
    }
}

/// The JSON escape of one character: the two-character short escapes, the
/// `\u00..` form for the remaining control characters, and the character
/// itself otherwise.
pub open spec fn escape_char(c: char) -> Seq<char> {
    if c == '"' {
        seq!['\\', '"']
    } else if c == '\\' {
        seq!['\\', '\\']
    } else if c == '\u{8}' {
        seq!['\\', 'b']
    } else if c == '\t' {
        seq!['\\', 't']
    } else if c == '\n' {
        seq!['\\', 'n']
    } else if c == '\u{c}' {
        seq!['\\', 'f']
    } else if c == '\r' {
        seq!['\\', 'r']
    } else if (c as int) < 32 {
        seq!['\\', 'u', '0', '0', hex_digit(c as int / 16), hex_digit(c as int % 16)]
    } else {
        seq![c]
    }
}

/// The JSON escape of a whole string, without the surrounding quotes.
pub open spec fn escape_str(s: Seq<char>) -> Seq<char>
    decreases s.len(),
{
    if s.len() == 0 {
        Seq::empty()
    } else {
        escape_str(s.drop_last()) + escape_char(s.last())
    }
}

/// A JSON string value: the escaped characters between quotes.
pub open spec fn json_string(s: Seq<char>) -> Seq<char> {
    seq!['"'] + escape_str(s) + seq!['"']
}

/// The JSON text of one parameter value.
pub open spec fn value_json(v: ValueModel) -> Seq<char> {
    match v {
        ValueModel::Bool(b) => if b {
            "true"@
        } else {
            "false"@
        },
        ValueModel::Int(n) => int_rep(n),
        ValueModel::FloatLit(lit) => lit,
        ValueModel::Str(s) => json_string(s),
    }
}

/// The members of the parameters object, comma separated, in entry order.
pub open spec fn params_items(entries: Seq<(Seq<char>, ValueModel)>) -> Seq<char>
    decreases entries.len(),
{
    if entries.len() == 0 {
        Seq::empty()
    } else if entries.len() == 1 {
        params_item(entries[0])
    } else {
        params_items(entries.drop_last()) + seq![','] + params_item(entries.last())
    }
}

/// One `"key":value` member.
pub open spec fn params_item(p: (Seq<char>, ValueModel)) -> Seq<char> {
    json_string(p.0) + seq![':'] + value_json(p.1)
}

/// The parameters object.
pub open spec fn params_json(entries: Seq<(Seq<char>, ValueModel)>) -> Seq<char> {
    seq!['{'] + params_items(entries) + seq!['}']
}

/// The body of a start-effect request.
pub open spec fn start_body(name: Seq<char>, entries: Seq<(Seq<char>, ValueModel)>) -> Seq<char> {
    "{\"name\":"@ + json_string(name) + ",\"parameters\":"@ + params_json(entries) + seq!['}']
}

/// The body of a set-color request.
pub open spec fn color_body(color: Seq<char>) -> Seq<char> {
    "{\"color\":"@ + json_string(color) + seq!['}']
}

/// The body of a set-brightness request, around the float literal of the
/// brightness value.
pub open spec fn brightness_body(lit: Seq<char>) -> Seq<char> {
    "{\"brightness\":"@ + lit + seq!['}']
}

fn hex_digit_exec(d: u32) -> (c: char)
    requires
        d < 16,
    ensures
        c == hex_digit(d as int),
{
    if d < 10 {
        ((d + '0' as u32) as u8) as char
    } else {
        ((d - 10 + 'a' as u32) as u8) as char
    }
}

fn push_escaped_char(c: char, out: &mut Vec<char>)
    ensures
        final(out)@ == old(out)@ + escape_char(c),
{
    if c == '"' {
        out.push('\\');
        out.push('"');
        assert(final(out)@ =~= old(out)@ + escape_char(c));
    } else if c == '\\' {
        out.push('\\');
        out.push('\\');
        assert(final(out)@ =~= old(out)@ + escape_char(c));
    } else if c == '\u{8}' {
        out.push('\\');
        out.push('b');
        assert(final(out)@ =~= old(out)@ + escape_char(c));
    } else if c == '\t' {
        out.push('\\');
        out.push('t');
        assert(final(out)@ =~= old(out)@ + escape_char(c));
    } else if c == '\n' {
        out.push('\\');
        out.push('n');
        assert(final(out)@ =~= old(out)@ + escape_char(c));
    } else if c == '\u{c}' {
        out.push('\\');
        out.push('f');
        assert(final(out)@ =~= old(out)@ + escape_char(c));
    } else if c == '\r' {
        out.push('\\');
        out.push('r');
        assert(final(out)@ =~= old(out)@ + escape_char(c));
    } else if (c as u32) < 32 {
        out.push('\\');
        out.push('u');
        out.push('0');
        out.push('0');
        let h = hex_digit_exec((c as u32) / 16);
        out.push(h);
        let l = hex_digit_exec((c as u32) % 16);
        out.push(l);
        assert(final(out)@ =~= old(out)@ + escape_char(c));
    } else {
        out.push(c);
        assert(final(out)@ =~= old(out)@ + escape_char(c));
    }
}

/// Appends `s` as a quoted, escaped JSON string value.
pub(crate) fn push_json_string(s: &str, out: &mut Vec<char>)
    ensures
        final(out)@ == old(out)@ + json_string(s@),
{
    let chars = str_chars(s);
    let ghost start = out@;
    out.push('"');
    let mut i: usize = 0;
    while i < chars.len()
        invariant
            i <= chars.len(),
            chars@ == s@,
            out@ == start + seq!['"'] + escape_str(s@.take(i as int)),
        decreases chars.len() - i,
    {
        push_escaped_char(chars[i], out);
        i = i + 1;
        proof {
            assert(s@.take(i as int).drop_last() =~= s@.take(i - 1));
            assert(s@.take(i as int).last() == s@[i - 1]);
        }
    }
    assert(s@.take(chars@.len() as int) =~= s@);
    out.push('"');
    assert(final(out)@ =~= old(out)@ + json_string(s@));
}

fn push_value_json(v: &ParamValue, out: &mut Vec<char>)
    ensures
        final(out)@ == old(out)@ + value_json(v@),
{
    match v {
        ParamValue::Bool(b) => {
            if *b {
                push_chars(out, "true");
            } else {
                push_chars(out, "false");
            }
        },
        ParamValue::Int(n) => {
            push_dec_i64(*n, out);
        },
        ParamValue::FloatLit(lit) => {
            push_chars(out, lit.as_str());
        },
        ParamValue::Str(s) => {
            push_json_string(s.as_str(), out);
        },
    }
}

/// Appends the parameters object of `params`.
fn push_params_json(params: &ParamMap, out: &mut Vec<char>)
    ensures
        final(out)@ == old(out)@ + params_json(params@),
{
    let ghost start = out@;
    out.push('{');
    let mut i: usize = 0;
    while i < params.entries.len()
        invariant
            i <= params.entries.len(),
            out@ == start + seq!['{'] + params_items(params@.take(i as int)),
        decreases params.entries.len() - i,
    {
        if i > 0 {
            out.push(',');
        }
        let e = &params.entries[i];
        push_json_string(e.key.as_str(), out);
        out.push(':');
        push_value_json(&e.value, out);
        i = i + 1;
        proof {
            assert(params@.take(i as int).drop_last() =~= params@.take(i - 1));
            assert(params@.take(i as int).last() == params@[i - 1]);
            assert(params@[i - 1] == params.entries@[i - 1]@);
            assert(params_item(params@[i - 1]) == json_string(params.entries@[i - 1].key@)
                + seq![':'] + value_json(params.entries@[i - 1].value@));
            assert(out@ =~= start + seq!['{'] + params_items(params@.take(i as int)));
        }
    }
    assert(params@.take(params.entries@.len() as int) =~= params@);
    out.push('}');
    assert(final(out)@ =~= old(out)@ + params_json(params@));
}

/// Renders the body of a start-effect request for `name` and `params`.
pub fn render_start_body(name: &str, params: &ParamMap) -> (r: String)
    ensures
        r@ == start_body(name@, params@),
{
    let mut out: Vec<char> = Vec::new();
    push_chars(&mut out, "{\"name\":");
    push_json_string(name, &mut out);
    push_chars(&mut out, ",\"parameters\":");
    push_params_json(params, &mut out);
    out.push('}');
    assert(out@ =~= start_body(name@, params@));
    chars_to_string(&out)
}

/// Renders the body of a set-color request.
pub fn render_color_body(color: &str) -> (r: String)
    ensures
        r@ == color_body(color@),
{
    let mut out: Vec<char> = Vec::new();
    push_chars(&mut out, "{\"color\":");
    push_json_string(color, &mut out);
    out.push('}');
    assert(out@ =~= color_body(color@));
    chars_to_string(&out)
}

impl ColorRequest {
    /// Renders this request as its JSON body.
    pub fn to_json(&self) -> (r: String)
        ensures
            r@ == color_body(self.color@),
    {
        render_color_body(self.color.as_str())
    }
}

impl EffectStartRequest {
    /// Renders this request as its JSON body.
    pub fn to_json(&self) -> (r: String)
        ensures
            r@ == start_body(self.name@, self.parameters@),
    {
        render_start_body(self.name.as_str(), &self.parameters)
    }
}

/// Renders the body of a set-brightness request around the given float
/// literal.
pub fn render_brightness_body(lit: &str) -> (r: String)
    ensures
        r@ == brightness_body(lit@),
{
    let mut out: Vec<char> = Vec::new();
    push_chars(&mut out, "{\"brightness\":");
    push_chars(&mut out, lit);
    out.push('}');
    assert(out@ =~= brightness_body(lit@));
    chars_to_string(&out)
}

} // verus!
