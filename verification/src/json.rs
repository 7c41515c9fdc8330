//! A small JSON document model: the values the error envelope and the
//! fallback decoder's replies are made of, and a writer that renders them
//! exactly as the reference server does. Numbers are carried as their
//! literal text, so a document survives a round trip unchanged.

use vstd::prelude::*;
use vstd::string::StringExecFns;
use vstd::string::StrSliceExecFns;

use crate::hex::hex_digit;
use crate::hex::hex_digit_str;

verus! {

broadcast use vstd::seq::axiom_seq_index_decreases, vstd::std_specs::vec::axiom_vec_index_decreases;

/// A JSON value. Object fields keep their order.
#[derive(Debug, PartialEq, Eq)]
pub enum JsonValue {
    Null,
    Bool(bool),
    Number(String),
    Str(String),
    Array(Vec<JsonValue>),
    Object(Vec<(String, JsonValue)>),
}

/// The view of a JSON value.
pub enum JsonV {
    Null,
    Bool(bool),
    Number(Seq<char>),
    Str(Seq<char>),
    Array(Seq<JsonV>),
    Object(Seq<(Seq<char>, JsonV)>),
}

/// The view of a JSON value, by structural recursion.
pub open spec fn view_json(v: &JsonValue) -> JsonV
    decreases v,
{
    match v {
        JsonValue::Null => JsonV::Null,
        JsonValue::Bool(b) => JsonV::Bool(*b),
        JsonValue::Number(s) => JsonV::Number(s@),
        JsonValue::Str(s) => JsonV::Str(s@),
        JsonValue::Array(items) => JsonV::Array(
            Seq::new(
                items@.len(),
                |i: int|
                    if 0 <= i < items@.len() {
                        view_json(&items@[i])
                    } else {
                        JsonV::Null
                    },
            ),
        ),
        JsonValue::Object(fields) => JsonV::Object(
            Seq::new(
                fields@.len(),
                |i: int|
                    if 0 <= i < fields@.len() {
                        (fields@[i].0@, view_json(&fields@[i].1))
                    } else {
                        (Seq::empty(), JsonV::Null)
                    },
            ),
        ),
    }
}

impl View for JsonValue {
    type V = JsonV;

    open spec fn view(&self) -> JsonV {
        view_json(self)
    }
}

/// The view of a built object is the field views, in order.
pub proof fn lemma_object_view(fields: Vec<(String, JsonValue)>)
    ensures
        (JsonValue::Object(fields))@ is Object,
        ((JsonValue::Object(fields))@) -> Object_0.len() == fields@.len(),
        forall|k: int|
            0 <= k < fields@.len() ==> ((JsonValue::Object(fields))@) -> Object_0[k] == (
                (#[trigger] fields@[k]).0@,
                fields@[k].1@,
            ),
{
}

/// The view of a built array is the item views, in order.
pub proof fn lemma_array_view(items: Vec<JsonValue>)
    ensures
        (JsonValue::Array(items))@ is Array,
        ((JsonValue::Array(items))@) -> Array_0.len() == items@.len(),
        forall|k: int|
            0 <= k < items@.len() ==> ((JsonValue::Array(items))@) -> Array_0[k] == (
            #[trigger] items@[k])@,
{
}

/// The escape of one character inside a JSON string.
pub open spec fn sp_esc_char(c: char) -> Seq<char> {
    if c == '"' {
        "\\\""@
    } else if c == '\\' {
        "\\\\"@
    } else if c == '\n' {
        "\\n"@
    } else if c == '\r' {
        "\\r"@
    } else if c == '\t' {
        "\\t"@
    } else if (c as int) < 32 {
        "\\u00"@ + seq![hex_digit(((c as u32) / 16) as u8), hex_digit(((c as u32) % 16) as u8)]
    } else {
        seq![c]
    }
}

/// The escaped body of a JSON string.
pub open spec fn sp_escaped(s: Seq<char>) -> Seq<char>
    decreases s.len(),
{
    if s.len() == 0 {
        Seq::empty()
    } else {
        sp_escaped(s.drop_last()) + sp_esc_char(s.last())
    }
}

/// A string rendered as a JSON string literal.
pub open spec fn sp_quoted(s: Seq<char>) -> Seq<char> {
    "\""@ + sp_escaped(s) + "\""@
}

/// The rendering of a JSON value, with no whitespace, as the reference
/// server emits it.
pub open spec fn sp_json(v: JsonV) -> Seq<char>
    decreases v,
{
    match v {
        JsonV::Null => "null"@,
        JsonV::Bool(b) => if b {
            "true"@
        } else {
            "false"@
        },
        JsonV::Number(s) => s,
        JsonV::Str(s) => sp_quoted(s),
        JsonV::Array(items) => "["@ + sp_json_items(items, items.len() as int) + "]"@,
        JsonV::Object(fields) => "{"@ + sp_json_fields(fields, fields.len() as int) + "}"@,
    }
}

/// The first `n` array items joined with commas.
pub open spec fn sp_json_items(items: Seq<JsonV>, n: int) -> Seq<char>
    decreases items, n,
{
    if n <= 0 || n > items.len() {
        Seq::empty()
    } else if n == 1 {
        sp_json(items[0])
    } else {
        sp_json_items(items, n - 1) + ","@ + sp_json(items[n - 1])
    }
}

/// The first `n` object fields joined with commas, each as `"key":value`.
pub open spec fn sp_json_fields(fields: Seq<(Seq<char>, JsonV)>, n: int) -> Seq<char>
    decreases fields, n,
{
    if n <= 0 || n > fields.len() {
        Seq::empty()
    } else if n == 1 {
        sp_quoted(fields[0].0) + ":"@ + sp_json(fields[0].1)
    } else {
        sp_json_fields(fields, n - 1) + ","@ + sp_quoted(fields[n - 1].0) + ":"@ + sp_json(
            fields[n - 1].1,
        )
    }
}

/// Appends the escaped body of `s` to `out`.
pub fn escape_into(out: &mut String, s: &str)
    ensures
        final(out)@ == old(out)@ + sp_escaped(s@),
{
    let n = s.unicode_len();
    let mut i: usize = 0;
    proof {
        assert(s@.take(0) =~= Seq::<char>::empty());
        assert(old(out)@ + Seq::<char>::empty() =~= old(out)@);
    }
    while i < n
        invariant
            n == s@.len(),
            i <= n,
            out@ == old(out)@ + sp_escaped(s@.take(i as int)),
        decreases n - i,
    {
        let c = s.get_char(i);
        if c == '"' {
            out.append("\\\"");
        } else if c == '\\' {
            out.append("\\\\");
        } else if c == '\n' {
            out.append("\\n");
        } else if c == '\r' {
            out.append("\\r");
        } else if c == '\t' {
            out.append("\\t");
        } else if (c as u32) < 32 {
            out.append("\\u00");
            out.append(hex_digit_str(((c as u32) / 16) as u8));
            out.append(hex_digit_str(((c as u32) % 16) as u8));
        } else {
            let piece = s.substring_char(i, i + 1);
            out.append(piece);
            proof {
                assert(piece@ =~= seq![s@[i as int]]);
            }
        }
        i = i + 1;
        proof {
            assert(s@.take(i as int).drop_last() =~= s@.take(i as int - 1));
            assert(s@.take(i as int).last() == s@[i as int - 1]);
        }
    }
    proof {
        assert(s@.take(n as int) =~= s@);
    }
}

/// Appends the rendering of a JSON value to `out`.
#[verifier::loop_isolation(false)]
#[verifier::rlimit(100)]
fn write_json(out: &mut String, v: &JsonValue)
    ensures
        final(out)@ == old(out)@ + sp_json(v@),
    decreases v,
{
    match v {
        JsonValue::Null => {
            out.append("null");
        },
        JsonValue::Bool(b) => {
            if *b {
                out.append("true");
            } else {
                out.append("false");
            }
        },
        JsonValue::Number(s) => {
            out.append(s.as_str());
        },
        JsonValue::Str(s) => {
            out.append("\"");
            escape_into(out, s.as_str());
            out.append("\"");
        },
        JsonValue::Array(items) => {
            out.append("[");
            let ghost base = out@;
            let ghost iv = (v@) -> Array_0;
            let mut i: usize = 0;
            while i < items.len()
                invariant
                    i <= items.len(),
                    out@ == base + sp_json_items(iv, i as int),
                decreases items.len() - i,
            {
                if i > 0 {
                    out.append(",");
                }
                write_json(out, &items[i]);
                i = i + 1;
            }
            out.append("]");
        },
        JsonValue::Object(fields) => {
            out.append("{");
            let ghost base = out@;
            let ghost fv = (v@) -> Object_0;
            let mut i: usize = 0;
            while i < fields.len()
                invariant
                    i <= fields.len(),
                    out@ == base + sp_json_fields(fv, i as int),
                decreases fields.len() - i,
            {
                if i > 0 {
                    out.append(",");
                }
                out.append("\"");
                escape_into(out, fields[i].0.as_str());
                out.append("\"");
                out.append(":");
                write_json(out, &fields[i].1);
                i = i + 1;
            }
            out.append("}");
        },
    }
}

/// The rendering of a JSON value as a string.
pub fn json_to_string(v: &JsonValue) -> (r: String)
    ensures
        r@ == sp_json(v@),
{
    let mut out = String::new();
    write_json(&mut out, v);
    out
}

} // verus!
