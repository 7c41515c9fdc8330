//! Small shared helpers: request content-type validation, string
//! comparison, and result splitting.

use vstd::prelude::*;
use vstd::string::StringExecFns;
use vstd::string::StrSliceExecFns;

use crate::errors::BlockfrostError;
use crate::json::escape_into;
use crate::json::sp_escaped;
use crate::render::joined;

verus! {

/// String equality by characters.
pub fn str_eq(a: &str, b: &str) -> (r: bool)
    ensures
        r == (a@ == b@),
{
    let n = a.unicode_len();
    let m = b.unicode_len();
    if n != m {
        return false;
    }
    let mut i: usize = 0;
    while i < n
        invariant
            n == a@.len(),
            n == b@.len(),
            i <= n,
            forall|k: int| 0 <= k < i ==> a@[k] == b@[k],
        decreases n - i,
    {
        if a.get_char(i) != b.get_char(i) {
            return false;
        }
        i = i + 1;
    }
    proof {
        assert(a@ =~= b@);
    }
    true
}

/// Splits a result into the value for the caller and the error for the
/// logs, so each side can move independently.
pub fn partition_result<A, E>(ae: Result<A, E>) -> (r: (Result<A, ()>, Result<(), E>))
    ensures
        ae matches Ok(a) ==> r.0 == Result::<A, ()>::Ok(a) && r.1 is Ok,
        ae matches Err(e) ==> r.0 is Err && r.1 == Result::<(), E>::Err(e),
{
    match ae {
        Ok(ok) => (Ok(ok), Ok(())),
        Err(err) => (Err(()), Err(err)),
    }
}

/// The message given when one content type is required.
pub open spec fn sp_content_type_message_one(allowed: Seq<char>) -> Seq<char> {
    "Content-Type must be: \""@ + sp_escaped(allowed) + "\""@
}

/// The message given when several content types are allowed.
pub open spec fn sp_content_type_message_many(allowed: Seq<Seq<char>>) -> Seq<char> {
    "Content-Type must be one of: ["@ + joined(
        allowed.map_values(|a: Seq<char>| "\""@ + sp_escaped(a) + "\""@),
        ", "@,
    ) + "]"@
}

/// Whether the request's content type is among the allowed ones. A
/// request with no content type at all, or one outside the list, gets
/// the 400 naming what is required.
pub fn validate_content_type(content_type: Option<&String>, allowed: &Vec<String>) -> (r: Result<
    bool,
    BlockfrostError,
>)
    ensures
        r is Ok <==> (content_type matches Some(c) && (exists|i: int|
            0 <= i < allowed@.len() && (#[trigger] allowed@[i])@ == c@)),
        r matches Err(e) ==> e.status_code == 400 && e.error@ == "Bad Request"@,
        (r is Err && allowed@.len() == 1) ==> (r matches Err(e) && e.message@
            == sp_content_type_message_one(allowed@[0]@)),
        (r is Err && allowed@.len() != 1) ==> (r matches Err(e) && e.message@
            == sp_content_type_message_many(allowed.deep_view())),
{
    let is_valid = match content_type {
        Some(c) => {
            let mut found = false;
            let mut i: usize = 0;
            while i < allowed.len()
                invariant
                    i <= allowed.len(),
                    found <==> exists|k: int|
                        0 <= k < i && (#[trigger] allowed@[k])@ == c@,
                decreases allowed.len() - i,
            {
                if str_eq(allowed[i].as_str(), c.as_str()) {
                    found = true;
                }
                i = i + 1;
            }
            found
        },
        None => false,
    };
    if is_valid {
        return Ok(true);
    }
    if allowed.len() == 1 {
        let mut m = String::from_str("Content-Type must be: \"");
        let mut quoted = String::new();
        escape_into(&mut quoted, allowed[0].as_str());
        m.append(quoted.as_str());
        m.append("\"");
        proof {
            assert(Seq::<char>::empty() + sp_escaped(allowed@[0]@) =~= sp_escaped(allowed@[0]@));
        }
        Err(BlockfrostError::custom_400(m))
    } else {
        let mut m = String::from_str("Content-Type must be one of: [");
        let mut parts: Vec<String> = Vec::new();
        let mut i: usize = 0;
        while i < allowed.len()
            invariant
                i <= allowed.len(),
                parts.len() == i,
                forall|k: int| 0 <= k < i ==> (#[trigger] parts@[k])@ == "\""@ + sp_escaped(
                    allowed@[k]@,
                ) + "\""@,
            decreases allowed.len() - i,
        {
            let mut q = String::from_str("\"");
            escape_into(&mut q, allowed[i].as_str());
            q.append("\"");
            parts.push(q);
            i = i + 1;
        }
        let joined_parts = crate::render::join_with(&parts, ", ");
        m.append(joined_parts.as_str());
        m.append("]");
        proof {
            let f = |a: Seq<char>| "\""@ + sp_escaped(a) + "\""@;
            assert forall|k: int| 0 <= k < parts.deep_view().len() implies parts.deep_view()[k]
                == allowed.deep_view().map_values(f)[k] by {
                assert(parts.deep_view()[k] == parts@[k]@);
                assert(allowed.deep_view()[k] == allowed@[k]@);
            }
            assert(parts.deep_view() =~= allowed.deep_view().map_values(f));
        }
        Err(BlockfrostError::custom_400(m))
    }
}

} // verus!
