//! Small string-building helpers shared by the rejection-reason rendering:
//! decimal numbers, separator joins, and the tuple/list/option helpers the
//! constructor strings are assembled from.

use vstd::prelude::*;
use vstd::string::StringExecFns;

verus! {

/// Decimal rendering of a non-negative integer, most significant digit
/// first, no leading zeroes (except for zero itself).
pub open spec fn dec_of(n: int) -> Seq<char>
    recommends
        n >= 0,
    decreases n,
{
    if n < 10 {
        seq![crate::hex::hex_digit((if 0 <= n { n } else { 0 }) as u8)]
    } else {
        dec_of(n / 10) + seq![crate::hex::hex_digit((n % 10) as u8)]
    }
}

/// Decimal rendering of a `u64`.
pub fn u64_to_dec(n: u64) -> (r: String)
    ensures
        r@ == dec_of(n as int),
    decreases n,
{
    if n < 10 {
        String::from_str(crate::hex::hex_digit_str(n as u8))
    } else {
        let mut s = u64_to_dec(n / 10);
        s.append(crate::hex::hex_digit_str((n % 10) as u8));
        s
    }
}

/// The given parts joined with the given separator.
pub open spec fn joined(parts: Seq<Seq<char>>, sep: Seq<char>) -> Seq<char>
    decreases parts.len(),
{
    if parts.len() == 0 {
        Seq::empty()
    } else if parts.len() == 1 {
        parts[0]
    } else {
        joined(parts.drop_last(), sep) + sep + parts.last()
    }
}

/// Joins rendered parts with one separator, as the list helpers do.
pub fn join_with(parts: &Vec<String>, sep: &str) -> (r: String)
    ensures
        r@ == joined(parts.deep_view(), sep@),
{
    let mut s = String::new();
    let mut i: usize = 0;
    proof {
        assert(parts.deep_view().take(0) =~= Seq::<Seq<char>>::empty());
    }
    while i < parts.len()
        invariant
            i <= parts.len(),
            parts.deep_view().len() == parts.len(),
            forall|j: int|
                0 <= j < parts.len() ==> parts.deep_view()[j] == #[trigger] parts@[j]@,
            s@ == joined(parts.deep_view().take(i as int), sep@),
        decreases parts.len() - i,
    {
        if i > 0 {
            s.append(sep);
        }
        s.append(parts[i].as_str());
        i = i + 1;
        proof {
            let dv = parts.deep_view();
            assert(dv.take(i as int).drop_last() =~= dv.take(i as int - 1));
            assert(dv.take(i as int).last() == dv[i as int - 1]);
        }
    }
    proof {
        assert(parts.deep_view().take(parts.len() as int) =~= parts.deep_view());
    }
    s
}

/// `(a b)` for a rendered pair, as the reference output spaces it.
pub open spec fn spec_display_tuple(a: Seq<char>, b: Seq<char>) -> Seq<char> {
    "("@ + a + " "@ + b + ")"@
}

/// Renders a pair of already-rendered parts as `(a b)`.
pub fn display_tuple(t: &(String, String)) -> (r: String)
    ensures
        r@ == spec_display_tuple(t.0@, t.1@),
{
    let mut s = String::from_str("(");
    s.append(t.0.as_str());
    s.append(" ");
    s.append(t.1.as_str());
    s.append(")");
    s
}

/// `(a b c)` for a rendered triple.
pub open spec fn spec_display_triple(a: Seq<char>, b: Seq<char>, c: Seq<char>) -> Seq<char> {
    "("@ + a + " "@ + b + " "@ + c + ")"@
}

/// Renders a triple of already-rendered parts as `(a b c)`.
pub fn display_triple(t: &(String, String, String)) -> (r: String)
    ensures
        r@ == spec_display_triple(t.0@, t.1@, t.2@),
{
    let mut s = String::from_str("(");
    s.append(t.0.as_str());
    s.append(" ");
    s.append(t.1.as_str());
    s.append(" ");
    s.append(t.2.as_str());
    s.append(")");
    s
}

/// The rendering of a list of pairs: tuples joined with one space.
pub open spec fn spec_display_tuple_vec(ts: Seq<(Seq<char>, Seq<char>)>) -> Seq<char> {
    joined(ts.map_values(|t: (Seq<char>, Seq<char>)| spec_display_tuple(t.0, t.1)), " "@)
}

/// Renders a list of pairs, each as `(a b)`, joined with spaces.
pub fn display_tuple_vec(ts: &Vec<(String, String)>) -> (r: String)
    ensures
        r@ == spec_display_tuple_vec(ts.deep_view()),
{
    let mut parts: Vec<String> = Vec::new();
    let mut i: usize = 0;
    while i < ts.len()
        invariant
            i <= ts.len(),
            parts.len() == i,
            forall|k: int|
                0 <= k < i ==> (#[trigger] parts@[k])@ == spec_display_tuple(
                    ts@[k].0@,
                    ts@[k].1@,
                ),
        decreases ts.len() - i,
    {
        parts.push(display_tuple(&ts[i]));
        i = i + 1;
    }
    proof {
        let f = |t: (Seq<char>, Seq<char>)| spec_display_tuple(t.0, t.1);
        assert forall|k: int| 0 <= k < parts.deep_view().len() implies parts.deep_view()[k]
            == ts.deep_view().map_values(f)[k] by {
            assert(ts.deep_view()[k] == (ts@[k].0@, ts@[k].1@));
            assert(parts.deep_view()[k] == parts@[k]@);
        }
        assert(parts.deep_view() =~= ts.deep_view().map_values(f));
        assert(ts.deep_view().map_values(f) =~= ts.deep_view().map_values(
            |t: (Seq<char>, Seq<char>)| spec_display_tuple(t.0, t.1),
        ));
    }
    join_with(&parts, " ")
}

/// The rendering of a list of triples: triples joined with one space.
pub open spec fn spec_display_triple_vec(ts: Seq<(Seq<char>, Seq<char>, Seq<char>)>) -> Seq<
    char,
> {
    joined(
        ts.map_values(|t: (Seq<char>, Seq<char>, Seq<char>)| spec_display_triple(t.0, t.1, t.2)),
        " "@,
    )
}

/// Renders a list of triples, each as `(a b c)`, joined with spaces.
pub fn display_triple_vec(ts: &Vec<(String, String, String)>) -> (r: String)
    ensures
        r@ == spec_display_triple_vec(ts.deep_view()),
{
    let mut parts: Vec<String> = Vec::new();
    let mut i: usize = 0;
    while i < ts.len()
        invariant
            i <= ts.len(),
            parts.len() == i,
            forall|k: int|
                0 <= k < i ==> (#[trigger] parts@[k])@ == spec_display_triple(
                    ts@[k].0@,
                    ts@[k].1@,
                    ts@[k].2@,
                ),
        decreases ts.len() - i,
    {
        parts.push(display_triple(&ts[i]));
        i = i + 1;
    }
    proof {
        let f = |t: (Seq<char>, Seq<char>, Seq<char>)| spec_display_triple(t.0, t.1, t.2);
        assert forall|k: int| 0 <= k < parts.deep_view().len() implies parts.deep_view()[k]
            == ts.deep_view().map_values(f)[k] by {
            assert(ts.deep_view()[k] == (ts@[k].0@, ts@[k].1@, ts@[k].2@));
            assert(parts.deep_view()[k] == parts@[k]@);
        }
        assert(parts.deep_view() =~= ts.deep_view().map_values(f));
        assert(ts.deep_view().map_values(f) =~= ts.deep_view().map_values(
            |t: (Seq<char>, Seq<char>, Seq<char>)| spec_display_triple(t.0, t.1, t.2),
        ));
    }
    join_with(&parts, " ")
}

/// The rendering of a list of parts joined with one space.
pub open spec fn spec_display_vec(ts: Seq<Seq<char>>) -> Seq<char> {
    joined(ts, " "@)
}

/// Renders already-rendered parts joined with spaces.
pub fn display_vec(ts: &Vec<String>) -> (r: String)
    ensures
        r@ == spec_display_vec(ts.deep_view()),
{
    join_with(ts, " ")
}

/// The rendering of an optional part: the part itself, or `None`.
pub open spec fn spec_display_option(t: Option<Seq<char>>) -> Seq<char> {
    match t {
        Option::Some(s) => s,
        Option::None => "None"@,
    }
}

/// Renders an optional already-rendered part; `None` when absent.
pub fn display_option(t: &Option<String>) -> (r: String)
    ensures
        r@ == spec_display_option(t.deep_view()),
{
    match t {
        Option::Some(s) => s.clone(),
        Option::None => String::from_str("None"),
    }
}

} // verus!
