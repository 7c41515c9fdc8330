//! Byte-level CBOR primitives: item heads (major type plus argument),
//! big-endian arguments, byte strings and ASCII text strings. The
//! rejection-reason grammar is built from these.

use vstd::prelude::*;

verus! {

/// `256^n`.
pub open spec fn pow256(n: nat) -> int
    decreases n,
{
    if n == 0 {
        1
    } else {
        256 * pow256((n - 1) as nat)
    }
}

/// The big-endian value of `n` bytes starting at `p`.
pub open spec fn be(b: Seq<u8>, p: int, n: nat) -> int
    decreases n,
{
    if n == 0 {
        0
    } else {
        be(b, p, (n - 1) as nat) * 256 + b[p + n - 1]
    }
}

/// The big-endian bytes of a value, `n` bytes, most significant first.
pub open spec fn enc_be(v: int, n: nat) -> Seq<u8>
    decreases n,
{
    if n == 0 {
        Seq::empty()
    } else {
        enc_be(v / 256, (n - 1) as nat) + seq![(v % 256) as u8]
    }
}

pub proof fn lemma_be_bound(b: Seq<u8>, p: int, n: nat)
    ensures
        0 <= be(b, p, n) < pow256(n),
    decreases n,
{
    if n > 0 {
        lemma_be_bound(b, p, (n - 1) as nat);
        assert(b[p + n - 1] < 256);
    }
}

pub proof fn lemma_pow256_pos(n: nat)
    ensures
        pow256(n) >= 1,
    decreases n,
{
    if n > 0 {
        lemma_pow256_pos((n - 1) as nat);
    }
}

pub proof fn lemma_pow256_le(n: nat, m: nat)
    requires
        n <= m,
    ensures
        pow256(n) <= pow256(m),
    decreases m,
{
    if n < m && m > 0 {
        lemma_pow256_le(n, (m - 1) as nat);
        lemma_pow256_pos((m - 1) as nat);
    }
}

/// The small powers of 256 the head forms use.
pub proof fn lemma_pow256_values()
    ensures
        pow256(1) == 256,
        pow256(2) == 65536,
        pow256(4) == 4294967296,
        pow256(7) == 72057594037927936,
        pow256(8) == 18446744073709551616,
{
    assert(pow256(1) == 256 * pow256(0));
    assert(pow256(2) == 256 * pow256(1));
    assert(pow256(3) == 256 * pow256(2));
    assert(pow256(4) == 256 * pow256(3));
    assert(pow256(5) == 256 * pow256(4));
    assert(pow256(6) == 256 * pow256(5));
    assert(pow256(7) == 256 * pow256(6));
    assert(pow256(8) == 256 * pow256(7));
}

/// Reading back the big-endian bytes of `v` recovers `v`.
pub proof fn lemma_be_enc(v: int, n: nat, c: Seq<u8>, p: int)
    requires
        0 <= v < pow256(n),
        0 <= p,
        p + n <= c.len(),
        c.subrange(p, p + n) =~= enc_be(v, n),
    ensures
        be(c, p, n) == v,
    decreases n,
{
    if n == 0 {
    } else {
        let m = (n - 1) as nat;
        assert(enc_be(v, n).len() == n) by {
            lemma_enc_be_len(v, n);
        }
        assert(c.subrange(p, p + m) =~= enc_be(v / 256, m)) by {
            lemma_enc_be_len(v / 256, m);
            assert forall|i: int| 0 <= i < m implies #[trigger] c.subrange(p, p + m)[i] == enc_be(
                v / 256,
                m,
            )[i] by {
                assert(c[p + i] == enc_be(v, n)[i]);
            }
        }
        assert(v / 256 < pow256(m)) by {
            assert(pow256(n) == 256 * pow256(m));
        }
        lemma_be_enc(v / 256, m, c, p);
        assert(c[p + n - 1] == enc_be(v, n)[n - 1]);
        assert(enc_be(v, n)[n - 1] == (v % 256) as u8);
        assert(be(c, p, n) == (v / 256) * 256 + (v % 256) as u8);
        assert((v % 256) as u8 == v % 256);
        assert((v / 256) * 256 + v % 256 == v);
    }
}

pub proof fn lemma_enc_be_len(v: int, n: nat)
    ensures
        enc_be(v, n).len() == n,
    decreases n,
{
    if n > 0 {
        lemma_enc_be_len(v / 256, (n - 1) as nat);
    }
}

/// A CBOR item head at `p` with the given major type: the argument value
/// and the position just past the head. `None` when the byte is missing,
/// has another major type, or the argument is cut short; indefinite
/// lengths are not accepted.
pub open spec fn sp_head(major: u8, b: Seq<u8>, p: int) -> Option<(u64, int)> {
    if 0 <= p < b.len() && b[p] / 32 == major {
        let ai = b[p] % 32;
        if ai < 24 {
            Some((ai as u64, p + 1))
        } else if ai == 24 && p + 2 <= b.len() {
            Some((b[p + 1] as u64, p + 2))
        } else if ai == 25 && p + 3 <= b.len() {
            Some((be(b, p + 1, 2) as u64, p + 3))
        } else if ai == 26 && p + 5 <= b.len() {
            Some((be(b, p + 1, 4) as u64, p + 5))
        } else if ai == 27 && p + 9 <= b.len() {
            Some((be(b, p + 1, 8) as u64, p + 9))
        } else {
            None
        }
    } else {
        None
    }
}

/// The shortest head encoding of an argument value.
pub open spec fn enc_head(major: u8, v: u64) -> Seq<u8>
    recommends
        major < 8,
{
    if v < 24 {
        seq![(major * 32 + v) as u8]
    } else if v < 256 {
        seq![(major * 32 + 24) as u8, v as u8]
    } else if v < 65536 {
        seq![(major * 32 + 25) as u8] + enc_be(v as int, 2)
    } else if v < 4294967296 {
        seq![(major * 32 + 26) as u8] + enc_be(v as int, 4)
    } else {
        seq![(major * 32 + 27) as u8] + enc_be(v as int, 8)
    }
}

/// Parsing an encoded head embedded in a larger sequence yields the value
/// and stops just past it.
pub proof fn lemma_head_enc(major: u8, v: u64, c: Seq<u8>, p: int)
    requires
        major < 8,
        0 <= p,
        p + enc_head(major, v).len() <= c.len(),
        c.subrange(p, p + enc_head(major, v).len()) =~= enc_head(major, v),
    ensures
        sp_head(major, c, p) == Some((v, p + enc_head(major, v).len())),
{
    let e = enc_head(major, v);
    lemma_pow256_values();
    lemma_enc_be_len(v as int, 2);
    lemma_enc_be_len(v as int, 4);
    lemma_enc_be_len(v as int, 8);
    assert(c[p] == e[0]);
    if v < 24 {
        assert(c[p] == major * 32 + v);
        assert(c[p] / 32 == major && c[p] % 32 == v);
    } else if v < 256 {
        assert(c[p] == major * 32 + 24);
        assert(c[p] / 32 == major && c[p] % 32 == 24);
        assert(c[p + 1] == e[1]);
        assert(e[1] == v as u8);
    } else if v < 65536 {
        assert(c[p] / 32 == major && c[p] % 32 == 25);
        lemma_enc_be_len(v as int, 2);
        assert(c.subrange(p + 1, p + 3) =~= enc_be(v as int, 2)) by {
            assert forall|i: int| 0 <= i < 2 implies #[trigger] c.subrange(p + 1, p + 3)[i] == enc_be(
                v as int,
                2,
            )[i] by {
                assert(c[p + 1 + i] == e[1 + i]);
            }
        }
        lemma_be_enc(v as int, 2, c, p + 1);
    } else if v < 4294967296 {
        assert(c[p] / 32 == major && c[p] % 32 == 26);
        lemma_enc_be_len(v as int, 4);
        assert(c.subrange(p + 1, p + 5) =~= enc_be(v as int, 4)) by {
            assert forall|i: int| 0 <= i < 4 implies #[trigger] c.subrange(p + 1, p + 5)[i] == enc_be(
                v as int,
                4,
            )[i] by {
                assert(c[p + 1 + i] == e[1 + i]);
            }
        }
        lemma_be_enc(v as int, 4, c, p + 1);
    } else {
        assert(c[p] / 32 == major && c[p] % 32 == 27);
        lemma_enc_be_len(v as int, 8);
        assert(c.subrange(p + 1, p + 9) =~= enc_be(v as int, 8)) by {
            assert forall|i: int| 0 <= i < 8 implies #[trigger] c.subrange(p + 1, p + 9)[i] == enc_be(
                v as int,
                8,
            )[i] by {
                assert(c[p + 1 + i] == e[1 + i]);
            }
        }
        assert(v < pow256(8)) by {
            assert(pow256(8) == 256 * pow256(7));
            assert(pow256(7) == 256 * pow256(6));
            assert(pow256(6) == 256 * pow256(5));
            assert(pow256(5) == 256 * pow256(4));
            assert(pow256(4) == 256 * pow256(3));
            assert(pow256(3) == 256 * pow256(2));
            assert(pow256(2) == 256 * pow256(1));
            assert(pow256(1) == 256 * pow256(0));
        }
        lemma_be_enc(v as int, 8, c, p + 1);
    }
}

/// Reads a CBOR item head of the given major type.
pub fn read_head(major: u8, b: &Vec<u8>, p: usize) -> (r: Option<(u64, usize)>)
    requires
        major < 8,
    ensures
        r matches Some((v, q)) ==> sp_head(major, b@, p as int) == Some((v, q as int)) && p < q
            <= b@.len(),
        r is None ==> sp_head(major, b@, p as int) is None,
{
    if p >= b.len() {
        return None;
    }
    let h = b[p];
    if h / 32 != major {
        return None;
    }
    let ai = h % 32;
    if ai < 24 {
        Some((ai as u64, p + 1))
    } else if ai == 24 {
        if b.len() - p >= 2 {
            Some((b[p + 1] as u64, p + 2))
        } else {
            None
        }
    } else if ai == 25 || ai == 26 || ai == 27 {
        let n: usize = if ai == 25 {
            2
        } else if ai == 26 {
            4
        } else {
            8
        };
        if b.len() - p < n + 1 {
            return None;
        }
        let mut acc: u64 = 0;
        let mut k: usize = 0;
        while k < n
            invariant
                n <= 8,
                p + 1 + n <= b@.len(),
                b@.len() <= usize::MAX,
                k <= n,
                acc == be(b@, p as int + 1, k as nat),
                acc < pow256(k as nat),
            decreases n - k,
        {
            proof {
                lemma_pow256_le(k as nat, 7);
                assert(pow256(7) == 256 * pow256(6));
                assert(pow256(6) == 256 * pow256(5));
                assert(pow256(5) == 256 * pow256(4));
                assert(pow256(4) == 256 * pow256(3));
                assert(pow256(3) == 256 * pow256(2));
                assert(pow256(2) == 256 * pow256(1));
                assert(pow256(1) == 256 * pow256(0));
                assert(acc < pow256(7));
            }
            acc = acc * 256 + (b[p + 1 + k] as u64);
            k = k + 1;
        }
        Some((acc, p + 1 + n))
    } else {
        None
    }
}

/// Appends the big-endian bytes of `v`, `n` bytes wide.
fn write_be(out: &mut Vec<u8>, v: u64, n: usize)
    ensures
        final(out)@ =~= old(out)@ + enc_be(v as int, n as nat),
    decreases n,
{
    if n > 0 {
        write_be(out, v / 256, n - 1);
        out.push((v % 256) as u8);
    }
}

/// Appends the shortest head encoding of `v` with the given major type.
pub fn write_head(out: &mut Vec<u8>, major: u8, v: u64)
    requires
        major < 8,
    ensures
        final(out)@ =~= old(out)@ + enc_head(major, v),
{
    if v < 24 {
        out.push(major * 32 + (v as u8));
    } else if v < 256 {
        out.push(major * 32 + 24);
        out.push(v as u8);
    } else if v < 65536 {
        out.push(major * 32 + 25);
        write_be(out, v, 2);
    } else if v < 4294967296 {
        out.push(major * 32 + 26);
        write_be(out, v, 4);
    } else {
        out.push(major * 32 + 27);
        write_be(out, v, 8);
    }
}

/// A byte string at `p`: the content and the position just past it.
pub open spec fn sp_bytes(b: Seq<u8>, p: int) -> Option<(Seq<u8>, int)> {
    match sp_head(2, b, p) {
        Some((n, q)) => if q + n <= b.len() {
            Some((b.subrange(q, q + n), q + n))
        } else {
            None
        },
        None => None,
    }
}

/// The encoding of a byte string.
pub open spec fn enc_bytes(s: Seq<u8>) -> Seq<u8> {
    enc_head(2, s.len() as u64) + s
}

/// An ASCII text string at `p`: the characters and the position just past
/// them. Text with bytes outside ASCII is not accepted here; such input
/// takes the fallback path.
pub open spec fn sp_text(b: Seq<u8>, p: int) -> Option<(Seq<char>, int)> {
    match sp_head(3, b, p) {
        Some((n, q)) => if q + n <= b.len() && (forall|i: int|
            q <= i < q + n ==> b[i] < 128) {
            Some((Seq::new(n as nat, |i: int| b[q + i] as char), q + n))
        } else {
            None
        },
        None => None,
    }
}

/// An ASCII character: one that a single text byte can carry.
pub open spec fn is_ascii_char(c: char) -> bool {
    0 <= (c as int) < 128
}

/// The encoding of an ASCII text string.
pub open spec fn enc_text(s: Seq<char>) -> Seq<u8>
    recommends
        forall|i: int| 0 <= i < s.len() ==> is_ascii_char(#[trigger] s[i]),
{
    enc_head(3, s.len() as u64) + Seq::new(s.len(), |i: int| s[i] as u8)
}

/// Reads a byte string.
pub fn read_bytes(b: &Vec<u8>, p: usize) -> (r: Option<(Vec<u8>, usize)>)
    ensures
        r matches Some((v, q)) ==> sp_bytes(b@, p as int) == Some((v@, q as int)) && p < q
            <= b@.len(),
        r is None ==> sp_bytes(b@, p as int) is None,
{
    match read_head(2, b, p) {
        None => None,
        Some((n, q)) => {
            if n > (b.len() - q) as u64 {
                return None;
            }
            let n: usize = n as usize;
            let mut v: Vec<u8> = Vec::new();
            let mut k: usize = 0;
            while k < n
                invariant
                    q + n <= b@.len(),
                    b@.len() <= usize::MAX,
                    k <= n,
                    v@ =~= b@.subrange(q as int, q as int + k as int),
                decreases n - k,
            {
                v.push(b[q + k]);
                proof {
                    assert(v@ =~= b@.subrange(q as int, q as int + k as int + 1));
                }
                k = k + 1;
            }
            Some((v, q + n))
        },
    }
}

/// Appends the encoding of a byte string.
pub fn write_bytes(out: &mut Vec<u8>, s: &Vec<u8>)
    ensures
        final(out)@ =~= old(out)@ + enc_bytes(s@),
{
    write_head(out, 2, s.len() as u64);
    let mut k: usize = 0;
    while k < s.len()
        invariant
            k <= s.len(),
            out@ =~= old(out)@ + enc_head(2, s@.len() as u64) + s@.subrange(0, k as int),
        decreases s.len() - k,
    {
        out.push(s[k]);
        k = k + 1;
        proof {
            assert(out@ =~= old(out)@ + enc_head(2, s@.len() as u64) + s@.subrange(
                0,
                k as int,
            ));
        }
    }
    proof {
        assert(s@.subrange(0, s@.len() as int) =~= s@);
    }
}

/// Parsing an embedded encoded byte string yields its content.
pub proof fn lemma_bytes_enc(s: Seq<u8>, c: Seq<u8>, p: int)
    requires
        s.len() < 18446744073709551616,
        0 <= p,
        p + enc_bytes(s).len() <= c.len(),
        c.subrange(p, p + enc_bytes(s).len()) =~= enc_bytes(s),
    ensures
        sp_bytes(c, p) == Some((s, p + enc_bytes(s).len())),
{
    let h = enc_head(2, s.len() as u64);
    assert(c.subrange(p, p + h.len() as int) =~= h) by {
        assert forall|i: int| 0 <= i < h.len() implies #[trigger] c.subrange(p, p + h.len() as int)[i]
            == h[i] by {
            assert(c[p + i] == enc_bytes(s)[i]);
        }
    }
    lemma_head_enc(2, s.len() as u64, c, p);
    let q = p + h.len() as int;
    assert(c.subrange(q, q + s.len() as int) =~= s) by {
        assert forall|i: int| 0 <= i < s.len() implies #[trigger] c.subrange(q, q + s.len() as int)[i]
            == s[i] by {
            assert(c[q + i] == enc_bytes(s)[h.len() + i]);
        }
    }
}

/// Parsing an embedded encoded ASCII text string yields its characters.
pub proof fn lemma_text_enc(s: Seq<char>, c: Seq<u8>, p: int)
    requires
        s.len() < 18446744073709551616,
        forall|i: int| 0 <= i < s.len() ==> is_ascii_char(#[trigger] s[i]),
        0 <= p,
        p + enc_text(s).len() <= c.len(),
        c.subrange(p, p + enc_text(s).len()) =~= enc_text(s),
    ensures
        sp_text(c, p) == Some((s, p + enc_text(s).len())),
{
    let h = enc_head(3, s.len() as u64);
    let body = Seq::new(s.len(), |i: int| s[i] as u8);
    assert(c.subrange(p, p + h.len() as int) =~= h) by {
        assert forall|i: int| 0 <= i < h.len() implies #[trigger] c.subrange(p, p + h.len() as int)[i]
            == h[i] by {
            assert(c[p + i] == enc_text(s)[i]);
        }
    }
    lemma_head_enc(3, s.len() as u64, c, p);
    let q = p + h.len() as int;
    let e = enc_text(s);
    assert(e.len() == h.len() + s.len());
    assert forall|i: int| q <= i < q + s.len() implies c[i] < 128 by {
        assert(c.subrange(p, p + e.len())[i - p] == c[i]);
        assert(c.subrange(p, p + e.len())[i - p] == e[i - p]);
        assert(e[i - p] == body[i - q]);
        assert(body[i - q] == s[i - q] as u8);
        assert(is_ascii_char(s[i - q]));
        assert((s[i - q] as u8) < 128);
    }
    let parsed = Seq::new(s.len(), |i: int| c[q + i] as char);
    assert(parsed =~= s) by {
        assert forall|i: int| 0 <= i < s.len() implies parsed[i] == s[i] by {
            assert(c.subrange(p, p + e.len())[h.len() + i] == c[q + i]);
            assert(c.subrange(p, p + e.len())[h.len() + i] == e[h.len() + i]);
            assert(e[h.len() + i] == body[i]);
            assert(c[q + i] == s[i] as u8);
            assert(is_ascii_char(s[i]));
            assert((s[i] as u8) as char == s[i]);
        }
    }
}

} // verus!
