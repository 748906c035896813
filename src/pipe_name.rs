//! The private name under which a named-pipe pair is created.
//!
//! A name is `\\.\pipe\` followed by the hyphenated lower-case text of a
//! 16-byte random token, handed to the system as a NUL-terminated UTF-16
//! string.
use vstd::prelude::*;

verus! {

/// The ASCII digit for a nibble, lower-case for `a` to `f`.
pub open spec fn hex_digit(n: u8) -> u8 {
    if n < 10 {
        (48 + n) as u8
    } else {
        (87 + n) as u8
    }
}

/// Two lower-case hex digits per byte, high nibble first.
pub open spec fn hex_text(b: Seq<u8>) -> Seq<u8> {
    Seq::new(
        2 * b.len(),
        |i: int|
            if i % 2 == 0 {
                hex_digit(b[i / 2] / 16)
            } else {
                hex_digit(b[i / 2] % 16)
            },
    )
}

/// The ASCII hyphen.
pub open spec fn hyphen() -> Seq<u8> {
    seq![45u8]
}

/// The 36-character hyphenated form of a 16-byte token, grouped 4-2-2-2-6.
pub open spec fn hyphenated_text(t: Seq<u8>) -> Seq<u8> {
    hex_text(t.subrange(0, 4)) + hyphen() + hex_text(t.subrange(4, 6)) + hyphen() + hex_text(
        t.subrange(6, 8),
    ) + hyphen() + hex_text(t.subrange(8, 10)) + hyphen() + hex_text(t.subrange(10, 16))
}

/// `\\.\pipe\`, the namespace of local named pipes.
pub open spec fn pipe_prefix() -> Seq<u8> {
    seq![92u8, 92u8, 46u8, 92u8, 112u8, 105u8, 112u8, 101u8, 92u8]
}

/// The pipe name for a token, as ASCII text.
pub open spec fn pipe_text(t: Seq<u8>) -> Seq<u8> {
    pipe_prefix() + hyphenated_text(t)
}

/// Each ASCII byte as one UTF-16 code unit.
pub open spec fn widen(s: Seq<u8>) -> Seq<u16> {
    s.map_values(|c: u8| c as u16)
}

/// The NUL-terminated UTF-16 path of the pipe named by a token.
pub open spec fn pipe_path_of(t: Seq<u8>) -> Seq<u16> {
    widen(pipe_text(t)).push(0u16)
}

proof fn lemma_hex_digit_injective(x: u8, y: u8)
    requires
        x < 16,
        y < 16,
        hex_digit(x) == hex_digit(y),
    ensures
        x == y,
{
}

proof fn lemma_hex_text_injective(a: Seq<u8>, b: Seq<u8>)
    requires
        a.len() == b.len(),
        hex_text(a) == hex_text(b),
    ensures
        a == b,
{
    assert forall|i: int| 0 <= i < a.len() implies a[i] == b[i] by {
        assert((2 * i) / 2 == i && (2 * i) % 2 == 0);
        assert((2 * i + 1) / 2 == i && (2 * i + 1) % 2 == 1);
        assert(hex_text(a)[2 * i] == hex_digit(a[i] / 16));
        assert(hex_text(b)[2 * i] == hex_digit(b[i] / 16));
        assert(hex_text(a)[2 * i + 1] == hex_digit(a[i] % 16));
        assert(hex_text(b)[2 * i + 1] == hex_digit(b[i] % 16));
        lemma_hex_digit_injective(a[i] / 16, b[i] / 16);
        lemma_hex_digit_injective(a[i] % 16, b[i] % 16);
    }
    assert(a == b);
}

proof fn lemma_hyphenated_injective(s: Seq<u8>, t: Seq<u8>)
    requires
        s.len() == 16,
        t.len() == 16,
        hyphenated_text(s) == hyphenated_text(t),
    ensures
        s == t,
{
    let hs = hyphenated_text(s);
    let ht = hyphenated_text(t);
    assert(hs.subrange(0, 8) == hex_text(s.subrange(0, 4)));
    assert(ht.subrange(0, 8) == hex_text(t.subrange(0, 4)));
    assert(hs.subrange(9, 13) == hex_text(s.subrange(4, 6)));
    assert(ht.subrange(9, 13) == hex_text(t.subrange(4, 6)));
    assert(hs.subrange(14, 18) == hex_text(s.subrange(6, 8)));
    assert(ht.subrange(14, 18) == hex_text(t.subrange(6, 8)));
    assert(hs.subrange(19, 23) == hex_text(s.subrange(8, 10)));
    assert(ht.subrange(19, 23) == hex_text(t.subrange(8, 10)));
    assert(hs.subrange(24, 36) == hex_text(s.subrange(10, 16)));
    assert(ht.subrange(24, 36) == hex_text(t.subrange(10, 16)));
    lemma_hex_text_injective(s.subrange(0, 4), t.subrange(0, 4));
    lemma_hex_text_injective(s.subrange(4, 6), t.subrange(4, 6));
    lemma_hex_text_injective(s.subrange(6, 8), t.subrange(6, 8));
    lemma_hex_text_injective(s.subrange(8, 10), t.subrange(8, 10));
    lemma_hex_text_injective(s.subrange(10, 16), t.subrange(10, 16));
    assert forall|i: int| 0 <= i < 16 implies s[i] == t[i] by {
        if i < 4 {
            assert(s[i] == s.subrange(0, 4)[i]);
            assert(t[i] == t.subrange(0, 4)[i]);
        } else if i < 6 {
            assert(s[i] == s.subrange(4, 6)[i - 4]);
            assert(t[i] == t.subrange(4, 6)[i - 4]);
        } else if i < 8 {
            assert(s[i] == s.subrange(6, 8)[i - 6]);
            assert(t[i] == t.subrange(6, 8)[i - 6]);
        } else if i < 10 {
            assert(s[i] == s.subrange(8, 10)[i - 8]);
            assert(t[i] == t.subrange(8, 10)[i - 8]);
        } else {
            assert(s[i] == s.subrange(10, 16)[i - 10]);
            assert(t[i] == t.subrange(10, 16)[i - 10]);
        }
    }
    assert(s == t);
}

/// Two tokens name the same pipe only when they are the same token: a name
/// collision can only come from a repeated token.
pub proof fn lemma_pipe_path_injective(s: Seq<u8>, t: Seq<u8>)
    requires
        s.len() == 16,
        t.len() == 16,
        pipe_path_of(s) == pipe_path_of(t),
    ensures
        s == t,
{
    let ws = widen(pipe_text(s));
    let wt = widen(pipe_text(t));
    assert(ws == pipe_path_of(s).drop_last());
    assert(wt == pipe_path_of(t).drop_last());
    assert(pipe_text(s).len() == pipe_text(t).len());
    assert forall|i: int| 0 <= i < pipe_text(s).len() implies pipe_text(s)[i] == pipe_text(
        t,
    )[i] by {
        assert(ws[i] == wt[i]);
    }
    assert(pipe_text(s) == pipe_text(t));
    assert(hyphenated_text(s) == pipe_text(s).subrange(9, 45));
    assert(hyphenated_text(t) == pipe_text(t).subrange(9, 45));
    lemma_hyphenated_injective(s, t);
}

/// A pipe path is 46 code units long and ends in its only NUL, so the system
/// reads the whole name and nothing past it.
pub proof fn lemma_pipe_path_terminated(t: Seq<u8>)
    requires
        t.len() == 16,
    ensures
        pipe_path_of(t).len() == 46,
        pipe_path_of(t)[45] == 0,
        forall|i: int| 0 <= i < 45 ==> pipe_path_of(t)[i] != 0,
{
    let h = hyphenated_text(t);
    assert(h.len() == 36);
    assert forall|i: int| 0 <= i < 36 implies h[i] != 0 by {
        if i == 8 || i == 13 || i == 18 || i == 23 {
        } else if i < 8 {
            assert(h[i] == hex_text(t.subrange(0, 4))[i]);
        } else if i < 13 {
            assert(h[i] == hex_text(t.subrange(4, 6))[i - 9]);
        } else if i < 18 {
            assert(h[i] == hex_text(t.subrange(6, 8))[i - 14]);
        } else if i < 23 {
            assert(h[i] == hex_text(t.subrange(8, 10))[i - 19]);
        } else {
            assert(h[i] == hex_text(t.subrange(10, 16))[i - 24]);
        }
    }
    let p = pipe_text(t);
    assert forall|i: int| 0 <= i < 45 implies p[i] != 0 by {
        if i >= 9 {
            assert(p[i] == h[i - 9]);
        }
    }
}

/// Relies on `uuid::fmt::Hyphenated::encode_lower`: the token's bytes as
/// lower-case hex digit pairs, with hyphens after the 4th, 6th, 8th and
/// 10th byte.
#[verifier::external_body]
fn hyphenated(token: [u8; 16]) -> (r: [u8; 36])
    ensures
        r@ == hyphenated_text(token@),
{
    let mut buf = [0u8; 36];
    uuid::Uuid::from_bytes(token).hyphenated().encode_lower(&mut buf);
    buf
}

/// The pipe name for `token`, as ASCII text.
pub fn pipe_name_text(token: [u8; 16]) -> (r: Vec<u8>)
    ensures
        r@ == pipe_text(token@),
{
    let mut r: Vec<u8> = vec![92u8, 92u8, 46u8, 92u8, 112u8, 105u8, 112u8, 101u8, 92u8];
    let text = hyphenated(token);
    let mut i: usize = 0;
    while i < 36
        invariant
            text@ == hyphenated_text(token@),
            i <= 36,
            r@ == pipe_prefix() + text@.subrange(0, i as int),
        decreases 36 - i,
    {
        r.push(text[i]);
        i = i + 1;
        assert(text@.subrange(0, i as int) == text@.subrange(0, i - 1 as int).push(text@[i - 1]));
    }
    assert(text@.subrange(0, 36) == text@);
    r
}

/// `s` as UTF-16 code units, one per byte, followed by a NUL.
pub fn wide_nul(s: &[u8]) -> (r: Vec<u16>)
    requires
        s@.len() < usize::MAX,
    ensures
        r@ == widen(s@).push(0u16),
{
    let mut r: Vec<u16> = Vec::with_capacity(s.len() + 1);
    let mut i: usize = 0;
    while i < s.len()
        invariant
            i <= s@.len(),
            r@ == widen(s@.subrange(0, i as int)),
        decreases s@.len() - i,
    {
        r.push(s[i] as u16);
        i = i + 1;
        assert(s@.subrange(0, i as int) == s@.subrange(0, i - 1 as int).push(s@[i - 1]));
    }
    assert(s@.subrange(0, s@.len() as int) == s@);
    r.push(0u16);
    r
}

/// The NUL-terminated UTF-16 path of the pipe named by `token`, ready to be
/// handed to the system's pipe calls.
pub fn pipe_path(token: [u8; 16]) -> (r: Vec<u16>)
    ensures
        r@ == pipe_path_of(token@),
{
    let text = pipe_name_text(token);
    wide_nul(text.as_slice())
}

} // verus!
