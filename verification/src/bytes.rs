//! Little-endian integer encodings and small byte-sequence helpers.
use vstd::arithmetic::div_mod::{lemma_fundamental_div_mod, lemma_mod_breakdown};
use vstd::prelude::*;

verus! {

/// `256^n`.
pub open spec fn pow256(n: nat) -> nat
    decreases n,
{
    if n == 0 {
        1
    } else {
        256 * pow256((n - 1) as nat)
    }
}

/// The `n` low-order bytes of `x`, least significant first.
pub open spec fn le_bytes(x: nat, n: nat) -> Seq<u8>
    decreases n,
{
    if n == 0 {
        Seq::empty()
    } else {
        seq![(x % 256) as u8] + le_bytes(x / 256, (n - 1) as nat)
    }
}

/// The number whose little-endian bytes are `b`.
pub open spec fn le_value(b: Seq<u8>) -> nat
    decreases b.len(),
{
    if b.len() == 0 {
        0
    } else {
        b[0] as nat + 256 * le_value(b.drop_first())
    }
}

/// `x.to_le_bytes()` for a `u128`.
pub open spec fn u128_le(x: u128) -> Seq<u8> {
    le_bytes(x as nat, 16)
}

/// `x.to_le_bytes()` for a `u32`.
pub open spec fn u32_le(x: u32) -> Seq<u8> {
    le_bytes(x as nat, 4)
}

/// The word `u32::from_le_bytes([b0, b1, b2, b3])`.
pub open spec fn word_of(b0: u8, b1: u8, b2: u8, b3: u8) -> u32 {
    (b0 as nat + 256 * (b1 as nat + 256 * (b2 as nat + 256 * (b3 as nat)))) as u32
}

/// The words of `b` read four bytes at a time, little-endian; a trailing
/// group of fewer than four bytes is dropped (as `chunks_exact(4)` does).
pub open spec fn le_words(b: Seq<u8>) -> Seq<u32> {
    Seq::new(
        b.len() / 4,
        |i: int| word_of(b[4 * i], b[4 * i + 1], b[4 * i + 2], b[4 * i + 3]),
    )
}

/// The concatenation of the little-endian bytes of each word.
pub open spec fn words_le_bytes(ws: Seq<u32>) -> Seq<u8>
    decreases ws.len(),
{
    if ws.len() == 0 {
        Seq::empty()
    } else {
        u32_le(ws[0]) + words_le_bytes(ws.drop_first())
    }
}

/// The concatenation of a sequence of 32-byte arrays.
pub open spec fn flatten32(items: Seq<[u8; 32]>) -> Seq<u8>
    decreases items.len(),
{
    if items.len() == 0 {
        Seq::empty()
    } else {
        items[0]@ + flatten32(items.drop_first())
    }
}

pub proof fn lemma_le_bytes_len(x: nat, n: nat)
    ensures
        le_bytes(x, n).len() == n,
    decreases n,
{
    if n > 0 {
        lemma_le_bytes_len(x / 256, (n - 1) as nat);
    }
}

pub proof fn lemma_pow256_pos(n: nat)
    ensures
        pow256(n) > 0,
    decreases n,
{
    if n > 0 {
        lemma_pow256_pos((n - 1) as nat);
    }
}

/// Reading back `n` little-endian bytes of `x` gives `x` modulo `256^n`.
pub proof fn lemma_le_value_of_bytes(x: nat, n: nat)
    ensures
        le_value(le_bytes(x, n)) == x % pow256(n),
    decreases n,
{
    lemma_le_bytes_len(x, n);
    if n == 0 {
    } else {
        let rest = le_bytes(x / 256, (n - 1) as nat);
        let b = le_bytes(x, n);
        assert(b.drop_first() =~= rest);
        lemma_le_value_of_bytes(x / 256, (n - 1) as nat);
        lemma_pow256_pos((n - 1) as nat);
        lemma_mod_breakdown(x as int, 256, pow256((n - 1) as nat) as int);
    }
}

/// Writing the value of `b` back with `b.len()` bytes gives `b`.
pub proof fn lemma_le_bytes_of_value(b: Seq<u8>)
    ensures
        le_bytes(le_value(b), b.len()) == b,
        le_value(b) < pow256(b.len()),
    decreases b.len(),
{
    if b.len() == 0 {
        assert(le_bytes(le_value(b), b.len()) =~= b);
    } else {
        let rest = b.drop_first();
        lemma_le_bytes_of_value(rest);
        let v = le_value(b);
        let r = le_value(rest);
        assert(v == b[0] as nat + 256 * r);
        assert(v % 256 == b[0] as nat && v / 256 == r) by {
            lemma_fundamental_div_mod(v as int, 256);
            vstd::arithmetic::div_mod::lemma_fundamental_div_mod_converse(
                v as int,
                256,
                r as int,
                b[0] as int,
            );
        }
        assert(le_bytes(v, b.len()) =~= seq![b[0]] + le_bytes(r, rest.len()));
        assert(seq![b[0]] + rest =~= b);
    }
}

/// Little-endian encoding with `n` bytes is one-to-one on numbers below `256^n`.
pub proof fn lemma_le_bytes_injective(x: nat, y: nat, n: nat)
    requires
        x < pow256(n),
        y < pow256(n),
        le_bytes(x, n) == le_bytes(y, n),
    ensures
        x == y,
{
    lemma_le_value_of_bytes(x, n);
    lemma_le_value_of_bytes(y, n);
    vstd::arithmetic::div_mod::lemma_small_mod(x, pow256(n));
    vstd::arithmetic::div_mod::lemma_small_mod(y, pow256(n));
}

pub proof fn lemma_pow256_16()
    ensures
        pow256(16) == 0x1_0000_0000_0000_0000_0000_0000_0000_0000,
        pow256(4) == 0x1_0000_0000,
{
    reveal_with_fuel(pow256, 17);
}

/// `u128_le` is one-to-one.
pub proof fn lemma_u128_le_injective(x: u128, y: u128)
    requires
        u128_le(x) == u128_le(y),
    ensures
        x == y,
{
    lemma_pow256_16();
    lemma_le_bytes_injective(x as nat, y as nat, 16);
}

pub proof fn lemma_u32_le_value(x: u32)
    ensures
        le_value(u32_le(x)) == x as nat,
        u32_le(x).len() == 4,
{
    lemma_le_value_of_bytes(x as nat, 4);
    lemma_le_bytes_len(x as nat, 4);
    lemma_pow256_16();
    vstd::arithmetic::div_mod::lemma_small_mod(x as nat, pow256(4));
}

/// The bytes of a word read from four bytes are those four bytes.
pub proof fn lemma_word_roundtrip(b0: u8, b1: u8, b2: u8, b3: u8)
    ensures
        u32_le(word_of(b0, b1, b2, b3)) == seq![b0, b1, b2, b3],
{
    let s = seq![b0, b1, b2, b3];
    reveal_with_fuel(le_value, 5);
    assert(s.drop_first() =~= seq![b1, b2, b3]);
    assert(s.drop_first().drop_first() =~= seq![b2, b3]);
    assert(s.drop_first().drop_first().drop_first() =~= seq![b3]);
    assert(s.drop_first().drop_first().drop_first().drop_first() =~= Seq::<u8>::empty());
    assert(le_value(s) == b0 as nat + 256 * (b1 as nat + 256 * (b2 as nat + 256 * (b3 as nat))));
    lemma_le_bytes_of_value(s);
    lemma_pow256_16();
}

pub proof fn lemma_flatten32_len(items: Seq<[u8; 32]>)
    ensures
        flatten32(items).len() == 32 * items.len(),
    decreases items.len(),
{
    if items.len() > 0 {
        lemma_flatten32_len(items.drop_first());
    }
}

/// Equal concatenations of 32-byte arrays come from equal sequences of arrays.
pub proof fn lemma_flatten32_injective(a: Seq<[u8; 32]>, b: Seq<[u8; 32]>)
    requires
        a.len() == b.len(),
        flatten32(a) == flatten32(b),
    ensures
        a == b,
    decreases a.len(),
{
    if a.len() > 0 {
        lemma_flatten32_len(a.drop_first());
        lemma_flatten32_len(b.drop_first());
        let fa = flatten32(a);
        let fb = flatten32(b);
        assert(a[0]@ =~= fa.subrange(0, 32));
        assert(b[0]@ =~= fb.subrange(0, 32));
        assert(a[0] =~= b[0]);
        assert(flatten32(a.drop_first()) =~= fa.subrange(32, fa.len() as int));
        assert(flatten32(b.drop_first()) =~= fb.subrange(32, fb.len() as int));
        lemma_flatten32_injective(a.drop_first(), b.drop_first());
        assert forall|i: int| 0 <= i < a.len() implies a[i] == b[i] by {
            if i > 0 {
                assert(a[i] == a.drop_first()[i - 1]);
                assert(b[i] == b.drop_first()[i - 1]);
            }
        }
        assert(a =~= b);
    }
}

/// Whether two 32-byte values hold the same bytes.
pub fn bytes32_eq(a: &[u8; 32], b: &[u8; 32]) -> (r: bool)
    ensures
        r == (*a == *b),
{
    let mut i: usize = 0;
    while i < 32
        invariant
            i <= 32,
            forall|j: int| 0 <= j < i ==> a[j] == b[j],
        decreases 32 - i,
    {
        if a[i] != b[i] {
            assert(!(a =~= b));
            return false;
        }
        i = i + 1;
    }
    assert(*a =~= *b);
    true
}

/// Appends the bytes of `s` to `v`.
pub fn append_bytes(v: &mut Vec<u8>, s: &[u8])
    ensures
        final(v)@ == old(v)@ + s@,
{
    let mut i: usize = 0;
    while i < s.len()
        invariant
            i <= s@.len(),
            v@ == old(v)@ + s@.subrange(0, i as int),
        decreases s@.len() - i,
    {
        v.push(s[i]);
        i = i + 1;
        assert(v@ =~= old(v)@ + s@.subrange(0, i as int));
    }
    assert(s@.subrange(0, i as int) =~= s@);
}

/// The `n` low-order little-endian bytes of `x`.
pub fn le_encode(x: u128, n: usize) -> (out: Vec<u8>)
    ensures
        out@ == le_bytes(x as nat, n as nat),
{
    let mut out: Vec<u8> = Vec::new();
    let mut v: u128 = x;
    let mut i: usize = 0;
    while i < n
        invariant
            i <= n,
            out@ + le_bytes(v as nat, (n - i) as nat) == le_bytes(x as nat, n as nat),
        decreases n - i,
    {
        let ghost before = out@;
        out.push((v % 256) as u8);
        assert(le_bytes(v as nat, (n - i) as nat) == seq![(v % 256) as u8] + le_bytes(
            (v / 256) as nat,
            (n - i - 1) as nat,
        ));
        assert(out@ + le_bytes((v / 256) as nat, (n - i - 1) as nat) =~= before + le_bytes(
            v as nat,
            (n - i) as nat,
        ));
        v = v / 256;
        i = i + 1;
    }
    assert(le_bytes(v as nat, 0) =~= Seq::<u8>::empty());
    assert(out@ + Seq::<u8>::empty() =~= out@);
    out
}

/// `x.to_le_bytes()`.
pub fn u128_to_le_bytes(x: u128) -> (out: Vec<u8>)
    ensures
        out@ == u128_le(x),
        out@.len() == 16,
{
    proof {
        lemma_le_bytes_len(x as nat, 16);
    }
    le_encode(x, 16)
}

/// `x.to_le_bytes()`.
pub fn u32_to_le_bytes(x: u32) -> (out: Vec<u8>)
    ensures
        out@ == u32_le(x),
        out@.len() == 4,
{
    proof {
        lemma_le_bytes_len(x as nat, 4);
    }
    le_encode(x as u128, 4)
}

/// Reads `bytes` as consecutive little-endian `u32` words, dropping a
/// trailing group of fewer than four bytes.
pub fn words_from_le_bytes(bytes: &[u8]) -> (out: Vec<u32>)
    ensures
        out@ == le_words(bytes@),
{
    let n = bytes.len() / 4;
    let mut out: Vec<u32> = Vec::new();
    let mut i: usize = 0;
    while i < n
        invariant
            n == bytes@.len() / 4,
            i <= n,
            out@.len() == i,
            forall|k: int| 0 <= k < i ==> out@[k] == le_words(bytes@)[k],
        decreases n - i,
    {
        assert(4 * i + 3 < bytes@.len()) by (nonlinear_arith)
            requires
                i < n,
                n == bytes@.len() / 4,
        ;
        assert(bytes@.len() == bytes.len());
        let b0 = bytes[4 * i];
        let b1 = bytes[4 * i + 1];
        let b2 = bytes[4 * i + 2];
        let b3 = bytes[4 * i + 3];
        let w: u32 = b0 as u32 + 256 * (b1 as u32 + 256 * (b2 as u32 + 256 * (b3 as u32)));
        assert(w == word_of(b0, b1, b2, b3));
        out.push(w);
        i = i + 1;
    }
    assert(out@ =~= le_words(bytes@));
    out
}

pub proof fn lemma_words_le_bytes_push(ws: Seq<u32>, w: u32)
    ensures
        words_le_bytes(ws.push(w)) == words_le_bytes(ws) + u32_le(w),
    decreases ws.len(),
{
    if ws.len() == 0 {
        assert(ws.push(w).drop_first() =~= Seq::<u32>::empty());
        assert(ws.push(w)[0] == w);
        assert(words_le_bytes(ws.push(w)) == u32_le(w) + words_le_bytes(Seq::<u32>::empty()));
        assert(words_le_bytes(ws.push(w)) =~= words_le_bytes(ws) + u32_le(w));
    } else {
        assert(ws.push(w).drop_first() =~= ws.drop_first().push(w));
        lemma_words_le_bytes_push(ws.drop_first(), w);
        assert(ws.push(w)[0] == ws[0]);
        assert(words_le_bytes(ws.push(w)) == u32_le(ws[0]) + words_le_bytes(
            ws.drop_first().push(w),
        ));
        assert(words_le_bytes(ws) == u32_le(ws[0]) + words_le_bytes(ws.drop_first()));
        assert(words_le_bytes(ws.push(w)) =~= words_le_bytes(ws) + u32_le(w));
    }
}

/// Reading the little-endian bytes of a word back as a word gives the word.
pub proof fn lemma_word_of_le(x: u32)
    ensures
        u32_le(x).len() == 4,
        word_of(u32_le(x)[0], u32_le(x)[1], u32_le(x)[2], u32_le(x)[3]) == x,
{
    let s = u32_le(x);
    lemma_u32_le_value(x);
    reveal_with_fuel(le_value, 5);
    assert(s.drop_first() =~= seq![s[1], s[2], s[3]]);
    assert(s.drop_first().drop_first() =~= seq![s[2], s[3]]);
    assert(s.drop_first().drop_first().drop_first() =~= seq![s[3]]);
    assert(s.drop_first().drop_first().drop_first().drop_first() =~= Seq::<u8>::empty());
    assert(le_value(s) == s[0] as nat + 256 * (s[1] as nat + 256 * (s[2] as nat + 256 * (
    s[3] as nat))));
}

/// Writing words as little-endian bytes and reading the bytes back as words
/// gives the same words.
pub proof fn lemma_le_words_of_words(w: Seq<u32>)
    ensures
        words_le_bytes(w).len() == 4 * w.len(),
        le_words(words_le_bytes(w)) == w,
    decreases w.len(),
{
    if w.len() == 0 {
        assert(le_words(words_le_bytes(w)) =~= w);
    } else {
        let rest = w.drop_first();
        lemma_le_words_of_words(rest);
        lemma_word_of_le(w[0]);
        let p = u32_le(w[0]);
        let r = words_le_bytes(rest);
        let b = words_le_bytes(w);
        assert(b == p + r);
        assert(b.len() == 4 * w.len());
        assert forall|i: int| 0 <= i < w.len() implies #[trigger] le_words(b)[i] == w[i] by {
            if i == 0 {
                assert(b[0] == p[0] && b[1] == p[1] && b[2] == p[2] && b[3] == p[3]);
            } else {
                assert(b[4 * i] == r[4 * (i - 1)]);
                assert(b[4 * i + 1] == r[4 * (i - 1) + 1]);
                assert(b[4 * i + 2] == r[4 * (i - 1) + 2]);
                assert(b[4 * i + 3] == r[4 * (i - 1) + 3]);
                assert(le_words(r)[i - 1] == rest[i - 1]);
            }
        }
        assert(le_words(b) =~= w);
    }
}

/// The little-endian bytes of each word, concatenated.
pub fn words_to_le_bytes(words: &[u32]) -> (out: Vec<u8>)
    ensures
        out@ == words_le_bytes(words@),
        le_words(out@) == words@,
{
    proof {
        lemma_le_words_of_words(words@);
    }
    let mut out: Vec<u8> = Vec::new();
    let mut i: usize = 0;
    while i < words.len()
        invariant
            i <= words@.len(),
            out@ == words_le_bytes(words@.subrange(0, i as int)),
        decreases words@.len() - i,
    {
        let b = u32_to_le_bytes(words[i]);
        append_bytes(&mut out, b.as_slice());
        proof {
            lemma_words_le_bytes_push(words@.subrange(0, i as int), words@[i as int]);
            assert(words@.subrange(0, i as int).push(words@[i as int]) =~= words@.subrange(
                0,
                i + 1,
            ));
        }
        i = i + 1;
    }
    assert(words@.subrange(0, i as int) =~= words@);
    out
}

} // verus!
