//! SHA-1 (FIPS 180-4), which the AWS CLI uses to name the SSO token cache
//! file of an sso-session: the lower-case hex digest of the session name.

use vstd::prelude::*;

use crate::text::string_from_chars;

verus! {

/// The five working words of SHA-1.
pub type Sha1State = (u32, u32, u32, u32, u32);

pub open spec fn rotl1(x: u32) -> u32 {
    (x << 1u32) | (x >> 31u32)
}

pub open spec fn rotl5(x: u32) -> u32 {
    (x << 5u32) | (x >> 27u32)
}

pub open spec fn rotl30(x: u32) -> u32 {
    (x << 30u32) | (x >> 2u32)
}

/// The initial hash value.
pub open spec fn initial_state() -> Sha1State {
    (0x67452301u32, 0xEFCDAB89u32, 0x98BADCFEu32, 0x10325476u32, 0xC3D2E1F0u32)
}

/// The number of zero bytes after the `0x80` byte, so that the padded
/// message with its 8 length bytes fills whole 64-byte blocks.
pub open spec fn zero_count(n: nat) -> nat {
    if n % 64 <= 55 {
        (55 - n % 64) as nat
    } else {
        (119 - n % 64) as nat
    }
}

/// The message length in bits (modulo 2^64), as 8 big-endian bytes.
pub open spec fn length_bytes(n: nat) -> Seq<u8> {
    Seq::new(8, |i: int| ((((n as u64).wrapping_mul(8u64)) >> ((56 - 8 * i) as u64)) & 0xffu64) as u8)
}

/// The padded message: the message, `0x80`, zeros, and its bit length.
pub open spec fn padded(msg: Seq<u8>) -> Seq<u8> {
    msg + seq![0x80u8] + Seq::new(zero_count(msg.len()), |i: int| 0u8) + length_bytes(msg.len())
}

/// The big-endian word at byte `i` of `p`.
pub open spec fn word_at(p: Seq<u8>, i: int) -> u32 {
    ((p[i] as u32) << 24u32) | ((p[i + 1] as u32) << 16u32) | ((p[i + 2] as u32) << 8u32) | (
    p[i + 3] as u32)
}

/// Word `t` of the message schedule of the block at byte `base` of `p`.
pub open spec fn sched(p: Seq<u8>, base: int, t: nat) -> u32
    decreases t,
{
    if t < 16 {
        word_at(p, base + 4 * t)
    } else {
        rotl1(
            sched(p, base, (t - 3) as nat) ^ sched(p, base, (t - 8) as nat) ^ sched(
                p,
                base,
                (t - 14) as nat,
            ) ^ sched(p, base, (t - 16) as nat),
        )
    }
}

/// The round function and constant of round `t`.
pub open spec fn round_fk(t: int, b: u32, c: u32, d: u32) -> (u32, u32) {
    if t < 20 {
        ((b & c) | (!b & d), 0x5A827999u32)
    } else if t < 40 {
        (b ^ c ^ d, 0x6ED9EBA1u32)
    } else if t < 60 {
        ((b & c) | (b & d) | (c & d), 0x8F1BBCDCu32)
    } else {
        (b ^ c ^ d, 0xCA62C1D6u32)
    }
}

/// One round: round `t` with schedule word `w`.
pub open spec fn round_step(s: Sha1State, t: int, w: u32) -> Sha1State {
    let fk = round_fk(t, s.1, s.2, s.3);
    let temp = rotl5(s.0).wrapping_add(fk.0).wrapping_add(s.4).wrapping_add(fk.1).wrapping_add(w);
    (temp, s.0, rotl30(s.1), s.2, s.3)
}

/// The working words after the first `t` rounds on the block at `base`.
pub open spec fn rounds(p: Seq<u8>, base: int, h: Sha1State, t: nat) -> Sha1State
    decreases t,
{
    if t == 0 {
        h
    } else {
        round_step(rounds(p, base, h, (t - 1) as nat), t - 1, sched(p, base, (t - 1) as nat))
    }
}

/// The hash value after processing the block at `base`.
pub open spec fn compress(h: Sha1State, p: Seq<u8>, base: int) -> Sha1State {
    let s = rounds(p, base, h, 80);
    (
        h.0.wrapping_add(s.0),
        h.1.wrapping_add(s.1),
        h.2.wrapping_add(s.2),
        h.3.wrapping_add(s.3),
        h.4.wrapping_add(s.4),
    )
}

/// The hash value after the first `n` blocks of `p`.
pub open spec fn hash_blocks(p: Seq<u8>, n: nat) -> Sha1State
    decreases n,
{
    if n == 0 {
        initial_state()
    } else {
        compress(hash_blocks(p, (n - 1) as nat), p, 64 * (n - 1))
    }
}

/// The SHA-1 hash value of `msg`.
pub open spec fn sha1_state(msg: Seq<u8>) -> Sha1State {
    hash_blocks(padded(msg), padded(msg).len() / 64)
}

/// The lower-case hex digit for `n` (0 to 15).
pub open spec fn hex_lower(n: u32) -> char {
    if n < 10 {
        ((n + 48) as u8) as char
    } else {
        ((n + 87) as u8) as char
    }
}

/// The eight hex digits of `w`, most significant first.
pub open spec fn hex_word(w: u32) -> Seq<char> {
    Seq::new(8, |j: int| hex_lower((w >> ((28 - 4 * j) as u32)) & 0xfu32))
}

/// The lower-case hex digest of `msg`.
pub open spec fn sha1_hex_spec(msg: Seq<u8>) -> Seq<char> {
    let s = sha1_state(msg);
    hex_word(s.0) + hex_word(s.1) + hex_word(s.2) + hex_word(s.3) + hex_word(s.4)
}

proof fn lemma_padded_len(n: nat)
    ensures
        (n + 1 + zero_count(n) + 8) % 64 == 0,
{
    let q = n as int / 64;
    vstd::arithmetic::div_mod::lemma_fundamental_div_mod(n as int, 64);
    if n % 64 <= 55 {
        assert(n + 1 + zero_count(n) + 8 == (q + 1) * 64);
        vstd::arithmetic::div_mod::lemma_mod_multiples_basic(q + 1, 64);
    } else {
        assert(n + 1 + zero_count(n) + 8 == (q + 2) * 64);
        vstd::arithmetic::div_mod::lemma_mod_multiples_basic(q + 2, 64);
    }
}

/// Pads `msg` for hashing.
fn pad_message(msg: &[u8]) -> (p: Vec<u8>)
    ensures
        p@ == padded(msg@),
        p@.len() % 64 == 0,
{
    let n = msg.len();
    let mut p: Vec<u8> = Vec::new();
    let mut i: usize = 0;
    while i < n
        invariant
            n == msg@.len(),
            0 <= i <= n,
            p@ == msg@.take(i as int),
        decreases n - i,
    {
        p.push(msg[i]);
        i = i + 1;
        assert(msg@.take(i as int) =~= msg@.take(i - 1).push(msg@[i - 1]));
    }
    assert(msg@.take(n as int) =~= msg@);
    p.push(0x80u8);
    let r = n % 64;
    let zeros: usize = if r <= 55 {
        55 - r
    } else {
        119 - r
    };
    assert(zeros == zero_count(n as nat));
    let ghost head = msg@ + seq![0x80u8];
    assert(p@ =~= head);
    let mut j: usize = 0;
    while j < zeros
        invariant
            0 <= j <= zeros,
            p@ == head + Seq::new(j as nat, |k: int| 0u8),
        decreases zeros - j,
    {
        p.push(0u8);
        j = j + 1;
        assert(head + Seq::new(j as nat, |k: int| 0u8) =~= (head + Seq::new((j - 1) as nat, |k: int| 0u8)).push(0u8));
    }
    let ghost body = head + Seq::new(zeros as nat, |k: int| 0u8);
    let bits: u64 = (n as u64).wrapping_mul(8u64);
    let mut k: u64 = 0;
    while k < 8
        invariant
            0 <= k <= 8,
            bits == ((n as nat) as u64).wrapping_mul(8u64),
            p@ == body + length_bytes(n as nat).take(k as int),
        decreases 8 - k,
    {
        let shift: u64 = 56 - 8 * k;
        p.push(((bits >> shift) & 0xffu64) as u8);
        assert(length_bytes(n as nat)[k as int] == ((bits >> shift) & 0xffu64) as u8);
        k = k + 1;
        assert(length_bytes(n as nat).take(k as int) =~= length_bytes(n as nat).take(k - 1).push(
            length_bytes(n as nat)[k - 1],
        ));
        assert(body + length_bytes(n as nat).take(k as int) =~= (body + length_bytes(n as nat).take(k - 1)).push(
            length_bytes(n as nat)[k - 1],
        ));
    }
    assert(length_bytes(n as nat).take(8) =~= length_bytes(n as nat));
    proof {
        lemma_padded_len(n as nat);
    }
    p
}

fn rotl1_exec(x: u32) -> (r: u32)
    ensures
        r == rotl1(x),
{
    (x << 1u32) | (x >> 31u32)
}

fn rotl5_exec(x: u32) -> (r: u32)
    ensures
        r == rotl5(x),
{
    (x << 5u32) | (x >> 27u32)
}

fn rotl30_exec(x: u32) -> (r: u32)
    ensures
        r == rotl30(x),
{
    (x << 30u32) | (x >> 2u32)
}

fn round_fk_exec(t: usize, b: u32, c: u32, d: u32) -> (r: (u32, u32))
    ensures
        r == round_fk(t as int, b, c, d),
{
    if t < 20 {
        ((b & c) | (!b & d), 0x5A827999u32)
    } else if t < 40 {
        (b ^ c ^ d, 0x6ED9EBA1u32)
    } else if t < 60 {
        ((b & c) | (b & d) | (c & d), 0x8F1BBCDCu32)
    } else {
        (b ^ c ^ d, 0xCA62C1D6u32)
    }
}

/// Processes the block at byte `base` of `p`.
fn compress_block(h: Sha1State, p: &Vec<u8>, base: usize) -> (r: Sha1State)
    requires
        base + 64 <= p@.len(),
    ensures
        r == compress(h, p@, base as int),
{
    let mut w: Vec<u32> = Vec::new();
    let mut t: usize = 0;
    while t < 80
        invariant
            base + 64 <= p@.len(),
            p@.len() == p.len(),
            0 <= t <= 80,
            w@.len() == t,
            forall|k: int| 0 <= k < t ==> w@[k] == sched(p@, base as int, k as nat),
        decreases 80 - t,
    {
        let x: u32 = if t < 16 {
            let i = base + 4 * t;
            ((p[i] as u32) << 24u32) | ((p[i + 1] as u32) << 16u32) | ((p[i + 2] as u32) << 8u32) | (
            p[i + 3] as u32)
        } else {
            rotl1_exec(w[t - 3] ^ w[t - 8] ^ w[t - 14] ^ w[t - 16])
        };
        assert(x == sched(p@, base as int, t as nat));
        w.push(x);
        t = t + 1;
    }
    let mut s: Sha1State = h;
    let mut t: usize = 0;
    while t < 80
        invariant
            0 <= t <= 80,
            w@.len() == 80,
            forall|k: int| 0 <= k < 80 ==> w@[k] == sched(p@, base as int, k as nat),
            s == rounds(p@, base as int, h, t as nat),
        decreases 80 - t,
    {
        let (a, b, c, d, e) = s;
        let fk = round_fk_exec(t, b, c, d);
        let temp = rotl5_exec(a).wrapping_add(fk.0).wrapping_add(e).wrapping_add(fk.1).wrapping_add(
            w[t],
        );
        s = (temp, a, rotl30_exec(b), c, d);
        t = t + 1;
    }
    (
        h.0.wrapping_add(s.0),
        h.1.wrapping_add(s.1),
        h.2.wrapping_add(s.2),
        h.3.wrapping_add(s.3),
        h.4.wrapping_add(s.4),
    )
}

/// The SHA-1 hash value of `msg`.
fn sha1_words(msg: &[u8]) -> (r: Sha1State)
    ensures
        r == sha1_state(msg@),
{
    let p = pad_message(msg);
    let blocks = p.len() / 64;
    let mut h: Sha1State = (0x67452301u32, 0xEFCDAB89u32, 0x98BADCFEu32, 0x10325476u32, 0xC3D2E1F0u32);
    let mut b: usize = 0;
    while b < blocks
        invariant
            p@.len() == p.len(),
            blocks == p@.len() / 64,
            p@.len() % 64 == 0,
            0 <= b <= blocks,
            h == hash_blocks(p@, b as nat),
        decreases blocks - b,
    {
        assert(64 * b + 64 <= p@.len()) by (nonlinear_arith)
            requires
                b < blocks,
                blocks == p@.len() / 64,
                p@.len() % 64 == 0,
        ;
        h = compress_block(h, &p, 64 * b);
        b = b + 1;
    }
    h
}

fn hex_lower_exec(n: u32) -> (c: char)
    requires
        n < 16,
    ensures
        c == hex_lower(n),
{
    if n < 10 {
        ((n + 48) as u8) as char
    } else {
        ((n + 87) as u8) as char
    }
}

fn push_hex_word(out: &mut Vec<char>, w: u32)
    ensures
        final(out)@ == old(out)@ + hex_word(w),
{
    let ghost start = out@;
    let mut j: u32 = 0;
    while j < 8
        invariant
            0 <= j <= 8,
            out@ == start + hex_word(w).take(j as int),
        decreases 8 - j,
    {
        let sh: u32 = 28 - 4 * j;
        let nib = (w >> sh) & 0xfu32;
        assert(nib < 16) by (bit_vector)
            requires
                nib == (w >> sh) & 0xfu32,
        ;
        assert(hex_word(w)[j as int] == hex_lower(nib));
        out.push(hex_lower_exec(nib));
        j = j + 1;
        assert(hex_word(w).take(j as int) =~= hex_word(w).take(j - 1).push(hex_word(w)[j - 1]));
    }
    assert(hex_word(w).take(8) =~= hex_word(w));
}

/// The lower-case hex SHA-1 digest of `msg`.
pub fn sha1_hex(msg: &[u8]) -> (r: String)
    ensures
        r@ == sha1_hex_spec(msg@),
{
    let s = sha1_words(msg);
    let mut out: Vec<char> = Vec::new();
    push_hex_word(&mut out, s.0);
    push_hex_word(&mut out, s.1);
    push_hex_word(&mut out, s.2);
    push_hex_word(&mut out, s.3);
    push_hex_word(&mut out, s.4);
    assert(out@ =~= sha1_hex_spec(msg@));
    string_from_chars(out.as_slice())
}

} // verus!
