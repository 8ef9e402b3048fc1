//! The mathematical model of the digest: word arithmetic, the padding
//! rule, block extraction, the 64-step compression function, chaining
//! across blocks, and serialization of the final state.
use crate::tables::{shift_entry, sine_entry};
use vstd::prelude::*;

verus! {

/// Initial value of state word A.
pub const INIT_A: u32 = 0x67452301;

/// Initial value of state word B.
pub const INIT_B: u32 = 0xefcdab89;

/// Initial value of state word C.
pub const INIT_C: u32 = 0x98badcfe;

/// Initial value of state word D.
pub const INIT_D: u32 = 0x10325476;

/// Every message length this engine accepts: the bit length must fit in
/// the 64-bit length field of the final block.
pub open spec fn fits(len: nat) -> bool {
    len < 0x2000000000000000
}

/// Addition of two words modulo 2^32.
pub open spec fn wadd(x: u32, y: u32) -> u32 {
    ((x + y) % 0x100000000) as u32
}

/// Rotation of a word left by `s` bits, for `0 < s < 32`.
pub open spec fn rotl(x: u32, s: u32) -> u32
    recommends
        0 < s < 32,
{
    (x << s) | (x >> ((32 - s) as u32))
}

/// The nonlinear mixing function of step `i`, one per 16-step quartile.
pub open spec fn mix(i: int, b: u32, c: u32, d: u32) -> u32 {
    if i < 16 {
        (b & c) | ((!b) & d)
    } else if i < 32 {
        (d & b) | ((!d) & c)
    } else if i < 48 {
        b ^ c ^ d
    } else {
        c ^ (b | (!d))
    }
}

/// Which of the sixteen message words step `i` reads.
pub open spec fn msg_index(i: int) -> int {
    if i < 16 {
        i
    } else if i < 32 {
        (5 * i + 1) % 16
    } else if i < 48 {
        (3 * i + 5) % 16
    } else {
        (7 * i) % 16
    }
}

/// One mixing step: fold message word `msg_index(i)` into the state and
/// advance the four words cyclically.
pub open spec fn step(block: Seq<u32>, st: (u32, u32, u32, u32), i: int) -> (u32, u32, u32, u32) {
    let (a, b, c, d) = st;
    let t = wadd(wadd(wadd(mix(i, b, c, d), a), sine_entry(i)), block[msg_index(i)]);
    (d, wadd(b, rotl(t, shift_entry(i))), b, c)
}

/// The state after the first `n` mixing steps on one block.
pub open spec fn steps(block: Seq<u32>, st: (u32, u32, u32, u32), n: int) -> (u32, u32, u32, u32)
    decreases n,
{
    if n <= 0 {
        st
    } else {
        step(block, steps(block, st, n - 1), n - 1)
    }
}

/// The compression function: all 64 mixing steps on one block.  The
/// caller, not this function, adds the result back onto the input state.
pub open spec fn compress(block: Seq<u32>, st: (u32, u32, u32, u32)) -> (u32, u32, u32, u32) {
    steps(block, st, 64)
}

/// One application of `steps` unfolded: the state after `n` steps is
/// one `step` past the state after `n - 1`.
pub proof fn lemma_steps_unfold(block: Seq<u32>, st: (u32, u32, u32, u32), n: int)
    requires
        n >= 1,
    ensures
        steps(block, st, n) == step(block, steps(block, st, n - 1), n - 1),
{
}

/// What one `step` returns, written over values already known equal to
/// its inner terms: the state advances cyclically and the rotated sum
/// folds into the second word.
pub proof fn lemma_step_values(
    block: Seq<u32>,
    st: (u32, u32, u32, u32),
    i: int,
    f: u32,
    g: int,
    t: u32,
    rot: u32,
)
    requires
        f == mix(i, st.1, st.2, st.3),
        g == msg_index(i),
        t == wadd(wadd(wadd(f, st.0), sine_entry(i)), block[g]),
        rot == rotl(t, shift_entry(i)),
    ensures
        step(block, st, i) == (st.3, wadd(st.1, rot), st.1, st.2),
{
}

/// How many 64-byte blocks a message of `len` bytes pads to: the least
/// count whose `64 * count` bytes hold the message, the `0x80`
/// terminator, and the 8-byte length field.
pub open spec fn num_blocks(len: nat) -> nat {
    (len + 72) / 64
}

/// How many zero bytes stand between the terminator and the length field.
pub open spec fn zero_pad_len(len: nat) -> nat {
    (num_blocks(len) * 64 - (len + 9)) as nat
}

/// Bounds of the block count: the padded stream's `64 * num_blocks`
/// bytes hold the message and its 9 trailing bytes, and never more than
/// 63 spare bytes beyond those.
pub proof fn lemma_num_blocks_bounds(len: nat)
    ensures
        num_blocks(len) >= 1,
        len + 9 <= 64 * num_blocks(len) <= len + 72,
{
    assert(64 * ((len + 72) / 64) == len + 72 - ((len + 72) % 64)) by {
        vstd::arithmetic::div_mod::lemma_fundamental_div_mod((len + 72) as int, 64);
    }
}

/// The eight bytes of a 64-bit value, least significant first.
pub open spec fn u64_le_bytes(x: u64) -> Seq<u8> {
    seq![
        (x % 0x100) as u8,
        ((x / 0x100) % 0x100) as u8,
        ((x / 0x10000) % 0x100) as u8,
        ((x / 0x1000000) % 0x100) as u8,
        ((x / 0x100000000) % 0x100) as u8,
        ((x / 0x10000000000) % 0x100) as u8,
        ((x / 0x1000000000000) % 0x100) as u8,
        ((x / 0x100000000000000) % 0x100) as u8,
    ]
}

/// The four bytes of a word, least significant first.
pub open spec fn word_bytes(w: u32) -> Seq<u8> {
    seq![
        (w % 0x100) as u8,
        ((w / 0x100) % 0x100) as u8,
        ((w / 0x10000) % 0x100) as u8,
        ((w / 0x1000000) % 0x100) as u8,
    ]
}

/// A word read from four bytes, least significant first.
pub open spec fn le_word(b0: u8, b1: u8, b2: u8, b3: u8) -> u32 {
    (b0 + b1 * 0x100 + b2 * 0x10000 + b3 * 0x1000000) as u32
}

/// The padded stream: the message, one `0x80` byte, zeros, and the bit
/// length as eight little-endian bytes, filling `num_blocks` blocks.
pub open spec fn padded(m: Seq<u8>) -> Seq<u8> {
    m + seq![0x80u8] + Seq::new(zero_pad_len(m.len()), |i: int| 0u8) + u64_le_bytes(
        (m.len() * 8) as u64,
    )
}

/// Padding always produces a positive multiple of 64 bytes, and it
/// keeps the message itself unchanged as a prefix.
pub proof fn lemma_padded_len(m: Seq<u8>)
    ensures
        padded(m).len() == 64 * num_blocks(m.len()),
        padded(m).len() % 64 == 0,
        padded(m).len() > 0,
        padded(m).take(m.len() as int) == m,
{
    lemma_num_blocks_bounds(m.len());
    assert(padded(m).len() == 64 * num_blocks(m.len()));
    assert((64 * num_blocks(m.len())) % 64 == 0) by {
        vstd::arithmetic::div_mod::lemma_mod_multiples_basic(num_blocks(m.len()) as int, 64);
    }
    assert(padded(m).take(m.len() as int) =~= m);
}

/// Each byte of the padded stream, by position: the message, then the
/// `0x80` terminator, then zeros, then the eight little-endian bytes of
/// the bit length.
pub proof fn lemma_padded_index(m: Seq<u8>, p: int)
    requires
        0 <= p < 64 * num_blocks(m.len()),
    ensures
        p < m.len() ==> padded(m)[p] == m[p],
        p == m.len() ==> padded(m)[p] == 0x80,
        m.len() < p < 64 * num_blocks(m.len()) - 8 ==> padded(m)[p] == 0,
        p >= 64 * num_blocks(m.len()) - 8 ==> padded(m)[p] == u64_le_bytes(
            (m.len() * 8) as u64,
        )[p - (64 * num_blocks(m.len()) - 8)],
{
    lemma_num_blocks_bounds(m.len());
}

/// Word `w` of a padded stream `p`, read little-endian.
pub open spec fn word_at(p: Seq<u8>, w: int) -> u32 {
    le_word(p[4 * w], p[4 * w + 1], p[4 * w + 2], p[4 * w + 3])
}

/// The sixteen words of block `k` of a padded stream `p`.
pub open spec fn block_at(p: Seq<u8>, k: int) -> Seq<u32> {
    Seq::new(16, |j: int| word_at(p, 16 * k + j))
}

/// The state after chaining the first `n` blocks of a padded stream:
/// each block's compression output is added word-wise onto the state
/// that entered it.
pub open spec fn chained(p: Seq<u8>, n: int) -> (u32, u32, u32, u32)
    decreases n,
{
    if n <= 0 {
        (INIT_A, INIT_B, INIT_C, INIT_D)
    } else {
        let st = chained(p, n - 1);
        let out = compress(block_at(p, n - 1), st);
        (wadd(st.0, out.0), wadd(st.1, out.1), wadd(st.2, out.2), wadd(st.3, out.3))
    }
}

/// One application of `chained` unfolded: the state after `n` blocks
/// adds block `n - 1`'s compression output onto the state after
/// `n - 1` blocks.
pub proof fn lemma_chained_unfold(p: Seq<u8>, n: int)
    requires
        n >= 1,
    ensures
        ({
            let st = chained(p, n - 1);
            let out = compress(block_at(p, n - 1), st);
            chained(p, n) == (
                wadd(st.0, out.0),
                wadd(st.1, out.1),
                wadd(st.2, out.2),
                wadd(st.3, out.3),
            )
        }),
{
}

/// The final four state words for a message.
pub open spec fn final_state(m: Seq<u8>) -> (u32, u32, u32, u32) {
    chained(padded(m), num_blocks(m.len()) as int)
}

/// The digest of a message: the final state words serialized as four
/// little-endian byte groups, in A, B, C, D order.
pub open spec fn digest(m: Seq<u8>) -> Seq<u8> {
    let (a, b, c, d) = final_state(m);
    word_bytes(a) + word_bytes(b) + word_bytes(c) + word_bytes(d)
}

/// Every digest is exactly sixteen bytes, whatever the message.
pub proof fn lemma_digest_len(m: Seq<u8>)
    ensures
        digest(m).len() == 16,
{
}

/// The digest is a function of the message bytes alone: identical
/// messages yield identical digests, on any two runs.
pub proof fn lemma_deterministic(m1: Seq<u8>, m2: Seq<u8>)
    requires
        m1 == m2,
    ensures
        digest(m1) == digest(m2),
{
}

/// The lowercase hexadecimal character for a value below sixteen.
pub open spec fn hex_digit(n: int) -> char {
    if n == 0 {
        '0'
    } else if n == 1 {
        '1'
    } else if n == 2 {
        '2'
    } else if n == 3 {
        '3'
    } else if n == 4 {
        '4'
    } else if n == 5 {
        '5'
    } else if n == 6 {
        '6'
    } else if n == 7 {
        '7'
    } else if n == 8 {
        '8'
    } else if n == 9 {
        '9'
    } else if n == 10 {
        'a'
    } else if n == 11 {
        'b'
    } else if n == 12 {
        'c'
    } else if n == 13 {
        'd'
    } else if n == 14 {
        'e'
    } else {
        'f'
    }
}

/// The hexadecimal rendering of a byte sequence: two lowercase digits
/// per byte, high nibble first.
pub open spec fn hex_chars(bytes: Seq<u8>) -> Seq<char> {
    Seq::new(
        bytes.len() * 2,
        |i: int| hex_digit(
            if i % 2 == 0 {
                bytes[i / 2] / 16
            } else {
                bytes[i / 2] % 16
            } as int,
        ),
    )
}

} // verus!
