//! The executable digest engine, verified against the model: the block
//! chunker, the compression round, the accumulator, and the hex
//! formatter.
use crate::model::{
    block_at, chained, compress, digest, final_state, fits, hex_chars, hex_digit, le_word,
    lemma_chained_unfold, lemma_num_blocks_bounds, lemma_padded_index, lemma_step_values,
    lemma_steps_unfold, mix, msg_index, num_blocks, padded, rotl, step, steps, wadd, word_at,
    word_bytes, INIT_A, INIT_B, INIT_C, INIT_D,
};
use crate::tables::{shift_at, sine_at};
use vstd::prelude::*;
use vstd::string::StringExecFns;

verus! {

/// Addition modulo 2^32 agrees with the standard library's wrapping
/// addition.
pub broadcast proof fn lemma_wadd_is_wrapping(x: u32, y: u32)
    ensures
        #[trigger] wadd(x, y) == vstd::wrapping::u32_specs::wrapping_add(x, y),
{
    if x + y > u32::MAX {
        assert((x + y) % 0x100000000 == x + y - 0x100000000);
    } else {
        assert((x + y) % 0x100000000 == x + y);
    }
}

/// Rotation of a word left by `s` bits.
fn rotate_word_left(x: u32, s: u32) -> (r: u32)
    requires
        0 < s < 32,
    ensures
        r == rotl(x, s),
{
    (x << s) | (x >> (32 - s))
}

/// One mixing step of the compression round: fold one message word
/// into the state and advance the four words cyclically.
fn mix_step(message: &[u32; 16], st: (u32, u32, u32, u32), i: usize) -> (r: (u32, u32, u32, u32))
    requires
        i < 64,
    ensures
        r == step(message@, st, i as int),
{
    broadcast use lemma_wadd_is_wrapping;

    let (a, b, c, d) = st;
    let (f, g): (u32, usize) = if i < 16 {
        ((b & c) | ((!b) & d), i)
    } else if i < 32 {
        ((d & b) | ((!d) & c), (5 * i + 1) % 16)
    } else if i < 48 {
        (b ^ c ^ d, (3 * i + 5) % 16)
    } else {
        (c ^ (b | (!d)), (7 * i) % 16)
    };
    proof {
        assert(f == mix(i as int, b, c, d));
        assert(g == msg_index(i as int));
    }
    let t = f.wrapping_add(a).wrapping_add(sine_at(i)).wrapping_add(message[g]);
    let rotated = rotate_word_left(t, shift_at(i));
    proof {
        lemma_step_values(message@, st, i as int, f, g as int, t, rotated);
    }
    (d, b.wrapping_add(rotated), b, c)
}

/// The compression round: 64 nonlinear mixing steps of one block over a
/// four-word state.  Returns the post-mixing state only; adding it back
/// onto the input state is the caller's responsibility.
pub fn md5_round(message: [u32; 16], a0: u32, b0: u32, c0: u32, d0: u32) -> (r: (u32, u32, u32, u32))
    ensures
        r == compress(message@, (a0, b0, c0, d0)),
{
    let mut st = (a0, b0, c0, d0);
    let mut i: usize = 0;
    while i < 64
        invariant
            i <= 64,
            st == steps(message@, (a0, b0, c0, d0), i as int),
        decreases 64 - i,
    {
        st = mix_step(&message, st, i);
        i = i + 1;
        proof {
            lemma_steps_unfold(message@, (a0, b0, c0, d0), i as int);
        }
    }
    st
}

/// The block chunker: a restartable producer of the 64-byte blocks of
/// the padded stream, sixteen little-endian words each.
pub struct MessagePreprocessor<'a> {
    message: &'a [u8],
    chunk_index: usize,
}

impl<'a> MessagePreprocessor<'a> {
    /// The message being chunked.
    pub closed spec fn msg(&self) -> Seq<u8> {
        self.message@
    }

    /// How many blocks have been produced so far.
    pub closed spec fn index(&self) -> int {
        self.chunk_index as int
    }

    /// The message's bit length fits the 64-bit length field, and its
    /// padded length fits a `usize`.
    pub closed spec fn inv(&self) -> bool {
        fits(self.message@.len()) && self.message@.len() + 72 <= usize::MAX
    }

    /// A chunker positioned before the first block.
    pub fn new(message: &'a [u8]) -> (r: Self)
        requires
            fits(message@.len()),
            message@.len() + 72 <= usize::MAX,
        ensures
            r.inv(),
            r.msg() == message@,
            r.index() == 0,
    {
        MessagePreprocessor { message, chunk_index: 0 }
    }

    /// The next block of the padded stream, or `None` once all
    /// `num_blocks` blocks have been produced.
    pub fn next(&mut self) -> (r: Option<[u32; 16]>)
        requires
            old(self).inv(),
        ensures
            final(self).inv(),
            final(self).msg() == old(self).msg(),
            old(self).index() < num_blocks(old(self).msg().len()) ==> {
                &&& r is Some
                &&& r.unwrap()@ == block_at(padded(old(self).msg()), old(self).index())
                &&& final(self).index() == old(self).index() + 1
            },
            old(self).index() >= num_blocks(old(self).msg().len()) ==> {
                &&& r is None
                &&& final(self).index() == old(self).index()
            },
    {
        let ghost m = self.message@;
        let ghost nb = num_blocks(m.len()) as int;
        let ghost k = self.chunk_index as int;
        proof {
            lemma_num_blocks_bounds(m.len());
        }
        let message_length = self.message.len();
        let chunks_count = (message_length + 72) / 64;
        if self.chunk_index >= chunks_count {
            return None;
        }
        let start = self.chunk_index * 64;
        let mut chunk: [u8; 64] = [0u8; 64];

        // Copy this block's slice of the message.
        let content_len = if start <= message_length {
            let rem = message_length - start;
            if rem < 64 {
                rem
            } else {
                64
            }
        } else {
            0
        };
        let mut j: usize = 0;
        while j < content_len
            invariant
                self.message@ == m,
                j <= content_len <= 64,
                start == k * 64,
                content_len > 0 ==> start + content_len <= m.len(),
                forall|p: int| 0 <= p < j ==> chunk@[p] == m[start + p],
                forall|p: int| j <= p < 64 ==> chunk@[p] == 0,
            decreases content_len - j,
        {
            chunk[j] = self.message[start + j];
            j = j + 1;
        }

        // The terminator byte goes right after the last content byte,
        // in the block that holds the end of the message.
        if start <= message_length && message_length - start < 64 {
            chunk[content_len] = 0x80;
        }

        // The final block carries the bit length, little-endian, in its
        // last eight bytes.
        if self.chunk_index == chunks_count - 1 {
            let bit_length: u64 = (message_length as u64) * 8;
            chunk[56] = (bit_length % 0x100) as u8;
            chunk[57] = ((bit_length / 0x100) % 0x100) as u8;
            chunk[58] = ((bit_length / 0x10000) % 0x100) as u8;
            chunk[59] = ((bit_length / 0x1000000) % 0x100) as u8;
            chunk[60] = ((bit_length / 0x100000000) % 0x100) as u8;
            chunk[61] = ((bit_length / 0x10000000000) % 0x100) as u8;
            chunk[62] = ((bit_length / 0x1000000000000) % 0x100) as u8;
            chunk[63] = ((bit_length / 0x100000000000000) % 0x100) as u8;
        }
        proof {
            assert forall|p: int| 0 <= p < 64 implies chunk@[p] == padded(m)[64 * k + p] by {
                lemma_padded_index(m, 64 * k + p);
            }
        }

        // Reinterpret the 64 bytes as sixteen little-endian words.
        let mut words: [u32; 16] = [0u32; 16];
        let mut w: usize = 0;
        while w < 16
            invariant
                w <= 16,
                0 <= k < nb,
                nb == num_blocks(m.len()),
                forall|p: int| 0 <= p < 64 ==> chunk@[p] == padded(m)[64 * k + p],
                forall|q: int| 0 <= q < w ==> words@[q] == word_at(padded(m), 16 * k + q),
            decreases 16 - w,
        {
            let b0 = chunk[4 * w];
            let b1 = chunk[4 * w + 1];
            let b2 = chunk[4 * w + 2];
            let b3 = chunk[4 * w + 3];
            words[w] = b0 as u32 + (b1 as u32) * 0x100 + (b2 as u32) * 0x10000 + (b3 as u32)
                * 0x1000000;
            proof {
                assert(words@[w as int] == le_word(
                    padded(m)[64 * k + 4 * w],
                    padded(m)[64 * k + 4 * w + 1],
                    padded(m)[64 * k + 4 * w + 2],
                    padded(m)[64 * k + 4 * w + 3],
                ));
            }
            w = w + 1;
        }
        self.chunk_index = self.chunk_index + 1;
        proof {
            assert(words@ =~= block_at(padded(m), k));
        }
        Some(words)
    }
}

/// A finished digest: exactly sixteen bytes, the little-endian
/// serialization of the four final state words.
#[derive(Clone, Copy)]
pub struct MD5Hash([u8; 16]);

impl View for MD5Hash {
    type V = Seq<u8>;

    closed spec fn view(&self) -> Seq<u8> {
        self.0@
    }
}

impl MD5Hash {
    /// The digest's sixteen bytes.
    pub fn to_bytes(&self) -> (r: [u8; 16])
        ensures
            r@ == self@,
    {
        self.0
    }

    /// The hex formatter: the digest rendered as 32 lowercase
    /// hexadecimal characters, two per byte, in byte order.
    pub fn to_string(&self) -> (r: String)
        ensures
            r@ == hex_chars(self@),
    {
        let mut s = String::new();
        let mut i: usize = 0;
        while i < 16
            invariant
                i <= 16,
                self@.len() == 16,
                s@ == hex_chars(self@).take(2 * i),
            decreases 16 - i,
        {
            let b = self.0[i];
            s.append(hex_digit_str(b / 16));
            s.append(hex_digit_str(b % 16));
            proof {
                assert(s@ =~= hex_chars(self@).take(2 * (i + 1) as int));
            }
            i = i + 1;
        }
        proof {
            assert(hex_chars(self@).take(32) =~= hex_chars(self@));
        }
        s
    }
}

/// The lowercase hexadecimal character of a value below sixteen, as a
/// one-character string slice.
fn hex_digit_str(n: u8) -> (r: &'static str)
    requires
        n < 16,
    ensures
        r@ =~= seq![hex_digit(n as int)],
{
    proof {
        reveal_strlit("0");
        reveal_strlit("1");
        reveal_strlit("2");
        reveal_strlit("3");
        reveal_strlit("4");
        reveal_strlit("5");
        reveal_strlit("6");
        reveal_strlit("7");
        reveal_strlit("8");
        reveal_strlit("9");
        reveal_strlit("a");
        reveal_strlit("b");
        reveal_strlit("c");
        reveal_strlit("d");
        reveal_strlit("e");
        reveal_strlit("f");
    }
    match n {
        0 => "0",
        1 => "1",
        2 => "2",
        3 => "3",
        4 => "4",
        5 => "5",
        6 => "6",
        7 => "7",
        8 => "8",
        9 => "9",
        10 => "a",
        11 => "b",
        12 => "c",
        13 => "d",
        14 => "e",
        _ => "f",
    }
}

/// One chaining step: run the compression round on a block and add its
/// output back onto the incoming state, word-wise modulo 2^32.
fn absorb_block(block: [u32; 16], st: (u32, u32, u32, u32)) -> (r: (u32, u32, u32, u32))
    ensures
        ({
            let out = compress(block@, st);
            r == (wadd(st.0, out.0), wadd(st.1, out.1), wadd(st.2, out.2), wadd(st.3, out.3))
        }),
{
    broadcast use lemma_wadd_is_wrapping;

    let (a2, b2, c2, d2) = md5_round(block, st.0, st.1, st.2, st.3);
    (st.0.wrapping_add(a2), st.1.wrapping_add(b2), st.2.wrapping_add(c2), st.3.wrapping_add(d2))
}

/// The four state words serialized as sixteen bytes, each word as four
/// little-endian bytes, in A, B, C, D order.
fn state_bytes(st: (u32, u32, u32, u32)) -> (r: [u8; 16])
    ensures
        r@ =~= word_bytes(st.0) + word_bytes(st.1) + word_bytes(st.2) + word_bytes(st.3),
{
    let (a, b, c, d) = st;
    let mut out: [u8; 16] = [0u8; 16];
    out[0] = (a % 0x100) as u8;
    out[1] = ((a / 0x100) % 0x100) as u8;
    out[2] = ((a / 0x10000) % 0x100) as u8;
    out[3] = ((a / 0x1000000) % 0x100) as u8;
    out[4] = (b % 0x100) as u8;
    out[5] = ((b / 0x100) % 0x100) as u8;
    out[6] = ((b / 0x10000) % 0x100) as u8;
    out[7] = ((b / 0x1000000) % 0x100) as u8;
    out[8] = (c % 0x100) as u8;
    out[9] = ((c / 0x100) % 0x100) as u8;
    out[10] = ((c / 0x10000) % 0x100) as u8;
    out[11] = ((c / 0x1000000) % 0x100) as u8;
    out[12] = (d % 0x100) as u8;
    out[13] = ((d / 0x100) % 0x100) as u8;
    out[14] = ((d / 0x10000) % 0x100) as u8;
    out[15] = ((d / 0x1000000) % 0x100) as u8;
    out
}

/// The digest accumulator: drives the chunker, feeds each block through
/// the compression round, chains state across blocks by word-wise
/// addition modulo 2^32, and serializes the final state.
pub fn hash(message: &[u8]) -> (r: MD5Hash)
    requires
        fits(message@.len()),
        message@.len() + 72 <= usize::MAX,
    ensures
        r@ == digest(message@),
        r@.len() == 16,
{
    let mut pre = MessagePreprocessor::new(message);
    let mut st = (INIT_A, INIT_B, INIT_C, INIT_D);
    loop
        invariant_except_break
            pre.inv(),
            pre.msg() == message@,
            pre.index() <= num_blocks(message@.len()),
            st == chained(padded(message@), pre.index()),
        ensures
            st == final_state(message@),
        decreases num_blocks(message@.len()) - pre.index(),
    {
        match pre.next() {
            None => {
                break;
            },
            Some(block) => {
                st = absorb_block(block, st);
                proof {
                    lemma_chained_unfold(padded(message@), pre.index());
                }
            },
        }
    }
    let out = state_bytes(st);
    proof {
        assert(out@ =~= digest(message@));
    }
    MD5Hash(out)
}

/// The digest of a byte sequence, as its sixteen raw bytes.
pub fn md5(message: &[u8]) -> (r: [u8; 16])
    requires
        fits(message@.len()),
        message@.len() + 72 <= usize::MAX,
    ensures
        r@ == digest(message@),
{
    hash(message).to_bytes()
}

} // verus!
