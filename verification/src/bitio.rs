//! The bit-level wire format: values are packed least-significant-bit
//! first within each byte, and "aligned" operations first pad the stream
//! with zero bits to the next byte boundary. A writer's and a reader's
//! view of a datagram is the same sequence of bits, which is what makes
//! the round-trip results below possible.

use vstd::prelude::*;
use vstd::arithmetic::power2::{lemma_pow2_unfold, pow2};

verus! {

/// Bit `j` of a byte.
pub open spec fn byte_bit(b: u8, j: int) -> bool {
    if 0 <= j < 8 {
        (b >> (j as u8)) & 1 == 1
    } else {
        false
    }
}

/// Bit `i` of a 32-bit value.
pub open spec fn u32_bit(v: u32, i: int) -> bool {
    if 0 <= i < 32 {
        (v >> (i as u32)) & 1 == 1
    } else {
        false
    }
}

/// The `n` low bits of a value, least significant first.
pub open spec fn bitseq32(v: u32, n: int) -> Seq<bool> {
    Seq::new(if n >= 0 {
        n as nat
    } else {
        0
    }, |i: int| u32_bit(v, i))
}

/// The bit stream held in a byte buffer: bit `i` is bit `i % 8` of byte
/// `i / 8`.
pub open spec fn stream_of(bytes: Seq<u8>, len_bits: int) -> Seq<bool> {
    Seq::new(if len_bits >= 0 {
        len_bits as nat
    } else {
        0
    }, |i: int| byte_bit(bytes[i / 8], i % 8))
}

/// The value of `n` stream bits starting at `pos`, least significant
/// first.
pub open spec fn bits_val(s: Seq<bool>, pos: int, n: int) -> int
    decreases n,
{
    if n <= 0 || pos < 0 || pos + n > s.len() {
        0
    } else {
        (if s[pos] {
            1int
        } else {
            0int
        }) + 2 * bits_val(s, pos + 1, n - 1)
    }
}

/// The value of a bit segment is bounded by the segment's width.
pub proof fn lemma_bits_val_bound(s: Seq<bool>, pos: int, n: int)
    requires
        n >= 0,
    ensures
        0 <= bits_val(s, pos, n) < pow2(n as nat),
    decreases n,
{
    if n == 0 || pos < 0 || pos + n > s.len() {
        vstd::arithmetic::power2::lemma_pow2_pos(n as nat);
        if n > 0 && (pos < 0 || pos + n > s.len()) {
            vstd::arithmetic::power2::lemma_pow2_pos(n as nat);
        }
    } else {
        lemma_bits_val_bound(s, pos + 1, n - 1);
        lemma_pow2_unfold(n as nat);
    }
}

/// Segments that agree bit for bit have the same value.
pub proof fn lemma_bits_val_congruent(a: Seq<bool>, b: Seq<bool>, p: int, q: int, n: int)
    requires
        p >= 0,
        q >= 0,
        p + n <= a.len(),
        q + n <= b.len(),
        forall|i: int| 0 <= i < n ==> a[#[trigger] (p + i)] == b[q + i],
    ensures
        bits_val(a, p, n) == bits_val(b, q, n),
    decreases n,
{
    if n > 0 {
        assert(a[p] == b[q]) by {
            assert(a[p + 0] == b[q + 0]);
        }
        assert(forall|i: int| 0 <= i < n - 1 ==> a[#[trigger] (p + 1 + i)] == b[q + 1 + i]) by {
            assert forall|i: int| 0 <= i < n - 1 implies a[#[trigger] (p + 1 + i)] == b[q + 1
                + i] by {
                assert(a[p + (i + 1)] == b[q + (i + 1)]);
            }
        }
        lemma_bits_val_congruent(a, b, p + 1, q + 1, n - 1);
    }
}

/// Reading back the low bits of a written value recovers the value: the
/// round-trip core of the codec.
pub proof fn lemma_bits_roundtrip(v: u32, n: int)
    requires
        0 <= n <= 32,
        (v as int) < pow2(n as nat),
    ensures
        bits_val(bitseq32(v, n), 0, n) == v as int,
    decreases n,
{
    if n == 0 {
        assert(pow2(0) == 1) by {
            vstd::arithmetic::power2::lemma2_to64();
        }
    } else {
        let v1 = v >> 1u32;
        assert(v == (v & 1) + 2 * (v >> 1u32)) by (bit_vector);
        assert(v >> 0u32 == v) by (bit_vector);
        assert(v & 1 == 0 || v & 1 == 1) by (bit_vector);
        assert((v & 1 == 1) == u32_bit(v, 0));
        assert(forall|i: int|
            0 <= i < n - 1 ==> bitseq32(v, n)[#[trigger] (1 + i)] == bitseq32(v1, n - 1)[i]) by {
            assert forall|i: int| 0 <= i < n - 1 implies bitseq32(v, n)[#[trigger] (1 + i)]
                == bitseq32(v1, n - 1)[i] by {
                let iu = i as u32;
                assert(iu <= 30 ==> ((v >> (iu + 1)) & 1) == (((v >> 1u32) >> iu) & 1))
                    by (bit_vector);
            }
        }
        assert((v1 as int) < pow2((n - 1) as nat)) by {
            lemma_pow2_unfold(n as nat);
            assert(v >> 1u32 == v / 2) by (bit_vector);
        }
        lemma_bits_roundtrip(v1, n - 1);
        lemma_bits_val_congruent(bitseq32(v, n), bitseq32(v1, n - 1), 1, 0, n - 1);
        assert(bits_val(bitseq32(v, n), 0, n) == (if u32_bit(v, 0) {
            1int
        } else {
            0int
        }) + 2 * bits_val(bitseq32(v, n), 1, n - 1));
    }
}

/// A bit writer over a growing byte buffer.
pub struct HQMMessageWriter {
    buf: Vec<u8>,
    bits: usize,
}

impl HQMMessageWriter {
    /// The bits written so far.
    pub closed spec fn view(&self) -> Seq<bool> {
        stream_of(self.buf@, self.bits as int)
    }

    /// The writer's structural invariant: the buffer holds exactly the
    /// written bits, and the unwritten tail of the last byte is zero.
    pub closed spec fn wf(&self) -> bool {
        &&& self.buf@.len() == (self.bits + 7) / 8
        &&& self.bits <= 800_000_000
        &&& forall|k: int|
            self.bits <= k < self.buf@.len() * 8 ==> !byte_bit(#[trigger] self.buf@[k / 8], k % 8)
    }

    /// The finished bytes; bit `i` of the stream is bit `i % 8` of byte
    /// `i / 8`, and trailing padding bits are zero.
    pub fn get_bytes(self) -> (r: Vec<u8>)
        requires
            self.wf(),
        ensures
            r@.len() == (self@.len() + 7) / 8,
            self@ == stream_of(r@, self@.len() as int),
    {
        self.buf
    }

    /// How many bits have been written.
    pub fn bit_len(&self) -> (r: usize)
        requires
            self.wf(),
        ensures
            r == self@.len(),
    {
        self.bits
    }

    /// A fresh, empty writer.
    pub fn new() -> (w: HQMMessageWriter)
        ensures
            w.wf(),
            w@ =~= Seq::<bool>::empty(),
    {
        HQMMessageWriter { buf: Vec::new(), bits: 0 }
    }

    fn push_bit(&mut self, b: bool)
        requires
            old(self).wf(),
            old(self)@.len() < 800_000_000,
        ensures
            final(self).wf(),
            final(self)@ =~= old(self)@.push(b),
    {
        let off = self.bits % 8;
        if off == 0 {
            let byte: u8 = if b {
                1
            } else {
                0
            };
            self.buf.push(byte);
            assert(forall|j: int| 0 <= j < 8 ==> (byte_bit(1u8, j) <==> j == 0)) by {
                assert forall|j: int| 0 <= j < 8 implies (byte_bit(1u8, j) <==> j == 0) by {
                    let ju = j as u8;
                    assert(ju < 8 ==> (((1u8 >> ju) & 1 == 1) <==> ju == 0)) by (bit_vector);
                }
            }
            assert(forall|j: int| 0 <= j < 8 ==> !byte_bit(0u8, j)) by {
                assert forall|j: int| 0 <= j < 8 implies !byte_bit(0u8, j) by {
                    let ju = j as u8;
                    assert(ju < 8 ==> ((0u8 >> ju) & 1 == 0)) by (bit_vector);
                }
            }
        } else {
            let idx = self.bits / 8;
            let old_byte = self.buf[idx];
            let offu = off as u8;
            let new_byte: u8 = if b {
                old_byte | (1u8 << offu)
            } else {
                old_byte
            };
            self.buf.set(idx, new_byte);
            assert(forall|j: int|
                0 <= j < 8 ==> (byte_bit(old_byte | (1u8 << offu), j) <==> (byte_bit(old_byte, j)
                    || j == off))) by {
                assert forall|j: int|
                    0 <= j < 8 implies (byte_bit(old_byte | (1u8 << offu), j) <==> (byte_bit(
                    old_byte,
                    j,
                ) || j == off)) by {
                    let ju = j as u8;
                    let ob = old_byte;
                    assert(ju < 8 && offu < 8 ==> ((((ob | (1u8 << offu)) >> ju) & 1 == 1) <==> ((
                    (ob >> ju) & 1 == 1) || ju == offu))) by (bit_vector);
                }
            }
        }
        self.bits = self.bits + 1;
        assert(final(self)@ =~= old(self)@.push(b)) by {
            assert(forall|i: int|
                0 <= i < old(self)@.len() ==> #[trigger] self@[i] == old(self)@[i]);
        }
    }

    /// Write the `n` low bits of `v`, least significant first.
    pub fn write_bits(&mut self, n: usize, v: u32)
        requires
            old(self).wf(),
            n <= 32,
            old(self)@.len() + n <= 800_000_000,
        ensures
            final(self).wf(),
            final(self)@ =~= old(self)@ + bitseq32(v, n as int),
            final(self)@.len() == old(self)@.len() + n,
        decreases n,
    {
        if n == 0 {
            assert(final(self)@ =~= old(self)@ + bitseq32(v, 0));
        } else {
            let b = v & 1 == 1;
            self.push_bit(b);
            let v1 = v >> 1u32;
            let ghost mid = self@;
            self.write_bits(n - 1, v1);
            proof {
                assert(v >> 0u32 == v) by (bit_vector);
                assert(self@ =~= old(self)@ + bitseq32(v, n as int)) by {
                    assert(self@ =~= mid + bitseq32(v1, n as int - 1));
                    assert(mid =~= old(self)@.push(b));
                    assert forall|i: int|
                        0 <= i < n implies self@[old(self)@.len() + i] == bitseq32(
                        v,
                        n as int,
                    )[i] by {
                        if i == 0 {
                        } else {
                            let iu = (i - 1) as u32;
                            assert(iu <= 30 ==> (((v >> 1u32) >> iu) & 1) == ((v >> (iu + 1))
                                & 1)) by (bit_vector);
                        }
                    }
                }
            }
        }
    }

    /// Pad with zero bits to the next byte boundary.
    pub fn align(&mut self)
        requires
            old(self).wf(),
            old(self)@.len() + 8 <= 800_000_000,
        ensures
            final(self).wf(),
            final(self)@ =~= old(self)@ + zero_pad(old(self)@.len() as int),
            final(self)@.len() % 8 == 0,
            old(self)@.len() <= final(self)@.len() < old(self)@.len() + 8,
    {
        let off = self.bits % 8;
        if off != 0 {
            let pad = 8 - off;
            let mut k: usize = 0;
            while k < pad
                invariant
                    k <= pad,
                    pad == 8 - (old(self).bits % 8),
                    old(self).bits % 8 != 0,
                    self.wf(),
                    self@ =~= old(self)@ + Seq::new(k as nat, |i: int| false),
                    self.bits == old(self).bits + k,
                decreases pad - k,
            {
                self.push_bit(false);
                assert(self@ =~= old(self)@ + Seq::new((k + 1) as nat, |i: int| false));
                k += 1;
            }
        }
        assert(final(self)@ =~= old(self)@ + zero_pad(old(self)@.len() as int));
    }

    /// Write a byte on a byte boundary.
    pub fn write_byte_aligned(&mut self, b: u8)
        requires
            old(self).wf(),
            old(self)@.len() + 16 <= 800_000_000,
        ensures
            final(self).wf(),
            final(self)@ =~= old(self)@ + zero_pad(old(self)@.len() as int) + bitseq32(
                b as u32,
                8,
            ),
            final(self)@.len() < old(self)@.len() + 16,
            final(self)@.len() >= old(self)@.len() + 8,
    {
        self.align();
        self.write_bits(8, b as u32);
    }

    /// Write a 32-bit value on a byte boundary (little endian).
    pub fn write_u32_aligned(&mut self, v: u32)
        requires
            old(self).wf(),
            old(self)@.len() + 40 <= 800_000_000,
        ensures
            final(self).wf(),
            final(self)@ =~= old(self)@ + zero_pad(old(self)@.len() as int) + bitseq32(v, 32),
            final(self)@.len() < old(self)@.len() + 40,
            final(self)@.len() >= old(self)@.len() + 32,
    {
        self.align();
        self.write_bits(32, v);
    }
}

/// The zero padding that aligns a stream of the given length to a byte
/// boundary.
pub open spec fn zero_pad(len: int) -> Seq<bool> {
    Seq::new(((8 - len % 8) % 8) as nat, |i: int| false)
}

/// A bit reader over a byte buffer.
pub struct HQMMessageReader<'a> {
    buf: &'a [u8],
    pos: usize,
}

impl<'a> HQMMessageReader<'a> {
    /// The whole bit stream under the reader.
    pub closed spec fn stream(&self) -> Seq<bool> {
        stream_of(self.buf@, (self.buf@.len() * 8) as int)
    }

    /// The read cursor, in bits.
    pub closed spec fn cursor(&self) -> int {
        self.pos as int
    }

    /// The reader's structural invariant.
    pub closed spec fn wf(&self) -> bool {
        &&& self.pos <= self.buf@.len() * 8
        &&& self.buf@.len() <= 100_000
    }

    /// Start reading a datagram.
    pub fn new(buf: &'a [u8]) -> (r: HQMMessageReader<'a>)
        requires
            buf@.len() <= 100_000,
        ensures
            r.wf(),
            r.stream() == stream_of(buf@, (buf@.len() * 8) as int),
            r.cursor() == 0,
    {
        HQMMessageReader { buf, pos: 0 }
    }

    fn read_bit(&mut self) -> (r: bool)
        requires
            old(self).wf(),
            old(self).cursor() + 1 <= old(self).stream().len(),
        ensures
            final(self).wf(),
            final(self).stream() == old(self).stream(),
            final(self).cursor() == old(self).cursor() + 1,
            r == old(self).stream()[old(self).cursor()],
    {
        let idx = self.pos / 8;
        let off = (self.pos % 8) as u8;
        let byte = self.buf[idx];
        let r = (byte >> off) & 1 == 1;
        self.pos = self.pos + 1;
        r
    }

    /// Read `n` bits as a value, least significant first.
    pub fn read_bits(&mut self, n: usize) -> (r: u32)
        requires
            old(self).wf(),
            n <= 32,
            old(self).cursor() + n <= old(self).stream().len(),
        ensures
            final(self).wf(),
            final(self).stream() == old(self).stream(),
            final(self).cursor() == old(self).cursor() + n,
            r as int == bits_val(old(self).stream(), old(self).cursor(), n as int),
            (r as int) < pow2(n as nat),
        decreases n,
    {
        proof {
            lemma_bits_val_bound(old(self).stream(), old(self).cursor(), n as int);
        }
        if n == 0 {
            proof {
                vstd::arithmetic::power2::lemma2_to64();
            }
            0
        } else {
            let b = self.read_bit();
            let rest = self.read_bits(n - 1);
            proof {
                lemma_pow2_unfold(n as nat);
                lemma_bits_val_bound(old(self).stream(), old(self).cursor() + 1, n as int - 1);
                vstd::arithmetic::power2::lemma2_to64();
                if n - 1 < 31 {
                    vstd::arithmetic::power2::lemma_pow2_strictly_increases(
                        (n - 1) as nat,
                        31,
                    );
                }
            }
            let bit: u32 = if b {
                1
            } else {
                0
            };
            bit + 2 * rest
        }
    }

    fn remaining(&self) -> (r: usize)
        requires
            self.wf(),
        ensures
            r == self.stream().len() - self.cursor(),
    {
        self.buf.len() * 8 - self.pos
    }

    /// Skip to the next byte boundary.
    pub fn align(&mut self)
        requires
            old(self).wf(),
            old(self).cursor() + (8 - old(self).cursor() % 8) % 8 <= old(self).stream().len(),
        ensures
            final(self).wf(),
            final(self).stream() == old(self).stream(),
            final(self).cursor() == old(self).cursor() + (8 - old(self).cursor() % 8) % 8,
            final(self).cursor() % 8 == 0,
    {
        let off = self.pos % 8;
        if off != 0 {
            self.pos = self.pos - off + 8;
        }
    }
}


impl<'a> HQMMessageReader<'a> {
    /// Read a byte on the next byte boundary.
    pub fn read_byte_aligned(&mut self) -> (r: u8)
        requires
            old(self).wf(),
            aligned_up(old(self).cursor()) + 8 <= old(self).stream().len(),
        ensures
            final(self).wf(),
            final(self).stream() == old(self).stream(),
            final(self).cursor() == aligned_up(old(self).cursor()) + 8,
            r as int == bits_val(old(self).stream(), aligned_up(old(self).cursor()), 8),
    {
        self.align();
        let v = self.read_bits(8);
        proof {
            vstd::arithmetic::power2::lemma2_to64();
        }
        v as u8
    }

    /// Read a 32-bit value on the next byte boundary.
    pub fn read_u32_aligned(&mut self) -> (r: u32)
        requires
            old(self).wf(),
            aligned_up(old(self).cursor()) + 32 <= old(self).stream().len(),
        ensures
            final(self).wf(),
            final(self).stream() == old(self).stream(),
            final(self).cursor() == aligned_up(old(self).cursor()) + 32,
            r as int == bits_val(old(self).stream(), aligned_up(old(self).cursor()), 32),
    {
        self.align();
        self.read_bits(32)
    }

    /// Read a 16-bit value on the next byte boundary.
    pub fn read_u16_aligned(&mut self) -> (r: u32)
        requires
            old(self).wf(),
            aligned_up(old(self).cursor()) + 16 <= old(self).stream().len(),
        ensures
            final(self).wf(),
            final(self).stream() == old(self).stream(),
            final(self).cursor() == aligned_up(old(self).cursor()) + 16,
            r as int == bits_val(old(self).stream(), aligned_up(old(self).cursor()), 16),
            r < 65536,
    {
        self.align();
        let r = self.read_bits(16);
        proof {
            vstd::arithmetic::power2::lemma2_to64();
        }
        r
    }

    /// Read `n` bytes starting on the next byte boundary.
    pub fn read_bytes_aligned(&mut self, n: usize) -> (r: Vec<u8>)
        requires
            old(self).wf(),
            n <= 100_000,
            aligned_up(old(self).cursor()) + 8 * n <= old(self).stream().len(),
        ensures
            final(self).wf(),
            final(self).stream() == old(self).stream(),
            final(self).cursor() == aligned_up(old(self).cursor()) + 8 * n,
            r@.len() == n,
            forall|k: int|
                0 <= k < n ==> (#[trigger] r@[k]) as int == bits_val(
                    old(self).stream(),
                    aligned_up(old(self).cursor()) + 8 * k,
                    8,
                ),
    {
        self.align();
        let ghost base = self.cursor();
        let mut r: Vec<u8> = Vec::new();
        let mut k: usize = 0;
        while k < n
            invariant
                k <= n,
                self.wf(),
                self.stream() == old(self).stream(),
                self.cursor() == base + 8 * k,
                base == aligned_up(old(self).cursor()),
                base + 8 * n <= self.stream().len(),
                r@.len() == k,
                forall|j: int|
                    0 <= j < k ==> (#[trigger] r@[j]) as int == bits_val(
                        old(self).stream(),
                        base + 8 * j,
                        8,
                    ),
            decreases n - k,
        {
            let b = self.read_bits(8);
            proof {
                vstd::arithmetic::power2::lemma2_to64();
            }
            r.push(b as u8);
            k += 1;
        }
        r
    }

    /// Whether `w` more bits can be read after aligning to the next
    /// byte boundary.
    pub fn can_read_aligned(&self, w: usize) -> (r: bool)
        requires
            self.wf(),
            w <= 1_000_000,
        ensures
            r == (aligned_up(self.cursor()) + w <= self.stream().len()),
    {
        let off = self.pos % 8;
        let pad = if off == 0 {
            0
        } else {
            8 - off
        };
        self.pos + pad + w <= self.buf.len() * 8
    }

    /// How many bits remain unread.
    pub fn bits_left(&self) -> (r: usize)
        requires
            self.wf(),
        ensures
            r == self.stream().len() - self.cursor(),
    {
        self.remaining()
    }
}

/// The next byte boundary at or after a bit position.
pub open spec fn aligned_up(pos: int) -> int {
    pos + (8 - pos % 8) % 8
}

} // verus!
