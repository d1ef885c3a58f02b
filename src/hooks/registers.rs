use vstd::prelude::*;

verus! {

/// The `i`-th 64-bit lane of a 128-bit register, lane 0 being the least significant.
pub open spec fn lane64(v: u128, i: int) -> u64 {
    ((v >> ((64 * i) as u128)) & 0xffff_ffff_ffff_ffff) as u64
}

/// The `i`-th 32-bit lane of a 128-bit register, lane 0 being the least significant.
pub open spec fn lane32(v: u128, i: int) -> u32 {
    ((v >> ((32 * i) as u128)) & 0xffff_ffff) as u32
}

/// The `i`-th 16-bit lane of a 128-bit register, lane 0 being the least significant.
pub open spec fn lane16(v: u128, i: int) -> u16 {
    ((v >> ((16 * i) as u128)) & 0xffff) as u16
}

/// The `i`-th 8-bit lane of a 128-bit register, lane 0 being the least significant.
pub open spec fn lane8(v: u128, i: int) -> u8 {
    ((v >> ((8 * i) as u128)) & 0xff) as u8
}

proof fn lemma_replace_lane64(v: u128, x: u64, s: u128, t: u128)
    requires
        s < 128,
        t < 128,
        s % 64 == 0,
        t % 64 == 0,
    ensures
        ((((v & !(0xffff_ffff_ffff_ffffu128 << s)) | ((x as u128) << s)) >> t) & 0xffff_ffff_ffff_ffff) as u64 == if s == t {
            x
        } else {
            ((v >> t) & 0xffff_ffff_ffff_ffff) as u64
        },
{
    assert(((((v & !(0xffff_ffff_ffff_ffffu128 << s)) | ((x as u128) << s)) >> t) & 0xffff_ffff_ffff_ffff) as u64 == if s == t {
        x
    } else {
        ((v >> t) & 0xffff_ffff_ffff_ffff) as u64
    }) by (bit_vector)
        requires
            s < 128,
            t < 128,
            s % 64 == 0,
            t % 64 == 0,
    ;
}

proof fn lemma_replace_lane32(v: u128, x: u32, s: u128, t: u128)
    requires
        s < 128,
        t < 128,
        s % 32 == 0,
        t % 32 == 0,
    ensures
        ((((v & !(0xffff_ffffu128 << s)) | ((x as u128) << s)) >> t) & 0xffff_ffff) as u32 == if s == t {
            x
        } else {
            ((v >> t) & 0xffff_ffff) as u32
        },
{
    assert(((((v & !(0xffff_ffffu128 << s)) | ((x as u128) << s)) >> t) & 0xffff_ffff) as u32 == if s == t {
        x
    } else {
        ((v >> t) & 0xffff_ffff) as u32
    }) by (bit_vector)
        requires
            s < 128,
            t < 128,
            s % 32 == 0,
            t % 32 == 0,
    ;
}

proof fn lemma_replace_lane16(v: u128, h: u16, s: u128, t: u128)
    requires
        s < 128,
        t < 128,
        s % 16 == 0,
        t % 16 == 0,
    ensures
        ((((v & !(0xffffu128 << s)) | ((h as u128) << s)) >> t) & 0xffff) as u16 == if s == t {
            h
        } else {
            ((v >> t) & 0xffff) as u16
        },
{
    assert(((((v & !(0xffffu128 << s)) | ((h as u128) << s)) >> t) & 0xffff) as u16 == if s == t {
        h
    } else {
        ((v >> t) & 0xffff) as u16
    }) by (bit_vector)
        requires
            s < 128,
            t < 128,
            s % 16 == 0,
            t % 16 == 0,
    ;
}

proof fn lemma_replace_lane8(v: u128, b: u8, s: u128, t: u128)
    requires
        s < 128,
        t < 128,
        s % 8 == 0,
        t % 8 == 0,
    ensures
        ((((v & !(0xffu128 << s)) | ((b as u128) << s)) >> t) & 0xff) as u8 == if s == t {
            b
        } else {
            ((v >> t) & 0xff) as u8
        },
{
    assert(((((v & !(0xffu128 << s)) | ((b as u128) << s)) >> t) & 0xff) as u8 == if s == t {
        b
    } else {
        ((v >> t) & 0xff) as u8
    }) by (bit_vector)
        requires
            s < 128,
            t < 128,
            s % 8 == 0,
            t % 8 == 0,
    ;
}

/// One of the 64-bit general purpose registers (x0-x30) of an Aarch64 core.
#[derive(Copy, Clone, PartialEq, Eq, Structural, Debug)]
pub struct CpuRegister(pub u64);

impl CpuRegister {
    /// The Aarch64 64-bit representation of this register.
    pub fn x(self) -> (r: u64)
        ensures
            r == self.0,
    {
        self.0
    }

    /// The Aarch64 32-bit representation of this register: its low 32 bits.
    ///
    /// This is the same value as [`CpuRegister::r`].
    pub fn w(self) -> (r: u32)
        ensures
            r == self.0 % 0x1_0000_0000,
    {
        let v = self.0;
        assert(v & 0xFFFF_FFFF == v % 0x1_0000_0000) by (bit_vector);
        (v & 0xFFFF_FFFF) as u32
    }

    /// The Aarch32 32-bit representation of this register.
    ///
    /// This is the same value as [`CpuRegister::w`].
    pub fn r(self) -> (r: u32)
        ensures
            r == self.0 % 0x1_0000_0000,
    {
        self.w()
    }

    /// Sets all 64 bits of this register.
    pub fn set_x(&mut self, x: u64)
        ensures
            final(self).0 == x,
    {
        self.0 = x;
    }

    /// Sets the register from a 32-bit value, clearing the upper 32 bits.
    ///
    /// This is the same operation as [`CpuRegister::set_r`].
    pub fn set_w(&mut self, w: u32)
        ensures
            final(self).0 == w as u64,
    {
        self.0 = w as u64;
    }

    /// Sets the register from an Aarch32 value, clearing the upper 32 bits.
    ///
    /// This is the same operation as [`CpuRegister::set_w`].
    pub fn set_r(&mut self, r: u32)
        ensures
            final(self).0 == r as u64,
    {
        self.0 = r as u64;
    }
}

/// One of the 128-bit NEON/SIMD registers of an Aarch64 core, seen as a vector of lanes.
///
/// Lanes overlap: the eight 16-bit lanes and the sixteen 8-bit lanes cover the same
/// 128 bits, lane 0 being the least significant. Setting one lane leaves the bits of
/// every other lane of the same width untouched.
#[derive(Copy, Clone, PartialEq, Eq, Structural, Debug)]
pub struct VectorRegister(pub u128);

impl VectorRegister {
    /// The 128-bit representation of this register.
    pub fn v(self) -> (r: u128)
        ensures
            r == self.0,
    {
        self.0
    }

    /// The eight 16-bit lanes of this register.
    pub fn h(self) -> (r: [u16; 8])
        ensures
            forall|i: int| 0 <= i < 8 ==> #[trigger] r[i] == lane16(self.0, i),
    {
        let v = self.0;
        let r = [
            (v & 0xffff) as u16,
            ((v >> 16u128) & 0xffff) as u16,
            ((v >> 32u128) & 0xffff) as u16,
            ((v >> 48u128) & 0xffff) as u16,
            ((v >> 64u128) & 0xffff) as u16,
            ((v >> 80u128) & 0xffff) as u16,
            ((v >> 96u128) & 0xffff) as u16,
            ((v >> 112u128) & 0xffff) as u16,
        ];
        assert(v >> 0u128 == v) by (bit_vector);
        r
    }

    /// The sixteen 8-bit lanes of this register.
    pub fn b(self) -> (r: [u8; 16])
        ensures
            forall|i: int| 0 <= i < 16 ==> #[trigger] r[i] == lane8(self.0, i),
    {
        let v = self.0;
        let r = [
            (v & 0xff) as u8,
            ((v >> 8u128) & 0xff) as u8,
            ((v >> 16u128) & 0xff) as u8,
            ((v >> 24u128) & 0xff) as u8,
            ((v >> 32u128) & 0xff) as u8,
            ((v >> 40u128) & 0xff) as u8,
            ((v >> 48u128) & 0xff) as u8,
            ((v >> 56u128) & 0xff) as u8,
            ((v >> 64u128) & 0xff) as u8,
            ((v >> 72u128) & 0xff) as u8,
            ((v >> 80u128) & 0xff) as u8,
            ((v >> 88u128) & 0xff) as u8,
            ((v >> 96u128) & 0xff) as u8,
            ((v >> 104u128) & 0xff) as u8,
            ((v >> 112u128) & 0xff) as u8,
            ((v >> 120u128) & 0xff) as u8,
        ];
        assert(v >> 0u128 == v) by (bit_vector);
        r
    }

    /// The bits of the two 64-bit lanes of this register (its double-precision view).
    pub fn d_bits(self) -> (r: [u64; 2])
        ensures
            forall|i: int| 0 <= i < 2 ==> #[trigger] r[i] == lane64(self.0, i),
    {
        let v = self.0;
        assert(v >> 0u128 == v) by (bit_vector);
        [(v & 0xffff_ffff_ffff_ffff) as u64, ((v >> 64u128) & 0xffff_ffff_ffff_ffff) as u64]
    }

    /// The bits of the four 32-bit lanes of this register (its single-precision view).
    pub fn s_bits(self) -> (r: [u32; 4])
        ensures
            forall|i: int| 0 <= i < 4 ==> #[trigger] r[i] == lane32(self.0, i),
    {
        let v = self.0;
        assert(v >> 0u128 == v) by (bit_vector);
        [
            (v & 0xffff_ffff) as u32,
            ((v >> 32u128) & 0xffff_ffff) as u32,
            ((v >> 64u128) & 0xffff_ffff) as u32,
            ((v >> 96u128) & 0xffff_ffff) as u32,
        ]
    }

    /// Sets the bits of the 64-bit lane `index`, leaving the other 64-bit lane as it was.
    pub fn set_d_bits(&mut self, index: usize, bits: u64)
        requires
            index < 2,
        ensures
            final(self).0 == (old(self).0 & !(0xffff_ffff_ffff_ffffu128 << (64 * index) as u128)) | ((bits as u128) << (64
                * index) as u128),
            lane64(final(self).0, index as int) == bits,
            forall|j: int|
                0 <= j < 2 && j != index ==> #[trigger] lane64(final(self).0, j) == lane64(
                    old(self).0,
                    j,
                ),
    {
        let s: u128 = 64 * index as u128;
        let v = self.0;
        self.0 = (v & !(0xffff_ffff_ffff_ffffu128 << s)) | ((bits as u128) << s);
        proof {
            lemma_replace_lane64(v, bits, s, s);
            assert forall|j: int| 0 <= j < 2 && j != index implies #[trigger] lane64(self.0, j)
                == lane64(v, j) by {
                lemma_replace_lane64(v, bits, s, (64 * j) as u128);
            }
        }
    }

    /// Sets the bits of the 32-bit lane `index`, leaving the other 32-bit lanes as they were.
    pub fn set_s_bits(&mut self, index: usize, bits: u32)
        requires
            index < 4,
        ensures
            final(self).0 == (old(self).0 & !(0xffff_ffffu128 << (32 * index) as u128)) | ((bits as u128) << (32
                * index) as u128),
            lane32(final(self).0, index as int) == bits,
            forall|j: int|
                0 <= j < 4 && j != index ==> #[trigger] lane32(final(self).0, j) == lane32(
                    old(self).0,
                    j,
                ),
    {
        let s: u128 = 32 * index as u128;
        let v = self.0;
        self.0 = (v & !(0xffff_ffffu128 << s)) | ((bits as u128) << s);
        proof {
            lemma_replace_lane32(v, bits, s, s);
            assert forall|j: int| 0 <= j < 4 && j != index implies #[trigger] lane32(self.0, j)
                == lane32(v, j) by {
                lemma_replace_lane32(v, bits, s, (32 * j) as u128);
            }
        }
    }

    /// Sets all 128 bits of this register.
    pub fn set_v(&mut self, v: u128)
        ensures
            final(self).0 == v,
    {
        self.0 = v;
    }

    /// Sets the 16-bit lane `index`, leaving the other 16-bit lanes as they were.
    pub fn set_h(&mut self, index: usize, h: u16)
        requires
            index < 8,
        ensures
            final(self).0 == (old(self).0 & !(0xffffu128 << (16 * index) as u128)) | ((h as u128) << (16
                * index) as u128),
            lane16(final(self).0, index as int) == h,
            forall|j: int|
                0 <= j < 8 && j != index ==> #[trigger] lane16(final(self).0, j) == lane16(
                    old(self).0,
                    j,
                ),
    {
        let s: u128 = 16 * index as u128;
        let v = self.0;
        self.0 = (v & !(0xffffu128 << s)) | ((h as u128) << s);
        proof {
            lemma_replace_lane16(v, h, s, s);
            assert forall|j: int| 0 <= j < 8 && j != index implies #[trigger] lane16(self.0, j)
                == lane16(v, j) by {
                lemma_replace_lane16(v, h, s, (16 * j) as u128);
            }
        }
    }

    /// Sets the 8-bit lane `index`, leaving the other 8-bit lanes as they were.
    pub fn set_b(&mut self, index: usize, b: u8)
        requires
            index < 16,
        ensures
            final(self).0 == (old(self).0 & !(0xffu128 << (8 * index) as u128)) | ((b as u128) << (8
                * index) as u128),
            lane8(final(self).0, index as int) == b,
            forall|j: int|
                0 <= j < 16 && j != index ==> #[trigger] lane8(final(self).0, j) == lane8(
                    old(self).0,
                    j,
                ),
    {
        let s: u128 = 8 * index as u128;
        let v = self.0;
        self.0 = (v & !(0xffu128 << s)) | ((b as u128) << s);
        proof {
            lemma_replace_lane8(v, b, s, s);
            assert forall|j: int| 0 <= j < 16 && j != index implies #[trigger] lane8(self.0, j)
                == lane8(v, j) by {
                lemma_replace_lane8(v, b, s, (8 * j) as u128);
            }
        }
    }
}

/// One of the 128-bit NEON/SIMD registers seen as a scalar floating-point register.
///
/// It shares its bits with the [`VectorRegister`] view; the scalar views only ever read
/// the lowest lane, and the scalar setters clear every bit above the value written.
#[derive(Copy, Clone, PartialEq, Eq, Structural, Debug)]
pub struct FpuRegister(pub u128);

impl FpuRegister {
    /// Copies this register into a [`VectorRegister`].
    pub fn as_vec(self) -> (r: VectorRegister)
        ensures
            r.0 == self.0,
    {
        VectorRegister(self.0)
    }

    /// The 128-bit representation of this register.
    pub fn q(self) -> (r: u128)
        ensures
            r == self.0,
    {
        self.0
    }

    /// The bits of the lowest 64 bits of this register (its double-precision view).
    pub fn d_bits(self) -> (r: u64)
        ensures
            r == lane64(self.0, 0),
    {
        let v = self.0;
        assert(v >> 0u128 == v) by (bit_vector);
        (v & 0xffff_ffff_ffff_ffff) as u64
    }

    /// The bits of the lowest 32 bits of this register (its single-precision view).
    pub fn s_bits(self) -> (r: u32)
        ensures
            r == lane32(self.0, 0),
    {
        let v = self.0;
        assert(v >> 0u128 == v) by (bit_vector);
        (v & 0xffff_ffff) as u32
    }

    /// Sets the lowest 64 bits of this register, clearing the remaining bits.
    pub fn set_d_bits(&mut self, bits: u64)
        ensures
            final(self).0 == bits as u128,
    {
        self.0 = bits as u128;
    }

    /// Sets the lowest 32 bits of this register, clearing the remaining bits.
    pub fn set_s_bits(&mut self, bits: u32)
        ensures
            final(self).0 == bits as u128,
    {
        self.0 = bits as u128;
    }

    /// The 16-bit representation of this register: its lowest 16 bits.
    pub fn h(self) -> (r: u16)
        ensures
            r == lane16(self.0, 0),
    {
        let v = self.0;
        assert(v >> 0u128 == v) by (bit_vector);
        (v & 0xffff) as u16
    }

    /// The 8-bit representation of this register: its lowest 8 bits.
    pub fn b(self) -> (r: u8)
        ensures
            r == lane8(self.0, 0),
    {
        let v = self.0;
        assert(v >> 0u128 == v) by (bit_vector);
        (v & 0xff) as u8
    }

    /// Sets all 128 bits of this register.
    pub fn set_q(&mut self, q: u128)
        ensures
            final(self).0 == q,
    {
        self.0 = q;
    }

    /// Sets the lowest 16 bits of this register, clearing the remaining bits.
    pub fn set_h(&mut self, h: u16)
        ensures
            final(self).0 == h as u128,
            lane16(final(self).0, 0) == h,
    {
        let mut vec = self.as_vec();
        vec.set_v(0);
        vec.set_h(0, h);
        proof {
            let v = vec.0;
            assert(v >> 0u128 == v) by (bit_vector);
            assert(((0u128 & !(0xffffu128 << 0u128)) | ((h as u128) << 0u128)) == h as u128) by (bit_vector);
        }
        self.0 = vec.0;
    }

    /// Sets the lowest 8 bits of this register, clearing the remaining bits.
    pub fn set_b(&mut self, b: u8)
        ensures
            final(self).0 == b as u128,
            lane8(final(self).0, 0) == b,
    {
        let mut vec = self.as_vec();
        vec.set_v(0);
        vec.set_b(0, b);
        proof {
            let v = vec.0;
            assert(v >> 0u128 == v) by (bit_vector);
            assert(((0u128 & !(0xffu128 << 0u128)) | ((b as u128) << 0u128)) == b as u128) by (bit_vector);
        }
        self.0 = vec.0;
    }
}

} // verus!
