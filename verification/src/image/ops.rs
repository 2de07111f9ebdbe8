//! Indexing into images and combining them with operators.
use super::{spec_clamped, spec_combined, Image};
use crate::error::Error;
use crate::geometry::Point;
use crate::types::{Index2D, Index3D};
use vstd::prelude::*;

verus! {

/// The sum of two bytes, or 255 where the sum is larger.
pub open spec fn spec_add_bytes(a: u8, b: u8) -> u8 {
    if a + b > 255 {
        255u8
    } else {
        (a + b) as u8
    }
}

/// The difference of two bytes, or 0 where the second is the larger.
pub open spec fn spec_sub_bytes(a: u8, b: u8) -> u8 {
    if a <= b {
        0u8
    } else {
        (a - b) as u8
    }
}

/// Bitwise operations on bytes give the same bits when the bytes are
/// widened first, and never leave the range of a byte.
proof fn lemma_bitwise_bytes(a: u8, b: u8)
    by (bit_vector)
    ensures
        (a as u32 & b as u32) <= 255,
        (a as u32 | b as u32) <= 255,
        (a as u32 ^ b as u32) <= 255,
        (a as u32 & b as u32) as u8 == a & b,
        (a as u32 | b as u32) as u8 == a | b,
        (a as u32 ^ b as u32) as u8 == a ^ b,
{
}

impl vstd::std_specs::core::IndexSpecImpl<usize> for Image {
    open spec fn index_req(&self, index: &usize) -> bool {
        self.wf() && *index < self@.len()
    }
}

/// `image[offset]` is the byte at that offset of the buffer.
impl core::ops::Index<usize> for Image {
    type Output = u8;

    fn index(&self, index: usize) -> (byte: &u8)
        ensures
            *byte == self@[index as int],
    {
        let length: usize = self.size();
        let window = self.slice(index, index + 1);
        &window[0]
    }
}

impl vstd::std_specs::core::IndexSpecImpl<Index2D> for Image {
    open spec fn index_req(&self, index: &Index2D) -> bool {
        self.wf() && self.contains(index.0 as int, index.1 as int)
    }
}

/// `image[(x, y)]` is the bytes of pixel `(x, y)`, one per channel.
impl core::ops::Index<Index2D> for Image {
    type Output = [u8];

    fn index(&self, index: Index2D) -> (pixel: &[u8])
        ensures
            pixel@ == self.spec_pixel(index.0 as int, index.1 as int),
    {
        let point = Point::new(index.0, index.1);
        match self.get_pixel(&point) {
            Ok(pixel) => pixel,
            Err(_) => self.slice(0, 0),
        }
    }
}

impl vstd::std_specs::core::IndexSpecImpl<Index3D> for Image {
    open spec fn index_req(&self, index: &Index3D) -> bool {
        &&& self.wf()
        &&& self.contains(index.0 as int, index.1 as int)
        &&& index.2 < self.spec_channels()
    }
}

/// `image[(x, y, c)]` is byte `c` of pixel `(x, y)`.
impl core::ops::Index<Index3D> for Image {
    type Output = u8;

    fn index(&self, index: Index3D) -> (channel: &u8)
        ensures
            *channel == self.spec_channel(index.0 as int, index.1 as int, index.2 as int),
    {
        let point = Point::new(index.0, index.1);
        proof {
            self.lemma_pixel_in_buffer(index.0 as int, index.1 as int);
        }
        match self.get_pixel(&point) {
            Ok(pixel) => &pixel[index.2],
            Err(_) => &self.slice(0, 1)[0],
        }
    }
}

impl vstd::std_specs::ops::AddSpecImpl<Image> for Image {
    open spec fn obeys_add_spec() -> bool {
        false
    }

    open spec fn add_req(self, rhs: Image) -> bool {
        self@.len() == rhs@.len()
    }

    open spec fn add_spec(self, rhs: Image) -> Image {
        self
    }
}

/// `a + b` adds the bytes of two images of the same size one by one. A sum
/// above 255 becomes 255.
impl core::ops::Add<Image> for Image {
    type Output = Image;

    fn add(self, rhs: Image) -> (sum: Image)
        ensures
            sum.same_frame(&self),
            sum@.len() == self@.len(),
            forall|i: int|
                0 <= i < self@.len() ==> #[trigger] sum@[i] == spec_add_bytes(self@[i], rhs@[i]),
    {
        let mut sum = self;
        let op = |a: u32, b: u32| -> (r: u32)
            requires
                a <= 255 && b <= 255,
            ensures
                r == a + b,
            { a + b };
        let _ = sum.combine(&rhs, op);
        proof {
            assert forall|i: int| 0 <= i < self@.len() implies #[trigger] sum@[i]
                == spec_add_bytes(self@[i], rhs@[i]) by {
                assert(spec_combined(op, self@[i], rhs@[i], sum@[i]));
                let value = choose|value: u32|
                    call_ensures(op, (self@[i] as u32, rhs@[i] as u32), value) && sum@[i]
                        == spec_clamped(value);
            }
        }
        sum
    }
}

impl vstd::std_specs::ops::SubSpecImpl<Image> for Image {
    open spec fn obeys_sub_spec() -> bool {
        false
    }

    open spec fn sub_req(self, rhs: Image) -> bool {
        self@.len() == rhs@.len()
    }

    open spec fn sub_spec(self, rhs: Image) -> Image {
        self
    }
}

/// `a - b` subtracts the bytes of two images of the same size one by one.
/// A difference below 0 becomes 0.
impl core::ops::Sub<Image> for Image {
    type Output = Image;

    fn sub(self, rhs: Image) -> (difference: Image)
        ensures
            difference.same_frame(&self),
            difference@.len() == self@.len(),
            forall|i: int|
                0 <= i < self@.len() ==> #[trigger] difference@[i] == spec_sub_bytes(
                    self@[i],
                    rhs@[i],
                ),
    {
        let mut difference = self;
        let op = |a: u32, b: u32| -> (r: u32)
            requires
                a <= 255 && b <= 255,
            ensures
                r == if a <= b {
                    0
                } else {
                    a - b
                },
            {
                if a <= b {
                    0
                } else {
                    a - b
                }
            };
        let _ = difference.combine(&rhs, op);
        proof {
            assert forall|i: int| 0 <= i < self@.len() implies #[trigger] difference@[i]
                == spec_sub_bytes(self@[i], rhs@[i]) by {
                assert(spec_combined(op, self@[i], rhs@[i], difference@[i]));
                let value = choose|value: u32|
                    call_ensures(op, (self@[i] as u32, rhs@[i] as u32), value) && difference@[i]
                        == spec_clamped(value);
            }
        }
        difference
    }
}

impl vstd::std_specs::ops::BitAndSpecImpl<Image> for Image {
    open spec fn obeys_bitand_spec() -> bool {
        false
    }

    open spec fn bitand_req(self, rhs: Image) -> bool {
        self@.len() == rhs@.len()
    }

    open spec fn bitand_spec(self, rhs: Image) -> Image {
        self
    }
}

/// `a & b` takes the bitwise and of the bytes of two images of the same
/// size one by one.
impl core::ops::BitAnd<Image> for Image {
    type Output = Image;

    fn bitand(self, rhs: Image) -> (both: Image)
        ensures
            both.same_frame(&self),
            both@.len() == self@.len(),
            forall|i: int| 0 <= i < self@.len() ==> #[trigger] both@[i] == self@[i] & rhs@[i],
    {
        let mut both = self;
        let op = |a: u32, b: u32| -> (r: u32)
            requires
                a <= 255 && b <= 255,
            ensures
                r == a & b,
            { a & b };
        let _ = both.combine(&rhs, op);
        proof {
            assert forall|i: int| 0 <= i < self@.len() implies #[trigger] both@[i]
                == self@[i] & rhs@[i] by {
                assert(spec_combined(op, self@[i], rhs@[i], both@[i]));
                let value = choose|value: u32|
                    call_ensures(op, (self@[i] as u32, rhs@[i] as u32), value) && both@[i]
                        == spec_clamped(value);
                lemma_bitwise_bytes(self@[i], rhs@[i]);
            }
        }
        both
    }
}

impl vstd::std_specs::ops::BitOrSpecImpl<Image> for Image {
    open spec fn obeys_bitor_spec() -> bool {
        false
    }

    open spec fn bitor_req(self, rhs: Image) -> bool {
        self@.len() == rhs@.len()
    }

    open spec fn bitor_spec(self, rhs: Image) -> Image {
        self
    }
}

/// `a | b` takes the bitwise or of the bytes of two images of the same
/// size one by one.
impl core::ops::BitOr<Image> for Image {
    type Output = Image;

    fn bitor(self, rhs: Image) -> (either: Image)
        ensures
            either.same_frame(&self),
            either@.len() == self@.len(),
            forall|i: int| 0 <= i < self@.len() ==> #[trigger] either@[i] == self@[i] | rhs@[i],
    {
        let mut either = self;
        let op = |a: u32, b: u32| -> (r: u32)
            requires
                a <= 255 && b <= 255,
            ensures
                r == a | b,
            { a | b };
        let _ = either.combine(&rhs, op);
        proof {
            assert forall|i: int| 0 <= i < self@.len() implies #[trigger] either@[i]
                == self@[i] | rhs@[i] by {
                assert(spec_combined(op, self@[i], rhs@[i], either@[i]));
                let value = choose|value: u32|
                    call_ensures(op, (self@[i] as u32, rhs@[i] as u32), value) && either@[i]
                        == spec_clamped(value);
                lemma_bitwise_bytes(self@[i], rhs@[i]);
            }
        }
        either
    }
}

impl vstd::std_specs::ops::BitXorSpecImpl<Image> for Image {
    open spec fn obeys_bitxor_spec() -> bool {
        false
    }

    open spec fn bitxor_req(self, rhs: Image) -> bool {
        self@.len() == rhs@.len()
    }

    open spec fn bitxor_spec(self, rhs: Image) -> Image {
        self
    }
}

/// `a ^ b` takes the bitwise exclusive or of the bytes of two images of
/// the same size one by one.
impl core::ops::BitXor<Image> for Image {
    type Output = Image;

    fn bitxor(self, rhs: Image) -> (odd: Image)
        ensures
            odd.same_frame(&self),
            odd@.len() == self@.len(),
            forall|i: int| 0 <= i < self@.len() ==> #[trigger] odd@[i] == self@[i] ^ rhs@[i],
    {
        let mut odd = self;
        let op = |a: u32, b: u32| -> (r: u32)
            requires
                a <= 255 && b <= 255,
            ensures
                r == a ^ b,
            { a ^ b };
        let _ = odd.combine(&rhs, op);
        proof {
            assert forall|i: int| 0 <= i < self@.len() implies #[trigger] odd@[i]
                == self@[i] ^ rhs@[i] by {
                assert(spec_combined(op, self@[i], rhs@[i], odd@[i]));
                let value = choose|value: u32|
                    call_ensures(op, (self@[i] as u32, rhs@[i] as u32), value) && odd@[i]
                        == spec_clamped(value);
                lemma_bitwise_bytes(self@[i], rhs@[i]);
            }
        }
        odd
    }
}

} // verus!
