//! The integers as bit containers.
//!
//! Bit `i` of an integer is the bit of weight two to the `i` in its two's
//! complement form.

use crate::bit::{BitContainer, BitValue};
use vstd::prelude::*;

verus! {

proof fn lemma_u8_ops(a: u8, b: u8, r: u8, i: u8)
    by (bit_vector)
    requires
        i < 8,
        r < 8,
    ensures
        (((a | b) >> i) & 1 == 1) == (((a >> i) & 1 == 1) || ((b >> i) & 1 == 1)),
        (((a & b) >> i) & 1 == 1) == (((a >> i) & 1 == 1) && ((b >> i) & 1 == 1)),
        (((!a) >> i) & 1 == 1) == !((a >> i) & 1 == 1),
        (((a << r) >> i) & 1 == 1) == (i >= r && ((a >> ((i - r) as u8)) & 1 == 1)),
        ((1u8 >> i) & 1 == 1) == (i == 0),
        !((0u8 >> i) & 1 == 1),
{
}

proof fn lemma_u8_decide(a: u8, b: u8)
    by (bit_vector)
    requires
        ((a >> 0u8) & 1 == 1) == ((b >> 0u8) & 1 == 1),
        ((a >> 1u8) & 1 == 1) == ((b >> 1u8) & 1 == 1),
        ((a >> 2u8) & 1 == 1) == ((b >> 2u8) & 1 == 1),
        ((a >> 3u8) & 1 == 1) == ((b >> 3u8) & 1 == 1),
        ((a >> 4u8) & 1 == 1) == ((b >> 4u8) & 1 == 1),
        ((a >> 5u8) & 1 == 1) == ((b >> 5u8) & 1 == 1),
        ((a >> 6u8) & 1 == 1) == ((b >> 6u8) & 1 == 1),
        ((a >> 7u8) & 1 == 1) == ((b >> 7u8) & 1 == 1),
    ensures
        a == b,
{
}

impl BitContainer for u8 {
    open spec fn width() -> nat {
        8
    }

    open spec fn bit(self, index: nat) -> bool {
        (self >> (index as u8)) & 1 == 1
    }

    open spec fn amount(self) -> int {
        self as int
    }

    open spec fn limit() -> int {
        u8::MAX as int
    }

    open spec fn wrapped(self) -> BitValue {
        BitValue::U8(self)
    }

    open spec fn unwrapped(v: BitValue) -> Option<u8> {
        match v {
            BitValue::U8(a) => Some(a),
            _ => None,
        }
    }

    proof fn lemma_width() {
    }

    proof fn lemma_bits_decide(a: u8, b: u8) {
        assert(a.bit(0) == b.bit(0));
        assert(a.bit(1) == b.bit(1));
        assert(a.bit(2) == b.bit(2));
        assert(a.bit(3) == b.bit(3));
        assert(a.bit(4) == b.bit(4));
        assert(a.bit(5) == b.bit(5));
        assert(a.bit(6) == b.bit(6));
        assert(a.bit(7) == b.bit(7));
        lemma_u8_decide(a, b);
    }

    proof fn lemma_wrapped(a: u8) {
    }

    proof fn lemma_unwrapped(v: BitValue) {
    }

    fn bits() -> (n: usize) {
        8
    }

    fn zero() -> (r: u8) {
        proof {
            assert forall|i: nat| i < Self::width() implies !#[trigger] (0u8).bit(i) by {
                lemma_u8_ops(0, 0, 0, i as u8);
            }
        }
        0
    }

    fn one() -> (r: u8) {
        proof {
            assert forall|i: nat| i < Self::width() implies #[trigger] (1u8).bit(i) == (i
                == 0) by {
                lemma_u8_ops(0, 0, 0, i as u8);
            }
        }
        1
    }

    fn from_index(index: usize) -> (r: Option<u8>) {
        if index as u128 <= u8::MAX as u128 {
            Some(index as u8)
        } else {
            None
        }
    }

    fn shl(self, rhs: u8) -> (r: u8) {
        let r = self << (rhs as u8);
        proof {
            assert forall|i: nat| i < Self::width() implies #[trigger] r.bit(i) == (i
                >= rhs.amount() && self.bit((i - rhs.amount()) as nat)) by {
                lemma_u8_ops(self, 0, rhs as u8, i as u8);
            }
        }
        r
    }

    fn bitor(self, rhs: u8) -> (r: u8) {
        let r = self | rhs;
        proof {
            assert forall|i: nat| i < Self::width() implies #[trigger] r.bit(i) == (self.bit(i)
                || rhs.bit(i)) by {
                lemma_u8_ops(self, rhs, 0, i as u8);
            }
        }
        r
    }

    fn bitand(self, rhs: u8) -> (r: u8) {
        let r = self & rhs;
        proof {
            assert forall|i: nat| i < Self::width() implies #[trigger] r.bit(i) == (self.bit(i)
                && rhs.bit(i)) by {
                lemma_u8_ops(self, rhs, 0, i as u8);
            }
        }
        r
    }

    fn not(self) -> (r: u8) {
        let r = !self;
        proof {
            assert forall|i: nat| i < Self::width() implies #[trigger] r.bit(i) == !self.bit(
                i,
            ) by {
                lemma_u8_ops(self, 0, 0, i as u8);
            }
        }
        r
    }

    fn same(self, rhs: u8) -> (b: bool) {
        self == rhs
    }

    fn wrap(self) -> (v: BitValue) {
        BitValue::U8(self)
    }

    fn unwrap(v: BitValue) -> (r: Option<u8>) {
        match v {
            BitValue::U8(a) => Some(a),
            _ => None,
        }
    }
}

proof fn lemma_u16_ops(a: u16, b: u16, r: u16, i: u16)
    by (bit_vector)
    requires
        i < 16,
        r < 16,
    ensures
        (((a | b) >> i) & 1 == 1) == (((a >> i) & 1 == 1) || ((b >> i) & 1 == 1)),
        (((a & b) >> i) & 1 == 1) == (((a >> i) & 1 == 1) && ((b >> i) & 1 == 1)),
        (((!a) >> i) & 1 == 1) == !((a >> i) & 1 == 1),
        (((a << r) >> i) & 1 == 1) == (i >= r && ((a >> ((i - r) as u16)) & 1 == 1)),
        ((1u16 >> i) & 1 == 1) == (i == 0),
        !((0u16 >> i) & 1 == 1),
{
}

proof fn lemma_u16_decide(a: u16, b: u16)
    by (bit_vector)
    requires
        ((a >> 0u16) & 1 == 1) == ((b >> 0u16) & 1 == 1),
        ((a >> 1u16) & 1 == 1) == ((b >> 1u16) & 1 == 1),
        ((a >> 2u16) & 1 == 1) == ((b >> 2u16) & 1 == 1),
        ((a >> 3u16) & 1 == 1) == ((b >> 3u16) & 1 == 1),
        ((a >> 4u16) & 1 == 1) == ((b >> 4u16) & 1 == 1),
        ((a >> 5u16) & 1 == 1) == ((b >> 5u16) & 1 == 1),
        ((a >> 6u16) & 1 == 1) == ((b >> 6u16) & 1 == 1),
        ((a >> 7u16) & 1 == 1) == ((b >> 7u16) & 1 == 1),
        ((a >> 8u16) & 1 == 1) == ((b >> 8u16) & 1 == 1),
        ((a >> 9u16) & 1 == 1) == ((b >> 9u16) & 1 == 1),
        ((a >> 10u16) & 1 == 1) == ((b >> 10u16) & 1 == 1),
        ((a >> 11u16) & 1 == 1) == ((b >> 11u16) & 1 == 1),
        ((a >> 12u16) & 1 == 1) == ((b >> 12u16) & 1 == 1),
        ((a >> 13u16) & 1 == 1) == ((b >> 13u16) & 1 == 1),
        ((a >> 14u16) & 1 == 1) == ((b >> 14u16) & 1 == 1),
        ((a >> 15u16) & 1 == 1) == ((b >> 15u16) & 1 == 1),
    ensures
        a == b,
{
}

impl BitContainer for u16 {
    open spec fn width() -> nat {
        16
    }

    open spec fn bit(self, index: nat) -> bool {
        (self >> (index as u16)) & 1 == 1
    }

    open spec fn amount(self) -> int {
        self as int
    }

    open spec fn limit() -> int {
        u16::MAX as int
    }

    open spec fn wrapped(self) -> BitValue {
        BitValue::U16(self)
    }

    open spec fn unwrapped(v: BitValue) -> Option<u16> {
        match v {
            BitValue::U16(a) => Some(a),
            _ => None,
        }
    }

    proof fn lemma_width() {
    }

    proof fn lemma_bits_decide(a: u16, b: u16) {
        assert(a.bit(0) == b.bit(0));
        assert(a.bit(1) == b.bit(1));
        assert(a.bit(2) == b.bit(2));
        assert(a.bit(3) == b.bit(3));
        assert(a.bit(4) == b.bit(4));
        assert(a.bit(5) == b.bit(5));
        assert(a.bit(6) == b.bit(6));
        assert(a.bit(7) == b.bit(7));
        assert(a.bit(8) == b.bit(8));
        assert(a.bit(9) == b.bit(9));
        assert(a.bit(10) == b.bit(10));
        assert(a.bit(11) == b.bit(11));
        assert(a.bit(12) == b.bit(12));
        assert(a.bit(13) == b.bit(13));
        assert(a.bit(14) == b.bit(14));
        assert(a.bit(15) == b.bit(15));
        lemma_u16_decide(a, b);
    }

    proof fn lemma_wrapped(a: u16) {
    }

    proof fn lemma_unwrapped(v: BitValue) {
    }

    fn bits() -> (n: usize) {
        16
    }

    fn zero() -> (r: u16) {
        proof {
            assert forall|i: nat| i < Self::width() implies !#[trigger] (0u16).bit(i) by {
                lemma_u16_ops(0, 0, 0, i as u16);
            }
        }
        0
    }

    fn one() -> (r: u16) {
        proof {
            assert forall|i: nat| i < Self::width() implies #[trigger] (1u16).bit(i) == (i
                == 0) by {
                lemma_u16_ops(0, 0, 0, i as u16);
            }
        }
        1
    }

    fn from_index(index: usize) -> (r: Option<u16>) {
        if index as u128 <= u16::MAX as u128 {
            Some(index as u16)
        } else {
            None
        }
    }

    fn shl(self, rhs: u16) -> (r: u16) {
        let r = self << (rhs as u16);
        proof {
            assert forall|i: nat| i < Self::width() implies #[trigger] r.bit(i) == (i
                >= rhs.amount() && self.bit((i - rhs.amount()) as nat)) by {
                lemma_u16_ops(self, 0, rhs as u16, i as u16);
            }
        }
        r
    }

    fn bitor(self, rhs: u16) -> (r: u16) {
        let r = self | rhs;
        proof {
            assert forall|i: nat| i < Self::width() implies #[trigger] r.bit(i) == (self.bit(i)
                || rhs.bit(i)) by {
                lemma_u16_ops(self, rhs, 0, i as u16);
            }
        }
        r
    }

    fn bitand(self, rhs: u16) -> (r: u16) {
        let r = self & rhs;
        proof {
            assert forall|i: nat| i < Self::width() implies #[trigger] r.bit(i) == (self.bit(i)
                && rhs.bit(i)) by {
                lemma_u16_ops(self, rhs, 0, i as u16);
            }
        }
        r
    }

    fn not(self) -> (r: u16) {
        let r = !self;
        proof {
            assert forall|i: nat| i < Self::width() implies #[trigger] r.bit(i) == !self.bit(
                i,
            ) by {
                lemma_u16_ops(self, 0, 0, i as u16);
            }
        }
        r
    }

    fn same(self, rhs: u16) -> (b: bool) {
        self == rhs
    }

    fn wrap(self) -> (v: BitValue) {
        BitValue::U16(self)
    }

    fn unwrap(v: BitValue) -> (r: Option<u16>) {
        match v {
            BitValue::U16(a) => Some(a),
            _ => None,
        }
    }
}

proof fn lemma_u32_ops(a: u32, b: u32, r: u32, i: u32)
    by (bit_vector)
    requires
        i < 32,
        r < 32,
    ensures
        (((a | b) >> i) & 1 == 1) == (((a >> i) & 1 == 1) || ((b >> i) & 1 == 1)),
        (((a & b) >> i) & 1 == 1) == (((a >> i) & 1 == 1) && ((b >> i) & 1 == 1)),
        (((!a) >> i) & 1 == 1) == !((a >> i) & 1 == 1),
        (((a << r) >> i) & 1 == 1) == (i >= r && ((a >> ((i - r) as u32)) & 1 == 1)),
        ((1u32 >> i) & 1 == 1) == (i == 0),
        !((0u32 >> i) & 1 == 1),
{
}

proof fn lemma_u32_decide(a: u32, b: u32)
    by (bit_vector)
    requires
        ((a >> 0u32) & 1 == 1) == ((b >> 0u32) & 1 == 1),
        ((a >> 1u32) & 1 == 1) == ((b >> 1u32) & 1 == 1),
        ((a >> 2u32) & 1 == 1) == ((b >> 2u32) & 1 == 1),
        ((a >> 3u32) & 1 == 1) == ((b >> 3u32) & 1 == 1),
        ((a >> 4u32) & 1 == 1) == ((b >> 4u32) & 1 == 1),
        ((a >> 5u32) & 1 == 1) == ((b >> 5u32) & 1 == 1),
        ((a >> 6u32) & 1 == 1) == ((b >> 6u32) & 1 == 1),
        ((a >> 7u32) & 1 == 1) == ((b >> 7u32) & 1 == 1),
        ((a >> 8u32) & 1 == 1) == ((b >> 8u32) & 1 == 1),
        ((a >> 9u32) & 1 == 1) == ((b >> 9u32) & 1 == 1),
        ((a >> 10u32) & 1 == 1) == ((b >> 10u32) & 1 == 1),
        ((a >> 11u32) & 1 == 1) == ((b >> 11u32) & 1 == 1),
        ((a >> 12u32) & 1 == 1) == ((b >> 12u32) & 1 == 1),
        ((a >> 13u32) & 1 == 1) == ((b >> 13u32) & 1 == 1),
        ((a >> 14u32) & 1 == 1) == ((b >> 14u32) & 1 == 1),
        ((a >> 15u32) & 1 == 1) == ((b >> 15u32) & 1 == 1),
        ((a >> 16u32) & 1 == 1) == ((b >> 16u32) & 1 == 1),
        ((a >> 17u32) & 1 == 1) == ((b >> 17u32) & 1 == 1),
        ((a >> 18u32) & 1 == 1) == ((b >> 18u32) & 1 == 1),
        ((a >> 19u32) & 1 == 1) == ((b >> 19u32) & 1 == 1),
        ((a >> 20u32) & 1 == 1) == ((b >> 20u32) & 1 == 1),
        ((a >> 21u32) & 1 == 1) == ((b >> 21u32) & 1 == 1),
        ((a >> 22u32) & 1 == 1) == ((b >> 22u32) & 1 == 1),
        ((a >> 23u32) & 1 == 1) == ((b >> 23u32) & 1 == 1),
        ((a >> 24u32) & 1 == 1) == ((b >> 24u32) & 1 == 1),
        ((a >> 25u32) & 1 == 1) == ((b >> 25u32) & 1 == 1),
        ((a >> 26u32) & 1 == 1) == ((b >> 26u32) & 1 == 1),
        ((a >> 27u32) & 1 == 1) == ((b >> 27u32) & 1 == 1),
        ((a >> 28u32) & 1 == 1) == ((b >> 28u32) & 1 == 1),
        ((a >> 29u32) & 1 == 1) == ((b >> 29u32) & 1 == 1),
        ((a >> 30u32) & 1 == 1) == ((b >> 30u32) & 1 == 1),
        ((a >> 31u32) & 1 == 1) == ((b >> 31u32) & 1 == 1),
    ensures
        a == b,
{
}

impl BitContainer for u32 {
    open spec fn width() -> nat {
        32
    }

    open spec fn bit(self, index: nat) -> bool {
        (self >> (index as u32)) & 1 == 1
    }

    open spec fn amount(self) -> int {
        self as int
    }

    open spec fn limit() -> int {
        u32::MAX as int
    }

    open spec fn wrapped(self) -> BitValue {
        BitValue::U32(self)
    }

    open spec fn unwrapped(v: BitValue) -> Option<u32> {
        match v {
            BitValue::U32(a) => Some(a),
            _ => None,
        }
    }

    proof fn lemma_width() {
    }

    proof fn lemma_bits_decide(a: u32, b: u32) {
        assert(a.bit(0) == b.bit(0));
        assert(a.bit(1) == b.bit(1));
        assert(a.bit(2) == b.bit(2));
        assert(a.bit(3) == b.bit(3));
        assert(a.bit(4) == b.bit(4));
        assert(a.bit(5) == b.bit(5));
        assert(a.bit(6) == b.bit(6));
        assert(a.bit(7) == b.bit(7));
        assert(a.bit(8) == b.bit(8));
        assert(a.bit(9) == b.bit(9));
        assert(a.bit(10) == b.bit(10));
        assert(a.bit(11) == b.bit(11));
        assert(a.bit(12) == b.bit(12));
        assert(a.bit(13) == b.bit(13));
        assert(a.bit(14) == b.bit(14));
        assert(a.bit(15) == b.bit(15));
        assert(a.bit(16) == b.bit(16));
        assert(a.bit(17) == b.bit(17));
        assert(a.bit(18) == b.bit(18));
        assert(a.bit(19) == b.bit(19));
        assert(a.bit(20) == b.bit(20));
        assert(a.bit(21) == b.bit(21));
        assert(a.bit(22) == b.bit(22));
        assert(a.bit(23) == b.bit(23));
        assert(a.bit(24) == b.bit(24));
        assert(a.bit(25) == b.bit(25));
        assert(a.bit(26) == b.bit(26));
        assert(a.bit(27) == b.bit(27));
        assert(a.bit(28) == b.bit(28));
        assert(a.bit(29) == b.bit(29));
        assert(a.bit(30) == b.bit(30));
        assert(a.bit(31) == b.bit(31));
        lemma_u32_decide(a, b);
    }

    proof fn lemma_wrapped(a: u32) {
    }

    proof fn lemma_unwrapped(v: BitValue) {
    }

    fn bits() -> (n: usize) {
        32
    }

    fn zero() -> (r: u32) {
        proof {
            assert forall|i: nat| i < Self::width() implies !#[trigger] (0u32).bit(i) by {
                lemma_u32_ops(0, 0, 0, i as u32);
            }
        }
        0
    }

    fn one() -> (r: u32) {
        proof {
            assert forall|i: nat| i < Self::width() implies #[trigger] (1u32).bit(i) == (i
                == 0) by {
                lemma_u32_ops(0, 0, 0, i as u32);
            }
        }
        1
    }

    fn from_index(index: usize) -> (r: Option<u32>) {
        if index as u128 <= u32::MAX as u128 {
            Some(index as u32)
        } else {
            None
        }
    }

    fn shl(self, rhs: u32) -> (r: u32) {
        let r = self << (rhs as u32);
        proof {
            assert forall|i: nat| i < Self::width() implies #[trigger] r.bit(i) == (i
                >= rhs.amount() && self.bit((i - rhs.amount()) as nat)) by {
                lemma_u32_ops(self, 0, rhs as u32, i as u32);
            }
        }
        r
    }

    fn bitor(self, rhs: u32) -> (r: u32) {
        let r = self | rhs;
        proof {
            assert forall|i: nat| i < Self::width() implies #[trigger] r.bit(i) == (self.bit(i)
                || rhs.bit(i)) by {
                lemma_u32_ops(self, rhs, 0, i as u32);
            }
        }
        r
    }

    fn bitand(self, rhs: u32) -> (r: u32) {
        let r = self & rhs;
        proof {
            assert forall|i: nat| i < Self::width() implies #[trigger] r.bit(i) == (self.bit(i)
                && rhs.bit(i)) by {
                lemma_u32_ops(self, rhs, 0, i as u32);
            }
        }
        r
    }

    fn not(self) -> (r: u32) {
        let r = !self;
        proof {
            assert forall|i: nat| i < Self::width() implies #[trigger] r.bit(i) == !self.bit(
                i,
            ) by {
                lemma_u32_ops(self, 0, 0, i as u32);
            }
        }
        r
    }

    fn same(self, rhs: u32) -> (b: bool) {
        self == rhs
    }

    fn wrap(self) -> (v: BitValue) {
        BitValue::U32(self)
    }

    fn unwrap(v: BitValue) -> (r: Option<u32>) {
        match v {
            BitValue::U32(a) => Some(a),
            _ => None,
        }
    }
}

proof fn lemma_u64_ops(a: u64, b: u64, r: u64, i: u64)
    by (bit_vector)
    requires
        i < 64,
        r < 64,
    ensures
        (((a | b) >> i) & 1 == 1) == (((a >> i) & 1 == 1) || ((b >> i) & 1 == 1)),
        (((a & b) >> i) & 1 == 1) == (((a >> i) & 1 == 1) && ((b >> i) & 1 == 1)),
        (((!a) >> i) & 1 == 1) == !((a >> i) & 1 == 1),
        (((a << r) >> i) & 1 == 1) == (i >= r && ((a >> ((i - r) as u64)) & 1 == 1)),
        ((1u64 >> i) & 1 == 1) == (i == 0),
        !((0u64 >> i) & 1 == 1),
{
}

proof fn lemma_u64_decide(a: u64, b: u64)
    by (bit_vector)
    requires
        ((a >> 0u64) & 1 == 1) == ((b >> 0u64) & 1 == 1),
        ((a >> 1u64) & 1 == 1) == ((b >> 1u64) & 1 == 1),
        ((a >> 2u64) & 1 == 1) == ((b >> 2u64) & 1 == 1),
        ((a >> 3u64) & 1 == 1) == ((b >> 3u64) & 1 == 1),
        ((a >> 4u64) & 1 == 1) == ((b >> 4u64) & 1 == 1),
        ((a >> 5u64) & 1 == 1) == ((b >> 5u64) & 1 == 1),
        ((a >> 6u64) & 1 == 1) == ((b >> 6u64) & 1 == 1),
        ((a >> 7u64) & 1 == 1) == ((b >> 7u64) & 1 == 1),
        ((a >> 8u64) & 1 == 1) == ((b >> 8u64) & 1 == 1),
        ((a >> 9u64) & 1 == 1) == ((b >> 9u64) & 1 == 1),
        ((a >> 10u64) & 1 == 1) == ((b >> 10u64) & 1 == 1),
        ((a >> 11u64) & 1 == 1) == ((b >> 11u64) & 1 == 1),
        ((a >> 12u64) & 1 == 1) == ((b >> 12u64) & 1 == 1),
        ((a >> 13u64) & 1 == 1) == ((b >> 13u64) & 1 == 1),
        ((a >> 14u64) & 1 == 1) == ((b >> 14u64) & 1 == 1),
        ((a >> 15u64) & 1 == 1) == ((b >> 15u64) & 1 == 1),
        ((a >> 16u64) & 1 == 1) == ((b >> 16u64) & 1 == 1),
        ((a >> 17u64) & 1 == 1) == ((b >> 17u64) & 1 == 1),
        ((a >> 18u64) & 1 == 1) == ((b >> 18u64) & 1 == 1),
        ((a >> 19u64) & 1 == 1) == ((b >> 19u64) & 1 == 1),
        ((a >> 20u64) & 1 == 1) == ((b >> 20u64) & 1 == 1),
        ((a >> 21u64) & 1 == 1) == ((b >> 21u64) & 1 == 1),
        ((a >> 22u64) & 1 == 1) == ((b >> 22u64) & 1 == 1),
        ((a >> 23u64) & 1 == 1) == ((b >> 23u64) & 1 == 1),
        ((a >> 24u64) & 1 == 1) == ((b >> 24u64) & 1 == 1),
        ((a >> 25u64) & 1 == 1) == ((b >> 25u64) & 1 == 1),
        ((a >> 26u64) & 1 == 1) == ((b >> 26u64) & 1 == 1),
        ((a >> 27u64) & 1 == 1) == ((b >> 27u64) & 1 == 1),
        ((a >> 28u64) & 1 == 1) == ((b >> 28u64) & 1 == 1),
        ((a >> 29u64) & 1 == 1) == ((b >> 29u64) & 1 == 1),
        ((a >> 30u64) & 1 == 1) == ((b >> 30u64) & 1 == 1),
        ((a >> 31u64) & 1 == 1) == ((b >> 31u64) & 1 == 1),
        ((a >> 32u64) & 1 == 1) == ((b >> 32u64) & 1 == 1),
        ((a >> 33u64) & 1 == 1) == ((b >> 33u64) & 1 == 1),
        ((a >> 34u64) & 1 == 1) == ((b >> 34u64) & 1 == 1),
        ((a >> 35u64) & 1 == 1) == ((b >> 35u64) & 1 == 1),
        ((a >> 36u64) & 1 == 1) == ((b >> 36u64) & 1 == 1),
        ((a >> 37u64) & 1 == 1) == ((b >> 37u64) & 1 == 1),
        ((a >> 38u64) & 1 == 1) == ((b >> 38u64) & 1 == 1),
        ((a >> 39u64) & 1 == 1) == ((b >> 39u64) & 1 == 1),
        ((a >> 40u64) & 1 == 1) == ((b >> 40u64) & 1 == 1),
        ((a >> 41u64) & 1 == 1) == ((b >> 41u64) & 1 == 1),
        ((a >> 42u64) & 1 == 1) == ((b >> 42u64) & 1 == 1),
        ((a >> 43u64) & 1 == 1) == ((b >> 43u64) & 1 == 1),
        ((a >> 44u64) & 1 == 1) == ((b >> 44u64) & 1 == 1),
        ((a >> 45u64) & 1 == 1) == ((b >> 45u64) & 1 == 1),
        ((a >> 46u64) & 1 == 1) == ((b >> 46u64) & 1 == 1),
        ((a >> 47u64) & 1 == 1) == ((b >> 47u64) & 1 == 1),
        ((a >> 48u64) & 1 == 1) == ((b >> 48u64) & 1 == 1),
        ((a >> 49u64) & 1 == 1) == ((b >> 49u64) & 1 == 1),
        ((a >> 50u64) & 1 == 1) == ((b >> 50u64) & 1 == 1),
        ((a >> 51u64) & 1 == 1) == ((b >> 51u64) & 1 == 1),
        ((a >> 52u64) & 1 == 1) == ((b >> 52u64) & 1 == 1),
        ((a >> 53u64) & 1 == 1) == ((b >> 53u64) & 1 == 1),
        ((a >> 54u64) & 1 == 1) == ((b >> 54u64) & 1 == 1),
        ((a >> 55u64) & 1 == 1) == ((b >> 55u64) & 1 == 1),
        ((a >> 56u64) & 1 == 1) == ((b >> 56u64) & 1 == 1),
        ((a >> 57u64) & 1 == 1) == ((b >> 57u64) & 1 == 1),
        ((a >> 58u64) & 1 == 1) == ((b >> 58u64) & 1 == 1),
        ((a >> 59u64) & 1 == 1) == ((b >> 59u64) & 1 == 1),
        ((a >> 60u64) & 1 == 1) == ((b >> 60u64) & 1 == 1),
        ((a >> 61u64) & 1 == 1) == ((b >> 61u64) & 1 == 1),
        ((a >> 62u64) & 1 == 1) == ((b >> 62u64) & 1 == 1),
        ((a >> 63u64) & 1 == 1) == ((b >> 63u64) & 1 == 1),
    ensures
        a == b,
{
}

impl BitContainer for u64 {
    open spec fn width() -> nat {
        64
    }

    open spec fn bit(self, index: nat) -> bool {
        (self >> (index as u64)) & 1 == 1
    }

    open spec fn amount(self) -> int {
        self as int
    }

    open spec fn limit() -> int {
        u64::MAX as int
    }

    open spec fn wrapped(self) -> BitValue {
        BitValue::U64(self)
    }

    open spec fn unwrapped(v: BitValue) -> Option<u64> {
        match v {
            BitValue::U64(a) => Some(a),
            _ => None,
        }
    }

    proof fn lemma_width() {
    }

    proof fn lemma_bits_decide(a: u64, b: u64) {
        assert(a.bit(0) == b.bit(0));
        assert(a.bit(1) == b.bit(1));
        assert(a.bit(2) == b.bit(2));
        assert(a.bit(3) == b.bit(3));
        assert(a.bit(4) == b.bit(4));
        assert(a.bit(5) == b.bit(5));
        assert(a.bit(6) == b.bit(6));
        assert(a.bit(7) == b.bit(7));
        assert(a.bit(8) == b.bit(8));
        assert(a.bit(9) == b.bit(9));
        assert(a.bit(10) == b.bit(10));
        assert(a.bit(11) == b.bit(11));
        assert(a.bit(12) == b.bit(12));
        assert(a.bit(13) == b.bit(13));
        assert(a.bit(14) == b.bit(14));
        assert(a.bit(15) == b.bit(15));
        assert(a.bit(16) == b.bit(16));
        assert(a.bit(17) == b.bit(17));
        assert(a.bit(18) == b.bit(18));
        assert(a.bit(19) == b.bit(19));
        assert(a.bit(20) == b.bit(20));
        assert(a.bit(21) == b.bit(21));
        assert(a.bit(22) == b.bit(22));
        assert(a.bit(23) == b.bit(23));
        assert(a.bit(24) == b.bit(24));
        assert(a.bit(25) == b.bit(25));
        assert(a.bit(26) == b.bit(26));
        assert(a.bit(27) == b.bit(27));
        assert(a.bit(28) == b.bit(28));
        assert(a.bit(29) == b.bit(29));
        assert(a.bit(30) == b.bit(30));
        assert(a.bit(31) == b.bit(31));
        assert(a.bit(32) == b.bit(32));
        assert(a.bit(33) == b.bit(33));
        assert(a.bit(34) == b.bit(34));
        assert(a.bit(35) == b.bit(35));
        assert(a.bit(36) == b.bit(36));
        assert(a.bit(37) == b.bit(37));
        assert(a.bit(38) == b.bit(38));
        assert(a.bit(39) == b.bit(39));
        assert(a.bit(40) == b.bit(40));
        assert(a.bit(41) == b.bit(41));
        assert(a.bit(42) == b.bit(42));
        assert(a.bit(43) == b.bit(43));
        assert(a.bit(44) == b.bit(44));
        assert(a.bit(45) == b.bit(45));
        assert(a.bit(46) == b.bit(46));
        assert(a.bit(47) == b.bit(47));
        assert(a.bit(48) == b.bit(48));
        assert(a.bit(49) == b.bit(49));
        assert(a.bit(50) == b.bit(50));
        assert(a.bit(51) == b.bit(51));
        assert(a.bit(52) == b.bit(52));
        assert(a.bit(53) == b.bit(53));
        assert(a.bit(54) == b.bit(54));
        assert(a.bit(55) == b.bit(55));
        assert(a.bit(56) == b.bit(56));
        assert(a.bit(57) == b.bit(57));
        assert(a.bit(58) == b.bit(58));
        assert(a.bit(59) == b.bit(59));
        assert(a.bit(60) == b.bit(60));
        assert(a.bit(61) == b.bit(61));
        assert(a.bit(62) == b.bit(62));
        assert(a.bit(63) == b.bit(63));
        lemma_u64_decide(a, b);
    }

    proof fn lemma_wrapped(a: u64) {
    }

    proof fn lemma_unwrapped(v: BitValue) {
    }

    fn bits() -> (n: usize) {
        64
    }

    fn zero() -> (r: u64) {
        proof {
            assert forall|i: nat| i < Self::width() implies !#[trigger] (0u64).bit(i) by {
                lemma_u64_ops(0, 0, 0, i as u64);
            }
        }
        0
    }

    fn one() -> (r: u64) {
        proof {
            assert forall|i: nat| i < Self::width() implies #[trigger] (1u64).bit(i) == (i
                == 0) by {
                lemma_u64_ops(0, 0, 0, i as u64);
            }
        }
        1
    }

    fn from_index(index: usize) -> (r: Option<u64>) {
        if index as u128 <= u64::MAX as u128 {
            Some(index as u64)
        } else {
            None
        }
    }

    fn shl(self, rhs: u64) -> (r: u64) {
        let r = self << (rhs as u64);
        proof {
            assert forall|i: nat| i < Self::width() implies #[trigger] r.bit(i) == (i
                >= rhs.amount() && self.bit((i - rhs.amount()) as nat)) by {
                lemma_u64_ops(self, 0, rhs as u64, i as u64);
            }
        }
        r
    }

    fn bitor(self, rhs: u64) -> (r: u64) {
        let r = self | rhs;
        proof {
            assert forall|i: nat| i < Self::width() implies #[trigger] r.bit(i) == (self.bit(i)
                || rhs.bit(i)) by {
                lemma_u64_ops(self, rhs, 0, i as u64);
            }
        }
        r
    }

    fn bitand(self, rhs: u64) -> (r: u64) {
        let r = self & rhs;
        proof {
            assert forall|i: nat| i < Self::width() implies #[trigger] r.bit(i) == (self.bit(i)
                && rhs.bit(i)) by {
                lemma_u64_ops(self, rhs, 0, i as u64);
            }
        }
        r
    }

    fn not(self) -> (r: u64) {
        let r = !self;
        proof {
            assert forall|i: nat| i < Self::width() implies #[trigger] r.bit(i) == !self.bit(
                i,
            ) by {
                lemma_u64_ops(self, 0, 0, i as u64);
            }
        }
        r
    }

    fn same(self, rhs: u64) -> (b: bool) {
        self == rhs
    }

    fn wrap(self) -> (v: BitValue) {
        BitValue::U64(self)
    }

    fn unwrap(v: BitValue) -> (r: Option<u64>) {
        match v {
            BitValue::U64(a) => Some(a),
            _ => None,
        }
    }
}

proof fn lemma_usize_ops(a: usize, b: usize, r: usize, i: usize)
    by (bit_vector)
    requires
        i < usize::BITS,
        r < usize::BITS,
    ensures
        (((a | b) >> i) & 1 == 1) == (((a >> i) & 1 == 1) || ((b >> i) & 1 == 1)),
        (((a & b) >> i) & 1 == 1) == (((a >> i) & 1 == 1) && ((b >> i) & 1 == 1)),
        (((!a) >> i) & 1 == 1) == !((a >> i) & 1 == 1),
        (((a << r) >> i) & 1 == 1) == (i >= r && ((a >> ((i - r) as usize)) & 1 == 1)),
        ((1usize >> i) & 1 == 1) == (i == 0),
        !((0usize >> i) & 1 == 1),
{
}

proof fn lemma_usize_decide(a: usize, b: usize)
    by (bit_vector)
    requires
        ((a >> 0usize) & 1 == 1) == ((b >> 0usize) & 1 == 1),
        ((a >> 1usize) & 1 == 1) == ((b >> 1usize) & 1 == 1),
        ((a >> 2usize) & 1 == 1) == ((b >> 2usize) & 1 == 1),
        ((a >> 3usize) & 1 == 1) == ((b >> 3usize) & 1 == 1),
        ((a >> 4usize) & 1 == 1) == ((b >> 4usize) & 1 == 1),
        ((a >> 5usize) & 1 == 1) == ((b >> 5usize) & 1 == 1),
        ((a >> 6usize) & 1 == 1) == ((b >> 6usize) & 1 == 1),
        ((a >> 7usize) & 1 == 1) == ((b >> 7usize) & 1 == 1),
        ((a >> 8usize) & 1 == 1) == ((b >> 8usize) & 1 == 1),
        ((a >> 9usize) & 1 == 1) == ((b >> 9usize) & 1 == 1),
        ((a >> 10usize) & 1 == 1) == ((b >> 10usize) & 1 == 1),
        ((a >> 11usize) & 1 == 1) == ((b >> 11usize) & 1 == 1),
        ((a >> 12usize) & 1 == 1) == ((b >> 12usize) & 1 == 1),
        ((a >> 13usize) & 1 == 1) == ((b >> 13usize) & 1 == 1),
        ((a >> 14usize) & 1 == 1) == ((b >> 14usize) & 1 == 1),
        ((a >> 15usize) & 1 == 1) == ((b >> 15usize) & 1 == 1),
        ((a >> 16usize) & 1 == 1) == ((b >> 16usize) & 1 == 1),
        ((a >> 17usize) & 1 == 1) == ((b >> 17usize) & 1 == 1),
        ((a >> 18usize) & 1 == 1) == ((b >> 18usize) & 1 == 1),
        ((a >> 19usize) & 1 == 1) == ((b >> 19usize) & 1 == 1),
        ((a >> 20usize) & 1 == 1) == ((b >> 20usize) & 1 == 1),
        ((a >> 21usize) & 1 == 1) == ((b >> 21usize) & 1 == 1),
        ((a >> 22usize) & 1 == 1) == ((b >> 22usize) & 1 == 1),
        ((a >> 23usize) & 1 == 1) == ((b >> 23usize) & 1 == 1),
        ((a >> 24usize) & 1 == 1) == ((b >> 24usize) & 1 == 1),
        ((a >> 25usize) & 1 == 1) == ((b >> 25usize) & 1 == 1),
        ((a >> 26usize) & 1 == 1) == ((b >> 26usize) & 1 == 1),
        ((a >> 27usize) & 1 == 1) == ((b >> 27usize) & 1 == 1),
        ((a >> 28usize) & 1 == 1) == ((b >> 28usize) & 1 == 1),
        ((a >> 29usize) & 1 == 1) == ((b >> 29usize) & 1 == 1),
        ((a >> 30usize) & 1 == 1) == ((b >> 30usize) & 1 == 1),
        ((a >> 31usize) & 1 == 1) == ((b >> 31usize) & 1 == 1),
        (usize::BITS > 32 ==> ((a >> 32usize) & 1 == 1) == ((b >> 32usize) & 1 == 1)),
        (usize::BITS > 33 ==> ((a >> 33usize) & 1 == 1) == ((b >> 33usize) & 1 == 1)),
        (usize::BITS > 34 ==> ((a >> 34usize) & 1 == 1) == ((b >> 34usize) & 1 == 1)),
        (usize::BITS > 35 ==> ((a >> 35usize) & 1 == 1) == ((b >> 35usize) & 1 == 1)),
        (usize::BITS > 36 ==> ((a >> 36usize) & 1 == 1) == ((b >> 36usize) & 1 == 1)),
        (usize::BITS > 37 ==> ((a >> 37usize) & 1 == 1) == ((b >> 37usize) & 1 == 1)),
        (usize::BITS > 38 ==> ((a >> 38usize) & 1 == 1) == ((b >> 38usize) & 1 == 1)),
        (usize::BITS > 39 ==> ((a >> 39usize) & 1 == 1) == ((b >> 39usize) & 1 == 1)),
        (usize::BITS > 40 ==> ((a >> 40usize) & 1 == 1) == ((b >> 40usize) & 1 == 1)),
        (usize::BITS > 41 ==> ((a >> 41usize) & 1 == 1) == ((b >> 41usize) & 1 == 1)),
        (usize::BITS > 42 ==> ((a >> 42usize) & 1 == 1) == ((b >> 42usize) & 1 == 1)),
        (usize::BITS > 43 ==> ((a >> 43usize) & 1 == 1) == ((b >> 43usize) & 1 == 1)),
        (usize::BITS > 44 ==> ((a >> 44usize) & 1 == 1) == ((b >> 44usize) & 1 == 1)),
        (usize::BITS > 45 ==> ((a >> 45usize) & 1 == 1) == ((b >> 45usize) & 1 == 1)),
        (usize::BITS > 46 ==> ((a >> 46usize) & 1 == 1) == ((b >> 46usize) & 1 == 1)),
        (usize::BITS > 47 ==> ((a >> 47usize) & 1 == 1) == ((b >> 47usize) & 1 == 1)),
        (usize::BITS > 48 ==> ((a >> 48usize) & 1 == 1) == ((b >> 48usize) & 1 == 1)),
        (usize::BITS > 49 ==> ((a >> 49usize) & 1 == 1) == ((b >> 49usize) & 1 == 1)),
        (usize::BITS > 50 ==> ((a >> 50usize) & 1 == 1) == ((b >> 50usize) & 1 == 1)),
        (usize::BITS > 51 ==> ((a >> 51usize) & 1 == 1) == ((b >> 51usize) & 1 == 1)),
        (usize::BITS > 52 ==> ((a >> 52usize) & 1 == 1) == ((b >> 52usize) & 1 == 1)),
        (usize::BITS > 53 ==> ((a >> 53usize) & 1 == 1) == ((b >> 53usize) & 1 == 1)),
        (usize::BITS > 54 ==> ((a >> 54usize) & 1 == 1) == ((b >> 54usize) & 1 == 1)),
        (usize::BITS > 55 ==> ((a >> 55usize) & 1 == 1) == ((b >> 55usize) & 1 == 1)),
        (usize::BITS > 56 ==> ((a >> 56usize) & 1 == 1) == ((b >> 56usize) & 1 == 1)),
        (usize::BITS > 57 ==> ((a >> 57usize) & 1 == 1) == ((b >> 57usize) & 1 == 1)),
        (usize::BITS > 58 ==> ((a >> 58usize) & 1 == 1) == ((b >> 58usize) & 1 == 1)),
        (usize::BITS > 59 ==> ((a >> 59usize) & 1 == 1) == ((b >> 59usize) & 1 == 1)),
        (usize::BITS > 60 ==> ((a >> 60usize) & 1 == 1) == ((b >> 60usize) & 1 == 1)),
        (usize::BITS > 61 ==> ((a >> 61usize) & 1 == 1) == ((b >> 61usize) & 1 == 1)),
        (usize::BITS > 62 ==> ((a >> 62usize) & 1 == 1) == ((b >> 62usize) & 1 == 1)),
        (usize::BITS > 63 ==> ((a >> 63usize) & 1 == 1) == ((b >> 63usize) & 1 == 1)),
    ensures
        a == b,
{
}

impl BitContainer for usize {
    open spec fn width() -> nat {
        usize::BITS as nat
    }

    open spec fn bit(self, index: nat) -> bool {
        (self >> (index as usize)) & 1 == 1
    }

    open spec fn amount(self) -> int {
        self as int
    }

    open spec fn limit() -> int {
        usize::MAX as int
    }

    open spec fn wrapped(self) -> BitValue {
        BitValue::Usize(self)
    }

    open spec fn unwrapped(v: BitValue) -> Option<usize> {
        match v {
            BitValue::Usize(a) => Some(a),
            _ => None,
        }
    }

    proof fn lemma_width() {
    }

    proof fn lemma_bits_decide(a: usize, b: usize) {
        assert(a.bit(0) == b.bit(0));
        assert(a.bit(1) == b.bit(1));
        assert(a.bit(2) == b.bit(2));
        assert(a.bit(3) == b.bit(3));
        assert(a.bit(4) == b.bit(4));
        assert(a.bit(5) == b.bit(5));
        assert(a.bit(6) == b.bit(6));
        assert(a.bit(7) == b.bit(7));
        assert(a.bit(8) == b.bit(8));
        assert(a.bit(9) == b.bit(9));
        assert(a.bit(10) == b.bit(10));
        assert(a.bit(11) == b.bit(11));
        assert(a.bit(12) == b.bit(12));
        assert(a.bit(13) == b.bit(13));
        assert(a.bit(14) == b.bit(14));
        assert(a.bit(15) == b.bit(15));
        assert(a.bit(16) == b.bit(16));
        assert(a.bit(17) == b.bit(17));
        assert(a.bit(18) == b.bit(18));
        assert(a.bit(19) == b.bit(19));
        assert(a.bit(20) == b.bit(20));
        assert(a.bit(21) == b.bit(21));
        assert(a.bit(22) == b.bit(22));
        assert(a.bit(23) == b.bit(23));
        assert(a.bit(24) == b.bit(24));
        assert(a.bit(25) == b.bit(25));
        assert(a.bit(26) == b.bit(26));
        assert(a.bit(27) == b.bit(27));
        assert(a.bit(28) == b.bit(28));
        assert(a.bit(29) == b.bit(29));
        assert(a.bit(30) == b.bit(30));
        assert(a.bit(31) == b.bit(31));
        if usize::BITS > 32 { assert(a.bit(32) == b.bit(32)); }
        if usize::BITS > 33 { assert(a.bit(33) == b.bit(33)); }
        if usize::BITS > 34 { assert(a.bit(34) == b.bit(34)); }
        if usize::BITS > 35 { assert(a.bit(35) == b.bit(35)); }
        if usize::BITS > 36 { assert(a.bit(36) == b.bit(36)); }
        if usize::BITS > 37 { assert(a.bit(37) == b.bit(37)); }
        if usize::BITS > 38 { assert(a.bit(38) == b.bit(38)); }
        if usize::BITS > 39 { assert(a.bit(39) == b.bit(39)); }
        if usize::BITS > 40 { assert(a.bit(40) == b.bit(40)); }
        if usize::BITS > 41 { assert(a.bit(41) == b.bit(41)); }
        if usize::BITS > 42 { assert(a.bit(42) == b.bit(42)); }
        if usize::BITS > 43 { assert(a.bit(43) == b.bit(43)); }
        if usize::BITS > 44 { assert(a.bit(44) == b.bit(44)); }
        if usize::BITS > 45 { assert(a.bit(45) == b.bit(45)); }
        if usize::BITS > 46 { assert(a.bit(46) == b.bit(46)); }
        if usize::BITS > 47 { assert(a.bit(47) == b.bit(47)); }
        if usize::BITS > 48 { assert(a.bit(48) == b.bit(48)); }
        if usize::BITS > 49 { assert(a.bit(49) == b.bit(49)); }
        if usize::BITS > 50 { assert(a.bit(50) == b.bit(50)); }
        if usize::BITS > 51 { assert(a.bit(51) == b.bit(51)); }
        if usize::BITS > 52 { assert(a.bit(52) == b.bit(52)); }
        if usize::BITS > 53 { assert(a.bit(53) == b.bit(53)); }
        if usize::BITS > 54 { assert(a.bit(54) == b.bit(54)); }
        if usize::BITS > 55 { assert(a.bit(55) == b.bit(55)); }
        if usize::BITS > 56 { assert(a.bit(56) == b.bit(56)); }
        if usize::BITS > 57 { assert(a.bit(57) == b.bit(57)); }
        if usize::BITS > 58 { assert(a.bit(58) == b.bit(58)); }
        if usize::BITS > 59 { assert(a.bit(59) == b.bit(59)); }
        if usize::BITS > 60 { assert(a.bit(60) == b.bit(60)); }
        if usize::BITS > 61 { assert(a.bit(61) == b.bit(61)); }
        if usize::BITS > 62 { assert(a.bit(62) == b.bit(62)); }
        if usize::BITS > 63 { assert(a.bit(63) == b.bit(63)); }
        lemma_usize_decide(a, b);
    }

    proof fn lemma_wrapped(a: usize) {
    }

    proof fn lemma_unwrapped(v: BitValue) {
    }

    fn bits() -> (n: usize) {
        usize::BITS as usize
    }

    fn zero() -> (r: usize) {
        proof {
            assert forall|i: nat| i < Self::width() implies !#[trigger] (0usize).bit(i) by {
                lemma_usize_ops(0, 0, 0, i as usize);
            }
        }
        0
    }

    fn one() -> (r: usize) {
        proof {
            assert forall|i: nat| i < Self::width() implies #[trigger] (1usize).bit(i) == (i
                == 0) by {
                lemma_usize_ops(0, 0, 0, i as usize);
            }
        }
        1
    }

    fn from_index(index: usize) -> (r: Option<usize>) {
        if index as u128 <= usize::MAX as u128 {
            Some(index as usize)
        } else {
            None
        }
    }

    fn shl(self, rhs: usize) -> (r: usize) {
        let r = self << (rhs as usize);
        proof {
            assert forall|i: nat| i < Self::width() implies #[trigger] r.bit(i) == (i
                >= rhs.amount() && self.bit((i - rhs.amount()) as nat)) by {
                lemma_usize_ops(self, 0, rhs as usize, i as usize);
            }
        }
        r
    }

    fn bitor(self, rhs: usize) -> (r: usize) {
        let r = self | rhs;
        proof {
            assert forall|i: nat| i < Self::width() implies #[trigger] r.bit(i) == (self.bit(i)
                || rhs.bit(i)) by {
                lemma_usize_ops(self, rhs, 0, i as usize);
            }
        }
        r
    }

    fn bitand(self, rhs: usize) -> (r: usize) {
        let r = self & rhs;
        proof {
            assert forall|i: nat| i < Self::width() implies #[trigger] r.bit(i) == (self.bit(i)
                && rhs.bit(i)) by {
                lemma_usize_ops(self, rhs, 0, i as usize);
            }
        }
        r
    }

    fn not(self) -> (r: usize) {
        let r = !self;
        proof {
            assert forall|i: nat| i < Self::width() implies #[trigger] r.bit(i) == !self.bit(
                i,
            ) by {
                lemma_usize_ops(self, 0, 0, i as usize);
            }
        }
        r
    }

    fn same(self, rhs: usize) -> (b: bool) {
        self == rhs
    }

    fn wrap(self) -> (v: BitValue) {
        BitValue::Usize(self)
    }

    fn unwrap(v: BitValue) -> (r: Option<usize>) {
        match v {
            BitValue::Usize(a) => Some(a),
            _ => None,
        }
    }
}

proof fn lemma_i8_ops(a: i8, b: i8, r: u8, i: u8)
    by (bit_vector)
    requires
        i < 8,
        r < 8,
    ensures
        (((a | b) >> i) & 1 == 1) == (((a >> i) & 1 == 1) || ((b >> i) & 1 == 1)),
        (((a & b) >> i) & 1 == 1) == (((a >> i) & 1 == 1) && ((b >> i) & 1 == 1)),
        (((!a) >> i) & 1 == 1) == !((a >> i) & 1 == 1),
        (((a << r) >> i) & 1 == 1) == (i >= r && ((a >> ((i - r) as u8)) & 1 == 1)),
        ((1i8 >> i) & 1 == 1) == (i == 0),
        !((0i8 >> i) & 1 == 1),
{
}

proof fn lemma_i8_decide(a: i8, b: i8)
    by (bit_vector)
    requires
        ((a >> 0u8) & 1 == 1) == ((b >> 0u8) & 1 == 1),
        ((a >> 1u8) & 1 == 1) == ((b >> 1u8) & 1 == 1),
        ((a >> 2u8) & 1 == 1) == ((b >> 2u8) & 1 == 1),
        ((a >> 3u8) & 1 == 1) == ((b >> 3u8) & 1 == 1),
        ((a >> 4u8) & 1 == 1) == ((b >> 4u8) & 1 == 1),
        ((a >> 5u8) & 1 == 1) == ((b >> 5u8) & 1 == 1),
        ((a >> 6u8) & 1 == 1) == ((b >> 6u8) & 1 == 1),
        ((a >> 7u8) & 1 == 1) == ((b >> 7u8) & 1 == 1),
    ensures
        a == b,
{
}

impl BitContainer for i8 {
    open spec fn width() -> nat {
        8
    }

    open spec fn bit(self, index: nat) -> bool {
        (self >> (index as u8)) & 1 == 1
    }

    open spec fn amount(self) -> int {
        self as int
    }

    open spec fn limit() -> int {
        i8::MAX as int
    }

    open spec fn wrapped(self) -> BitValue {
        BitValue::I8(self)
    }

    open spec fn unwrapped(v: BitValue) -> Option<i8> {
        match v {
            BitValue::I8(a) => Some(a),
            _ => None,
        }
    }

    proof fn lemma_width() {
    }

    proof fn lemma_bits_decide(a: i8, b: i8) {
        assert(a.bit(0) == b.bit(0));
        assert(a.bit(1) == b.bit(1));
        assert(a.bit(2) == b.bit(2));
        assert(a.bit(3) == b.bit(3));
        assert(a.bit(4) == b.bit(4));
        assert(a.bit(5) == b.bit(5));
        assert(a.bit(6) == b.bit(6));
        assert(a.bit(7) == b.bit(7));
        lemma_i8_decide(a, b);
    }

    proof fn lemma_wrapped(a: i8) {
    }

    proof fn lemma_unwrapped(v: BitValue) {
    }

    fn bits() -> (n: usize) {
        8
    }

    fn zero() -> (r: i8) {
        proof {
            assert forall|i: nat| i < Self::width() implies !#[trigger] (0i8).bit(i) by {
                lemma_i8_ops(0, 0, 0, i as u8);
            }
        }
        0
    }

    fn one() -> (r: i8) {
        proof {
            assert forall|i: nat| i < Self::width() implies #[trigger] (1i8).bit(i) == (i
                == 0) by {
                lemma_i8_ops(0, 0, 0, i as u8);
            }
        }
        1
    }

    fn from_index(index: usize) -> (r: Option<i8>) {
        if index as u128 <= i8::MAX as u128 {
            Some(index as i8)
        } else {
            None
        }
    }

    fn shl(self, rhs: i8) -> (r: i8) {
        let r = self << (rhs as u8);
        proof {
            assert forall|i: nat| i < Self::width() implies #[trigger] r.bit(i) == (i
                >= rhs.amount() && self.bit((i - rhs.amount()) as nat)) by {
                lemma_i8_ops(self, 0, rhs as u8, i as u8);
            }
        }
        r
    }

    fn bitor(self, rhs: i8) -> (r: i8) {
        let r = self | rhs;
        proof {
            assert forall|i: nat| i < Self::width() implies #[trigger] r.bit(i) == (self.bit(i)
                || rhs.bit(i)) by {
                lemma_i8_ops(self, rhs, 0, i as u8);
            }
        }
        r
    }

    fn bitand(self, rhs: i8) -> (r: i8) {
        let r = self & rhs;
        proof {
            assert forall|i: nat| i < Self::width() implies #[trigger] r.bit(i) == (self.bit(i)
                && rhs.bit(i)) by {
                lemma_i8_ops(self, rhs, 0, i as u8);
            }
        }
        r
    }

    fn not(self) -> (r: i8) {
        let r = !self;
        proof {
            assert forall|i: nat| i < Self::width() implies #[trigger] r.bit(i) == !self.bit(
                i,
            ) by {
                lemma_i8_ops(self, 0, 0, i as u8);
            }
        }
        r
    }

    fn same(self, rhs: i8) -> (b: bool) {
        self == rhs
    }

    fn wrap(self) -> (v: BitValue) {
        BitValue::I8(self)
    }

    fn unwrap(v: BitValue) -> (r: Option<i8>) {
        match v {
            BitValue::I8(a) => Some(a),
            _ => None,
        }
    }
}

proof fn lemma_i16_ops(a: i16, b: i16, r: u16, i: u16)
    by (bit_vector)
    requires
        i < 16,
        r < 16,
    ensures
        (((a | b) >> i) & 1 == 1) == (((a >> i) & 1 == 1) || ((b >> i) & 1 == 1)),
        (((a & b) >> i) & 1 == 1) == (((a >> i) & 1 == 1) && ((b >> i) & 1 == 1)),
        (((!a) >> i) & 1 == 1) == !((a >> i) & 1 == 1),
        (((a << r) >> i) & 1 == 1) == (i >= r && ((a >> ((i - r) as u16)) & 1 == 1)),
        ((1i16 >> i) & 1 == 1) == (i == 0),
        !((0i16 >> i) & 1 == 1),
{
}

proof fn lemma_i16_decide(a: i16, b: i16)
    by (bit_vector)
    requires
        ((a >> 0u16) & 1 == 1) == ((b >> 0u16) & 1 == 1),
        ((a >> 1u16) & 1 == 1) == ((b >> 1u16) & 1 == 1),
        ((a >> 2u16) & 1 == 1) == ((b >> 2u16) & 1 == 1),
        ((a >> 3u16) & 1 == 1) == ((b >> 3u16) & 1 == 1),
        ((a >> 4u16) & 1 == 1) == ((b >> 4u16) & 1 == 1),
        ((a >> 5u16) & 1 == 1) == ((b >> 5u16) & 1 == 1),
        ((a >> 6u16) & 1 == 1) == ((b >> 6u16) & 1 == 1),
        ((a >> 7u16) & 1 == 1) == ((b >> 7u16) & 1 == 1),
        ((a >> 8u16) & 1 == 1) == ((b >> 8u16) & 1 == 1),
        ((a >> 9u16) & 1 == 1) == ((b >> 9u16) & 1 == 1),
        ((a >> 10u16) & 1 == 1) == ((b >> 10u16) & 1 == 1),
        ((a >> 11u16) & 1 == 1) == ((b >> 11u16) & 1 == 1),
        ((a >> 12u16) & 1 == 1) == ((b >> 12u16) & 1 == 1),
        ((a >> 13u16) & 1 == 1) == ((b >> 13u16) & 1 == 1),
        ((a >> 14u16) & 1 == 1) == ((b >> 14u16) & 1 == 1),
        ((a >> 15u16) & 1 == 1) == ((b >> 15u16) & 1 == 1),
    ensures
        a == b,
{
}

impl BitContainer for i16 {
    open spec fn width() -> nat {
        16
    }

    open spec fn bit(self, index: nat) -> bool {
        (self >> (index as u16)) & 1 == 1
    }

    open spec fn amount(self) -> int {
        self as int
    }

    open spec fn limit() -> int {
        i16::MAX as int
    }

    open spec fn wrapped(self) -> BitValue {
        BitValue::I16(self)
    }

    open spec fn unwrapped(v: BitValue) -> Option<i16> {
        match v {
            BitValue::I16(a) => Some(a),
            _ => None,
        }
    }

    proof fn lemma_width() {
    }

    proof fn lemma_bits_decide(a: i16, b: i16) {
        assert(a.bit(0) == b.bit(0));
        assert(a.bit(1) == b.bit(1));
        assert(a.bit(2) == b.bit(2));
        assert(a.bit(3) == b.bit(3));
        assert(a.bit(4) == b.bit(4));
        assert(a.bit(5) == b.bit(5));
        assert(a.bit(6) == b.bit(6));
        assert(a.bit(7) == b.bit(7));
        assert(a.bit(8) == b.bit(8));
        assert(a.bit(9) == b.bit(9));
        assert(a.bit(10) == b.bit(10));
        assert(a.bit(11) == b.bit(11));
        assert(a.bit(12) == b.bit(12));
        assert(a.bit(13) == b.bit(13));
        assert(a.bit(14) == b.bit(14));
        assert(a.bit(15) == b.bit(15));
        lemma_i16_decide(a, b);
    }

    proof fn lemma_wrapped(a: i16) {
    }

    proof fn lemma_unwrapped(v: BitValue) {
    }

    fn bits() -> (n: usize) {
        16
    }

    fn zero() -> (r: i16) {
        proof {
            assert forall|i: nat| i < Self::width() implies !#[trigger] (0i16).bit(i) by {
                lemma_i16_ops(0, 0, 0, i as u16);
            }
        }
        0
    }

    fn one() -> (r: i16) {
        proof {
            assert forall|i: nat| i < Self::width() implies #[trigger] (1i16).bit(i) == (i
                == 0) by {
                lemma_i16_ops(0, 0, 0, i as u16);
            }
        }
        1
    }

    fn from_index(index: usize) -> (r: Option<i16>) {
        if index as u128 <= i16::MAX as u128 {
            Some(index as i16)
        } else {
            None
        }
    }

    fn shl(self, rhs: i16) -> (r: i16) {
        let r = self << (rhs as u16);
        proof {
            assert forall|i: nat| i < Self::width() implies #[trigger] r.bit(i) == (i
                >= rhs.amount() && self.bit((i - rhs.amount()) as nat)) by {
                lemma_i16_ops(self, 0, rhs as u16, i as u16);
            }
        }
        r
    }

    fn bitor(self, rhs: i16) -> (r: i16) {
        let r = self | rhs;
        proof {
            assert forall|i: nat| i < Self::width() implies #[trigger] r.bit(i) == (self.bit(i)
                || rhs.bit(i)) by {
                lemma_i16_ops(self, rhs, 0, i as u16);
            }
        }
        r
    }

    fn bitand(self, rhs: i16) -> (r: i16) {
        let r = self & rhs;
        proof {
            assert forall|i: nat| i < Self::width() implies #[trigger] r.bit(i) == (self.bit(i)
                && rhs.bit(i)) by {
                lemma_i16_ops(self, rhs, 0, i as u16);
            }
        }
        r
    }

    fn not(self) -> (r: i16) {
        let r = !self;
        proof {
            assert forall|i: nat| i < Self::width() implies #[trigger] r.bit(i) == !self.bit(
                i,
            ) by {
                lemma_i16_ops(self, 0, 0, i as u16);
            }
        }
        r
    }

    fn same(self, rhs: i16) -> (b: bool) {
        self == rhs
    }

    fn wrap(self) -> (v: BitValue) {
        BitValue::I16(self)
    }

    fn unwrap(v: BitValue) -> (r: Option<i16>) {
        match v {
            BitValue::I16(a) => Some(a),
            _ => None,
        }
    }
}

proof fn lemma_i32_ops(a: i32, b: i32, r: u32, i: u32)
    by (bit_vector)
    requires
        i < 32,
        r < 32,
    ensures
        (((a | b) >> i) & 1 == 1) == (((a >> i) & 1 == 1) || ((b >> i) & 1 == 1)),
        (((a & b) >> i) & 1 == 1) == (((a >> i) & 1 == 1) && ((b >> i) & 1 == 1)),
        (((!a) >> i) & 1 == 1) == !((a >> i) & 1 == 1),
        (((a << r) >> i) & 1 == 1) == (i >= r && ((a >> ((i - r) as u32)) & 1 == 1)),
        ((1i32 >> i) & 1 == 1) == (i == 0),
        !((0i32 >> i) & 1 == 1),
{
}

proof fn lemma_i32_decide(a: i32, b: i32)
    by (bit_vector)
    requires
        ((a >> 0u32) & 1 == 1) == ((b >> 0u32) & 1 == 1),
        ((a >> 1u32) & 1 == 1) == ((b >> 1u32) & 1 == 1),
        ((a >> 2u32) & 1 == 1) == ((b >> 2u32) & 1 == 1),
        ((a >> 3u32) & 1 == 1) == ((b >> 3u32) & 1 == 1),
        ((a >> 4u32) & 1 == 1) == ((b >> 4u32) & 1 == 1),
        ((a >> 5u32) & 1 == 1) == ((b >> 5u32) & 1 == 1),
        ((a >> 6u32) & 1 == 1) == ((b >> 6u32) & 1 == 1),
        ((a >> 7u32) & 1 == 1) == ((b >> 7u32) & 1 == 1),
        ((a >> 8u32) & 1 == 1) == ((b >> 8u32) & 1 == 1),
        ((a >> 9u32) & 1 == 1) == ((b >> 9u32) & 1 == 1),
        ((a >> 10u32) & 1 == 1) == ((b >> 10u32) & 1 == 1),
        ((a >> 11u32) & 1 == 1) == ((b >> 11u32) & 1 == 1),
        ((a >> 12u32) & 1 == 1) == ((b >> 12u32) & 1 == 1),
        ((a >> 13u32) & 1 == 1) == ((b >> 13u32) & 1 == 1),
        ((a >> 14u32) & 1 == 1) == ((b >> 14u32) & 1 == 1),
        ((a >> 15u32) & 1 == 1) == ((b >> 15u32) & 1 == 1),
        ((a >> 16u32) & 1 == 1) == ((b >> 16u32) & 1 == 1),
        ((a >> 17u32) & 1 == 1) == ((b >> 17u32) & 1 == 1),
        ((a >> 18u32) & 1 == 1) == ((b >> 18u32) & 1 == 1),
        ((a >> 19u32) & 1 == 1) == ((b >> 19u32) & 1 == 1),
        ((a >> 20u32) & 1 == 1) == ((b >> 20u32) & 1 == 1),
        ((a >> 21u32) & 1 == 1) == ((b >> 21u32) & 1 == 1),
        ((a >> 22u32) & 1 == 1) == ((b >> 22u32) & 1 == 1),
        ((a >> 23u32) & 1 == 1) == ((b >> 23u32) & 1 == 1),
        ((a >> 24u32) & 1 == 1) == ((b >> 24u32) & 1 == 1),
        ((a >> 25u32) & 1 == 1) == ((b >> 25u32) & 1 == 1),
        ((a >> 26u32) & 1 == 1) == ((b >> 26u32) & 1 == 1),
        ((a >> 27u32) & 1 == 1) == ((b >> 27u32) & 1 == 1),
        ((a >> 28u32) & 1 == 1) == ((b >> 28u32) & 1 == 1),
        ((a >> 29u32) & 1 == 1) == ((b >> 29u32) & 1 == 1),
        ((a >> 30u32) & 1 == 1) == ((b >> 30u32) & 1 == 1),
        ((a >> 31u32) & 1 == 1) == ((b >> 31u32) & 1 == 1),
    ensures
        a == b,
{
}

impl BitContainer for i32 {
    open spec fn width() -> nat {
        32
    }

    open spec fn bit(self, index: nat) -> bool {
        (self >> (index as u32)) & 1 == 1
    }

    open spec fn amount(self) -> int {
        self as int
    }

    open spec fn limit() -> int {
        i32::MAX as int
    }

    open spec fn wrapped(self) -> BitValue {
        BitValue::I32(self)
    }

    open spec fn unwrapped(v: BitValue) -> Option<i32> {
        match v {
            BitValue::I32(a) => Some(a),
            _ => None,
        }
    }

    proof fn lemma_width() {
    }

    proof fn lemma_bits_decide(a: i32, b: i32) {
        assert(a.bit(0) == b.bit(0));
        assert(a.bit(1) == b.bit(1));
        assert(a.bit(2) == b.bit(2));
        assert(a.bit(3) == b.bit(3));
        assert(a.bit(4) == b.bit(4));
        assert(a.bit(5) == b.bit(5));
        assert(a.bit(6) == b.bit(6));
        assert(a.bit(7) == b.bit(7));
        assert(a.bit(8) == b.bit(8));
        assert(a.bit(9) == b.bit(9));
        assert(a.bit(10) == b.bit(10));
        assert(a.bit(11) == b.bit(11));
        assert(a.bit(12) == b.bit(12));
        assert(a.bit(13) == b.bit(13));
        assert(a.bit(14) == b.bit(14));
        assert(a.bit(15) == b.bit(15));
        assert(a.bit(16) == b.bit(16));
        assert(a.bit(17) == b.bit(17));
        assert(a.bit(18) == b.bit(18));
        assert(a.bit(19) == b.bit(19));
        assert(a.bit(20) == b.bit(20));
        assert(a.bit(21) == b.bit(21));
        assert(a.bit(22) == b.bit(22));
        assert(a.bit(23) == b.bit(23));
        assert(a.bit(24) == b.bit(24));
        assert(a.bit(25) == b.bit(25));
        assert(a.bit(26) == b.bit(26));
        assert(a.bit(27) == b.bit(27));
        assert(a.bit(28) == b.bit(28));
        assert(a.bit(29) == b.bit(29));
        assert(a.bit(30) == b.bit(30));
        assert(a.bit(31) == b.bit(31));
        lemma_i32_decide(a, b);
    }

    proof fn lemma_wrapped(a: i32) {
    }

    proof fn lemma_unwrapped(v: BitValue) {
    }

    fn bits() -> (n: usize) {
        32
    }

    fn zero() -> (r: i32) {
        proof {
            assert forall|i: nat| i < Self::width() implies !#[trigger] (0i32).bit(i) by {
                lemma_i32_ops(0, 0, 0, i as u32);
            }
        }
        0
    }

    fn one() -> (r: i32) {
        proof {
            assert forall|i: nat| i < Self::width() implies #[trigger] (1i32).bit(i) == (i
                == 0) by {
                lemma_i32_ops(0, 0, 0, i as u32);
            }
        }
        1
    }

    fn from_index(index: usize) -> (r: Option<i32>) {
        if index as u128 <= i32::MAX as u128 {
            Some(index as i32)
        } else {
            None
        }
    }

    fn shl(self, rhs: i32) -> (r: i32) {
        let r = self << (rhs as u32);
        proof {
            assert forall|i: nat| i < Self::width() implies #[trigger] r.bit(i) == (i
                >= rhs.amount() && self.bit((i - rhs.amount()) as nat)) by {
                lemma_i32_ops(self, 0, rhs as u32, i as u32);
            }
        }
        r
    }

    fn bitor(self, rhs: i32) -> (r: i32) {
        let r = self | rhs;
        proof {
            assert forall|i: nat| i < Self::width() implies #[trigger] r.bit(i) == (self.bit(i)
                || rhs.bit(i)) by {
                lemma_i32_ops(self, rhs, 0, i as u32);
            }
        }
        r
    }

    fn bitand(self, rhs: i32) -> (r: i32) {
        let r = self & rhs;
        proof {
            assert forall|i: nat| i < Self::width() implies #[trigger] r.bit(i) == (self.bit(i)
                && rhs.bit(i)) by {
                lemma_i32_ops(self, rhs, 0, i as u32);
            }
        }
        r
    }

    fn not(self) -> (r: i32) {
        let r = !self;
        proof {
            assert forall|i: nat| i < Self::width() implies #[trigger] r.bit(i) == !self.bit(
                i,
            ) by {
                lemma_i32_ops(self, 0, 0, i as u32);
            }
        }
        r
    }

    fn same(self, rhs: i32) -> (b: bool) {
        self == rhs
    }

    fn wrap(self) -> (v: BitValue) {
        BitValue::I32(self)
    }

    fn unwrap(v: BitValue) -> (r: Option<i32>) {
        match v {
            BitValue::I32(a) => Some(a),
            _ => None,
        }
    }
}

proof fn lemma_i64_ops(a: i64, b: i64, r: u64, i: u64)
    by (bit_vector)
    requires
        i < 64,
        r < 64,
    ensures
        (((a | b) >> i) & 1 == 1) == (((a >> i) & 1 == 1) || ((b >> i) & 1 == 1)),
        (((a & b) >> i) & 1 == 1) == (((a >> i) & 1 == 1) && ((b >> i) & 1 == 1)),
        (((!a) >> i) & 1 == 1) == !((a >> i) & 1 == 1),
        (((a << r) >> i) & 1 == 1) == (i >= r && ((a >> ((i - r) as u64)) & 1 == 1)),
        ((1i64 >> i) & 1 == 1) == (i == 0),
        !((0i64 >> i) & 1 == 1),
{
}

proof fn lemma_i64_decide(a: i64, b: i64)
    by (bit_vector)
    requires
        ((a >> 0u64) & 1 == 1) == ((b >> 0u64) & 1 == 1),
        ((a >> 1u64) & 1 == 1) == ((b >> 1u64) & 1 == 1),
        ((a >> 2u64) & 1 == 1) == ((b >> 2u64) & 1 == 1),
        ((a >> 3u64) & 1 == 1) == ((b >> 3u64) & 1 == 1),
        ((a >> 4u64) & 1 == 1) == ((b >> 4u64) & 1 == 1),
        ((a >> 5u64) & 1 == 1) == ((b >> 5u64) & 1 == 1),
        ((a >> 6u64) & 1 == 1) == ((b >> 6u64) & 1 == 1),
        ((a >> 7u64) & 1 == 1) == ((b >> 7u64) & 1 == 1),
        ((a >> 8u64) & 1 == 1) == ((b >> 8u64) & 1 == 1),
        ((a >> 9u64) & 1 == 1) == ((b >> 9u64) & 1 == 1),
        ((a >> 10u64) & 1 == 1) == ((b >> 10u64) & 1 == 1),
        ((a >> 11u64) & 1 == 1) == ((b >> 11u64) & 1 == 1),
        ((a >> 12u64) & 1 == 1) == ((b >> 12u64) & 1 == 1),
        ((a >> 13u64) & 1 == 1) == ((b >> 13u64) & 1 == 1),
        ((a >> 14u64) & 1 == 1) == ((b >> 14u64) & 1 == 1),
        ((a >> 15u64) & 1 == 1) == ((b >> 15u64) & 1 == 1),
        ((a >> 16u64) & 1 == 1) == ((b >> 16u64) & 1 == 1),
        ((a >> 17u64) & 1 == 1) == ((b >> 17u64) & 1 == 1),
        ((a >> 18u64) & 1 == 1) == ((b >> 18u64) & 1 == 1),
        ((a >> 19u64) & 1 == 1) == ((b >> 19u64) & 1 == 1),
        ((a >> 20u64) & 1 == 1) == ((b >> 20u64) & 1 == 1),
        ((a >> 21u64) & 1 == 1) == ((b >> 21u64) & 1 == 1),
        ((a >> 22u64) & 1 == 1) == ((b >> 22u64) & 1 == 1),
        ((a >> 23u64) & 1 == 1) == ((b >> 23u64) & 1 == 1),
        ((a >> 24u64) & 1 == 1) == ((b >> 24u64) & 1 == 1),
        ((a >> 25u64) & 1 == 1) == ((b >> 25u64) & 1 == 1),
        ((a >> 26u64) & 1 == 1) == ((b >> 26u64) & 1 == 1),
        ((a >> 27u64) & 1 == 1) == ((b >> 27u64) & 1 == 1),
        ((a >> 28u64) & 1 == 1) == ((b >> 28u64) & 1 == 1),
        ((a >> 29u64) & 1 == 1) == ((b >> 29u64) & 1 == 1),
        ((a >> 30u64) & 1 == 1) == ((b >> 30u64) & 1 == 1),
        ((a >> 31u64) & 1 == 1) == ((b >> 31u64) & 1 == 1),
        ((a >> 32u64) & 1 == 1) == ((b >> 32u64) & 1 == 1),
        ((a >> 33u64) & 1 == 1) == ((b >> 33u64) & 1 == 1),
        ((a >> 34u64) & 1 == 1) == ((b >> 34u64) & 1 == 1),
        ((a >> 35u64) & 1 == 1) == ((b >> 35u64) & 1 == 1),
        ((a >> 36u64) & 1 == 1) == ((b >> 36u64) & 1 == 1),
        ((a >> 37u64) & 1 == 1) == ((b >> 37u64) & 1 == 1),
        ((a >> 38u64) & 1 == 1) == ((b >> 38u64) & 1 == 1),
        ((a >> 39u64) & 1 == 1) == ((b >> 39u64) & 1 == 1),
        ((a >> 40u64) & 1 == 1) == ((b >> 40u64) & 1 == 1),
        ((a >> 41u64) & 1 == 1) == ((b >> 41u64) & 1 == 1),
        ((a >> 42u64) & 1 == 1) == ((b >> 42u64) & 1 == 1),
        ((a >> 43u64) & 1 == 1) == ((b >> 43u64) & 1 == 1),
        ((a >> 44u64) & 1 == 1) == ((b >> 44u64) & 1 == 1),
        ((a >> 45u64) & 1 == 1) == ((b >> 45u64) & 1 == 1),
        ((a >> 46u64) & 1 == 1) == ((b >> 46u64) & 1 == 1),
        ((a >> 47u64) & 1 == 1) == ((b >> 47u64) & 1 == 1),
        ((a >> 48u64) & 1 == 1) == ((b >> 48u64) & 1 == 1),
        ((a >> 49u64) & 1 == 1) == ((b >> 49u64) & 1 == 1),
        ((a >> 50u64) & 1 == 1) == ((b >> 50u64) & 1 == 1),
        ((a >> 51u64) & 1 == 1) == ((b >> 51u64) & 1 == 1),
        ((a >> 52u64) & 1 == 1) == ((b >> 52u64) & 1 == 1),
        ((a >> 53u64) & 1 == 1) == ((b >> 53u64) & 1 == 1),
        ((a >> 54u64) & 1 == 1) == ((b >> 54u64) & 1 == 1),
        ((a >> 55u64) & 1 == 1) == ((b >> 55u64) & 1 == 1),
        ((a >> 56u64) & 1 == 1) == ((b >> 56u64) & 1 == 1),
        ((a >> 57u64) & 1 == 1) == ((b >> 57u64) & 1 == 1),
        ((a >> 58u64) & 1 == 1) == ((b >> 58u64) & 1 == 1),
        ((a >> 59u64) & 1 == 1) == ((b >> 59u64) & 1 == 1),
        ((a >> 60u64) & 1 == 1) == ((b >> 60u64) & 1 == 1),
        ((a >> 61u64) & 1 == 1) == ((b >> 61u64) & 1 == 1),
        ((a >> 62u64) & 1 == 1) == ((b >> 62u64) & 1 == 1),
        ((a >> 63u64) & 1 == 1) == ((b >> 63u64) & 1 == 1),
    ensures
        a == b,
{
}

impl BitContainer for i64 {
    open spec fn width() -> nat {
        64
    }

    open spec fn bit(self, index: nat) -> bool {
        (self >> (index as u64)) & 1 == 1
    }

    open spec fn amount(self) -> int {
        self as int
    }

    open spec fn limit() -> int {
        i64::MAX as int
    }

    open spec fn wrapped(self) -> BitValue {
        BitValue::I64(self)
    }

    open spec fn unwrapped(v: BitValue) -> Option<i64> {
        match v {
            BitValue::I64(a) => Some(a),
            _ => None,
        }
    }

    proof fn lemma_width() {
    }

    proof fn lemma_bits_decide(a: i64, b: i64) {
        assert(a.bit(0) == b.bit(0));
        assert(a.bit(1) == b.bit(1));
        assert(a.bit(2) == b.bit(2));
        assert(a.bit(3) == b.bit(3));
        assert(a.bit(4) == b.bit(4));
        assert(a.bit(5) == b.bit(5));
        assert(a.bit(6) == b.bit(6));
        assert(a.bit(7) == b.bit(7));
        assert(a.bit(8) == b.bit(8));
        assert(a.bit(9) == b.bit(9));
        assert(a.bit(10) == b.bit(10));
        assert(a.bit(11) == b.bit(11));
        assert(a.bit(12) == b.bit(12));
        assert(a.bit(13) == b.bit(13));
        assert(a.bit(14) == b.bit(14));
        assert(a.bit(15) == b.bit(15));
        assert(a.bit(16) == b.bit(16));
        assert(a.bit(17) == b.bit(17));
        assert(a.bit(18) == b.bit(18));
        assert(a.bit(19) == b.bit(19));
        assert(a.bit(20) == b.bit(20));
        assert(a.bit(21) == b.bit(21));
        assert(a.bit(22) == b.bit(22));
        assert(a.bit(23) == b.bit(23));
        assert(a.bit(24) == b.bit(24));
        assert(a.bit(25) == b.bit(25));
        assert(a.bit(26) == b.bit(26));
        assert(a.bit(27) == b.bit(27));
        assert(a.bit(28) == b.bit(28));
        assert(a.bit(29) == b.bit(29));
        assert(a.bit(30) == b.bit(30));
        assert(a.bit(31) == b.bit(31));
        assert(a.bit(32) == b.bit(32));
        assert(a.bit(33) == b.bit(33));
        assert(a.bit(34) == b.bit(34));
        assert(a.bit(35) == b.bit(35));
        assert(a.bit(36) == b.bit(36));
        assert(a.bit(37) == b.bit(37));
        assert(a.bit(38) == b.bit(38));
        assert(a.bit(39) == b.bit(39));
        assert(a.bit(40) == b.bit(40));
        assert(a.bit(41) == b.bit(41));
        assert(a.bit(42) == b.bit(42));
        assert(a.bit(43) == b.bit(43));
        assert(a.bit(44) == b.bit(44));
        assert(a.bit(45) == b.bit(45));
        assert(a.bit(46) == b.bit(46));
        assert(a.bit(47) == b.bit(47));
        assert(a.bit(48) == b.bit(48));
        assert(a.bit(49) == b.bit(49));
        assert(a.bit(50) == b.bit(50));
        assert(a.bit(51) == b.bit(51));
        assert(a.bit(52) == b.bit(52));
        assert(a.bit(53) == b.bit(53));
        assert(a.bit(54) == b.bit(54));
        assert(a.bit(55) == b.bit(55));
        assert(a.bit(56) == b.bit(56));
        assert(a.bit(57) == b.bit(57));
        assert(a.bit(58) == b.bit(58));
        assert(a.bit(59) == b.bit(59));
        assert(a.bit(60) == b.bit(60));
        assert(a.bit(61) == b.bit(61));
        assert(a.bit(62) == b.bit(62));
        assert(a.bit(63) == b.bit(63));
        lemma_i64_decide(a, b);
    }

    proof fn lemma_wrapped(a: i64) {
    }

    proof fn lemma_unwrapped(v: BitValue) {
    }

    fn bits() -> (n: usize) {
        64
    }

    fn zero() -> (r: i64) {
        proof {
            assert forall|i: nat| i < Self::width() implies !#[trigger] (0i64).bit(i) by {
                lemma_i64_ops(0, 0, 0, i as u64);
            }
        }
        0
    }

    fn one() -> (r: i64) {
        proof {
            assert forall|i: nat| i < Self::width() implies #[trigger] (1i64).bit(i) == (i
                == 0) by {
                lemma_i64_ops(0, 0, 0, i as u64);
            }
        }
        1
    }

    fn from_index(index: usize) -> (r: Option<i64>) {
        if index as u128 <= i64::MAX as u128 {
            Some(index as i64)
        } else {
            None
        }
    }

    fn shl(self, rhs: i64) -> (r: i64) {
        let r = self << (rhs as u64);
        proof {
            assert forall|i: nat| i < Self::width() implies #[trigger] r.bit(i) == (i
                >= rhs.amount() && self.bit((i - rhs.amount()) as nat)) by {
                lemma_i64_ops(self, 0, rhs as u64, i as u64);
            }
        }
        r
    }

    fn bitor(self, rhs: i64) -> (r: i64) {
        let r = self | rhs;
        proof {
            assert forall|i: nat| i < Self::width() implies #[trigger] r.bit(i) == (self.bit(i)
                || rhs.bit(i)) by {
                lemma_i64_ops(self, rhs, 0, i as u64);
            }
        }
        r
    }

    fn bitand(self, rhs: i64) -> (r: i64) {
        let r = self & rhs;
        proof {
            assert forall|i: nat| i < Self::width() implies #[trigger] r.bit(i) == (self.bit(i)
                && rhs.bit(i)) by {
                lemma_i64_ops(self, rhs, 0, i as u64);
            }
        }
        r
    }

    fn not(self) -> (r: i64) {
        let r = !self;
        proof {
            assert forall|i: nat| i < Self::width() implies #[trigger] r.bit(i) == !self.bit(
                i,
            ) by {
                lemma_i64_ops(self, 0, 0, i as u64);
            }
        }
        r
    }

    fn same(self, rhs: i64) -> (b: bool) {
        self == rhs
    }

    fn wrap(self) -> (v: BitValue) {
        BitValue::I64(self)
    }

    fn unwrap(v: BitValue) -> (r: Option<i64>) {
        match v {
            BitValue::I64(a) => Some(a),
            _ => None,
        }
    }
}

proof fn lemma_isize_ops(a: isize, b: isize, r: usize, i: usize)
    by (bit_vector)
    requires
        i < usize::BITS,
        r < usize::BITS,
    ensures
        (((a | b) >> i) & 1 == 1) == (((a >> i) & 1 == 1) || ((b >> i) & 1 == 1)),
        (((a & b) >> i) & 1 == 1) == (((a >> i) & 1 == 1) && ((b >> i) & 1 == 1)),
        (((!a) >> i) & 1 == 1) == !((a >> i) & 1 == 1),
        (((a << r) >> i) & 1 == 1) == (i >= r && ((a >> ((i - r) as usize)) & 1 == 1)),
        ((1isize >> i) & 1 == 1) == (i == 0),
        !((0isize >> i) & 1 == 1),
{
}

proof fn lemma_isize_decide(a: isize, b: isize)
    by (bit_vector)
    requires
        ((a >> 0usize) & 1 == 1) == ((b >> 0usize) & 1 == 1),
        ((a >> 1usize) & 1 == 1) == ((b >> 1usize) & 1 == 1),
        ((a >> 2usize) & 1 == 1) == ((b >> 2usize) & 1 == 1),
        ((a >> 3usize) & 1 == 1) == ((b >> 3usize) & 1 == 1),
        ((a >> 4usize) & 1 == 1) == ((b >> 4usize) & 1 == 1),
        ((a >> 5usize) & 1 == 1) == ((b >> 5usize) & 1 == 1),
        ((a >> 6usize) & 1 == 1) == ((b >> 6usize) & 1 == 1),
        ((a >> 7usize) & 1 == 1) == ((b >> 7usize) & 1 == 1),
        ((a >> 8usize) & 1 == 1) == ((b >> 8usize) & 1 == 1),
        ((a >> 9usize) & 1 == 1) == ((b >> 9usize) & 1 == 1),
        ((a >> 10usize) & 1 == 1) == ((b >> 10usize) & 1 == 1),
        ((a >> 11usize) & 1 == 1) == ((b >> 11usize) & 1 == 1),
        ((a >> 12usize) & 1 == 1) == ((b >> 12usize) & 1 == 1),
        ((a >> 13usize) & 1 == 1) == ((b >> 13usize) & 1 == 1),
        ((a >> 14usize) & 1 == 1) == ((b >> 14usize) & 1 == 1),
        ((a >> 15usize) & 1 == 1) == ((b >> 15usize) & 1 == 1),
        ((a >> 16usize) & 1 == 1) == ((b >> 16usize) & 1 == 1),
        ((a >> 17usize) & 1 == 1) == ((b >> 17usize) & 1 == 1),
        ((a >> 18usize) & 1 == 1) == ((b >> 18usize) & 1 == 1),
        ((a >> 19usize) & 1 == 1) == ((b >> 19usize) & 1 == 1),
        ((a >> 20usize) & 1 == 1) == ((b >> 20usize) & 1 == 1),
        ((a >> 21usize) & 1 == 1) == ((b >> 21usize) & 1 == 1),
        ((a >> 22usize) & 1 == 1) == ((b >> 22usize) & 1 == 1),
        ((a >> 23usize) & 1 == 1) == ((b >> 23usize) & 1 == 1),
        ((a >> 24usize) & 1 == 1) == ((b >> 24usize) & 1 == 1),
        ((a >> 25usize) & 1 == 1) == ((b >> 25usize) & 1 == 1),
        ((a >> 26usize) & 1 == 1) == ((b >> 26usize) & 1 == 1),
        ((a >> 27usize) & 1 == 1) == ((b >> 27usize) & 1 == 1),
        ((a >> 28usize) & 1 == 1) == ((b >> 28usize) & 1 == 1),
        ((a >> 29usize) & 1 == 1) == ((b >> 29usize) & 1 == 1),
        ((a >> 30usize) & 1 == 1) == ((b >> 30usize) & 1 == 1),
        ((a >> 31usize) & 1 == 1) == ((b >> 31usize) & 1 == 1),
        (usize::BITS > 32 ==> ((a >> 32usize) & 1 == 1) == ((b >> 32usize) & 1 == 1)),
        (usize::BITS > 33 ==> ((a >> 33usize) & 1 == 1) == ((b >> 33usize) & 1 == 1)),
        (usize::BITS > 34 ==> ((a >> 34usize) & 1 == 1) == ((b >> 34usize) & 1 == 1)),
        (usize::BITS > 35 ==> ((a >> 35usize) & 1 == 1) == ((b >> 35usize) & 1 == 1)),
        (usize::BITS > 36 ==> ((a >> 36usize) & 1 == 1) == ((b >> 36usize) & 1 == 1)),
        (usize::BITS > 37 ==> ((a >> 37usize) & 1 == 1) == ((b >> 37usize) & 1 == 1)),
        (usize::BITS > 38 ==> ((a >> 38usize) & 1 == 1) == ((b >> 38usize) & 1 == 1)),
        (usize::BITS > 39 ==> ((a >> 39usize) & 1 == 1) == ((b >> 39usize) & 1 == 1)),
        (usize::BITS > 40 ==> ((a >> 40usize) & 1 == 1) == ((b >> 40usize) & 1 == 1)),
        (usize::BITS > 41 ==> ((a >> 41usize) & 1 == 1) == ((b >> 41usize) & 1 == 1)),
        (usize::BITS > 42 ==> ((a >> 42usize) & 1 == 1) == ((b >> 42usize) & 1 == 1)),
        (usize::BITS > 43 ==> ((a >> 43usize) & 1 == 1) == ((b >> 43usize) & 1 == 1)),
        (usize::BITS > 44 ==> ((a >> 44usize) & 1 == 1) == ((b >> 44usize) & 1 == 1)),
        (usize::BITS > 45 ==> ((a >> 45usize) & 1 == 1) == ((b >> 45usize) & 1 == 1)),
        (usize::BITS > 46 ==> ((a >> 46usize) & 1 == 1) == ((b >> 46usize) & 1 == 1)),
        (usize::BITS > 47 ==> ((a >> 47usize) & 1 == 1) == ((b >> 47usize) & 1 == 1)),
        (usize::BITS > 48 ==> ((a >> 48usize) & 1 == 1) == ((b >> 48usize) & 1 == 1)),
        (usize::BITS > 49 ==> ((a >> 49usize) & 1 == 1) == ((b >> 49usize) & 1 == 1)),
        (usize::BITS > 50 ==> ((a >> 50usize) & 1 == 1) == ((b >> 50usize) & 1 == 1)),
        (usize::BITS > 51 ==> ((a >> 51usize) & 1 == 1) == ((b >> 51usize) & 1 == 1)),
        (usize::BITS > 52 ==> ((a >> 52usize) & 1 == 1) == ((b >> 52usize) & 1 == 1)),
        (usize::BITS > 53 ==> ((a >> 53usize) & 1 == 1) == ((b >> 53usize) & 1 == 1)),
        (usize::BITS > 54 ==> ((a >> 54usize) & 1 == 1) == ((b >> 54usize) & 1 == 1)),
        (usize::BITS > 55 ==> ((a >> 55usize) & 1 == 1) == ((b >> 55usize) & 1 == 1)),
        (usize::BITS > 56 ==> ((a >> 56usize) & 1 == 1) == ((b >> 56usize) & 1 == 1)),
        (usize::BITS > 57 ==> ((a >> 57usize) & 1 == 1) == ((b >> 57usize) & 1 == 1)),
        (usize::BITS > 58 ==> ((a >> 58usize) & 1 == 1) == ((b >> 58usize) & 1 == 1)),
        (usize::BITS > 59 ==> ((a >> 59usize) & 1 == 1) == ((b >> 59usize) & 1 == 1)),
        (usize::BITS > 60 ==> ((a >> 60usize) & 1 == 1) == ((b >> 60usize) & 1 == 1)),
        (usize::BITS > 61 ==> ((a >> 61usize) & 1 == 1) == ((b >> 61usize) & 1 == 1)),
        (usize::BITS > 62 ==> ((a >> 62usize) & 1 == 1) == ((b >> 62usize) & 1 == 1)),
        (usize::BITS > 63 ==> ((a >> 63usize) & 1 == 1) == ((b >> 63usize) & 1 == 1)),
    ensures
        a == b,
{
}

impl BitContainer for isize {
    open spec fn width() -> nat {
        usize::BITS as nat
    }

    open spec fn bit(self, index: nat) -> bool {
        (self >> (index as usize)) & 1 == 1
    }

    open spec fn amount(self) -> int {
        self as int
    }

    open spec fn limit() -> int {
        isize::MAX as int
    }

    open spec fn wrapped(self) -> BitValue {
        BitValue::Isize(self)
    }

    open spec fn unwrapped(v: BitValue) -> Option<isize> {
        match v {
            BitValue::Isize(a) => Some(a),
            _ => None,
        }
    }

    proof fn lemma_width() {
    }

    proof fn lemma_bits_decide(a: isize, b: isize) {
        assert(a.bit(0) == b.bit(0));
        assert(a.bit(1) == b.bit(1));
        assert(a.bit(2) == b.bit(2));
        assert(a.bit(3) == b.bit(3));
        assert(a.bit(4) == b.bit(4));
        assert(a.bit(5) == b.bit(5));
        assert(a.bit(6) == b.bit(6));
        assert(a.bit(7) == b.bit(7));
        assert(a.bit(8) == b.bit(8));
        assert(a.bit(9) == b.bit(9));
        assert(a.bit(10) == b.bit(10));
        assert(a.bit(11) == b.bit(11));
        assert(a.bit(12) == b.bit(12));
        assert(a.bit(13) == b.bit(13));
        assert(a.bit(14) == b.bit(14));
        assert(a.bit(15) == b.bit(15));
        assert(a.bit(16) == b.bit(16));
        assert(a.bit(17) == b.bit(17));
        assert(a.bit(18) == b.bit(18));
        assert(a.bit(19) == b.bit(19));
        assert(a.bit(20) == b.bit(20));
        assert(a.bit(21) == b.bit(21));
        assert(a.bit(22) == b.bit(22));
        assert(a.bit(23) == b.bit(23));
        assert(a.bit(24) == b.bit(24));
        assert(a.bit(25) == b.bit(25));
        assert(a.bit(26) == b.bit(26));
        assert(a.bit(27) == b.bit(27));
        assert(a.bit(28) == b.bit(28));
        assert(a.bit(29) == b.bit(29));
        assert(a.bit(30) == b.bit(30));
        assert(a.bit(31) == b.bit(31));
        if usize::BITS > 32 { assert(a.bit(32) == b.bit(32)); }
        if usize::BITS > 33 { assert(a.bit(33) == b.bit(33)); }
        if usize::BITS > 34 { assert(a.bit(34) == b.bit(34)); }
        if usize::BITS > 35 { assert(a.bit(35) == b.bit(35)); }
        if usize::BITS > 36 { assert(a.bit(36) == b.bit(36)); }
        if usize::BITS > 37 { assert(a.bit(37) == b.bit(37)); }
        if usize::BITS > 38 { assert(a.bit(38) == b.bit(38)); }
        if usize::BITS > 39 { assert(a.bit(39) == b.bit(39)); }
        if usize::BITS > 40 { assert(a.bit(40) == b.bit(40)); }
        if usize::BITS > 41 { assert(a.bit(41) == b.bit(41)); }
        if usize::BITS > 42 { assert(a.bit(42) == b.bit(42)); }
        if usize::BITS > 43 { assert(a.bit(43) == b.bit(43)); }
        if usize::BITS > 44 { assert(a.bit(44) == b.bit(44)); }
        if usize::BITS > 45 { assert(a.bit(45) == b.bit(45)); }
        if usize::BITS > 46 { assert(a.bit(46) == b.bit(46)); }
        if usize::BITS > 47 { assert(a.bit(47) == b.bit(47)); }
        if usize::BITS > 48 { assert(a.bit(48) == b.bit(48)); }
        if usize::BITS > 49 { assert(a.bit(49) == b.bit(49)); }
        if usize::BITS > 50 { assert(a.bit(50) == b.bit(50)); }
        if usize::BITS > 51 { assert(a.bit(51) == b.bit(51)); }
        if usize::BITS > 52 { assert(a.bit(52) == b.bit(52)); }
        if usize::BITS > 53 { assert(a.bit(53) == b.bit(53)); }
        if usize::BITS > 54 { assert(a.bit(54) == b.bit(54)); }
        if usize::BITS > 55 { assert(a.bit(55) == b.bit(55)); }
        if usize::BITS > 56 { assert(a.bit(56) == b.bit(56)); }
        if usize::BITS > 57 { assert(a.bit(57) == b.bit(57)); }
        if usize::BITS > 58 { assert(a.bit(58) == b.bit(58)); }
        if usize::BITS > 59 { assert(a.bit(59) == b.bit(59)); }
        if usize::BITS > 60 { assert(a.bit(60) == b.bit(60)); }
        if usize::BITS > 61 { assert(a.bit(61) == b.bit(61)); }
        if usize::BITS > 62 { assert(a.bit(62) == b.bit(62)); }
        if usize::BITS > 63 { assert(a.bit(63) == b.bit(63)); }
        lemma_isize_decide(a, b);
    }

    proof fn lemma_wrapped(a: isize) {
    }

    proof fn lemma_unwrapped(v: BitValue) {
    }

    fn bits() -> (n: usize) {
        usize::BITS as usize
    }

    fn zero() -> (r: isize) {
        proof {
            assert forall|i: nat| i < Self::width() implies !#[trigger] (0isize).bit(i) by {
                lemma_isize_ops(0, 0, 0, i as usize);
            }
        }
        0
    }

    fn one() -> (r: isize) {
        proof {
            assert forall|i: nat| i < Self::width() implies #[trigger] (1isize).bit(i) == (i
                == 0) by {
                lemma_isize_ops(0, 0, 0, i as usize);
            }
        }
        1
    }

    fn from_index(index: usize) -> (r: Option<isize>) {
        if index as u128 <= isize::MAX as u128 {
            Some(index as isize)
        } else {
            None
        }
    }

    fn shl(self, rhs: isize) -> (r: isize) {
        let r = self << (rhs as usize);
        proof {
            assert forall|i: nat| i < Self::width() implies #[trigger] r.bit(i) == (i
                >= rhs.amount() && self.bit((i - rhs.amount()) as nat)) by {
                lemma_isize_ops(self, 0, rhs as usize, i as usize);
            }
        }
        r
    }

    fn bitor(self, rhs: isize) -> (r: isize) {
        let r = self | rhs;
        proof {
            assert forall|i: nat| i < Self::width() implies #[trigger] r.bit(i) == (self.bit(i)
                || rhs.bit(i)) by {
                lemma_isize_ops(self, rhs, 0, i as usize);
            }
        }
        r
    }

    fn bitand(self, rhs: isize) -> (r: isize) {
        let r = self & rhs;
        proof {
            assert forall|i: nat| i < Self::width() implies #[trigger] r.bit(i) == (self.bit(i)
                && rhs.bit(i)) by {
                lemma_isize_ops(self, rhs, 0, i as usize);
            }
        }
        r
    }

    fn not(self) -> (r: isize) {
        let r = !self;
        proof {
            assert forall|i: nat| i < Self::width() implies #[trigger] r.bit(i) == !self.bit(
                i,
            ) by {
                lemma_isize_ops(self, 0, 0, i as usize);
            }
        }
        r
    }

    fn same(self, rhs: isize) -> (b: bool) {
        self == rhs
    }

    fn wrap(self) -> (v: BitValue) {
        BitValue::Isize(self)
    }

    fn unwrap(v: BitValue) -> (r: Option<isize>) {
        match v {
            BitValue::Isize(a) => Some(a),
            _ => None,
        }
    }
}

} // verus!
