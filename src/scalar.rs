use vstd::prelude::*;

verus! {

/// An integer type that can be probed: its values, bounds and zero, seen as mathematical integers.
pub trait ProbeNum: Copy + Sized {
    /// The value as a mathematical integer.
    spec fn to_int(self) -> int;

    /// The smallest value of the type.
    spec fn min_int() -> int;

    /// The largest value of the type.
    spec fn max_int() -> int;

    /// Every value lies within the type's domain, zero among them, and values are their integers.
    proof fn lemma_domain(self, other: Self)
        ensures
            Self::min_int() <= self.to_int() <= Self::max_int(),
            Self::min_int() <= 0 <= Self::max_int(),
            self.to_int() == other.to_int() ==> self == other,
    ;

    fn min_value() -> (r: Self)
        ensures
            r.to_int() == Self::min_int(),
    ;

    fn max_value() -> (r: Self)
        ensures
            r.to_int() == Self::max_int(),
    ;

    /// The type's zero, which is also its default value.
    fn zero() -> (r: Self)
        ensures
            r.to_int() == 0,
    ;

    fn is_le(self, other: Self) -> (r: bool)
        ensures
            r == (self.to_int() <= other.to_int()),
    ;

    fn is_same(self, other: Self) -> (r: bool)
        ensures
            r == (self.to_int() == other.to_int()),
    ;

    fn to_i128(self) -> (r: i128)
        ensures
            r as int == self.to_int(),
    ;
}

impl ProbeNum for i8 {
    open spec fn to_int(self) -> int {
        self as int
    }

    open spec fn min_int() -> int {
        i8::MIN as int
    }

    open spec fn max_int() -> int {
        i8::MAX as int
    }

    proof fn lemma_domain(self, other: Self) {
    }

    fn min_value() -> (r: Self) {
        i8::MIN
    }

    fn max_value() -> (r: Self) {
        i8::MAX
    }

    fn zero() -> (r: Self) {
        0
    }

    fn is_le(self, other: Self) -> (r: bool) {
        self <= other
    }

    fn is_same(self, other: Self) -> (r: bool) {
        self == other
    }

    fn to_i128(self) -> (r: i128) {
        self as i128
    }
}

impl ProbeNum for i16 {
    open spec fn to_int(self) -> int {
        self as int
    }

    open spec fn min_int() -> int {
        i16::MIN as int
    }

    open spec fn max_int() -> int {
        i16::MAX as int
    }

    proof fn lemma_domain(self, other: Self) {
    }

    fn min_value() -> (r: Self) {
        i16::MIN
    }

    fn max_value() -> (r: Self) {
        i16::MAX
    }

    fn zero() -> (r: Self) {
        0
    }

    fn is_le(self, other: Self) -> (r: bool) {
        self <= other
    }

    fn is_same(self, other: Self) -> (r: bool) {
        self == other
    }

    fn to_i128(self) -> (r: i128) {
        self as i128
    }
}

impl ProbeNum for i32 {
    open spec fn to_int(self) -> int {
        self as int
    }

    open spec fn min_int() -> int {
        i32::MIN as int
    }

    open spec fn max_int() -> int {
        i32::MAX as int
    }

    proof fn lemma_domain(self, other: Self) {
    }

    fn min_value() -> (r: Self) {
        i32::MIN
    }

    fn max_value() -> (r: Self) {
        i32::MAX
    }

    fn zero() -> (r: Self) {
        0
    }

    fn is_le(self, other: Self) -> (r: bool) {
        self <= other
    }

    fn is_same(self, other: Self) -> (r: bool) {
        self == other
    }

    fn to_i128(self) -> (r: i128) {
        self as i128
    }
}

impl ProbeNum for i64 {
    open spec fn to_int(self) -> int {
        self as int
    }

    open spec fn min_int() -> int {
        i64::MIN as int
    }

    open spec fn max_int() -> int {
        i64::MAX as int
    }

    proof fn lemma_domain(self, other: Self) {
    }

    fn min_value() -> (r: Self) {
        i64::MIN
    }

    fn max_value() -> (r: Self) {
        i64::MAX
    }

    fn zero() -> (r: Self) {
        0
    }

    fn is_le(self, other: Self) -> (r: bool) {
        self <= other
    }

    fn is_same(self, other: Self) -> (r: bool) {
        self == other
    }

    fn to_i128(self) -> (r: i128) {
        self as i128
    }
}

impl ProbeNum for isize {
    open spec fn to_int(self) -> int {
        self as int
    }

    open spec fn min_int() -> int {
        isize::MIN as int
    }

    open spec fn max_int() -> int {
        isize::MAX as int
    }

    proof fn lemma_domain(self, other: Self) {
    }

    fn min_value() -> (r: Self) {
        isize::MIN
    }

    fn max_value() -> (r: Self) {
        isize::MAX
    }

    fn zero() -> (r: Self) {
        0
    }

    fn is_le(self, other: Self) -> (r: bool) {
        self <= other
    }

    fn is_same(self, other: Self) -> (r: bool) {
        self == other
    }

    fn to_i128(self) -> (r: i128) {
        self as i128
    }
}

impl ProbeNum for u8 {
    open spec fn to_int(self) -> int {
        self as int
    }

    open spec fn min_int() -> int {
        u8::MIN as int
    }

    open spec fn max_int() -> int {
        u8::MAX as int
    }

    proof fn lemma_domain(self, other: Self) {
    }

    fn min_value() -> (r: Self) {
        u8::MIN
    }

    fn max_value() -> (r: Self) {
        u8::MAX
    }

    fn zero() -> (r: Self) {
        0
    }

    fn is_le(self, other: Self) -> (r: bool) {
        self <= other
    }

    fn is_same(self, other: Self) -> (r: bool) {
        self == other
    }

    fn to_i128(self) -> (r: i128) {
        self as i128
    }
}

impl ProbeNum for u16 {
    open spec fn to_int(self) -> int {
        self as int
    }

    open spec fn min_int() -> int {
        u16::MIN as int
    }

    open spec fn max_int() -> int {
        u16::MAX as int
    }

    proof fn lemma_domain(self, other: Self) {
    }

    fn min_value() -> (r: Self) {
        u16::MIN
    }

    fn max_value() -> (r: Self) {
        u16::MAX
    }

    fn zero() -> (r: Self) {
        0
    }

    fn is_le(self, other: Self) -> (r: bool) {
        self <= other
    }

    fn is_same(self, other: Self) -> (r: bool) {
        self == other
    }

    fn to_i128(self) -> (r: i128) {
        self as i128
    }
}

impl ProbeNum for u32 {
    open spec fn to_int(self) -> int {
        self as int
    }

    open spec fn min_int() -> int {
        u32::MIN as int
    }

    open spec fn max_int() -> int {
        u32::MAX as int
    }

    proof fn lemma_domain(self, other: Self) {
    }

    fn min_value() -> (r: Self) {
        u32::MIN
    }

    fn max_value() -> (r: Self) {
        u32::MAX
    }

    fn zero() -> (r: Self) {
        0
    }

    fn is_le(self, other: Self) -> (r: bool) {
        self <= other
    }

    fn is_same(self, other: Self) -> (r: bool) {
        self == other
    }

    fn to_i128(self) -> (r: i128) {
        self as i128
    }
}

impl ProbeNum for u64 {
    open spec fn to_int(self) -> int {
        self as int
    }

    open spec fn min_int() -> int {
        u64::MIN as int
    }

    open spec fn max_int() -> int {
        u64::MAX as int
    }

    proof fn lemma_domain(self, other: Self) {
    }

    fn min_value() -> (r: Self) {
        u64::MIN
    }

    fn max_value() -> (r: Self) {
        u64::MAX
    }

    fn zero() -> (r: Self) {
        0
    }

    fn is_le(self, other: Self) -> (r: bool) {
        self <= other
    }

    fn is_same(self, other: Self) -> (r: bool) {
        self == other
    }

    fn to_i128(self) -> (r: i128) {
        self as i128
    }
}

impl ProbeNum for usize {
    open spec fn to_int(self) -> int {
        self as int
    }

    open spec fn min_int() -> int {
        usize::MIN as int
    }

    open spec fn max_int() -> int {
        usize::MAX as int
    }

    proof fn lemma_domain(self, other: Self) {
    }

    fn min_value() -> (r: Self) {
        usize::MIN
    }

    fn max_value() -> (r: Self) {
        usize::MAX
    }

    fn zero() -> (r: Self) {
        0
    }

    fn is_le(self, other: Self) -> (r: bool) {
        self <= other
    }

    fn is_same(self, other: Self) -> (r: bool) {
        self == other
    }

    fn to_i128(self) -> (r: i128) {
        self as i128
    }
}

} // verus!
