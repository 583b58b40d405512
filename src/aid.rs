use vstd::prelude::*;

verus! {

/// Picks one of two values according to a boolean-like receiver.
pub trait Ternary {
    /// Whether the receiver selects the first option.
    spec fn selects_first(&self) -> bool;

    fn ternary<T>(&self, opt_1: T, opt_2: T) -> (r: T)
        ensures
            r == (if self.selects_first() { opt_1 } else { opt_2 }),
    ;
}

impl Ternary for bool {
    open spec fn selects_first(&self) -> bool {
        *self
    }

    fn ternary<T>(&self, opt_1: T, opt_2: T) -> (r: T) {
        if *self {
            opt_1
        } else {
            opt_2
        }
    }
}

/// Returns `opt_1` when `condition` holds and `opt_2` otherwise.
pub fn ternary<T>(condition: bool, opt_1: T, opt_2: T) -> (r: T)
    ensures
        r == (if condition { opt_1 } else { opt_2 }),
{
    if condition {
        opt_1
    } else {
        opt_2
    }
}

/// Converts a boolean-like value into an integer of each width.
pub trait BoolTo: Sized {
    /// The truth value that the conversions encode.
    spec fn is_true(self) -> bool;

    /// `1` for `true`, `0` for `false`.
    fn i8(self) -> (r: i8)
        ensures
            r as int == (if self.is_true() { 1int } else { 0int }),
    ;

    /// `1` for `true`, `0` for `false`.
    fn i16(self) -> (r: i16)
        ensures
            r as int == (if self.is_true() { 1int } else { 0int }),
    ;

    /// `1` for `true`, `0` for `false`.
    fn i32(self) -> (r: i32)
        ensures
            r as int == (if self.is_true() { 1int } else { 0int }),
    ;

    /// `1` for `true`, `0` for `false`.
    fn i64(self) -> (r: i64)
        ensures
            r as int == (if self.is_true() { 1int } else { 0int }),
    ;

    /// `1` for `true`, `0` for `false`.
    fn i128(self) -> (r: i128)
        ensures
            r as int == (if self.is_true() { 1int } else { 0int }),
    ;

    /// `1` for `true`, `0` for `false`.
    fn isize(self) -> (r: isize)
        ensures
            r as int == (if self.is_true() { 1int } else { 0int }),
    ;

    /// `1` for `true`, `0` for `false`.
    fn u8(self) -> (r: u8)
        ensures
            r as int == (if self.is_true() { 1int } else { 0int }),
    ;

    /// `1` for `true`, `0` for `false`.
    fn u16(self) -> (r: u16)
        ensures
            r as int == (if self.is_true() { 1int } else { 0int }),
    ;

    /// `1` for `true`, `0` for `false`.
    fn u32(self) -> (r: u32)
        ensures
            r as int == (if self.is_true() { 1int } else { 0int }),
    ;

    /// `1` for `true`, `0` for `false`.
    fn u64(self) -> (r: u64)
        ensures
            r as int == (if self.is_true() { 1int } else { 0int }),
    ;

    /// `1` for `true`, `0` for `false`.
    fn u128(self) -> (r: u128)
        ensures
            r as int == (if self.is_true() { 1int } else { 0int }),
    ;

    /// `1` for `true`, `0` for `false`.
    fn usize(self) -> (r: usize)
        ensures
            r as int == (if self.is_true() { 1int } else { 0int }),
    ;
}

impl BoolTo for bool {
    open spec fn is_true(self) -> bool {
        self
    }

    fn i8(self) -> (r: i8) {
        self.ternary(1, 0)
    }

    fn i16(self) -> (r: i16) {
        self.ternary(1, 0)
    }

    fn i32(self) -> (r: i32) {
        self.ternary(1, 0)
    }

    fn i64(self) -> (r: i64) {
        self.ternary(1, 0)
    }

    fn i128(self) -> (r: i128) {
        self.ternary(1, 0)
    }

    fn isize(self) -> (r: isize) {
        self.ternary(1, 0)
    }

    fn u8(self) -> (r: u8) {
        self.ternary(1, 0)
    }

    fn u16(self) -> (r: u16) {
        self.ternary(1, 0)
    }

    fn u32(self) -> (r: u32) {
        self.ternary(1, 0)
    }

    fn u64(self) -> (r: u64) {
        self.ternary(1, 0)
    }

    fn u128(self) -> (r: u128) {
        self.ternary(1, 0)
    }

    fn usize(self) -> (r: usize) {
        self.ternary(1, 0)
    }
}

} // verus!
