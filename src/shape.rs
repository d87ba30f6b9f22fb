use core::ops::{RangeFrom, RangeFull, RangeInclusive, RangeToInclusive};
use vstd::prelude::*;
use vstd::string::StringExecFns;

use crate::scalar::ProbeNum;
use crate::text::{decimal, push_decimal};

verus! {

#[verifier::external_type_specification]
pub struct ExRangeFull(RangeFull);

#[verifier::external_type_specification]
#[verifier::reject_recursive_types(Idx)]
pub struct ExRangeFrom<Idx>(RangeFrom<Idx>);

#[verifier::external_type_specification]
#[verifier::reject_recursive_types(Idx)]
pub struct ExRangeToInclusive<Idx>(RangeToInclusive<Idx>);

/// Relies on `RangeInclusive::start`: it returns the range's lower bound.
pub assume_specification<Idx>[ RangeInclusive::<Idx>::start ](r: &RangeInclusive<Idx>) -> (s: &Idx)
    ensures
        *s == r@.start,
;

/// Relies on `RangeInclusive::end`: it returns the range's upper bound.
pub assume_specification<Idx>[ RangeInclusive::<Idx>::end ](r: &RangeInclusive<Idx>) -> (e: &Idx)
    ensures
        *e == r@.end,
;

/// One of the four range shapes a probed value can be held to.
pub trait ProbeRange<T: ProbeNum> {
    /// The lower end of the clamp: the caller's lower bound, or the type's minimum.
    spec fn lower(&self) -> int;

    /// The upper end of the clamp: the caller's upper bound, or the type's maximum.
    spec fn upper(&self) -> int;

    /// The text shown beside the field, if the shape has one.
    spec fn note(&self) -> Option<Seq<char>>;

    /// Both ends of the clamp, as values of the type.
    fn bounds(&self) -> (r: (T, T))
        ensures
            r.0.to_int() == self.lower(),
            r.1.to_int() == self.upper(),
    ;

    /// The weak annotation drawn beside the field.
    fn annotation(&self) -> (r: Option<String>)
        ensures
            r is Some <==> self.note() is Some,
            r is Some ==> r->0@ == self.note()->0,
    ;
}

impl<T: ProbeNum> ProbeRange<T> for RangeFull {
    open spec fn lower(&self) -> int {
        T::min_int()
    }

    open spec fn upper(&self) -> int {
        T::max_int()
    }

    open spec fn note(&self) -> Option<Seq<char>> {
        None
    }

    fn bounds(&self) -> (r: (T, T)) {
        (T::min_value(), T::max_value())
    }

    fn annotation(&self) -> (r: Option<String>) {
        None
    }
}

impl<T: ProbeNum> ProbeRange<T> for RangeFrom<T> {
    open spec fn lower(&self) -> int {
        self.start.to_int()
    }

    open spec fn upper(&self) -> int {
        T::max_int()
    }

    open spec fn note(&self) -> Option<Seq<char>> {
        Some(decimal(self.start.to_int()) + seq!['.', '.'])
    }

    fn bounds(&self) -> (r: (T, T)) {
        (self.start, T::max_value())
    }

    fn annotation(&self) -> (r: Option<String>) {
        let mut s = String::new();
        push_decimal(&mut s, self.start.to_i128());
        s.append("..");
        proof {
            reveal_strlit("..");
        }
        assert(s@ =~= decimal(self.start.to_int()) + seq!['.', '.']);
        Some(s)
    }
}

impl<T: ProbeNum> ProbeRange<T> for RangeToInclusive<T> {
    open spec fn lower(&self) -> int {
        T::min_int()
    }

    open spec fn upper(&self) -> int {
        self.end.to_int()
    }

    open spec fn note(&self) -> Option<Seq<char>> {
        Some(seq!['.', '.', '='] + decimal(self.end.to_int()))
    }

    fn bounds(&self) -> (r: (T, T)) {
        (T::min_value(), self.end)
    }

    fn annotation(&self) -> (r: Option<String>) {
        let mut s = String::new();
        s.append("..=");
        push_decimal(&mut s, self.end.to_i128());
        proof {
            reveal_strlit("..=");
        }
        assert(s@ =~= seq!['.', '.', '='] + decimal(self.end.to_int()));
        Some(s)
    }
}

impl<T: ProbeNum> ProbeRange<T> for RangeInclusive<T> {
    open spec fn lower(&self) -> int {
        self@.start.to_int()
    }

    open spec fn upper(&self) -> int {
        self@.end.to_int()
    }

    open spec fn note(&self) -> Option<Seq<char>> {
        Some(decimal(self@.start.to_int()) + seq!['.', '.', '='] + decimal(self@.end.to_int()))
    }

    fn bounds(&self) -> (r: (T, T)) {
        (*self.start(), *self.end())
    }

    fn annotation(&self) -> (r: Option<String>) {
        let mut s = String::new();
        push_decimal(&mut s, self.start().to_i128());
        s.append("..=");
        push_decimal(&mut s, self.end().to_i128());
        proof {
            reveal_strlit("..=");
        }
        assert(s@ =~= decimal(self@.start.to_int()) + seq!['.', '.', '='] + decimal(
            self@.end.to_int(),
        ));
        Some(s)
    }
}

} // verus!
