use vstd::prelude::*;

use crate::scalar::ProbeNum;
use crate::shape::ProbeRange;

verus! {

/// Bundles a value and a range, to probe the value within that range.
pub struct EguiProbeRange<'a, T, R> {
    pub value: &'a mut T,
    pub range: R,
}

/// What the user did to an optional value's field during one frame.
pub enum OptionEdit<T> {
    /// No interaction.
    Keep,
    /// Asked for the value to be present.
    Insert,
    /// Asked for the value to be absent.
    Remove,
    /// Entered a new inner value, by dragging or typing.
    Enter(T),
}

/// `x` brought into the range between `a` and `b`, taken in either order.
pub open spec fn clamp_int(x: int, a: int, b: int) -> int {
    let lo = if a <= b { a } else { b };
    let hi = if a <= b { b } else { a };
    if x <= lo {
        lo
    } else if x >= hi {
        hi
    } else {
        x
    }
}

/// The value a clamped field holds after a frame: what was entered, else the old
/// value, brought into the range between `a` and `b`.
pub open spec fn settled<T: ProbeNum>(prior: T, entered: Option<T>, a: int, b: int) -> int {
    match entered {
        Some(e) => clamp_int(e.to_int(), a, b),
        None => clamp_int(prior.to_int(), a, b),
    }
}

/// An optional value as an optional integer.
pub open spec fn option_int<T: ProbeNum>(v: Option<T>) -> Option<int> {
    match v {
        Some(x) => Some(x.to_int()),
        None => None,
    }
}

/// The optional value after a frame: an absent value becomes zero on `Insert` and
/// stays absent otherwise; a present one is removed on `Remove` and otherwise
/// settles as a clamped field does, `Insert` counting as no interaction.
pub open spec fn option_settled<T: ProbeNum>(
    prior: Option<T>,
    edit: OptionEdit<T>,
    a: int,
    b: int,
) -> Option<int> {
    match prior {
        None => match edit {
            OptionEdit::Insert => Some(0),
            _ => None,
        },
        Some(v) => match edit {
            OptionEdit::Remove => None,
            OptionEdit::Enter(e) => Some(settled(v, Some(e), a, b)),
            _ => Some(settled(v, None, a, b)),
        },
    }
}

/// The edit that a plain field's input amounts to on a present optional value.
pub open spec fn edit_of<T>(entered: Option<T>) -> OptionEdit<T> {
    match entered {
        Some(e) => OptionEdit::Enter(e),
        None => OptionEdit::Keep,
    }
}

/// Brings `x` into the range between `a` and `b`, taken in either order.
pub fn clamp_to<T: ProbeNum>(x: T, a: T, b: T) -> (r: T)
    ensures
        r.to_int() == clamp_int(x.to_int(), a.to_int(), b.to_int()),
{
    let (lo, hi) = if a.is_le(b) {
        (a, b)
    } else {
        (b, a)
    };
    if x.is_le(lo) {
        lo
    } else if hi.is_le(x) {
        hi
    } else {
        x
    }
}

/// One frame of an unconstrained field: the value becomes what was entered, if
/// anything was; `changed` says whether it differs from before.
pub fn probe_scalar<T: ProbeNum>(value: &mut T, entered: Option<T>) -> (changed: bool)
    ensures
        match entered {
            Some(e) => *final(value) == e,
            None => *final(value) == *old(value),
        },
        changed == (*final(value) != *old(value)),
{
    match entered {
        Some(e) => {
            let changed = !e.is_same(*value);
            proof {
                e.lemma_domain(*value);
            }
            *value = e;
            changed
        },
        None => false,
    }
}

impl<'a, T: ProbeNum, R: ProbeRange<T>> EguiProbeRange<'a, T, R> {
    /// One frame of a field held to the range: what was entered, else the old
    /// value, is clamped to the range's bounds; `changed` says whether the value
    /// differs from before, and nothing else.
    pub fn probe(self, entered: Option<T>) -> (changed: bool)
        ensures
            (*final(self.value)).to_int() == settled(
                *old(self.value),
                entered,
                self.range.lower(),
                self.range.upper(),
            ),
            self.range.lower() <= self.range.upper() ==> self.range.lower() <= (*final(self.value)).to_int()
                <= self.range.upper(),
            changed == (*final(self.value) != *old(self.value)),
    {
        let (lo, hi) = self.range.bounds();
        let start = match entered {
            Some(e) => e,
            None => *self.value,
        };
        let next = clamp_to(start, lo, hi);
        let changed = !next.is_same(*self.value);
        proof {
            next.lemma_domain(*self.value);
        }
        *self.value = next;
        changed
    }
}

impl<'a, T: ProbeNum, R: ProbeRange<T>> EguiProbeRange<'a, Option<T>, R> {
    /// One frame of an optional field held to the range: see `option_settled`.
    /// `changed` says whether the optional value differs from before.
    pub fn probe_option(self, edit: OptionEdit<T>) -> (changed: bool)
        ensures
            option_int(*final(self.value)) == option_settled(
                *old(self.value),
                edit,
                self.range.lower(),
                self.range.upper(),
            ),
            changed == (*final(self.value) != *old(self.value)),
    {
        let prior = *self.value;
        match prior {
            None => match edit {
                OptionEdit::Insert => {
                    *self.value = Some(T::zero());
                    true
                },
                _ => false,
            },
            Some(v) => match edit {
                OptionEdit::Remove => {
                    *self.value = None;
                    true
                },
                _ => {
                    let (lo, hi) = self.range.bounds();
                    let start = match edit {
                        OptionEdit::Enter(e) => e,
                        _ => v,
                    };
                    let next = clamp_to(start, lo, hi);
                    let changed = !next.is_same(v);
                    proof {
                        next.lemma_domain(v);
                    }
                    *self.value = Some(next);
                    changed
                },
            },
        }
    }
}

/// With no range and no input, a field keeps its value, whatever the value.
pub proof fn lemma_unbounded_idle<T: ProbeNum>(v: T)
    ensures
        settled(v, None, T::min_int(), T::max_int()) == v.to_int(),
{
    v.lemma_domain(v);
}

/// Whatever is entered, a clamped field ends within the bounds when they are in order.
pub proof fn lemma_settled_in_range<T: ProbeNum>(prior: T, entered: Option<T>, a: int, b: int)
    requires
        a <= b,
    ensures
        a <= settled(prior, entered, a, b) <= b,
{
}

/// An absent value becomes zero when inserted, and a present one is not reset by
/// a second insert.
pub proof fn lemma_insert_once<T: ProbeNum>(v: T, a: int, b: int)
    ensures
        option_settled(None, OptionEdit::<T>::Insert, a, b) == Some(0int),
        option_settled(Some(v), OptionEdit::Insert, a, b) == option_settled(
            Some(v),
            OptionEdit::Keep,
            a,
            b,
        ),
{
}

/// On a present value, the optional field settles as the plain field does.
pub proof fn lemma_present_as_plain<T: ProbeNum>(v: T, entered: Option<T>, a: int, b: int)
    ensures
        option_settled(Some(v), edit_of(entered), a, b) == Some(settled(v, entered, a, b)),
{
}

} // verus!
