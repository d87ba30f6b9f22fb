use core::ops::{RangeFrom, RangeFull, RangeInclusive, RangeToInclusive};

use egui_probe::num::clamp_to;
use egui_probe::text::decimal_text;
use egui_probe::{probe_scalar, EguiProbeRange, OptionEdit, ProbeNum, ProbeRange};

#[test]
fn scalar_without_input_keeps_value() {
    let mut a: i8 = i8::MIN;
    assert!(!probe_scalar(&mut a, None));
    assert_eq!(a, i8::MIN);
    let mut b: u64 = u64::MAX;
    assert!(!probe_scalar(&mut b, None));
    assert_eq!(b, u64::MAX);
    let mut c: isize = -42;
    assert!(!probe_scalar(&mut c, None));
    assert_eq!(c, -42);
}

#[test]
fn scalar_takes_entered_value() {
    let mut a: u16 = 3;
    assert!(probe_scalar(&mut a, Some(900)));
    assert_eq!(a, 900);
    assert!(!probe_scalar(&mut a, Some(900)));
    assert_eq!(a, 900);
}

#[test]
fn unbounded_range_without_input_keeps_value() {
    let mut v: i64 = i64::MAX;
    let changed = EguiProbeRange { value: &mut v, range: RangeFull }.probe(None);
    assert!(!changed);
    assert_eq!(v, i64::MAX);
    let mut w: usize = 0;
    let changed = EguiProbeRange { value: &mut w, range: .. }.probe(None);
    assert!(!changed);
    assert_eq!(w, 0);
}

#[test]
fn drag_past_inclusive_end_is_clamped() {
    let mut v: i32 = 7;
    let changed = EguiProbeRange { value: &mut v, range: 0..=100 }.probe(Some(150));
    assert_eq!(v, 100);
    assert!(changed);
}

#[test]
fn upper_bound_is_never_exceeded() {
    for entered in [-5i32, 10, 11, 1000, i32::MAX] {
        let mut v: i32 = 0;
        EguiProbeRange { value: &mut v, range: ..=10 }.probe(Some(entered));
        assert!(v <= 10);
    }
    let mut v: i32 = 0;
    EguiProbeRange { value: &mut v, range: ..=10 }.probe(Some(-5));
    assert_eq!(v, -5);
}

#[test]
fn lower_bound_is_never_undercut() {
    let mut v: u8 = 9;
    let changed = EguiProbeRange { value: &mut v, range: 5.. }.probe(Some(0));
    assert_eq!(v, 5);
    assert!(changed);
    let mut w: u8 = 9;
    EguiProbeRange { value: &mut w, range: 5.. }.probe(Some(255));
    assert_eq!(w, 255);
}

#[test]
fn out_of_range_value_is_clamped_without_input() {
    let mut v: i16 = -300;
    let changed = EguiProbeRange { value: &mut v, range: -10..=10 }.probe(None);
    assert_eq!(v, -10);
    assert!(changed);
}

#[test]
fn reversed_inclusive_range_clamps_between_its_ends() {
    let mut v: u32 = 0;
    EguiProbeRange { value: &mut v, range: 10..=5 }.probe(Some(0));
    assert_eq!(v, 5);
    let mut w: u32 = 0;
    EguiProbeRange { value: &mut w, range: 10..=5 }.probe(Some(20));
    assert_eq!(w, 10);
}

#[test]
fn entering_the_same_value_is_no_change() {
    let mut v: i32 = 42;
    let changed = EguiProbeRange { value: &mut v, range: 0..=100 }.probe(Some(42));
    assert!(!changed);
    assert_eq!(v, 42);
    let mut w: i32 = 100;
    let changed = EguiProbeRange { value: &mut w, range: 0..=100 }.probe(Some(500));
    assert!(!changed);
    assert_eq!(w, 100);
}

#[test]
fn annotation_texts() {
    assert_eq!((5i32..).annotation(), Some("5..".to_string()));
    assert_eq!((..=10i32).annotation(), Some("..=10".to_string()));
    assert_eq!((-3i64..=7).annotation(), Some("-3..=7".to_string()));
    assert_eq!(ProbeRange::<u8>::annotation(&RangeFull), None);
    assert_eq!((0u8..).annotation(), Some("0..".to_string()));
}

#[test]
fn annotation_at_type_extremes() {
    assert_eq!((i64::MIN..).annotation(), Some(format!("{}..", i64::MIN)));
    assert_eq!((..=u64::MAX).annotation(), Some(format!("..={}", u64::MAX)));
    assert_eq!(
        (i8::MIN..=i8::MAX).annotation(),
        Some("-128..=127".to_string())
    );
    let r: RangeToInclusive<usize> = ..=usize::MAX;
    assert_eq!(r.annotation(), Some(format!("..={}", usize::MAX)));
}

#[test]
fn bounds_of_each_shape() {
    assert_eq!(ProbeRange::<i16>::bounds(&RangeFull), (i16::MIN, i16::MAX));
    let from: RangeFrom<u32> = 7..;
    assert_eq!(from.bounds(), (7, u32::MAX));
    let to: RangeToInclusive<i8> = ..=-1;
    assert_eq!(to.bounds(), (i8::MIN, -1));
    let both: RangeInclusive<u64> = 3..=9;
    assert_eq!(both.bounds(), (3, 9));
}

#[test]
fn decimal_text_values() {
    assert_eq!(decimal_text(0), "0");
    assert_eq!(decimal_text(7), "7");
    assert_eq!(decimal_text(-1), "-1");
    assert_eq!(decimal_text(1234567890), "1234567890");
    assert_eq!(decimal_text(i128::MIN), i128::MIN.to_string());
    assert_eq!(decimal_text(i128::MAX), i128::MAX.to_string());
}

#[test]
fn clamp_to_values() {
    assert_eq!(clamp_to(5i32, 0, 10), 5);
    assert_eq!(clamp_to(-5i32, 0, 10), 0);
    assert_eq!(clamp_to(15i32, 0, 10), 10);
    assert_eq!(clamp_to(15i32, 10, 0), 10);
    assert_eq!(clamp_to(3u8, 7, 7), 7);
}

#[test]
fn numeric_bounds_and_zero() {
    assert_eq!(<i8 as ProbeNum>::min_value(), i8::MIN);
    assert_eq!(<u32 as ProbeNum>::max_value(), u32::MAX);
    assert_eq!(<isize as ProbeNum>::zero(), 0);
    assert_eq!(u64::MAX.to_i128(), u64::MAX as i128);
    assert!(3i16.is_le(4));
    assert!(!5u8.is_same(6));
}

#[test]
fn absent_value_is_inserted_as_zero() {
    let mut v: Option<i32> = None;
    let changed = EguiProbeRange { value: &mut v, range: RangeFull }.probe_option(OptionEdit::Insert);
    assert!(changed);
    assert_eq!(v, Some(0));
}

#[test]
fn insert_does_not_reset_present_value() {
    let mut v: Option<u8> = Some(9);
    let changed = EguiProbeRange { value: &mut v, range: .. }.probe_option(OptionEdit::Insert);
    assert!(!changed);
    assert_eq!(v, Some(9));
}

#[test]
fn inserted_value_then_edits_like_plain_field() {
    let mut v: Option<i32> = None;
    EguiProbeRange { value: &mut v, range: 0..=100 }.probe_option(OptionEdit::Insert);
    assert_eq!(v, Some(0));
    let changed = EguiProbeRange { value: &mut v, range: 0..=100 }.probe_option(OptionEdit::Enter(150));
    assert!(changed);
    assert_eq!(v, Some(100));
    let mut plain: i32 = 0;
    EguiProbeRange { value: &mut plain, range: 0..=100 }.probe(Some(150));
    assert_eq!(v, Some(plain));
}

#[test]
fn absent_value_ignores_other_edits() {
    let mut v: Option<i64> = None;
    assert!(!EguiProbeRange { value: &mut v, range: 1.. }.probe_option(OptionEdit::Enter(5)));
    assert_eq!(v, None);
    assert!(!EguiProbeRange { value: &mut v, range: 1.. }.probe_option(OptionEdit::Keep));
    assert!(!EguiProbeRange { value: &mut v, range: 1.. }.probe_option(OptionEdit::Remove));
    assert_eq!(v, None);
}

#[test]
fn present_value_can_be_removed() {
    let mut v: Option<u16> = Some(4);
    let changed = EguiProbeRange { value: &mut v, range: ..=8 }.probe_option(OptionEdit::Remove);
    assert!(changed);
    assert_eq!(v, None);
}

#[test]
fn present_value_is_clamped_without_input() {
    let mut v: Option<i32> = Some(-4);
    let changed = EguiProbeRange { value: &mut v, range: 1.. }.probe_option(OptionEdit::Keep);
    assert!(changed);
    assert_eq!(v, Some(1));
}
