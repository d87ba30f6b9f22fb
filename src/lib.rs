//! Numeric probing: the decisions behind editable numeric fields, each held to an
//! optional range, with the text shown beside them.

pub mod num;
pub mod scalar;
pub mod shape;
pub mod text;

pub use num::{probe_scalar, EguiProbeRange, OptionEdit};
pub use scalar::ProbeNum;
pub use shape::ProbeRange;
