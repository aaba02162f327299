//! Parameter-control core for audio widgets: normalized positions, the
//! scaling laws between a position and a real parameter value, and the
//! pointer-drag state machines of sliders and XY pads.
//!
//! All quantities are fixed-point integers. A [`Normal`] counts millionths of
//! the unit interval, so `Normal::from_units(500_000)` is the midpoint.
//! Pointer coordinates and widget extents are integers in one unit of the
//! host's choosing.

pub mod drag;
pub mod h_slider;
pub mod input;
pub mod normal;
pub mod param;
pub mod range;
pub mod xy_pad;

pub use crate::drag::{DragSettings, DEFAULT_MODIFIER_SCALAR, DEFAULT_SCALAR};
pub use crate::input::{ClickKind, Modifiers};
pub use crate::normal::{Normal, NORMAL_ONE};
pub use crate::param::{ModulationRange, Param};
pub use crate::range::{FloatRange, IntRange, LogDBRange, Range, VALUE_ONE};
