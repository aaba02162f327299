use vstd::prelude::*;

use crate::normal::Normal;

verus! {

/// The state a widget owns for one parameter: an identifier chosen by the
/// user, the current position and the position a reset returns to.
#[derive(Debug, Clone, Copy)]
pub struct Param<ID> {
    /// Handed back unchanged with every change notification.
    pub id: ID,
    /// The current position.
    pub normal: Normal,
    /// The position that a double click restores.
    pub default_normal: Normal,
}

impl<ID: Copy> Param<ID> {
    /// A parameter at `normal`, which resets to `default_normal`.
    pub fn new(id: ID, normal: Normal, default_normal: Normal) -> (r: Param<ID>)
        ensures
            r.id == id,
            r.normal == normal,
            r.default_normal == default_normal,
    {
        Param { id, normal, default_normal }
    }
}

/// A modulation overlay shown on a widget; it has no effect on interaction.
#[derive(Debug, Clone, Copy)]
pub struct ModulationRange {
    /// Where the overlay starts.
    pub start: Normal,
    /// Where the overlay ends.
    pub end: Normal,
    /// Whether the overlay is drawn at all.
    pub visible: bool,
    /// Whether the span between `start` and `end` is drawn filled.
    pub filled_visible: bool,
}

impl ModulationRange {
    /// A visible, filled overlay from `start` to `end`.
    pub fn new(start: Normal, end: Normal) -> (r: ModulationRange)
        ensures
            r.start == start,
            r.end == end,
            r.visible,
            r.filled_visible,
    {
        ModulationRange { start, end, visible: true, filled_visible: true }
    }
}

} // verus!
