use vstd::prelude::*;

use iced_native::input::mouse::click::Kind;
use iced_native::input::mouse::Click;

verus! {

#[verifier::external_type_specification]
#[verifier::external_body]
pub struct ExClick(Click);

/// The keyboard modifiers that are held down.
#[derive(Debug, Clone, Copy, PartialEq, Eq, Structural)]
pub struct Modifiers {
    /// A shift key.
    pub shift: bool,
    /// A control key.
    pub control: bool,
    /// An alt key.
    pub alt: bool,
    /// A logo key (Windows key, command key).
    pub logo: bool,
}

impl Modifiers {
    /// No modifier held.
    pub fn none() -> (r: Modifiers)
        ensures
            !r.shift && !r.control && !r.alt && !r.logo,
    {
        Modifiers { shift: false, control: false, alt: false, logo: false }
    }

    /// Control alone.
    pub fn control() -> (r: Modifiers)
        ensures
            !r.shift && r.control && !r.alt && !r.logo,
    {
        Modifiers { shift: false, control: true, alt: false, logo: false }
    }

    /// Every modifier of `keys` is held in `self` (others may be held too).
    pub open spec fn covers(self, keys: Modifiers) -> bool {
        &&& (keys.shift ==> self.shift)
        &&& (keys.control ==> self.control)
        &&& (keys.alt ==> self.alt)
        &&& (keys.logo ==> self.logo)
    }

    /// Whether every modifier of `keys` is held in `self`.
    pub fn matches(&self, keys: Modifiers) -> (r: bool)
        ensures
            r == self.covers(keys),
    {
        (!keys.shift || self.shift) && (!keys.control || self.control) && (!keys.alt || self.alt)
            && (!keys.logo || self.logo)
    }
}

/// How the toolkit classified a button press.
#[derive(Debug, Clone, Copy, PartialEq, Eq, Structural)]
pub enum ClickKind {
    /// A lone click.
    Single,
    /// The second of two quick clicks at one place.
    Double,
    /// The third of three quick clicks at one place.
    Triple,
}

/// Relies on iced_native's `mouse::Click::kind`: the kind that the toolkit
/// gave the click when it was made (from the previous click, the position and
/// the time between them).
#[verifier::external_body]
pub(crate) fn click_kind(click: &Click) -> (r: ClickKind) {
    match click.kind() {
        Kind::Single => ClickKind::Single,
        Kind::Double => ClickKind::Double,
        Kind::Triple => ClickKind::Triple,
    }
}

} // verus!
