//! The drag state machine of a two-axis widget (an XY pad).

use vstd::prelude::*;

use iced_native::input::mouse::Click;

use crate::drag::{accumulate, saturate_i64, scaled_travel, DragSettings};
use crate::input::{click_kind, ClickKind, Modifiers};
use crate::normal::{clamp_unit, Normal};
use crate::param::{ModulationRange, Param};

verus! {

/// The local state of an XY pad: two parameters moved by one gesture.
///
/// Each axis has its own unclamped accumulator, as the slider has. The pad
/// is square: pointer travel on either axis is measured against the shorter
/// side of its bounds. Screen coordinates grow downward, so moving the
/// pointer up raises the y normal.
///
/// As with the slider, the drag never snaps: the consumer snaps stepped
/// parameters on each notification.
#[derive(Debug, Clone, Copy)]
pub struct State<ID> {
    /// The parameter of the horizontal axis.
    pub param_x: Param<ID>,
    /// The parameter of the vertical axis.
    pub param_y: Param<ID>,
    /// An optional modulation overlay for the horizontal axis.
    pub modulation_range_x: Option<ModulationRange>,
    /// An optional modulation overlay for the vertical axis.
    pub modulation_range_y: Option<ModulationRange>,
    /// Whether a drag is in progress.
    pub is_dragging: bool,
    /// The pointer's horizontal coordinate at the last drag step.
    pub prev_drag_x: i32,
    /// The pointer's vertical coordinate at the last drag step.
    pub prev_drag_y: i32,
    /// The unclamped accumulator of the horizontal axis, in millionths.
    pub continuous_normal_x: i64,
    /// The unclamped accumulator of the vertical axis, in millionths.
    pub continuous_normal_y: i64,
    /// The horizontal scaled travel not yet worth a whole millionth, in
    /// millionths times the pad's extent.
    pub drag_remainder_x: i32,
    /// The vertical scaled travel not yet worth a whole millionth, in
    /// millionths times the pad's extent.
    pub drag_remainder_y: i32,
    /// The modifier keys held at the last keyboard event.
    pub pressed_modifiers: Modifiers,
    /// The last press inside the pad, for double-click detection.
    pub last_click: Option<Click>,
}

/// The fields that no drag step touches are the same in `pre` and `post`.
pub open spec fn same_setup<ID>(pre: State<ID>, post: State<ID>) -> bool {
    &&& post.param_x.id == pre.param_x.id
    &&& post.param_y.id == pre.param_y.id
    &&& post.param_x.default_normal == pre.param_x.default_normal
    &&& post.param_y.default_normal == pre.param_y.default_normal
    &&& post.modulation_range_x == pre.modulation_range_x
    &&& post.modulation_range_y == pre.modulation_range_y
}

/// The side that pointer travel is measured against: the shorter one.
pub open spec fn pad_extent(width: int, height: int) -> int {
    if width <= height {
        width
    } else {
        height
    }
}

/// `post` is `pre` after the pointer moved to `(cursor_x, cursor_y)` over a
/// pad `width` by `height`, and `note` holds the change notifications sent:
/// one for each axis, the horizontal one first.
pub open spec fn move_step<ID>(
    pre: State<ID>,
    post: State<ID>,
    cursor_x: int,
    cursor_y: int,
    width: int,
    height: int,
    settings: DragSettings,
    note: Option<(ID, ID)>,
) -> bool {
    let extent = pad_extent(width, height);
    if pre.is_dragging && extent > 0 {
        let scalar = settings.scalar_for(pre.pressed_modifiers);
        let tx = scaled_travel(pre.drag_remainder_x as int, cursor_x - pre.prev_drag_x, scalar);
        let ty = scaled_travel(pre.drag_remainder_y as int, pre.prev_drag_y - cursor_y, scalar);
        let cx = saturate_i64(pre.continuous_normal_x + tx / extent);
        let cy = saturate_i64(pre.continuous_normal_y + ty / extent);
        &&& same_setup(pre, post)
        &&& post.continuous_normal_x == cx
        &&& post.continuous_normal_y == cy
        &&& post.drag_remainder_x == tx % extent
        &&& post.drag_remainder_y == ty % extent
        &&& post.param_x.normal@ == clamp_unit(cx)
        &&& post.param_y.normal@ == clamp_unit(cy)
        &&& post.prev_drag_x == cursor_x
        &&& post.prev_drag_y == cursor_y
        &&& post.is_dragging
        &&& post.pressed_modifiers == pre.pressed_modifiers
        &&& post.last_click == pre.last_click
        &&& note == Some((pre.param_x.id, pre.param_y.id))
    } else {
        post == pre && note.is_none()
    }
}

/// `post` is `pre` after a press of the kind `kind` at `(cursor_x,
/// cursor_y)` inside the pad (the last click not yet recorded).
pub open spec fn press_step<ID>(
    pre: State<ID>,
    post: State<ID>,
    cursor_x: int,
    cursor_y: int,
    kind: ClickKind,
    note: Option<(ID, ID)>,
) -> bool {
    &&& same_setup(pre, post)
    &&& post.continuous_normal_x == pre.continuous_normal_x
    &&& post.continuous_normal_y == pre.continuous_normal_y
    &&& post.pressed_modifiers == pre.pressed_modifiers
    &&& post.last_click == pre.last_click
    &&& if kind == ClickKind::Single {
        &&& post.is_dragging
        &&& post.prev_drag_x == cursor_x
        &&& post.prev_drag_y == cursor_y
        &&& post.drag_remainder_x == 0
        &&& post.drag_remainder_y == 0
        &&& post.param_x.normal == pre.param_x.normal
        &&& post.param_y.normal == pre.param_y.normal
        &&& note.is_none()
    } else {
        &&& !post.is_dragging
        &&& post.prev_drag_x == pre.prev_drag_x
        &&& post.prev_drag_y == pre.prev_drag_y
        &&& post.drag_remainder_x == pre.drag_remainder_x
        &&& post.drag_remainder_y == pre.drag_remainder_y
        &&& post.param_x.normal == pre.param_x.default_normal
        &&& post.param_y.normal == pre.param_y.default_normal
        &&& note == Some((pre.param_x.id, pre.param_y.id))
    }
}

/// `post` is `pre` after the button was released.
pub open spec fn release_step<ID>(pre: State<ID>, post: State<ID>) -> bool {
    &&& same_setup(pre, post)
    &&& !post.is_dragging
    &&& post.continuous_normal_x == pre.param_x.normal@
    &&& post.continuous_normal_y == pre.param_y.normal@
    &&& post.drag_remainder_x == 0
    &&& post.drag_remainder_y == 0
    &&& post.param_x.normal == pre.param_x.normal
    &&& post.param_y.normal == pre.param_y.normal
    &&& post.prev_drag_x == pre.prev_drag_x
    &&& post.prev_drag_y == pre.prev_drag_y
    &&& post.pressed_modifiers == pre.pressed_modifiers
    &&& post.last_click == pre.last_click
}

impl<ID: Copy> State<ID> {
    /// An idle state for `param_x` and `param_y`, each accumulator at its
    /// parameter's normal.
    pub fn new(param_x: Param<ID>, param_y: Param<ID>) -> (r: State<ID>)
        ensures
            r.param_x == param_x,
            r.param_y == param_y,
            r.modulation_range_x.is_none(),
            r.modulation_range_y.is_none(),
            !r.is_dragging,
            r.prev_drag_x == 0,
            r.prev_drag_y == 0,
            r.continuous_normal_x == param_x.normal@,
            r.continuous_normal_y == param_y.normal@,
            r.drag_remainder_x == 0,
            r.drag_remainder_y == 0,
            r.pressed_modifiers == (Modifiers { shift: false, control: false, alt: false, logo: false }),
            r.last_click.is_none(),
    {
        let x = param_x.normal.value();
        let y = param_y.normal.value();
        State {
            param_x,
            param_y,
            modulation_range_x: None,
            modulation_range_y: None,
            is_dragging: false,
            prev_drag_x: 0,
            prev_drag_y: 0,
            continuous_normal_x: x as i64,
            continuous_normal_y: y as i64,
            drag_remainder_x: 0,
            drag_remainder_y: 0,
            pressed_modifiers: Modifiers::none(),
            last_click: None,
        }
    }

    /// The normal of the horizontal parameter, to read or to change in place.
    pub fn x_normal(&mut self) -> (r: &mut Normal)
        ensures
            *r == old(self).param_x.normal,
            *final(self) == (State {
                param_x: Param { normal: *final(r), ..old(self).param_x },
                ..*old(self)
            }),
    {
        &mut self.param_x.normal
    }

    /// The normal of the vertical parameter, to read or to change in place.
    pub fn y_normal(&mut self) -> (r: &mut Normal)
        ensures
            *r == old(self).param_y.normal,
            *final(self) == (State {
                param_y: Param { normal: *final(r), ..old(self).param_y },
                ..*old(self)
            }),
    {
        &mut self.param_y.normal
    }

    /// The pointer moved to `(cursor_x, cursor_y)` over a pad `width` by
    /// `height`. While dragging (and for a positive extent) both axes take
    /// the scaled travel, and both identifiers are returned.
    pub fn on_cursor_moved(
        &mut self,
        cursor_x: i32,
        cursor_y: i32,
        width: i32,
        height: i32,
        settings: &DragSettings,
    ) -> (r: Option<(ID, ID)>)
        ensures
            move_step(
                *old(self),
                *final(self),
                cursor_x as int,
                cursor_y as int,
                width as int,
                height as int,
                *settings,
                r,
            ),
    {
        let extent = if width <= height {
            width
        } else {
            height
        };
        if self.is_dragging && extent > 0 {
            let scalar = settings.select_scalar(self.pressed_modifiers);
            let (cx, rx) = accumulate(
                self.continuous_normal_x,
                self.drag_remainder_x,
                self.prev_drag_x,
                cursor_x,
                extent,
                scalar,
            );
            let (cy, ry) = accumulate(
                self.continuous_normal_y,
                self.drag_remainder_y,
                cursor_y,
                self.prev_drag_y,
                extent,
                scalar,
            );
            self.continuous_normal_x = cx;
            self.continuous_normal_y = cy;
            self.drag_remainder_x = rx;
            self.drag_remainder_y = ry;
            self.prev_drag_x = cursor_x;
            self.prev_drag_y = cursor_y;
            self.param_x.normal = Normal::from_units(cx);
            self.param_y.normal = Normal::from_units(cy);
            Some((self.param_x.id, self.param_y.id))
        } else {
            None
        }
    }

    /// The button was pressed at `(cursor_x, cursor_y)` inside the pad, and
    /// the toolkit classified the press as `kind`. A single click starts a
    /// drag; a double or triple click resets both axes to their defaults,
    /// returns both identifiers and starts no drag.
    pub fn on_press(&mut self, cursor_x: i32, cursor_y: i32, kind: ClickKind) -> (r: Option<
        (ID, ID),
    >)
        ensures
            press_step(*old(self), *final(self), cursor_x as int, cursor_y as int, kind, r),
    {
        match kind {
            ClickKind::Single => {
                self.is_dragging = true;
                self.prev_drag_x = cursor_x;
                self.prev_drag_y = cursor_y;
                self.drag_remainder_x = 0;
                self.drag_remainder_y = 0;
                None
            },
            _ => {
                self.is_dragging = false;
                self.param_x.normal = self.param_x.default_normal;
                self.param_y.normal = self.param_y.default_normal;
                Some((self.param_x.id, self.param_y.id))
            },
        }
    }

    /// The button was pressed at `(cursor_x, cursor_y)` inside the pad, and
    /// the toolkit made `click` of it (from `self.last_click`). The press is
    /// handled as [`State::on_press`] does for the kind of `click` (a triple
    /// click as a double one), which is then recorded as the last click.
    pub fn on_click(&mut self, cursor_x: i32, cursor_y: i32, click: Click) -> (r: Option<(ID, ID)>)
        ensures
            press_step(
                *old(self),
                State { last_click: old(self).last_click, ..*final(self) },
                cursor_x as int,
                cursor_y as int,
                ClickKind::Single,
                r,
            ) || press_step(
                *old(self),
                State { last_click: old(self).last_click, ..*final(self) },
                cursor_x as int,
                cursor_y as int,
                ClickKind::Double,
                r,
            ),
            final(self).last_click == Some(click),
    {
        let kind = click_kind(&click);
        let r = self.on_press(cursor_x, cursor_y, kind);
        self.last_click = Some(click);
        proof {
            let mid = State { last_click: old(self).last_click, ..*self };
            assert(press_step(*old(self), mid, cursor_x as int, cursor_y as int, kind, r));
        }
        r
    }

    /// The button was released: the drag ends and both accumulators are
    /// resynchronized with their normals.
    pub fn on_release(&mut self)
        ensures
            release_step(*old(self), *final(self)),
    {
        self.is_dragging = false;
        let x = self.param_x.normal.value();
        let y = self.param_y.normal.value();
        self.continuous_normal_x = x as i64;
        self.continuous_normal_y = y as i64;
        self.drag_remainder_x = 0;
        self.drag_remainder_y = 0;
    }

    /// The held modifier keys changed to `modifiers`; nothing else changes.
    pub fn on_modifiers_changed(&mut self, modifiers: Modifiers)
        ensures
            *final(self) == (State { pressed_modifiers: modifiers, ..*old(self) }),
    {
        self.pressed_modifiers = modifiers;
    }
}

} // verus!
