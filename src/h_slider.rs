//! The drag state machine of a single-axis widget (a horizontal slider).

use vstd::prelude::*;

use iced_native::input::mouse::Click;

use crate::drag::{
    accumulate, lemma_backward_step_moves, lemma_two_steps_add_up, saturate_i64, scaled_travel,
    DragSettings,
};
use crate::input::{click_kind, ClickKind, Modifiers};
use crate::normal::{clamp_unit, Normal, NORMAL_ONE};
use crate::param::{ModulationRange, Param};

verus! {

/// The local state of a slider: its parameter and the progress of a drag.
///
/// The widget is idle or dragging. While dragging, pointer travel is added to
/// `continuous_normal`, an accumulator that is not clamped, and the clamped
/// accumulator becomes the parameter's normal. Releasing the button
/// resynchronizes the accumulator with the normal. The host must forward the
/// release: without it the widget stays in the dragging state.
///
/// The drag never snaps to steps: on a stepped parameter the consumer calls
/// the range's `snap_normal` on [`State::normal`] with each change
/// notification, and the accumulator stays unsnapped until the release
/// resynchronizes it with the snapped normal.
#[derive(Debug, Clone, Copy)]
pub struct State<ID> {
    /// The parameter this widget controls.
    pub param: Param<ID>,
    /// An optional modulation overlay.
    pub modulation_range: Option<ModulationRange>,
    /// Whether a drag is in progress.
    pub is_dragging: bool,
    /// The pointer's horizontal coordinate at the last drag step.
    pub prev_drag_x: i32,
    /// The unclamped drag accumulator, in millionths.
    pub continuous_normal: i64,
    /// The scaled travel not yet worth a whole millionth, in millionths times
    /// the widget's width; carried into the next drag step.
    pub drag_remainder: i32,
    /// The modifier keys held at the last keyboard event.
    pub pressed_modifiers: Modifiers,
    /// The last press inside the widget, for double-click detection.
    pub last_click: Option<Click>,
}

/// The fields that no drag step touches are the same in `pre` and `post`.
pub open spec fn same_setup<ID>(pre: State<ID>, post: State<ID>) -> bool {
    &&& post.param.id == pre.param.id
    &&& post.param.default_normal == pre.param.default_normal
    &&& post.modulation_range == pre.modulation_range
}

/// `post` is `pre` after the pointer moved to `cursor_x` over a widget
/// `width` wide, and `note` is the change notification sent.
pub open spec fn move_step<ID>(
    pre: State<ID>,
    post: State<ID>,
    cursor_x: int,
    width: int,
    settings: DragSettings,
    note: Option<ID>,
) -> bool {
    if pre.is_dragging && width > 0 {
        let t = scaled_travel(
            pre.drag_remainder as int,
            cursor_x - pre.prev_drag_x,
            settings.scalar_for(pre.pressed_modifiers),
        );
        let c = saturate_i64(pre.continuous_normal + t / width);
        &&& same_setup(pre, post)
        &&& post.continuous_normal == c
        &&& post.drag_remainder == t % width
        &&& post.param.normal@ == clamp_unit(c)
        &&& post.prev_drag_x == cursor_x
        &&& post.is_dragging
        &&& post.pressed_modifiers == pre.pressed_modifiers
        &&& post.last_click == pre.last_click
        &&& note == Some(pre.param.id)
    } else {
        post == pre && note.is_none()
    }
}

/// `post` is `pre` after a press of the kind `kind` at `cursor_x` inside the
/// widget (the last click not yet recorded).
pub open spec fn press_step<ID>(
    pre: State<ID>,
    post: State<ID>,
    cursor_x: int,
    kind: ClickKind,
    note: Option<ID>,
) -> bool {
    &&& same_setup(pre, post)
    &&& post.continuous_normal == pre.continuous_normal
    &&& post.pressed_modifiers == pre.pressed_modifiers
    &&& post.last_click == pre.last_click
    &&& if kind == ClickKind::Single {
        &&& post.is_dragging
        &&& post.prev_drag_x == cursor_x
        &&& post.drag_remainder == 0
        &&& post.param.normal == pre.param.normal
        &&& note.is_none()
    } else {
        &&& !post.is_dragging
        &&& post.prev_drag_x == pre.prev_drag_x
        &&& post.drag_remainder == pre.drag_remainder
        &&& post.param.normal == pre.param.default_normal
        &&& note == Some(pre.param.id)
    }
}

/// `post` is `pre` after the button was released.
pub open spec fn release_step<ID>(pre: State<ID>, post: State<ID>) -> bool {
    &&& same_setup(pre, post)
    &&& !post.is_dragging
    &&& post.continuous_normal == pre.param.normal@
    &&& post.drag_remainder == 0
    &&& post.param.normal == pre.param.normal
    &&& post.prev_drag_x == pre.prev_drag_x
    &&& post.pressed_modifiers == pre.pressed_modifiers
    &&& post.last_click == pre.last_click
}

impl<ID: Copy> State<ID> {
    /// An idle state for `param`, its accumulator at the parameter's normal.
    pub fn new(param: Param<ID>) -> (r: State<ID>)
        ensures
            r.param == param,
            r.modulation_range.is_none(),
            !r.is_dragging,
            r.prev_drag_x == 0,
            r.continuous_normal == param.normal@,
            r.drag_remainder == 0,
            r.pressed_modifiers == (Modifiers { shift: false, control: false, alt: false, logo: false }),
            r.last_click.is_none(),
    {
        let units = param.normal.value();
        State {
            param,
            modulation_range: None,
            is_dragging: false,
            prev_drag_x: 0,
            continuous_normal: units as i64,
            drag_remainder: 0,
            pressed_modifiers: Modifiers::none(),
            last_click: None,
        }
    }

    /// This state with `modulation_range` as its overlay.
    pub fn modulation_range(self, modulation_range: ModulationRange) -> (r: State<ID>)
        ensures
            r == (State { modulation_range: Some(modulation_range), ..self }),
    {
        let mut s = self;
        s.modulation_range = Some(modulation_range);
        s
    }

    /// The parameter's normal, to read or to change in place (for instance to
    /// snap it to a step).
    pub fn normal(&mut self) -> (r: &mut Normal)
        ensures
            *r == old(self).param.normal,
            *final(self) == (State {
                param: Param { normal: *final(r), ..old(self).param },
                ..*old(self)
            }),
    {
        &mut self.param.normal
    }

    /// The pointer moved to `cursor_x` over a widget `width` wide. While
    /// dragging (and for a positive width) the accumulator takes the scaled
    /// travel, the normal follows it clamped, and the parameter's identifier
    /// is returned as the change notification.
    pub fn on_cursor_moved(&mut self, cursor_x: i32, width: i32, settings: &DragSettings) -> (r:
        Option<ID>)
        ensures
            move_step(*old(self), *final(self), cursor_x as int, width as int, *settings, r),
    {
        if self.is_dragging && width > 0 {
            let scalar = settings.select_scalar(self.pressed_modifiers);
            let (c, rem) = accumulate(
                self.continuous_normal,
                self.drag_remainder,
                self.prev_drag_x,
                cursor_x,
                width,
                scalar,
            );
            self.continuous_normal = c;
            self.drag_remainder = rem;
            self.prev_drag_x = cursor_x;
            self.param.normal = Normal::from_units(c);
            Some(self.param.id)
        } else {
            None
        }
    }

    /// The button was pressed at `cursor_x` inside the widget, and the toolkit
    /// classified the press as `kind`. A single click starts a drag; a double
    /// or triple click resets the normal to its default, returns the change
    /// notification and starts no drag.
    pub fn on_press(&mut self, cursor_x: i32, kind: ClickKind) -> (r: Option<ID>)
        ensures
            press_step(*old(self), *final(self), cursor_x as int, kind, r),
    {
        match kind {
            ClickKind::Single => {
                self.is_dragging = true;
                self.prev_drag_x = cursor_x;
                self.drag_remainder = 0;
                None
            },
            _ => {
                self.is_dragging = false;
                self.param.normal = self.param.default_normal;
                Some(self.param.id)
            },
        }
    }

    /// The button was pressed at `cursor_x` inside the widget, and the toolkit
    /// made `click` of it (from `self.last_click`). The press is handled as
    /// [`State::on_press`] does for the kind of `click` (a triple click as a
    /// double one), which is then recorded as the last click.
    pub fn on_click(&mut self, cursor_x: i32, click: Click) -> (r: Option<ID>)
        ensures
            press_step(
                *old(self),
                State { last_click: old(self).last_click, ..*final(self) },
                cursor_x as int,
                ClickKind::Single,
                r,
            ) || press_step(
                *old(self),
                State { last_click: old(self).last_click, ..*final(self) },
                cursor_x as int,
                ClickKind::Double,
                r,
            ),
            final(self).last_click == Some(click),
    {
        let kind = click_kind(&click);
        let r = self.on_press(cursor_x, kind);
        self.last_click = Some(click);
        proof {
            let mid = State { last_click: old(self).last_click, ..*self };
            assert(press_step(*old(self), mid, cursor_x as int, kind, r));
        }
        r
    }

    /// The button was released: the drag ends and the accumulator is
    /// resynchronized with the normal, dropping any overshoot.
    pub fn on_release(&mut self)
        ensures
            release_step(*old(self), *final(self)),
    {
        self.is_dragging = false;
        let units = self.param.normal.value();
        self.continuous_normal = units as i64;
        self.drag_remainder = 0;
    }

    /// The held modifier keys changed to `modifiers`; nothing else changes.
    pub fn on_modifiers_changed(&mut self, modifiers: Modifiers)
        ensures
            *final(self) == (State { pressed_modifiers: modifiers, ..*old(self) }),
    {
        self.pressed_modifiers = modifiers;
    }
}

/// After a drag that overshot an end, releasing and dragging again resumes
/// from the visible position: the first move changes the normal by exactly
/// its own scaled travel, so any move back from an end (at a positive
/// sensitivity) lowers the normal at once, with no dead zone left by the
/// overshoot.
pub proof fn lemma_no_dead_zone_after_release<ID>(
    dragged: State<ID>,
    released: State<ID>,
    pressed: State<ID>,
    moved: State<ID>,
    press_x: int,
    cursor_x: int,
    width: int,
    settings: DragSettings,
    note: Option<ID>,
)
    requires
        0 <= dragged.param.normal@ <= NORMAL_ONE as int,
        release_step(dragged, released),
        press_step(released, pressed, press_x, ClickKind::Single, None),
        move_step(pressed, moved, cursor_x, width, settings, note),
        width > 0,
    ensures
        ({
            let scalar = settings.scalar_for(dragged.pressed_modifiers);
            let d = scaled_travel(0, cursor_x - press_x, scalar) / width;
            &&& moved.param.normal@ == clamp_unit(dragged.param.normal@ + d)
            &&& (cursor_x < press_x && scalar > 0 && dragged.param.normal@ > 0
                ==> moved.param.normal@ < dragged.param.normal@)
        }),
{
    let scalar = settings.scalar_for(dragged.pressed_modifiers);
    if cursor_x < press_x && scalar > 0 {
        lemma_backward_step_moves(cursor_x - press_x, width, scalar);
    }
}

/// Two moves of one drag over one width land where a single move over their
/// whole travel would: the accumulator and the remainder agree, so slow
/// drags lose no travel to rounding (as long as the accumulator stays within
/// `i64`).
pub proof fn lemma_moves_add_up<ID>(
    start: State<ID>,
    mid: State<ID>,
    end: State<ID>,
    x1: int,
    x2: int,
    width: int,
    settings: DragSettings,
    note1: Option<ID>,
    note2: Option<ID>,
    one_move: State<ID>,
    note: Option<ID>,
)
    requires
        start.is_dragging,
        width > 0,
        move_step(start, mid, x1, width, settings, note1),
        move_step(mid, end, x2, width, settings, note2),
        move_step(start, one_move, x2, width, settings, note),
        i64::MIN < mid.continuous_normal < i64::MAX,
        i64::MIN < end.continuous_normal < i64::MAX,
    ensures
        end.continuous_normal == one_move.continuous_normal,
        end.drag_remainder == one_move.drag_remainder,
        end.param.normal@ == one_move.param.normal@,
{
    lemma_two_steps_add_up(
        start.continuous_normal as int,
        start.drag_remainder as int,
        x1 - start.prev_drag_x,
        x2 - x1,
        width,
        settings.scalar_for(start.pressed_modifiers),
    );
}

} // verus!
