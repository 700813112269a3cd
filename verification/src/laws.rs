//! What holds of every event.
//!
//! The laws of the first part hold of every type that implements
//! [`GenericEvent`]: they follow from the three laws that such a type proves
//! and from the round trip of each lens. Those of the second part are about
//! the two event types of this crate.

use vstd::prelude::*;
use crate::after_render::{AfterRenderArgs, AfterRenderEvent};
use crate::controller::{ControllerAxisArgs, ControllerAxisEvent};
use crate::cursor::CursorEvent;
use crate::focus::FocusEvent;
use crate::generic_event::{ErasedArgs, GenericEvent};
use crate::idle::{IdleArgs, IdleEvent};
use crate::mouse::{MouseCursorEvent, MouseRelativeEvent, MouseScrollEvent};
use crate::press::PressEvent;
use crate::release::ReleaseEvent;
use crate::render::{RenderArgs, RenderEvent};
use crate::resize::ResizeEvent;
use crate::scalar::Scalar;
use crate::text::TextEvent;
use crate::touch::{TouchArgs, TouchEvent};
use crate::update::{UpdateArgs, UpdateEvent};
use crate::{Button, Event, EventId, Input};

verus! {

/// Whether the lens of the kind named `kind` reads `event`, that is, whether
/// its closure is called and its arguments are returned.
///
/// There is no lens for the closing of the window.
pub open spec fn lens_reads<E: GenericEvent>(event: &E, kind: EventId) -> bool {
    match kind {
        EventId::AfterRender => event.spec_after_render_args() is Some,
        EventId::ControllerAxis => event.spec_controller_axis_args() is Some,
        EventId::Cursor => event.spec_cursor_args() is Some,
        EventId::Focus => event.spec_focus_args() is Some,
        EventId::Close => false,
        EventId::Idle => event.spec_idle_args() is Some,
        EventId::MouseScroll => event.spec_mouse_scroll_args() is Some,
        EventId::MouseRelative => event.spec_mouse_relative_args() is Some,
        EventId::MouseCursor => event.spec_mouse_cursor_args() is Some,
        EventId::Press => event.spec_press_args() is Some,
        EventId::Release => event.spec_release_args() is Some,
        EventId::Render => event.spec_render_args() is Some,
        EventId::Resize => event.spec_resize_args() is Some,
        EventId::Text => event.spec_text_args() is Some,
        EventId::Touch => event.spec_touch_args() is Some,
        EventId::Update => event.spec_update_args() is Some,
    }
}

/// The kinds are disjoint: an event that the lens of one kind reads is read by
/// the lens of no other kind.
pub proof fn lemma_kinds_disjoint<E: GenericEvent>(event: &E, kind: EventId, other: EventId)
    requires
        lens_reads(event, kind),
        other != kind,
    ensures
        !lens_reads(event, other),
{
    event.lemma_lens_names_id();
}

/// An event built from arguments is of the kind it was built for, and of no
/// other: the lens of that kind reads it, it bears that kind's identifier, and
/// the lens of every other kind passes it by.
///
/// This holds for every kind that has a lens, and for arguments of the type
/// that the kind carries.
pub proof fn lemma_built_event_has_one_kind<E: GenericEvent>(
    kind: EventId,
    any: ErasedArgs,
    old_event: &E,
)
    requires
        kind != EventId::Close,
        any.spec_fits(kind),
    ensures
        E::spec_from_args(kind, any, old_event) matches Some(event) ==> {
            &&& lens_reads(&event, kind)
            &&& event.spec_event_id() == kind
            &&& forall|other: EventId| other != kind ==> !lens_reads(&event, other)
        },
{
    E::lemma_from_args_agrees_with_lens(old_event);
    match any {
        ErasedArgs::Empty => {},
        ErasedArgs::Bool(flag) => {
            E::lemma_cursor_round_trip(flag, old_event);
            E::lemma_focus_round_trip(flag, old_event);
        },
        ErasedArgs::Position(x, y) => {
            E::lemma_mouse_cursor_round_trip(x, y, old_event);
            E::lemma_mouse_relative_round_trip(x, y, old_event);
            E::lemma_mouse_scroll_round_trip(x, y, old_event);
        },
        ErasedArgs::Size(w, h) => {
            E::lemma_resize_round_trip(w, h, old_event);
        },
        ErasedArgs::Button(button) => {
            E::lemma_press_round_trip(button, old_event);
            E::lemma_release_round_trip(button, old_event);
        },
        ErasedArgs::Text(text) => {
            assert(E::spec_from_args(kind, any, old_event) == E::spec_from_args(
                EventId::Text,
                ErasedArgs::Text(text),
                old_event,
            ));
        },
        ErasedArgs::ControllerAxis(args) => {
            E::lemma_controller_axis_round_trip(args, old_event);
        },
        ErasedArgs::Touch(args) => {
            E::lemma_touch_round_trip(args, old_event);
        },
        ErasedArgs::Update(args) => {
            E::lemma_update_round_trip(args, old_event);
        },
        ErasedArgs::Render(args) => {
            E::lemma_render_round_trip(args, old_event);
        },
        ErasedArgs::AfterRender(args) => {
            E::lemma_after_render_round_trip(args, old_event);
        },
        ErasedArgs::Idle(args) => {
            E::lemma_idle_round_trip(args, old_event);
        },
    }
    if let Some(event) = E::spec_from_args(kind, any, old_event) {
        event.lemma_lens_names_id();
    }
}

/// An event that wraps an input stands for that input: it bears the input's
/// identifier, carries the input's arguments, and each lens of a kind of
/// input reads from it what it reads from the input. The lenses of the four
/// ticks pass it by.
pub proof fn lemma_event_stands_for_its_input<I: GenericEvent>(input: I)
    ensures
        Event::Input(input).spec_event_id() == input.spec_event_id(),
        Event::Input(input).spec_args() == input.spec_args(),
        Event::Input(input).spec_controller_axis_args() == input.spec_controller_axis_args(),
        Event::Input(input).spec_cursor_args() == input.spec_cursor_args(),
        Event::Input(input).spec_focus_args() == input.spec_focus_args(),
        Event::Input(input).spec_mouse_cursor_args() == input.spec_mouse_cursor_args(),
        Event::Input(input).spec_mouse_relative_args() == input.spec_mouse_relative_args(),
        Event::Input(input).spec_mouse_scroll_args() == input.spec_mouse_scroll_args(),
        Event::Input(input).spec_press_args() == input.spec_press_args(),
        Event::Input(input).spec_release_args() == input.spec_release_args(),
        Event::Input(input).spec_resize_args() == input.spec_resize_args(),
        Event::Input(input).spec_text_args() == input.spec_text_args(),
        Event::Input(input).spec_touch_args() == input.spec_touch_args(),
        Event::Input(input).spec_after_render_args() is None,
        Event::Input(input).spec_idle_args() is None,
        Event::Input(input).spec_render_args() is None,
        Event::Input(input).spec_update_args() is None,
{
}

/// The four ticks are built from their arguments alone, whatever the old
/// event and whatever the type of the input.
pub proof fn lemma_tick_ignores_old_event<I: GenericEvent>(old1: &Event<I>, old2: &Event<I>)
    ensures
        forall|args: AfterRenderArgs|
            Event::<I>::spec_from_after_render_args(args, old1)
                == #[trigger] Event::<I>::spec_from_after_render_args(args, old2),
        forall|args: IdleArgs|
            Event::<I>::spec_from_idle_args(args, old1)
                == #[trigger] Event::<I>::spec_from_idle_args(args, old2),
        forall|args: RenderArgs|
            Event::<I>::spec_from_render_args(args, old1)
                == #[trigger] Event::<I>::spec_from_render_args(args, old2),
        forall|args: UpdateArgs|
            Event::<I>::spec_from_update_args(args, old1)
                == #[trigger] Event::<I>::spec_from_update_args(args, old2),
        forall|kind: EventId, any: ErasedArgs|
            (kind == EventId::AfterRender || kind == EventId::Idle || kind == EventId::Render
                || kind == EventId::Update) ==> Event::<I>::spec_from_args(kind, any, old1)
                == #[trigger] Event::<I>::spec_from_args(kind, any, old2),
{
}

/// An input is built from the arguments alone: no constructor reads the old
/// event.
pub proof fn lemma_input_ignores_old_event(old1: &Input, old2: &Input)
    ensures
        forall|args: AfterRenderArgs|
            Input::spec_from_after_render_args(args, old1)
                == #[trigger] Input::spec_from_after_render_args(args, old2),
        forall|args: ControllerAxisArgs|
            Input::spec_from_controller_axis_args(args, old1)
                == #[trigger] Input::spec_from_controller_axis_args(args, old2),
        forall|cursor: bool|
            Input::spec_from_cursor(cursor, old1) == #[trigger] Input::spec_from_cursor(
                cursor,
                old2,
            ),
        forall|focused: bool|
            Input::spec_from_focused(focused, old1) == #[trigger] Input::spec_from_focused(
                focused,
                old2,
            ),
        forall|args: IdleArgs|
            Input::spec_from_idle_args(args, old1) == #[trigger] Input::spec_from_idle_args(
                args,
                old2,
            ),
        forall|x: Scalar, y: Scalar|
            Input::spec_from_mouse_cursor(x, y, old1) == #[trigger] Input::spec_from_mouse_cursor(
                x,
                y,
                old2,
            ),
        forall|x: Scalar, y: Scalar|
            Input::spec_from_mouse_relative(x, y, old1)
                == #[trigger] Input::spec_from_mouse_relative(x, y, old2),
        forall|x: Scalar, y: Scalar|
            Input::spec_from_mouse_scroll(x, y, old1) == #[trigger] Input::spec_from_mouse_scroll(
                x,
                y,
                old2,
            ),
        forall|button: Button|
            Input::spec_from_pressed(button, old1) == #[trigger] Input::spec_from_pressed(
                button,
                old2,
            ),
        forall|button: Button|
            Input::spec_from_released(button, old1) == #[trigger] Input::spec_from_released(
                button,
                old2,
            ),
        forall|args: RenderArgs|
            Input::spec_from_render_args(args, old1) == #[trigger] Input::spec_from_render_args(
                args,
                old2,
            ),
        forall|w: u32, h: u32|
            Input::spec_from_width_height(w, h, old1) == #[trigger] Input::spec_from_width_height(
                w,
                h,
                old2,
            ),
        Input::spec_takes_text(old1) == Input::spec_takes_text(old2),
        forall|args: TouchArgs|
            Input::spec_from_touch_args(args, old1) == #[trigger] Input::spec_from_touch_args(
                args,
                old2,
            ),
        forall|args: UpdateArgs|
            Input::spec_from_update_args(args, old1) == #[trigger] Input::spec_from_update_args(
                args,
                old2,
            ),
        forall|kind: EventId, any: ErasedArgs|
            Input::spec_from_args(kind, any, old1) == #[trigger] Input::spec_from_args(
                kind,
                any,
                old2,
            ),
        forall|kind: EventId|
            Input::spec_recognizes(kind, old1) == #[trigger] Input::spec_recognizes(kind, old2),
{
}

/// An event of a kind of input is built from the arguments and from one fact
/// about the old event: whether it holds an input. What that input is, or
/// which tick the old event is, makes no difference.
pub proof fn lemma_event_reads_only_the_shape_of_old_event(
    old1: &Event<Input>,
    old2: &Event<Input>,
)
    requires
        old1 is Input <==> old2 is Input,
    ensures
        forall|args: ControllerAxisArgs|
            Event::<Input>::spec_from_controller_axis_args(args, old1)
                == #[trigger] Event::<Input>::spec_from_controller_axis_args(args, old2),
        forall|cursor: bool|
            Event::<Input>::spec_from_cursor(cursor, old1)
                == #[trigger] Event::<Input>::spec_from_cursor(cursor, old2),
        forall|focused: bool|
            Event::<Input>::spec_from_focused(focused, old1)
                == #[trigger] Event::<Input>::spec_from_focused(focused, old2),
        forall|x: Scalar, y: Scalar|
            Event::<Input>::spec_from_mouse_cursor(x, y, old1)
                == #[trigger] Event::<Input>::spec_from_mouse_cursor(x, y, old2),
        forall|x: Scalar, y: Scalar|
            Event::<Input>::spec_from_mouse_relative(x, y, old1)
                == #[trigger] Event::<Input>::spec_from_mouse_relative(x, y, old2),
        forall|x: Scalar, y: Scalar|
            Event::<Input>::spec_from_mouse_scroll(x, y, old1)
                == #[trigger] Event::<Input>::spec_from_mouse_scroll(x, y, old2),
        forall|button: Button|
            Event::<Input>::spec_from_pressed(button, old1)
                == #[trigger] Event::<Input>::spec_from_pressed(button, old2),
        forall|button: Button|
            Event::<Input>::spec_from_released(button, old1)
                == #[trigger] Event::<Input>::spec_from_released(button, old2),
        forall|w: u32, h: u32|
            Event::<Input>::spec_from_width_height(w, h, old1)
                == #[trigger] Event::<Input>::spec_from_width_height(w, h, old2),
        Event::<Input>::spec_takes_text(old1) == Event::<Input>::spec_takes_text(old2),
        forall|args: TouchArgs|
            Event::<Input>::spec_from_touch_args(args, old1)
                == #[trigger] Event::<Input>::spec_from_touch_args(args, old2),
        forall|kind: EventId, any: ErasedArgs|
            Event::<Input>::spec_from_args(kind, any, old1)
                == #[trigger] Event::<Input>::spec_from_args(kind, any, old2),
        forall|kind: EventId|
            Event::<Input>::spec_recognizes(kind, old1)
                == #[trigger] Event::<Input>::spec_recognizes(kind, old2),
{
}

/// Every input but the closing of the window is read by the lens of the kind
/// that its identifier names, and carries arguments of the type that the
/// identifier stands for.
pub proof fn lemma_input_is_of_its_kind(input: &Input)
    ensures
        input.spec_args().spec_fits(input.spec_event_id()),
        input.spec_event_id() != EventId::Close ==> lens_reads(input, input.spec_event_id()),
        input.spec_event_id() == EventId::Close <==> *input == Input::Close,
{
}

/// Every event but one that wraps the closing of the window is read by the
/// lens of the kind that its identifier names, and carries arguments of the
/// type that the identifier stands for.
pub proof fn lemma_event_is_of_its_kind(event: &Event<Input>)
    ensures
        event.spec_args().spec_fits(event.spec_event_id()),
        event.spec_event_id() != EventId::Close ==> lens_reads(event, event.spec_event_id()),
        event.spec_event_id() == EventId::Close <==> *event == Event::Input(Input::Close),
{
}

/// An input taken apart by `event_id` and `with_args` is built again by
/// `from_args`, whatever the old event: the result is the input itself. The
/// closing of the window is the one input that `from_args` does not build.
pub proof fn lemma_input_is_rebuilt(input: &Input, old_event: &Input)
    ensures
        Input::spec_from_args(input.spec_event_id(), input.spec_args(), old_event) == if *input
            == Input::Close {
            None
        } else {
            Some(*input)
        },
{
}

/// An event taken apart by `event_id` and `with_args` is built again by
/// `from_args`: a tick against any old event, an input against an old event
/// that holds an input. The closing of the window is not built.
pub proof fn lemma_event_is_rebuilt(event: &Event<Input>, old_event: &Event<Input>)
    requires
        event is Input ==> old_event is Input,
    ensures
        Event::<Input>::spec_from_args(event.spec_event_id(), event.spec_args(), old_event)
            == if *event == Event::Input(Input::Close) {
            None
        } else {
            Some(*event)
        },
{
}

} // verus!
