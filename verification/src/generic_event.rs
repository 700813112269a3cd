//! Trait for generic events

use vstd::prelude::*;
use vstd::pervasive::unreached;
use crate::after_render::{AfterRenderArgs, AfterRenderEvent};
use crate::controller::{ControllerAxisArgs, ControllerAxisEvent};
use crate::cursor::CursorEvent;
use crate::focus::FocusEvent;
use crate::idle::{IdleArgs, IdleEvent};
use crate::mouse::{MouseCursorEvent, MouseRelativeEvent, MouseScrollEvent};
use crate::press::PressEvent;
use crate::release::ReleaseEvent;
use crate::render::{RenderArgs, RenderEvent};
use crate::resize::ResizeEvent;
use crate::scalar::Scalar;
use crate::text::TextEvent;
use crate::touch::{TouchArgs, TouchEvent};
use crate::update::{UpdateArgs, UpdateEvent};
use crate::{Button, Event, EventId, Input, Motion};

verus! {

/// The arguments of an event whose kind is not known where they are handled.
///
/// There is one variant for each type of arguments. Kinds that carry the same
/// type share a variant, so the arguments alone do not tell the kind: an
/// [`EventId`] goes with them.
#[derive(Clone, PartialEq, Debug)]
pub enum ErasedArgs {
    /// No arguments at all. A close event carries these.
    Empty,
    /// A flag. Cursor and focus events carry one.
    Bool(bool),
    /// Two coordinates, x and y. The three mouse motions carry them.
    Position(Scalar, Scalar),
    /// A width and a height. A resize event carries them.
    Size(u32, u32),
    /// A button. Press and release events carry one.
    Button(Button),
    /// A text.
    Text(String),
    /// The arguments of a controller axis event.
    ControllerAxis(ControllerAxisArgs),
    /// The arguments of a touch event.
    Touch(TouchArgs),
    /// The arguments of an update event.
    Update(UpdateArgs),
    /// The arguments of a render event.
    Render(RenderArgs),
    /// The arguments of an after render event.
    AfterRender(AfterRenderArgs),
    /// The arguments of an idle event.
    Idle(IdleArgs),
}

impl ErasedArgs {
    /// Whether these arguments have the type that events named `event_id` carry.
    pub open spec fn spec_fits(&self, event_id: EventId) -> bool {
        match event_id {
            EventId::AfterRender => self is AfterRender,
            EventId::ControllerAxis => self is ControllerAxis,
            EventId::Cursor => self is Bool,
            EventId::Focus => self is Bool,
            EventId::Close => self is Empty,
            EventId::Idle => self is Idle,
            EventId::MouseScroll => self is Position,
            EventId::MouseRelative => self is Position,
            EventId::MouseCursor => self is Position,
            EventId::Press => self is Button,
            EventId::Release => self is Button,
            EventId::Render => self is Render,
            EventId::Resize => self is Size,
            EventId::Text => self is Text,
            EventId::Touch => self is Touch,
            EventId::Update => self is Update,
        }
    }

    /// Tells whether these arguments have the type that events named
    /// `event_id` carry.
    pub fn fits(&self, event_id: EventId) -> (fits: bool)
        ensures
            fits == self.spec_fits(event_id),
    {
        match event_id {
            EventId::AfterRender => matches!(self, ErasedArgs::AfterRender(_)),
            EventId::ControllerAxis => matches!(self, ErasedArgs::ControllerAxis(_)),
            EventId::Cursor | EventId::Focus => matches!(self, ErasedArgs::Bool(_)),
            EventId::Close => matches!(self, ErasedArgs::Empty),
            EventId::Idle => matches!(self, ErasedArgs::Idle(_)),
            EventId::MouseScroll | EventId::MouseRelative | EventId::MouseCursor => matches!(
                self,
                ErasedArgs::Position(_, _)
            ),
            EventId::Press | EventId::Release => matches!(self, ErasedArgs::Button(_)),
            EventId::Render => matches!(self, ErasedArgs::Render(_)),
            EventId::Resize => matches!(self, ErasedArgs::Size(_, _)),
            EventId::Text => matches!(self, ErasedArgs::Text(_)),
            EventId::Touch => matches!(self, ErasedArgs::Touch(_)),
            EventId::Update => matches!(self, ErasedArgs::Update(_)),
        }
    }
}

/// Implemented by all events
///
/// Beside the operations, an event type proves three laws that tie them to the
/// lenses of the single kinds: a lens reads only events that are named after
/// its kind, `with_args` hands out what the lens reads, and `from_args` builds
/// what the lens builds.
pub trait GenericEvent:
    Sized
    + AfterRenderEvent
    + ControllerAxisEvent
    + CursorEvent
    + FocusEvent
    + IdleEvent
    + MouseCursorEvent
    + MouseRelativeEvent
    + MouseScrollEvent
    + PressEvent
    + ReleaseEvent
    + RenderEvent
    + ResizeEvent
    + TextEvent
    + TouchEvent
    + UpdateEvent
{
    /// The identifier of this event's kind.
    spec fn spec_event_id(&self) -> EventId;

    /// The arguments that this event carries.
    spec fn spec_args(&self) -> ErasedArgs;

    /// Whether `from_args` knows how to build an event named `event_id` when it
    /// is given `old_event`.
    spec fn spec_recognizes(event_id: EventId, old_event: &Self) -> bool;

    /// The event that `from_args` builds.
    spec fn spec_from_args(event_id: EventId, any: ErasedArgs, old_event: &Self) -> Option<Self>;

    /// The id of this event.
    fn event_id(&self) -> (id: EventId)
        ensures
            id == self.spec_event_id(),
    ;

    /// Calls closure with arguments
    fn with_args<F, U>(&self, f: F) -> (res: U) where
        F: FnMut(&ErasedArgs) -> U,
        requires
            f.requires((&self.spec_args(),)),
        ensures
            f.ensures((&self.spec_args(),), res),
    ;

    /// Tells whether `from_args` knows how to build an event named `event_id`
    /// when it is given `old_event`.
    fn recognizes(event_id: EventId, old_event: &Self) -> (known: bool)
        ensures
            known == Self::spec_recognizes(event_id, old_event),
    ;

    /// Converts from arguments to `Self`.
    ///
    /// Returns `None` if the identifier is not recognized. Where it is, the
    /// arguments must be of the type that the identifier stands for. To hand
    /// over others is an error of the caller that no result can report.
    fn from_args(event_id: EventId, any: &ErasedArgs, old_event: &Self) -> (event: Option<Self>)
        requires
            Self::spec_recognizes(event_id, old_event) ==> any.spec_fits(event_id),
        ensures
            event == Self::spec_from_args(event_id, *any, old_event),
            event is Some <==> Self::spec_recognizes(event_id, old_event),
    ;

    /// A lens reads only events that are named after its kind.
    proof fn lemma_lens_names_id(&self)
        ensures
            self.spec_after_render_args() is Some ==> self.spec_event_id() == EventId::AfterRender,
            self.spec_controller_axis_args() is Some ==> self.spec_event_id()
                == EventId::ControllerAxis,
            self.spec_cursor_args() is Some ==> self.spec_event_id() == EventId::Cursor,
            self.spec_focus_args() is Some ==> self.spec_event_id() == EventId::Focus,
            self.spec_idle_args() is Some ==> self.spec_event_id() == EventId::Idle,
            self.spec_mouse_cursor_args() is Some ==> self.spec_event_id() == EventId::MouseCursor,
            self.spec_mouse_relative_args() is Some ==> self.spec_event_id()
                == EventId::MouseRelative,
            self.spec_mouse_scroll_args() is Some ==> self.spec_event_id() == EventId::MouseScroll,
            self.spec_press_args() is Some ==> self.spec_event_id() == EventId::Press,
            self.spec_release_args() is Some ==> self.spec_event_id() == EventId::Release,
            self.spec_render_args() is Some ==> self.spec_event_id() == EventId::Render,
            self.spec_resize_args() is Some ==> self.spec_event_id() == EventId::Resize,
            self.spec_text_args() is Some ==> self.spec_event_id() == EventId::Text,
            self.spec_touch_args() is Some ==> self.spec_event_id() == EventId::Touch,
            self.spec_update_args() is Some ==> self.spec_event_id() == EventId::Update,
    ;

    /// `with_args` hands out the arguments that the event's lens reads.
    proof fn lemma_args_match_lens(&self)
        ensures
            self.spec_after_render_args() matches Some(args) ==> self.spec_args()
                == ErasedArgs::AfterRender(args),
            self.spec_controller_axis_args() matches Some(args) ==> self.spec_args()
                == ErasedArgs::ControllerAxis(args),
            self.spec_cursor_args() matches Some(cursor) ==> self.spec_args() == ErasedArgs::Bool(
                cursor,
            ),
            self.spec_focus_args() matches Some(focused) ==> self.spec_args() == ErasedArgs::Bool(
                focused,
            ),
            self.spec_idle_args() matches Some(args) ==> self.spec_args() == ErasedArgs::Idle(args),
            self.spec_mouse_cursor_args() matches Some((x, y)) ==> self.spec_args()
                == ErasedArgs::Position(x, y),
            self.spec_mouse_relative_args() matches Some((x, y)) ==> self.spec_args()
                == ErasedArgs::Position(x, y),
            self.spec_mouse_scroll_args() matches Some((x, y)) ==> self.spec_args()
                == ErasedArgs::Position(x, y),
            self.spec_press_args() matches Some(button) ==> self.spec_args() == ErasedArgs::Button(
                button,
            ),
            self.spec_release_args() matches Some(button) ==> self.spec_args()
                == ErasedArgs::Button(button),
            self.spec_render_args() matches Some(args) ==> self.spec_args() == ErasedArgs::Render(
                args,
            ),
            self.spec_resize_args() matches Some((w, h)) ==> self.spec_args() == ErasedArgs::Size(
                w,
                h,
            ),
            self.spec_text_args() matches Some(text) ==> (self.spec_args() matches ErasedArgs::Text(
                s,
            ) && s@ == text),
            self.spec_touch_args() matches Some(args) ==> self.spec_args() == ErasedArgs::Touch(
                args,
            ),
            self.spec_update_args() matches Some(args) ==> self.spec_args() == ErasedArgs::Update(
                args,
            ),
    ;

    /// From arguments of the type that an identifier stands for, `from_args`
    /// builds what the lens of that kind builds.
    proof fn lemma_from_args_agrees_with_lens(old_event: &Self)
        ensures
            forall|args: AfterRenderArgs|
                Self::spec_from_args(
                    EventId::AfterRender,
                    ErasedArgs::AfterRender(args),
                    old_event,
                ) == #[trigger] Self::spec_from_after_render_args(args, old_event),
            forall|args: ControllerAxisArgs|
                Self::spec_from_args(
                    EventId::ControllerAxis,
                    ErasedArgs::ControllerAxis(args),
                    old_event,
                ) == #[trigger] Self::spec_from_controller_axis_args(args, old_event),
            forall|cursor: bool|
                Self::spec_from_args(EventId::Cursor, ErasedArgs::Bool(cursor), old_event)
                    == #[trigger] Self::spec_from_cursor(cursor, old_event),
            forall|focused: bool|
                Self::spec_from_args(EventId::Focus, ErasedArgs::Bool(focused), old_event)
                    == #[trigger] Self::spec_from_focused(focused, old_event),
            forall|args: IdleArgs|
                Self::spec_from_args(EventId::Idle, ErasedArgs::Idle(args), old_event)
                    == #[trigger] Self::spec_from_idle_args(args, old_event),
            forall|x: Scalar, y: Scalar|
                Self::spec_from_args(EventId::MouseCursor, ErasedArgs::Position(x, y), old_event)
                    == #[trigger] Self::spec_from_mouse_cursor(x, y, old_event),
            forall|x: Scalar, y: Scalar|
                Self::spec_from_args(EventId::MouseRelative, ErasedArgs::Position(x, y), old_event)
                    == #[trigger] Self::spec_from_mouse_relative(x, y, old_event),
            forall|x: Scalar, y: Scalar|
                Self::spec_from_args(EventId::MouseScroll, ErasedArgs::Position(x, y), old_event)
                    == #[trigger] Self::spec_from_mouse_scroll(x, y, old_event),
            forall|button: Button|
                Self::spec_from_args(EventId::Press, ErasedArgs::Button(button), old_event)
                    == #[trigger] Self::spec_from_pressed(button, old_event),
            forall|button: Button|
                Self::spec_from_args(EventId::Release, ErasedArgs::Button(button), old_event)
                    == #[trigger] Self::spec_from_released(button, old_event),
            forall|args: RenderArgs|
                Self::spec_from_args(EventId::Render, ErasedArgs::Render(args), old_event)
                    == #[trigger] Self::spec_from_render_args(args, old_event),
            forall|w: u32, h: u32|
                Self::spec_from_args(EventId::Resize, ErasedArgs::Size(w, h), old_event)
                    == #[trigger] Self::spec_from_width_height(w, h, old_event),
            forall|text: String|
                (#[trigger] Self::spec_from_args(EventId::Text, ErasedArgs::Text(text), old_event)
                    is Some) == Self::spec_takes_text(old_event),
            forall|text: String|
                #[trigger] Self::spec_from_args(EventId::Text, ErasedArgs::Text(text), old_event)
                    matches Some(event) ==> event.spec_text_args() == Some(text@),
            forall|args: TouchArgs|
                Self::spec_from_args(EventId::Touch, ErasedArgs::Touch(args), old_event)
                    == #[trigger] Self::spec_from_touch_args(args, old_event),
            forall|args: UpdateArgs|
                Self::spec_from_args(EventId::Update, ErasedArgs::Update(args), old_event)
                    == #[trigger] Self::spec_from_update_args(args, old_event),
    ;
}

impl GenericEvent for Input {
    open spec fn spec_event_id(&self) -> EventId {
        match self {
            Input::Cursor(_) => EventId::Cursor,
            Input::Focus(_) => EventId::Focus,
            Input::Close => EventId::Close,
            Input::Move(Motion::MouseCursor(_, _)) => EventId::MouseCursor,
            Input::Move(Motion::MouseRelative(_, _)) => EventId::MouseRelative,
            Input::Move(Motion::MouseScroll(_, _)) => EventId::MouseScroll,
            Input::Move(Motion::ControllerAxis(_)) => EventId::ControllerAxis,
            Input::Move(Motion::Touch(_)) => EventId::Touch,
            Input::Press(_) => EventId::Press,
            Input::Release(_) => EventId::Release,
            Input::Resize(_, _) => EventId::Resize,
            Input::Text(_) => EventId::Text,
        }
    }

    open spec fn spec_args(&self) -> ErasedArgs {
        match self {
            Input::Cursor(cursor) => ErasedArgs::Bool(*cursor),
            Input::Focus(focused) => ErasedArgs::Bool(*focused),
            Input::Close => ErasedArgs::Empty,
            Input::Move(Motion::ControllerAxis(args)) => ErasedArgs::ControllerAxis(*args),
            Input::Move(Motion::MouseCursor(x, y)) => ErasedArgs::Position(*x, *y),
            Input::Move(Motion::MouseRelative(x, y)) => ErasedArgs::Position(*x, *y),
            Input::Move(Motion::MouseScroll(x, y)) => ErasedArgs::Position(*x, *y),
            Input::Move(Motion::Touch(args)) => ErasedArgs::Touch(*args),
            Input::Press(button) => ErasedArgs::Button(*button),
            Input::Release(button) => ErasedArgs::Button(*button),
            Input::Resize(w, h) => ErasedArgs::Size(*w, *h),
            Input::Text(text) => ErasedArgs::Text(*text),
        }
    }

    /// Input is built for every kind of input but the closing of the window.
    open spec fn spec_recognizes(event_id: EventId, old_event: &Self) -> bool {
        match event_id {
            EventId::ControllerAxis
            | EventId::Cursor
            | EventId::Focus
            | EventId::MouseCursor
            | EventId::MouseRelative
            | EventId::MouseScroll
            | EventId::Press
            | EventId::Release
            | EventId::Resize
            | EventId::Text
            | EventId::Touch => true,
            _ => false,
        }
    }

    open spec fn spec_from_args(event_id: EventId, any: ErasedArgs, old_event: &Self) -> Option<
        Self,
    > {
        match (event_id, any) {
            (EventId::ControllerAxis, ErasedArgs::ControllerAxis(args)) => Some(
                Input::Move(Motion::ControllerAxis(args)),
            ),
            (EventId::Cursor, ErasedArgs::Bool(cursor)) => Some(Input::Cursor(cursor)),
            (EventId::Focus, ErasedArgs::Bool(focused)) => Some(Input::Focus(focused)),
            (EventId::MouseCursor, ErasedArgs::Position(x, y)) => Some(
                Input::Move(Motion::MouseCursor(x, y)),
            ),
            (EventId::MouseRelative, ErasedArgs::Position(x, y)) => Some(
                Input::Move(Motion::MouseRelative(x, y)),
            ),
            (EventId::MouseScroll, ErasedArgs::Position(x, y)) => Some(
                Input::Move(Motion::MouseScroll(x, y)),
            ),
            (EventId::Press, ErasedArgs::Button(button)) => Some(Input::Press(button)),
            (EventId::Release, ErasedArgs::Button(button)) => Some(Input::Release(button)),
            (EventId::Resize, ErasedArgs::Size(w, h)) => Some(Input::Resize(w, h)),
            (EventId::Text, ErasedArgs::Text(text)) => Some(Input::Text(text)),
            (EventId::Touch, ErasedArgs::Touch(args)) => Some(Input::Move(Motion::Touch(args))),
            _ => None,
        }
    }

    fn event_id(&self) -> (id: EventId) {
        match self {
            Input::Cursor(_) => EventId::Cursor,
            Input::Focus(_) => EventId::Focus,
            Input::Close => EventId::Close,
            Input::Move(Motion::MouseCursor(_, _)) => EventId::MouseCursor,
            Input::Move(Motion::MouseRelative(_, _)) => EventId::MouseRelative,
            Input::Move(Motion::MouseScroll(_, _)) => EventId::MouseScroll,
            Input::Move(Motion::ControllerAxis(_)) => EventId::ControllerAxis,
            Input::Move(Motion::Touch(_)) => EventId::Touch,
            Input::Press(_) => EventId::Press,
            Input::Release(_) => EventId::Release,
            Input::Resize(_, _) => EventId::Resize,
            Input::Text(_) => EventId::Text,
        }
    }

    fn with_args<F, U>(&self, mut f: F) -> (res: U) where
        F: FnMut(&ErasedArgs) -> U,
    {
        match self {
            Input::Cursor(cursor) => f(&ErasedArgs::Bool(*cursor)),
            Input::Focus(focused) => f(&ErasedArgs::Bool(*focused)),
            Input::Close => f(&ErasedArgs::Empty),
            Input::Move(Motion::ControllerAxis(args)) => f(&ErasedArgs::ControllerAxis(*args)),
            Input::Move(Motion::MouseCursor(x, y)) => f(&ErasedArgs::Position(*x, *y)),
            Input::Move(Motion::MouseRelative(x, y)) => f(&ErasedArgs::Position(*x, *y)),
            Input::Move(Motion::MouseScroll(x, y)) => f(&ErasedArgs::Position(*x, *y)),
            Input::Move(Motion::Touch(args)) => f(&ErasedArgs::Touch(*args)),
            Input::Press(button) => f(&ErasedArgs::Button(*button)),
            Input::Release(button) => f(&ErasedArgs::Button(*button)),
            Input::Resize(w, h) => f(&ErasedArgs::Size(*w, *h)),
            Input::Text(text) => f(&ErasedArgs::Text(text.clone())),
        }
    }

    fn recognizes(event_id: EventId, _old_event: &Self) -> (known: bool) {
        match event_id {
            EventId::ControllerAxis
            | EventId::Cursor
            | EventId::Focus
            | EventId::MouseCursor
            | EventId::MouseRelative
            | EventId::MouseScroll
            | EventId::Press
            | EventId::Release
            | EventId::Resize
            | EventId::Text
            | EventId::Touch => true,
            _ => false,
        }
    }

    fn from_args(event_id: EventId, any: &ErasedArgs, _old_event: &Self) -> (event: Option<Self>) {
        match event_id {
            EventId::ControllerAxis => {
                if let ErasedArgs::ControllerAxis(args) = any {
                    Some(Input::Move(Motion::ControllerAxis(*args)))
                } else {
                    unreached()
                }
            },
            EventId::Cursor => {
                if let ErasedArgs::Bool(cursor) = any {
                    Some(Input::Cursor(*cursor))
                } else {
                    unreached()
                }
            },
            EventId::Focus => {
                if let ErasedArgs::Bool(focused) = any {
                    Some(Input::Focus(*focused))
                } else {
                    unreached()
                }
            },
            EventId::MouseCursor => {
                if let ErasedArgs::Position(x, y) = any {
                    Some(Input::Move(Motion::MouseCursor(*x, *y)))
                } else {
                    unreached()
                }
            },
            EventId::MouseRelative => {
                if let ErasedArgs::Position(x, y) = any {
                    Some(Input::Move(Motion::MouseRelative(*x, *y)))
                } else {
                    unreached()
                }
            },
            EventId::MouseScroll => {
                if let ErasedArgs::Position(x, y) = any {
                    Some(Input::Move(Motion::MouseScroll(*x, *y)))
                } else {
                    unreached()
                }
            },
            EventId::Press => {
                if let ErasedArgs::Button(button) = any {
                    Some(Input::Press(*button))
                } else {
                    unreached()
                }
            },
            EventId::Release => {
                if let ErasedArgs::Button(button) = any {
                    Some(Input::Release(*button))
                } else {
                    unreached()
                }
            },
            EventId::Resize => {
                if let ErasedArgs::Size(w, h) = any {
                    Some(Input::Resize(*w, *h))
                } else {
                    unreached()
                }
            },
            EventId::Text => {
                if let ErasedArgs::Text(text) = any {
                    Some(Input::Text(text.clone()))
                } else {
                    unreached()
                }
            },
            EventId::Touch => {
                if let ErasedArgs::Touch(args) = any {
                    Some(Input::Move(Motion::Touch(*args)))
                } else {
                    unreached()
                }
            },
            _ => None,
        }
    }

    proof fn lemma_lens_names_id(&self) {
    }

    proof fn lemma_args_match_lens(&self) {
    }

    proof fn lemma_from_args_agrees_with_lens(old_event: &Self) {
    }
}

impl<I: GenericEvent> GenericEvent for Event<I> {
    open spec fn spec_event_id(&self) -> EventId {
        match self {
            Event::Update(_) => EventId::Update,
            Event::Render(_) => EventId::Render,
            Event::AfterRender(_) => EventId::AfterRender,
            Event::Idle(_) => EventId::Idle,
            Event::Input(input) => input.spec_event_id(),
        }
    }

    open spec fn spec_args(&self) -> ErasedArgs {
        match self {
            Event::Update(args) => ErasedArgs::Update(*args),
            Event::Render(args) => ErasedArgs::Render(*args),
            Event::AfterRender(args) => ErasedArgs::AfterRender(*args),
            Event::Idle(args) => ErasedArgs::Idle(*args),
            Event::Input(input) => input.spec_args(),
        }
    }

    /// The four ticks are always built. What else the input type recognizes is
    /// built where the old event holds an input.
    open spec fn spec_recognizes(event_id: EventId, old_event: &Self) -> bool {
        match event_id {
            EventId::Update | EventId::Render | EventId::AfterRender | EventId::Idle => true,
            _ => old_event matches Event::Input(old_input) && I::spec_recognizes(
                event_id,
                old_input,
            ),
        }
    }

    open spec fn spec_from_args(event_id: EventId, any: ErasedArgs, old_event: &Self) -> Option<
        Self,
    > {
        match event_id {
            EventId::Update => match any {
                ErasedArgs::Update(args) => Some(Event::Update(args)),
                _ => None,
            },
            EventId::Render => match any {
                ErasedArgs::Render(args) => Some(Event::Render(args)),
                _ => None,
            },
            EventId::AfterRender => match any {
                ErasedArgs::AfterRender(args) => Some(Event::AfterRender(args)),
                _ => None,
            },
            EventId::Idle => match any {
                ErasedArgs::Idle(args) => Some(Event::Idle(args)),
                _ => None,
            },
            _ => match old_event {
                Event::Input(old_input) => match I::spec_from_args(event_id, any, old_input) {
                    Some(input) => Some(Event::Input(input)),
                    None => None,
                },
                _ => None,
            },
        }
    }

    fn event_id(&self) -> (id: EventId) {
        match self {
            Event::Update(_) => EventId::Update,
            Event::Render(_) => EventId::Render,
            Event::AfterRender(_) => EventId::AfterRender,
            Event::Idle(_) => EventId::Idle,
            Event::Input(input) => input.event_id(),
        }
    }

    fn with_args<F, U>(&self, mut f: F) -> (res: U) where
        F: FnMut(&ErasedArgs) -> U,
    {
        match self {
            Event::Update(args) => f(&ErasedArgs::Update(*args)),
            Event::Render(args) => f(&ErasedArgs::Render(*args)),
            Event::AfterRender(args) => f(&ErasedArgs::AfterRender(*args)),
            Event::Idle(args) => f(&ErasedArgs::Idle(*args)),
            Event::Input(input) => input.with_args(f),
        }
    }

    fn recognizes(event_id: EventId, old_event: &Self) -> (known: bool) {
        match event_id {
            EventId::Update | EventId::Render | EventId::AfterRender | EventId::Idle => true,
            _ => match old_event {
                Event::Input(old_input) => <I as GenericEvent>::recognizes(event_id, old_input),
                _ => false,
            },
        }
    }

    fn from_args(event_id: EventId, any: &ErasedArgs, old_event: &Self) -> (event: Option<Self>) {
        match event_id {
            EventId::Update => {
                if let ErasedArgs::Update(args) = any {
                    Some(Event::Update(*args))
                } else {
                    unreached()
                }
            },
            EventId::Render => {
                if let ErasedArgs::Render(args) = any {
                    Some(Event::Render(*args))
                } else {
                    unreached()
                }
            },
            EventId::AfterRender => {
                if let ErasedArgs::AfterRender(args) = any {
                    Some(Event::AfterRender(*args))
                } else {
                    unreached()
                }
            },
            EventId::Idle => {
                if let ErasedArgs::Idle(args) = any {
                    Some(Event::Idle(*args))
                } else {
                    unreached()
                }
            },
            _ => {
                if let Event::Input(old_input) = old_event {
                    let input: Option<I> = GenericEvent::from_args(event_id, any, old_input);
                    match input {
                        Some(x) => Some(Event::Input(x)),
                        None => None,
                    }
                } else {
                    None
                }
            },
        }
    }

    proof fn lemma_lens_names_id(&self) {
        if let Event::Input(input) = self {
            input.lemma_lens_names_id();
        }
    }

    proof fn lemma_args_match_lens(&self) {
        if let Event::Input(input) = self {
            input.lemma_args_match_lens();
        }
    }

    proof fn lemma_from_args_agrees_with_lens(old_event: &Self) {
        if let Event::Input(old_input) = old_event {
            I::lemma_from_args_agrees_with_lens(old_input);
        }
    }
}

} // verus!
