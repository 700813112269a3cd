//! Back-end agnostic input and application events.
//!
//! A window back-end produces [`Input`] values. An application loop wraps them,
//! together with its own update, render and idle ticks, in [`Event`]. Every
//! kind of event has a trait of its own (a lens) that builds an event of that
//! kind and reads its arguments back, and [`GenericEvent`] gives code that
//! knows nothing of the concrete event type a way to identify an event, to
//! look at its arguments and to build it again.
//!
//! Each lens is stated over two functions of the mathematical model: what the
//! lens reads from an event, and what it builds. The laws that tie them
//! together are proved for [`Input`] and for [`Event`] over any input type
//! that obeys them.

use vstd::prelude::*;

pub mod after_render;
pub mod controller;
pub mod cursor;
pub mod focus;
pub mod generic_event;
pub mod idle;
pub mod laws;
pub mod mouse;
pub mod press;
pub mod release;
pub mod render;
pub mod resize;
pub mod scalar;
pub mod text;
pub mod touch;
pub mod update;

pub use crate::after_render::{AfterRenderArgs, AfterRenderEvent};
pub use crate::controller::{ControllerAxisArgs, ControllerAxisEvent, ControllerButton};
pub use crate::cursor::CursorEvent;
pub use crate::focus::FocusEvent;
pub use crate::generic_event::{ErasedArgs, GenericEvent};
pub use crate::idle::{IdleArgs, IdleEvent};
pub use crate::mouse::{MouseCursorEvent, MouseRelativeEvent, MouseScrollEvent};
pub use crate::press::PressEvent;
pub use crate::release::ReleaseEvent;
pub use crate::render::{RenderArgs, RenderEvent};
pub use crate::resize::ResizeEvent;
pub use crate::scalar::Scalar;
pub use crate::text::TextEvent;
pub use crate::touch::{Touch, TouchArgs, TouchEvent};
pub use crate::update::{UpdateArgs, UpdateEvent};

verus! {

/// Names the kind of an event, whatever type carries the event.
///
/// Identifiers are only ever compared for equality.
#[derive(Copy, Clone, PartialEq, Eq, Debug, Hash, Structural)]
pub enum EventId {
    AfterRender,
    ControllerAxis,
    Cursor,
    Focus,
    Close,
    Idle,
    MouseScroll,
    MouseRelative,
    MouseCursor,
    Press,
    Release,
    Render,
    Resize,
    Text,
    Touch,
    Update,
}

/// Identifies the tick that follows rendering.
pub const AFTER_RENDER: EventId = EventId::AfterRender;

/// Identifies a move of a controller axis.
pub const CONTROLLER_AXIS: EventId = EventId::ControllerAxis;

/// Identifies the cursor entering or leaving the window.
pub const CURSOR: EventId = EventId::Cursor;

/// Identifies the window gaining or losing focus.
pub const FOCUS: EventId = EventId::Focus;

/// Identifies the closing of the window.
pub const CLOSE: EventId = EventId::Close;

/// Identifies the idle tick.
pub const IDLE: EventId = EventId::Idle;

/// Identifies a turn of the scroll wheel.
pub const MOUSE_SCROLL: EventId = EventId::MouseScroll;

/// Identifies a relative move of the mouse.
pub const MOUSE_RELATIVE: EventId = EventId::MouseRelative;

/// Identifies a move of the mouse cursor to a position.
pub const MOUSE_CURSOR: EventId = EventId::MouseCursor;

/// Identifies the press of a button.
pub const PRESS: EventId = EventId::Press;

/// Identifies the release of a button.
pub const RELEASE: EventId = EventId::Release;

/// Identifies the render tick.
pub const RENDER: EventId = EventId::Render;

/// Identifies a change of the window's size.
pub const RESIZE: EventId = EventId::Resize;

/// Identifies text typed into the window.
pub const TEXT: EventId = EventId::Text;

/// Identifies a touch.
pub const TOUCH: EventId = EventId::Touch;

/// Identifies the update tick.
pub const UPDATE: EventId = EventId::Update;

/// A control that can be pressed and released.
#[derive(Copy, Clone, PartialEq, Eq, Debug, Hash, Structural)]
pub enum Button {
    /// A key of the keyboard, by its key code.
    Keyboard(u32),
    /// A button of the mouse, by its number.
    Mouse(u8),
    /// A button of a controller.
    Controller(ControllerButton),
}

/// What moved, and where to.
#[derive(Copy, Clone, PartialEq, Debug)]
pub enum Motion {
    /// The mouse cursor is at x, y in window coordinates.
    MouseCursor(Scalar, Scalar),
    /// The mouse moved by x, y.
    MouseRelative(Scalar, Scalar),
    /// The scroll wheel turned by x, y.
    MouseScroll(Scalar, Scalar),
    /// A controller axis moved.
    ControllerAxis(ControllerAxisArgs),
    /// A finger or pen touched, moved or lifted.
    Touch(TouchArgs),
}

/// One occurrence of raw input from a device or from the window.
#[derive(Clone, PartialEq, Debug)]
pub enum Input {
    /// A button was pressed.
    Press(Button),
    /// A button was released.
    Release(Button),
    /// Something moved.
    Move(Motion),
    /// Text was typed.
    Text(String),
    /// The window changed its size to width, height.
    Resize(u32, u32),
    /// The window gained (true) or lost (false) focus.
    Focus(bool),
    /// The cursor entered (true) or left (false) the window.
    Cursor(bool),
    /// The window was closed.
    Close,
}

/// What an application loop hands out: its own ticks, and the input it got.
///
/// `I` is the type of the input; any type with the lenses of [`Input`] will do.
#[derive(Clone, PartialEq, Debug)]
pub enum Event<I = Input> {
    /// Draw a frame.
    Render(RenderArgs),
    /// A frame was drawn.
    AfterRender(AfterRenderArgs),
    /// Advance the application's state.
    Update(UpdateArgs),
    /// There is time to spare.
    Idle(IdleArgs),
    /// Input arrived.
    Input(I),
}

} // verus!
