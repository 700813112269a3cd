//! Mouse motion events.

use vstd::prelude::*;
use crate::scalar::Scalar;
use crate::{Event, Input, Motion};

verus! {

/// The position of the mouse cursor
pub trait MouseCursorEvent: Sized {
    /// The coordinates of the mouse cursor, if this is a mouse cursor event.
    spec fn spec_mouse_cursor_args(&self) -> Option<(Scalar, Scalar)>;

    /// The event that `from_xy` builds.
    spec fn spec_from_mouse_cursor(x: Scalar, y: Scalar, old_event: &Self) -> Option<Self>;

    /// Creates a mouse cursor event.
    fn from_xy(x: Scalar, y: Scalar, old_event: &Self) -> (event: Option<Self>)
        ensures
            event == Self::spec_from_mouse_cursor(x, y, old_event),
    ;

    /// Calls closure if this is a mouse cursor event.
    fn mouse_cursor<U, F>(&self, f: F) -> (res: Option<U>) where
        F: FnMut(Scalar, Scalar) -> U,
        requires
            self.spec_mouse_cursor_args() matches Some((x, y)) ==> f.requires((x, y)),
        ensures
            match self.spec_mouse_cursor_args() {
                Some((x, y)) => res matches Some(u) && f.ensures((x, y), u),
                None => res is None,
            },
    ;

    /// Returns mouse cursor arguments.
    fn mouse_cursor_args(&self) -> (args: Option<(Scalar, Scalar)>)
        ensures
            args == self.spec_mouse_cursor_args(),
    {
        self.mouse_cursor(
            |x: Scalar, y: Scalar| -> (out: (Scalar, Scalar))
                ensures out == (x, y)
                { (x, y) },
        )
    }

    /// An event built from `x` and `y` is a mouse cursor event, and carries them.
    proof fn lemma_mouse_cursor_round_trip(x: Scalar, y: Scalar, old_event: &Self)
        ensures
            Self::spec_from_mouse_cursor(x, y, old_event) matches Some(event)
                ==> event.spec_mouse_cursor_args() == Some((x, y)),
    ;
}

impl MouseCursorEvent for Input {
    open spec fn spec_mouse_cursor_args(&self) -> Option<(Scalar, Scalar)> {
        match self {
            Input::Move(Motion::MouseCursor(x, y)) => Some((*x, *y)),
            _ => None,
        }
    }

    open spec fn spec_from_mouse_cursor(x: Scalar, y: Scalar, old_event: &Self) -> Option<Self> {
        Some(Input::Move(Motion::MouseCursor(x, y)))
    }

    fn from_xy(x: Scalar, y: Scalar, _old_event: &Self) -> (event: Option<Self>) {
        Some(Input::Move(Motion::MouseCursor(x, y)))
    }

    fn mouse_cursor<U, F>(&self, mut f: F) -> (res: Option<U>) where
        F: FnMut(Scalar, Scalar) -> U,
    {
        match self {
            Input::Move(Motion::MouseCursor(x, y)) => Some(f(*x, *y)),
            _ => None,
        }
    }

    proof fn lemma_mouse_cursor_round_trip(x: Scalar, y: Scalar, old_event: &Self) {
    }
}

impl<I: MouseCursorEvent> MouseCursorEvent for Event<I> {
    open spec fn spec_mouse_cursor_args(&self) -> Option<(Scalar, Scalar)> {
        match self {
            Event::Input(input) => input.spec_mouse_cursor_args(),
            _ => None,
        }
    }

    open spec fn spec_from_mouse_cursor(x: Scalar, y: Scalar, old_event: &Self) -> Option<Self> {
        match old_event {
            Event::Input(old_input) => match I::spec_from_mouse_cursor(x, y, old_input) {
                Some(input) => Some(Event::Input(input)),
                None => None,
            },
            _ => None,
        }
    }

    fn from_xy(x: Scalar, y: Scalar, old_event: &Self) -> (event: Option<Self>) {
        match old_event {
            Event::Input(old_input) => {
                match <I as MouseCursorEvent>::from_xy(x, y, old_input) {
                    Some(x) => Some(Event::Input(x)),
                    None => None,
                }
            },
            _ => None,
        }
    }

    fn mouse_cursor<U, F>(&self, f: F) -> (res: Option<U>) where
        F: FnMut(Scalar, Scalar) -> U,
    {
        match self {
            Event::Input(x) => x.mouse_cursor(f),
            _ => None,
        }
    }

    proof fn lemma_mouse_cursor_round_trip(x: Scalar, y: Scalar, old_event: &Self) {
        if let Event::Input(old_input) = old_event {
            I::lemma_mouse_cursor_round_trip(x, y, old_input);
        }
    }
}

/// The relative motion of the mouse
pub trait MouseRelativeEvent: Sized {
    /// The distance that the mouse moved, if this is a mouse relative event.
    spec fn spec_mouse_relative_args(&self) -> Option<(Scalar, Scalar)>;

    /// The event that `from_xy` builds.
    spec fn spec_from_mouse_relative(x: Scalar, y: Scalar, old_event: &Self) -> Option<Self>;

    /// Creates a mouse relative event.
    fn from_xy(x: Scalar, y: Scalar, old_event: &Self) -> (event: Option<Self>)
        ensures
            event == Self::spec_from_mouse_relative(x, y, old_event),
    ;

    /// Calls closure if this is a mouse relative event.
    fn mouse_relative<U, F>(&self, f: F) -> (res: Option<U>) where
        F: FnMut(Scalar, Scalar) -> U,
        requires
            self.spec_mouse_relative_args() matches Some((x, y)) ==> f.requires((x, y)),
        ensures
            match self.spec_mouse_relative_args() {
                Some((x, y)) => res matches Some(u) && f.ensures((x, y), u),
                None => res is None,
            },
    ;

    /// Returns mouse relative arguments.
    fn mouse_relative_args(&self) -> (args: Option<(Scalar, Scalar)>)
        ensures
            args == self.spec_mouse_relative_args(),
    {
        self.mouse_relative(
            |x: Scalar, y: Scalar| -> (out: (Scalar, Scalar))
                ensures out == (x, y)
                { (x, y) },
        )
    }

    /// An event built from `x` and `y` is a mouse relative event, and carries them.
    proof fn lemma_mouse_relative_round_trip(x: Scalar, y: Scalar, old_event: &Self)
        ensures
            Self::spec_from_mouse_relative(x, y, old_event) matches Some(event)
                ==> event.spec_mouse_relative_args() == Some((x, y)),
    ;
}

impl MouseRelativeEvent for Input {
    open spec fn spec_mouse_relative_args(&self) -> Option<(Scalar, Scalar)> {
        match self {
            Input::Move(Motion::MouseRelative(x, y)) => Some((*x, *y)),
            _ => None,
        }
    }

    open spec fn spec_from_mouse_relative(x: Scalar, y: Scalar, old_event: &Self) -> Option<Self> {
        Some(Input::Move(Motion::MouseRelative(x, y)))
    }

    fn from_xy(x: Scalar, y: Scalar, _old_event: &Self) -> (event: Option<Self>) {
        Some(Input::Move(Motion::MouseRelative(x, y)))
    }

    fn mouse_relative<U, F>(&self, mut f: F) -> (res: Option<U>) where
        F: FnMut(Scalar, Scalar) -> U,
    {
        match self {
            Input::Move(Motion::MouseRelative(x, y)) => Some(f(*x, *y)),
            _ => None,
        }
    }

    proof fn lemma_mouse_relative_round_trip(x: Scalar, y: Scalar, old_event: &Self) {
    }
}

impl<I: MouseRelativeEvent> MouseRelativeEvent for Event<I> {
    open spec fn spec_mouse_relative_args(&self) -> Option<(Scalar, Scalar)> {
        match self {
            Event::Input(input) => input.spec_mouse_relative_args(),
            _ => None,
        }
    }

    open spec fn spec_from_mouse_relative(x: Scalar, y: Scalar, old_event: &Self) -> Option<Self> {
        match old_event {
            Event::Input(old_input) => match I::spec_from_mouse_relative(x, y, old_input) {
                Some(input) => Some(Event::Input(input)),
                None => None,
            },
            _ => None,
        }
    }

    fn from_xy(x: Scalar, y: Scalar, old_event: &Self) -> (event: Option<Self>) {
        match old_event {
            Event::Input(old_input) => {
                match <I as MouseRelativeEvent>::from_xy(x, y, old_input) {
                    Some(x) => Some(Event::Input(x)),
                    None => None,
                }
            },
            _ => None,
        }
    }

    fn mouse_relative<U, F>(&self, f: F) -> (res: Option<U>) where
        F: FnMut(Scalar, Scalar) -> U,
    {
        match self {
            Event::Input(x) => x.mouse_relative(f),
            _ => None,
        }
    }

    proof fn lemma_mouse_relative_round_trip(x: Scalar, y: Scalar, old_event: &Self) {
        if let Event::Input(old_input) = old_event {
            I::lemma_mouse_relative_round_trip(x, y, old_input);
        }
    }
}

/// The scroll of the mouse wheel
pub trait MouseScrollEvent: Sized {
    /// The distance that the wheel turned, if this is a mouse scroll event.
    spec fn spec_mouse_scroll_args(&self) -> Option<(Scalar, Scalar)>;

    /// The event that `from_xy` builds.
    spec fn spec_from_mouse_scroll(x: Scalar, y: Scalar, old_event: &Self) -> Option<Self>;

    /// Creates a mouse scroll event.
    fn from_xy(x: Scalar, y: Scalar, old_event: &Self) -> (event: Option<Self>)
        ensures
            event == Self::spec_from_mouse_scroll(x, y, old_event),
    ;

    /// Calls closure if this is a mouse scroll event.
    fn mouse_scroll<U, F>(&self, f: F) -> (res: Option<U>) where
        F: FnMut(Scalar, Scalar) -> U,
        requires
            self.spec_mouse_scroll_args() matches Some((x, y)) ==> f.requires((x, y)),
        ensures
            match self.spec_mouse_scroll_args() {
                Some((x, y)) => res matches Some(u) && f.ensures((x, y), u),
                None => res is None,
            },
    ;

    /// Returns mouse scroll arguments.
    fn mouse_scroll_args(&self) -> (args: Option<(Scalar, Scalar)>)
        ensures
            args == self.spec_mouse_scroll_args(),
    {
        self.mouse_scroll(
            |x: Scalar, y: Scalar| -> (out: (Scalar, Scalar))
                ensures out == (x, y)
                { (x, y) },
        )
    }

    /// An event built from `x` and `y` is a mouse scroll event, and carries them.
    proof fn lemma_mouse_scroll_round_trip(x: Scalar, y: Scalar, old_event: &Self)
        ensures
            Self::spec_from_mouse_scroll(x, y, old_event) matches Some(event)
                ==> event.spec_mouse_scroll_args() == Some((x, y)),
    ;
}

impl MouseScrollEvent for Input {
    open spec fn spec_mouse_scroll_args(&self) -> Option<(Scalar, Scalar)> {
        match self {
            Input::Move(Motion::MouseScroll(x, y)) => Some((*x, *y)),
            _ => None,
        }
    }

    open spec fn spec_from_mouse_scroll(x: Scalar, y: Scalar, old_event: &Self) -> Option<Self> {
        Some(Input::Move(Motion::MouseScroll(x, y)))
    }

    fn from_xy(x: Scalar, y: Scalar, _old_event: &Self) -> (event: Option<Self>) {
        Some(Input::Move(Motion::MouseScroll(x, y)))
    }

    fn mouse_scroll<U, F>(&self, mut f: F) -> (res: Option<U>) where
        F: FnMut(Scalar, Scalar) -> U,
    {
        match self {
            Input::Move(Motion::MouseScroll(x, y)) => Some(f(*x, *y)),
            _ => None,
        }
    }

    proof fn lemma_mouse_scroll_round_trip(x: Scalar, y: Scalar, old_event: &Self) {
    }
}

impl<I: MouseScrollEvent> MouseScrollEvent for Event<I> {
    open spec fn spec_mouse_scroll_args(&self) -> Option<(Scalar, Scalar)> {
        match self {
            Event::Input(input) => input.spec_mouse_scroll_args(),
            _ => None,
        }
    }

    open spec fn spec_from_mouse_scroll(x: Scalar, y: Scalar, old_event: &Self) -> Option<Self> {
        match old_event {
            Event::Input(old_input) => match I::spec_from_mouse_scroll(x, y, old_input) {
                Some(input) => Some(Event::Input(input)),
                None => None,
            },
            _ => None,
        }
    }

    fn from_xy(x: Scalar, y: Scalar, old_event: &Self) -> (event: Option<Self>) {
        match old_event {
            Event::Input(old_input) => {
                match <I as MouseScrollEvent>::from_xy(x, y, old_input) {
                    Some(x) => Some(Event::Input(x)),
                    None => None,
                }
            },
            _ => None,
        }
    }

    fn mouse_scroll<U, F>(&self, f: F) -> (res: Option<U>) where
        F: FnMut(Scalar, Scalar) -> U,
    {
        match self {
            Event::Input(x) => x.mouse_scroll(f),
            _ => None,
        }
    }

    proof fn lemma_mouse_scroll_round_trip(x: Scalar, y: Scalar, old_event: &Self) {
        if let Event::Input(old_input) = old_event {
            I::lemma_mouse_scroll_round_trip(x, y, old_input);
        }
    }
}

} // verus!
