//! Touch events.

use vstd::prelude::*;
use crate::scalar::Scalar;
use crate::{Event, Input, Motion};

verus! {

/// The phase of a touch.
#[derive(Copy, Clone, PartialEq, Eq, Debug, Hash, Structural)]
pub enum Touch {
    /// The finger or pen came down.
    Start,
    /// It moved while down.
    Move,
    /// It was lifted.
    End,
    /// The touch was taken away, for example by a gesture of the system.
    Cancel,
}

/// Touch arguments. Not guaranteed consistent across backends.
#[derive(Copy, Clone, PartialEq, Debug)]
pub struct TouchArgs {
    /// The device that was touched.
    pub device: i64,
    /// Tells one finger or pen from another while it is down.
    pub id: i64,
    /// The horizontal coordinate, normalized to the touched surface.
    pub x: Scalar,
    /// The vertical coordinate, normalized to the touched surface.
    pub y: Scalar,
    /// How hard the surface is pressed.
    pub pressure: Scalar,
    /// The phase of the touch.
    pub touch: Touch,
}

impl TouchArgs {
    /// Creates arguments for a touch. Intended for use by backends when
    /// emitting events.
    pub fn new(
        device: i64,
        id: i64,
        x: Scalar,
        y: Scalar,
        pressure: Scalar,
        touch: Touch,
    ) -> (this: Self)
        ensures
            this == (TouchArgs { device, id, x, y, pressure, touch }),
    {
        TouchArgs { device: device, id: id, x: x, y: y, pressure: pressure, touch: touch }
    }
}

/// When a touch is started, moved, ended or cancelled
pub trait TouchEvent: Sized {
    /// The arguments that this event carries, if it is a touch event.
    spec fn spec_touch_args(&self) -> Option<TouchArgs>;

    /// The event that `from_touch_args` builds.
    spec fn spec_from_touch_args(args: TouchArgs, old_event: &Self) -> Option<Self>;

    /// Creates a touch event.
    fn from_touch_args(args: &TouchArgs, old_event: &Self) -> (event: Option<Self>)
        ensures
            event == Self::spec_from_touch_args(*args, old_event),
    ;

    /// Calls closure if this is a touch event.
    fn touch<U, F>(&self, f: F) -> (res: Option<U>) where
        F: FnMut(&TouchArgs) -> U,
        requires
            self.spec_touch_args() matches Some(args) ==> f.requires((&args,)),
        ensures
            match self.spec_touch_args() {
                Some(args) => res matches Some(u) && f.ensures((&args,), u),
                None => res is None,
            },
    ;

    /// Returns touch arguments.
    fn touch_args(&self) -> (args: Option<TouchArgs>)
        ensures
            args == self.spec_touch_args(),
    {
        self.touch(
            |args: &TouchArgs| -> (out: TouchArgs)
                ensures out == *args
                { *args },
        )
    }

    /// An event built from `args` is a touch event, and carries `args`.
    proof fn lemma_touch_round_trip(args: TouchArgs, old_event: &Self)
        ensures
            Self::spec_from_touch_args(args, old_event) matches Some(event)
                ==> event.spec_touch_args() == Some(args),
    ;
}

impl TouchEvent for Input {
    open spec fn spec_touch_args(&self) -> Option<TouchArgs> {
        match self {
            Input::Move(Motion::Touch(args)) => Some(*args),
            _ => None,
        }
    }

    open spec fn spec_from_touch_args(args: TouchArgs, old_event: &Self) -> Option<Self> {
        Some(Input::Move(Motion::Touch(args)))
    }

    fn from_touch_args(args: &TouchArgs, _old_event: &Self) -> (event: Option<Self>) {
        Some(Input::Move(Motion::Touch(*args)))
    }

    fn touch<U, F>(&self, mut f: F) -> (res: Option<U>) where
        F: FnMut(&TouchArgs) -> U,
    {
        match self {
            Input::Move(Motion::Touch(args)) => Some(f(args)),
            _ => None,
        }
    }

    proof fn lemma_touch_round_trip(args: TouchArgs, old_event: &Self) {
    }
}

impl<I: TouchEvent> TouchEvent for Event<I> {
    open spec fn spec_touch_args(&self) -> Option<TouchArgs> {
        match self {
            Event::Input(input) => input.spec_touch_args(),
            _ => None,
        }
    }

    open spec fn spec_from_touch_args(args: TouchArgs, old_event: &Self) -> Option<Self> {
        match old_event {
            Event::Input(old_input) => match I::spec_from_touch_args(args, old_input) {
                Some(input) => Some(Event::Input(input)),
                None => None,
            },
            _ => None,
        }
    }

    fn from_touch_args(args: &TouchArgs, old_event: &Self) -> (event: Option<Self>) {
        match old_event {
            Event::Input(old_input) => {
                match <I as TouchEvent>::from_touch_args(args, old_input) {
                    Some(x) => Some(Event::Input(x)),
                    None => None,
                }
            },
            _ => None,
        }
    }

    fn touch<U, F>(&self, f: F) -> (res: Option<U>) where
        F: FnMut(&TouchArgs) -> U,
    {
        match self {
            Event::Input(x) => x.touch(f),
            _ => None,
        }
    }

    proof fn lemma_touch_round_trip(args: TouchArgs, old_event: &Self) {
        if let Event::Input(old_input) = old_event {
            I::lemma_touch_round_trip(args, old_input);
        }
    }
}

} // verus!
