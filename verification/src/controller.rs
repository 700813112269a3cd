//! Back-end agnostic controller events.

use vstd::prelude::*;
use crate::scalar::Scalar;
use crate::{Event, Input, Motion};

verus! {

/// Components of a controller button event. Not guaranteed consistent across
/// backends.
#[derive(Copy, Clone, PartialEq, Eq, Debug, Hash, Structural)]
pub struct ControllerButton {
    /// Which controller was the button on.
    pub id: i32,
    /// Which button was pressed.
    pub button: u8,
}

impl ControllerButton {
    /// Create a new ControllerButton object. Intended for use by backends when
    /// emitting events.
    pub fn new(id: i32, button: u8) -> (this: Self)
        ensures
            this == (ControllerButton { id, button }),
    {
        ControllerButton { id: id, button: button }
    }
}

/// Components of a controller axis move event. Not guaranteed consistent across
/// backends.
#[derive(Copy, Clone, PartialEq, Debug)]
pub struct ControllerAxisArgs {
    /// Which controller moved.
    pub id: i32,
    /// The axis that moved.
    pub axis: u8,
    /// Position of the controller. Usually between -1 and 1, though backends
    /// may use a different range for various devices.
    pub position: Scalar,
}

impl ControllerAxisArgs {
    /// Create a new ControllerAxisArgs object. Intended for use by backends when
    /// emitting events.
    pub fn new(id: i32, axis: u8, position: Scalar) -> (this: Self)
        ensures
            this == (ControllerAxisArgs { id, axis, position }),
    {
        ControllerAxisArgs { id: id, axis: axis, position: position }
    }
}

/// The position of a controller axis changed.
pub trait ControllerAxisEvent: Sized {
    /// The arguments that this event carries, if it is a controller axis event.
    spec fn spec_controller_axis_args(&self) -> Option<ControllerAxisArgs>;

    /// The event that `from_controller_axis_args` builds.
    spec fn spec_from_controller_axis_args(
        args: ControllerAxisArgs,
        old_event: &Self,
    ) -> Option<Self>;

    /// Creates a controller axis event.
    fn from_controller_axis_args(
        args: ControllerAxisArgs,
        old_event: &Self,
    ) -> (event: Option<Self>)
        ensures
            event == Self::spec_from_controller_axis_args(args, old_event),
    ;

    /// Calls closure if this is a controller axis event.
    fn controller_axis<U, F>(&self, f: F) -> (res: Option<U>) where
        F: FnMut(ControllerAxisArgs) -> U,
        requires
            self.spec_controller_axis_args() matches Some(args) ==> f.requires((args,)),
        ensures
            match self.spec_controller_axis_args() {
                Some(args) => res matches Some(u) && f.ensures((args,), u),
                None => res is None,
            },
    ;

    /// Returns controller axis arguments.
    fn controller_axis_args(&self) -> (args: Option<ControllerAxisArgs>)
        ensures
            args == self.spec_controller_axis_args(),
    {
        self.controller_axis(
            |args: ControllerAxisArgs| -> (out: ControllerAxisArgs)
                ensures out == args
                { args },
        )
    }

    /// An event built from `args` is a controller axis event, and carries `args`.
    proof fn lemma_controller_axis_round_trip(args: ControllerAxisArgs, old_event: &Self)
        ensures
            Self::spec_from_controller_axis_args(args, old_event) matches Some(event)
                ==> event.spec_controller_axis_args() == Some(args),
    ;
}

impl ControllerAxisEvent for Input {
    open spec fn spec_controller_axis_args(&self) -> Option<ControllerAxisArgs> {
        match self {
            Input::Move(Motion::ControllerAxis(args)) => Some(*args),
            _ => None,
        }
    }

    open spec fn spec_from_controller_axis_args(
        args: ControllerAxisArgs,
        old_event: &Self,
    ) -> Option<Self> {
        Some(Input::Move(Motion::ControllerAxis(args)))
    }

    fn from_controller_axis_args(
        args: ControllerAxisArgs,
        _old_event: &Self,
    ) -> (event: Option<Self>) {
        Some(Input::Move(Motion::ControllerAxis(args)))
    }

    fn controller_axis<U, F>(&self, mut f: F) -> (res: Option<U>) where
        F: FnMut(ControllerAxisArgs) -> U,
    {
        match self {
            Input::Move(Motion::ControllerAxis(args)) => Some(f(*args)),
            _ => None,
        }
    }

    proof fn lemma_controller_axis_round_trip(args: ControllerAxisArgs, old_event: &Self) {
    }
}

impl<I: ControllerAxisEvent> ControllerAxisEvent for Event<I> {
    open spec fn spec_controller_axis_args(&self) -> Option<ControllerAxisArgs> {
        match self {
            Event::Input(input) => input.spec_controller_axis_args(),
            _ => None,
        }
    }

    open spec fn spec_from_controller_axis_args(
        args: ControllerAxisArgs,
        old_event: &Self,
    ) -> Option<Self> {
        match old_event {
            Event::Input(old_input) => match I::spec_from_controller_axis_args(args, old_input) {
                Some(input) => Some(Event::Input(input)),
                None => None,
            },
            _ => None,
        }
    }

    fn from_controller_axis_args(
        args: ControllerAxisArgs,
        old_event: &Self,
    ) -> (event: Option<Self>) {
        match old_event {
            Event::Input(old_input) => {
                match <I as ControllerAxisEvent>::from_controller_axis_args(args, old_input) {
                    Some(x) => Some(Event::Input(x)),
                    None => None,
                }
            },
            _ => None,
        }
    }

    fn controller_axis<U, F>(&self, f: F) -> (res: Option<U>) where
        F: FnMut(ControllerAxisArgs) -> U,
    {
        match self {
            Event::Input(x) => x.controller_axis(f),
            _ => None,
        }
    }

    proof fn lemma_controller_axis_round_trip(args: ControllerAxisArgs, old_event: &Self) {
        if let Event::Input(old_input) = old_event {
            I::lemma_controller_axis_round_trip(args, old_input);
        }
    }
}

} // verus!
