//! Update events.

use vstd::prelude::*;
use crate::scalar::Scalar;
use crate::{Event, Input};

verus! {

/// Update arguments, such as delta time in seconds
#[derive(Copy, Clone, PartialEq, Debug)]
pub struct UpdateArgs {
    /// Delta time in seconds.
    pub dt: Scalar,
}

/// When the application state should be updated
pub trait UpdateEvent: Sized {
    /// The arguments that this event carries, if it is an update event.
    spec fn spec_update_args(&self) -> Option<UpdateArgs>;

    /// The event that `from_update_args` builds.
    spec fn spec_from_update_args(args: UpdateArgs, old_event: &Self) -> Option<Self>;

    /// Creates an update event.
    fn from_update_args(args: &UpdateArgs, old_event: &Self) -> (event: Option<Self>)
        ensures
            event == Self::spec_from_update_args(*args, old_event),
    ;

    /// Creates an update event with delta time.
    fn from_dt(dt: Scalar, old_event: &Self) -> (event: Option<Self>)
        ensures
            event == Self::spec_from_update_args((UpdateArgs { dt }), old_event),
    {
        UpdateEvent::from_update_args(&UpdateArgs { dt: dt }, old_event)
    }

    /// Calls closure if this is an update event.
    fn update<U, F>(&self, f: F) -> (res: Option<U>) where
        F: FnMut(&UpdateArgs) -> U,
        requires
            self.spec_update_args() matches Some(args) ==> f.requires((&args,)),
        ensures
            match self.spec_update_args() {
                Some(args) => res matches Some(u) && f.ensures((&args,), u),
                None => res is None,
            },
    ;

    /// Returns update arguments.
    fn update_args(&self) -> (args: Option<UpdateArgs>)
        ensures
            args == self.spec_update_args(),
    {
        self.update(
            |args: &UpdateArgs| -> (out: UpdateArgs)
                ensures out == *args
                { *args },
        )
    }

    /// An event built from `args` is an update event, and carries `args`.
    proof fn lemma_update_round_trip(args: UpdateArgs, old_event: &Self)
        ensures
            Self::spec_from_update_args(args, old_event) matches Some(event)
                ==> event.spec_update_args() == Some(args),
    ;
}

impl UpdateEvent for Input {
    open spec fn spec_update_args(&self) -> Option<UpdateArgs> {
        None
    }

    open spec fn spec_from_update_args(args: UpdateArgs, old_event: &Self) -> Option<Self> {
        None
    }

    fn from_update_args(_args: &UpdateArgs, _old_event: &Self) -> (event: Option<Self>) {
        None
    }

    fn update<U, F>(&self, _f: F) -> (res: Option<U>) where
        F: FnMut(&UpdateArgs) -> U,
    {
        None
    }

    proof fn lemma_update_round_trip(args: UpdateArgs, old_event: &Self) {
    }
}

impl<I> UpdateEvent for Event<I> {
    open spec fn spec_update_args(&self) -> Option<UpdateArgs> {
        match self {
            Event::Update(args) => Some(*args),
            _ => None,
        }
    }

    open spec fn spec_from_update_args(args: UpdateArgs, old_event: &Self) -> Option<Self> {
        Some(Event::Update(args))
    }

    fn from_update_args(args: &UpdateArgs, _old_event: &Self) -> (event: Option<Self>) {
        Some(Event::Update(*args))
    }

    fn update<U, F>(&self, mut f: F) -> (res: Option<U>) where
        F: FnMut(&UpdateArgs) -> U,
    {
        match self {
            Event::Update(args) => Some(f(args)),
            _ => None,
        }
    }

    proof fn lemma_update_round_trip(args: UpdateArgs, old_event: &Self) {
    }
}

} // verus!
