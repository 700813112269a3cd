//! Idle events.

use vstd::prelude::*;
use crate::scalar::Scalar;
use crate::{Event, Input};

verus! {

/// Idle arguments, such as expected idle time in seconds.
#[derive(Copy, Clone, PartialEq, Debug)]
pub struct IdleArgs {
    /// Expected idle time in seconds.
    pub dt: Scalar,
}

/// When the application loop has time to spare
pub trait IdleEvent: Sized {
    /// The arguments that this event carries, if it is an idle event.
    spec fn spec_idle_args(&self) -> Option<IdleArgs>;

    /// The event that `from_idle_args` builds.
    spec fn spec_from_idle_args(args: IdleArgs, old_event: &Self) -> Option<Self>;

    /// Creates an idle event.
    fn from_idle_args(args: &IdleArgs, old_event: &Self) -> (event: Option<Self>)
        ensures
            event == Self::spec_from_idle_args(*args, old_event),
    ;

    /// Creates an idle event with expected idle time.
    fn from_dt(dt: Scalar, old_event: &Self) -> (event: Option<Self>)
        ensures
            event == Self::spec_from_idle_args((IdleArgs { dt }), old_event),
    {
        IdleEvent::from_idle_args(&IdleArgs { dt: dt }, old_event)
    }

    /// Calls closure if this is an idle event.
    fn idle<U, F>(&self, f: F) -> (res: Option<U>) where
        F: FnMut(&IdleArgs) -> U,
        requires
            self.spec_idle_args() matches Some(args) ==> f.requires((&args,)),
        ensures
            match self.spec_idle_args() {
                Some(args) => res matches Some(u) && f.ensures((&args,), u),
                None => res is None,
            },
    ;

    /// Returns idle arguments.
    fn idle_args(&self) -> (args: Option<IdleArgs>)
        ensures
            args == self.spec_idle_args(),
    {
        self.idle(
            |args: &IdleArgs| -> (out: IdleArgs)
                ensures out == *args
                { *args },
        )
    }

    /// An event built from `args` is an idle event, and carries `args`.
    proof fn lemma_idle_round_trip(args: IdleArgs, old_event: &Self)
        ensures
            Self::spec_from_idle_args(args, old_event) matches Some(event)
                ==> event.spec_idle_args() == Some(args),
    ;
}

impl IdleEvent for Input {
    open spec fn spec_idle_args(&self) -> Option<IdleArgs> {
        None
    }

    open spec fn spec_from_idle_args(args: IdleArgs, old_event: &Self) -> Option<Self> {
        None
    }

    fn from_idle_args(_args: &IdleArgs, _old_event: &Self) -> (event: Option<Self>) {
        None
    }

    fn idle<U, F>(&self, _f: F) -> (res: Option<U>) where
        F: FnMut(&IdleArgs) -> U,
    {
        None
    }

    proof fn lemma_idle_round_trip(args: IdleArgs, old_event: &Self) {
    }
}

impl<I> IdleEvent for Event<I> {
    open spec fn spec_idle_args(&self) -> Option<IdleArgs> {
        match self {
            Event::Idle(args) => Some(*args),
            _ => None,
        }
    }

    open spec fn spec_from_idle_args(args: IdleArgs, old_event: &Self) -> Option<Self> {
        Some(Event::Idle(args))
    }

    fn from_idle_args(args: &IdleArgs, _old_event: &Self) -> (event: Option<Self>) {
        Some(Event::Idle(*args))
    }

    fn idle<U, F>(&self, mut f: F) -> (res: Option<U>) where
        F: FnMut(&IdleArgs) -> U,
    {
        match self {
            Event::Idle(args) => Some(f(args)),
            _ => None,
        }
    }

    proof fn lemma_idle_round_trip(args: IdleArgs, old_event: &Self) {
    }
}

} // verus!
