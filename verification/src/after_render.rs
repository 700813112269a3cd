//! After render events.

use vstd::prelude::*;
use crate::{Event, Input};

verus! {

/// After render arguments.
#[derive(Copy, Clone, PartialEq, Eq, Debug, Hash, Structural)]
pub struct AfterRenderArgs;

/// After rendering and buffers are swapped
pub trait AfterRenderEvent: Sized {
    /// The arguments that this event carries, if it is an after render event.
    spec fn spec_after_render_args(&self) -> Option<AfterRenderArgs>;

    /// The event that `from_after_render_args` builds.
    spec fn spec_from_after_render_args(args: AfterRenderArgs, old_event: &Self) -> Option<Self>;

    /// Creates an after render event.
    fn from_after_render_args(args: &AfterRenderArgs, old_event: &Self) -> (event: Option<Self>)
        ensures
            event == Self::spec_from_after_render_args(*args, old_event),
    ;

    /// Calls closure if this is an after render event.
    fn after_render<U, F>(&self, f: F) -> (res: Option<U>) where
        F: FnMut(&AfterRenderArgs) -> U,
        requires
            self.spec_after_render_args() matches Some(args) ==> f.requires((&args,)),
        ensures
            match self.spec_after_render_args() {
                Some(args) => res matches Some(u) && f.ensures((&args,), u),
                None => res is None,
            },
    ;

    /// Returns after render arguments.
    fn after_render_args(&self) -> (args: Option<AfterRenderArgs>)
        ensures
            args == self.spec_after_render_args(),
    {
        self.after_render(
            |args: &AfterRenderArgs| -> (out: AfterRenderArgs)
                ensures out == *args
                { *args },
        )
    }

    /// An event built from `args` is an after render event, and carries `args`.
    proof fn lemma_after_render_round_trip(args: AfterRenderArgs, old_event: &Self)
        ensures
            Self::spec_from_after_render_args(args, old_event) matches Some(event)
                ==> event.spec_after_render_args() == Some(args),
    ;
}

impl AfterRenderEvent for Input {
    open spec fn spec_after_render_args(&self) -> Option<AfterRenderArgs> {
        None
    }

    open spec fn spec_from_after_render_args(
        args: AfterRenderArgs,
        old_event: &Self,
    ) -> Option<Self> {
        None
    }

    fn from_after_render_args(_args: &AfterRenderArgs, _old_event: &Self) -> (event: Option<Self>) {
        None
    }

    fn after_render<U, F>(&self, _f: F) -> (res: Option<U>) where
        F: FnMut(&AfterRenderArgs) -> U,
    {
        None
    }

    proof fn lemma_after_render_round_trip(args: AfterRenderArgs, old_event: &Self) {
    }
}

impl<I> AfterRenderEvent for Event<I> {
    open spec fn spec_after_render_args(&self) -> Option<AfterRenderArgs> {
        match self {
            Event::AfterRender(args) => Some(*args),
            _ => None,
        }
    }

    open spec fn spec_from_after_render_args(
        args: AfterRenderArgs,
        old_event: &Self,
    ) -> Option<Self> {
        Some(Event::AfterRender(args))
    }

    fn from_after_render_args(args: &AfterRenderArgs, _old_event: &Self) -> (event: Option<Self>) {
        Some(Event::AfterRender(*args))
    }

    fn after_render<U, F>(&self, mut f: F) -> (res: Option<U>) where
        F: FnMut(&AfterRenderArgs) -> U,
    {
        match self {
            Event::AfterRender(args) => Some(f(args)),
            _ => None,
        }
    }

    proof fn lemma_after_render_round_trip(args: AfterRenderArgs, old_event: &Self) {
    }
}

} // verus!
