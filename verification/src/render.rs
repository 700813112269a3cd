//! Render events.

use vstd::prelude::*;
use crate::scalar::Scalar;
use crate::{Event, Input};

verus! {

/// Render arguments
#[derive(Copy, Clone, PartialEq, Debug)]
pub struct RenderArgs {
    /// The part of the current update step that has passed, in seconds.
    /// Used to draw between two states of the application.
    pub ext_dt: Scalar,
    /// The width of the window, in points.
    pub width: u32,
    /// The height of the window, in points.
    pub height: u32,
    /// The width of the drawn area, in pixels.
    pub draw_width: u32,
    /// The height of the drawn area, in pixels.
    pub draw_height: u32,
}

/// When the next frame should be rendered
pub trait RenderEvent: Sized {
    /// The arguments that this event carries, if it is a render event.
    spec fn spec_render_args(&self) -> Option<RenderArgs>;

    /// The event that `from_render_args` builds.
    spec fn spec_from_render_args(args: RenderArgs, old_event: &Self) -> Option<Self>;

    /// Creates a render event.
    fn from_render_args(args: &RenderArgs, old_event: &Self) -> (event: Option<Self>)
        ensures
            event == Self::spec_from_render_args(*args, old_event),
    ;

    /// Calls closure if this is a render event.
    fn render<U, F>(&self, f: F) -> (res: Option<U>) where
        F: FnMut(&RenderArgs) -> U,
        requires
            self.spec_render_args() matches Some(args) ==> f.requires((&args,)),
        ensures
            match self.spec_render_args() {
                Some(args) => res matches Some(u) && f.ensures((&args,), u),
                None => res is None,
            },
    ;

    /// Returns render arguments.
    fn render_args(&self) -> (args: Option<RenderArgs>)
        ensures
            args == self.spec_render_args(),
    {
        self.render(
            |args: &RenderArgs| -> (out: RenderArgs)
                ensures out == *args
                { *args },
        )
    }

    /// An event built from `args` is a render event, and carries `args`.
    proof fn lemma_render_round_trip(args: RenderArgs, old_event: &Self)
        ensures
            Self::spec_from_render_args(args, old_event) matches Some(event)
                ==> event.spec_render_args() == Some(args),
    ;
}

impl RenderEvent for Input {
    open spec fn spec_render_args(&self) -> Option<RenderArgs> {
        None
    }

    open spec fn spec_from_render_args(args: RenderArgs, old_event: &Self) -> Option<Self> {
        None
    }

    fn from_render_args(_args: &RenderArgs, _old_event: &Self) -> (event: Option<Self>) {
        None
    }

    fn render<U, F>(&self, _f: F) -> (res: Option<U>) where
        F: FnMut(&RenderArgs) -> U,
    {
        None
    }

    proof fn lemma_render_round_trip(args: RenderArgs, old_event: &Self) {
    }
}

impl<I> RenderEvent for Event<I> {
    open spec fn spec_render_args(&self) -> Option<RenderArgs> {
        match self {
            Event::Render(args) => Some(*args),
            _ => None,
        }
    }

    open spec fn spec_from_render_args(args: RenderArgs, old_event: &Self) -> Option<Self> {
        Some(Event::Render(args))
    }

    fn from_render_args(args: &RenderArgs, _old_event: &Self) -> (event: Option<Self>) {
        Some(Event::Render(*args))
    }

    fn render<U, F>(&self, mut f: F) -> (res: Option<U>) where
        F: FnMut(&RenderArgs) -> U,
    {
        match self {
            Event::Render(args) => Some(f(args)),
            _ => None,
        }
    }

    proof fn lemma_render_round_trip(args: RenderArgs, old_event: &Self) {
    }
}

} // verus!
