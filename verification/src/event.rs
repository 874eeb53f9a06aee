//! What the match does about each event of the window's event loop.

use vstd::prelude::*;
use crate::keys::{after_input, KeyboardInput};
use crate::render::Step;
use crate::court::{Court, Trig};
use crate::state::PongState;

verus! {

/// An event of the window's event loop, as far as the match cares.
#[derive(Clone, Copy, Debug, PartialEq, Eq, Structural)]
pub enum Event {
    /// The user asked to close the window.
    CloseRequested,
    /// The window has a new size, in pixels.
    Resized { width: u32, height: u32 },
    /// A key went down or came up.
    KeyboardInput { input: KeyboardInput },
    /// All pending events have been handed over.
    MainEventsCleared,
    /// A frame is due, `delta_ms` milliseconds after the last one; `trig`
    /// holds the sine and cosine of the ball's heading.
    RedrawRequested { delta_ms: u128, trig: Trig },
    /// Anything else.
    Other,
}

/// What the event loop must do after an event.
#[derive(Debug)]
pub enum Reaction {
    /// Leave the loop.
    Exit,
    /// Configure the presentation surface for this size.
    Reconfigure { width: u32, height: u32 },
    /// Ask the window for a redraw.
    RequestRedraw,
    /// Carry out these requests on the graphics device, in order.
    Present { steps: Vec<Step> },
    /// Nothing.
    Nothing,
}

impl Court {
    /// The court after an event, where the bounces of a frame use `draws`.
    pub open spec fn after_event(self, event: Event, draws: (u32, u32, u32)) -> Court {
        match event {
            Event::Resized { width, height } => Court {
                surface_width: width as int,
                surface_height: height as int,
                ..self
            },
            Event::KeyboardInput { input } => Court { held: after_input(self.held, input), ..self },
            Event::RedrawRequested { delta_ms, trig } => self.advance(
                delta_ms as int,
                trig,
                draws,
            ).rendered(),
            _ => self,
        }
    }

    /// Whether `reaction` is what the event loop owes after an event, where
    /// the bounces of a frame use `draws`: a frame is simulated first and
    /// drawn from the state that results.
    pub open spec fn calls_for(self, event: Event, draws: (u32, u32, u32), reaction: Reaction) -> bool {
        match event {
            Event::CloseRequested => reaction is Exit,
            Event::Resized { width, height } => reaction == (Reaction::Reconfigure {
                width,
                height,
            }),
            Event::KeyboardInput { input } => reaction is Nothing,
            Event::MainEventsCleared => reaction is RequestRedraw,
            Event::RedrawRequested { delta_ms, trig } => reaction is Present
                && reaction->steps@ == self.advance(delta_ms as int, trig, draws).frame(),
            Event::Other => reaction is Nothing,
        }
    }
}

impl PongState {
    /// Takes one event of the event loop: changes the match as the event
    /// asks and says what the loop must do next. A frame changes the
    /// heading by random amounts where the ball bounces, so its outcome is
    /// the one stated for some three draws; every other event has one
    /// outcome, whatever the draws.
    pub fn handle(&mut self, event: Event) -> (reaction: Reaction)
        requires
            old(self)@.wf(),
            event is RedrawRequested ==> old(self)@.has_headroom(),
        ensures
            exists|draws: (u32, u32, u32)|
                {
                    &&& final(self)@ == #[trigger] old(self)@.after_event(event, draws)
                    &&& old(self)@.calls_for(event, draws, reaction)
                },
            final(self)@.wf(),
    {
        match event {
            Event::CloseRequested => {
                assert(self@ == old(self)@.after_event(event, (0u32, 0u32, 0u32)));
                Reaction::Exit
            },
            Event::Resized { width, height } => {
                self.resize(width, height);
                assert(self@ == old(self)@.after_event(event, (0u32, 0u32, 0u32)));
                Reaction::Reconfigure { width, height }
            },
            Event::KeyboardInput { input } => {
                self.input(input);
                assert(self@ == old(self)@.after_event(event, (0u32, 0u32, 0u32)));
                Reaction::Nothing
            },
            Event::MainEventsCleared => {
                assert(self@ == old(self)@.after_event(event, (0u32, 0u32, 0u32)));
                Reaction::RequestRedraw
            },
            Event::RedrawRequested { delta_ms, trig } => {
                self.update(delta_ms, trig);
                let ghost draws = choose|draws: (u32, u32, u32)|
                    self@ == old(self)@.advance(delta_ms as int, trig, draws);
                let steps: Vec<Step> = self.render();
                assert(self@ == old(self)@.after_event(event, draws));
                Reaction::Present { steps }
            },
            Event::Other => {
                assert(self@ == old(self)@.after_event(event, (0u32, 0u32, 0u32)));
                Reaction::Nothing
            },
        }
    }
}

} // verus!
