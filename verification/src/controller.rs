//! The event-driven render-loop state machine.
//!
//! The controller starts `Uninitialized` and becomes `Active` when the host
//! windowing system delivers its resume signal, wrapping the surface that
//! was configured to the new window's size.  While active it binds each
//! window event to surface and renderer work, returned as an ordered list of
//! actions for the host loop to perform; events delivered in the wrong
//! state are absorbed as no-ops.  No transition leads back out of `Active`.

use crate::surface::{PresentationSurface, SurfaceConfiguration};
use vstd::prelude::*;

verus! {

/// A window event the host event source delivers.
#[derive(Clone, Copy, Debug, PartialEq, Eq, Structural)]
pub enum LoopEvent {
    /// The window exists and rendering may start; carries the surface
    /// configuration built for the window's current size.
    Resumed { config: SurfaceConfiguration },
    CloseRequested,
    Resized { width: u32, height: u32 },
    RedrawRequested,
}

/// Work the host loop performs on the controller's behalf, in order.
#[derive(Clone, Copy, Debug, PartialEq, Eq, Structural)]
pub enum LoopAction {
    /// Ask the windowing system for another redraw.
    RequestRedraw,
    /// Render one frame against the current surface texture.
    RenderFrame,
    /// Re-apply the stored configuration to the native surface.
    Reconfigure,
    /// Signal the event loop to terminate.
    Exit,
}

/// The controller's state: nothing yet, or an active surface.
#[derive(Clone, Copy, Debug, PartialEq, Eq, Structural)]
pub enum RenderLoopState {
    Uninitialized,
    Active { surface: PresentationSurface },
}

/// Validity of a state: an active surface keeps its configuration invariant.
pub open spec fn state_wf(state: RenderLoopState) -> bool {
    state matches RenderLoopState::Active { surface } ==> surface.wf()
}

/// Validity of an event: a resume carries a well-formed configuration.
pub open spec fn event_wf(event: LoopEvent) -> bool {
    event matches LoopEvent::Resumed { config } ==> config.wf()
}

/// The stored configuration after a resize request: unchanged when a
/// dimension is zero, otherwise exactly the requested size.
pub open spec fn resized_configuration(
    config: SurfaceConfiguration,
    width: u32,
    height: u32,
) -> SurfaceConfiguration {
    if width < 1 || height < 1 {
        config
    } else {
        SurfaceConfiguration { width, height, ..config }
    }
}

/// The state after one event.
pub open spec fn step_state(state: RenderLoopState, event: LoopEvent) -> RenderLoopState {
    match state {
        RenderLoopState::Uninitialized => match event {
            LoopEvent::Resumed { config } => RenderLoopState::Active {
                surface: PresentationSurface { config },
            },
            _ => RenderLoopState::Uninitialized,
        },
        RenderLoopState::Active { surface } => match event {
            LoopEvent::Resized { width, height } => RenderLoopState::Active {
                surface: PresentationSurface {
                    config: resized_configuration(surface.config, width, height),
                },
            },
            _ => RenderLoopState::Active { surface },
        },
    }
}

/// The ordered actions one event binds to.
pub open spec fn step_actions(state: RenderLoopState, event: LoopEvent) -> Seq<LoopAction> {
    match state {
        RenderLoopState::Uninitialized => match event {
            LoopEvent::Resumed { .. } => seq![LoopAction::RequestRedraw],
            _ => Seq::empty(),
        },
        RenderLoopState::Active { surface } => match event {
            LoopEvent::CloseRequested => seq![LoopAction::Exit],
            LoopEvent::RedrawRequested => seq![LoopAction::RenderFrame, LoopAction::RequestRedraw],
            LoopEvent::Resized { width, height } => if width >= 1 && height >= 1 {
                seq![LoopAction::Reconfigure]
            } else {
                Seq::empty()
            },
            LoopEvent::Resumed { .. } => Seq::empty(),
        },
    }
}

/// The render-loop controller: the state machine binding window events to
/// surface and renderer work.
pub struct RenderLoopController {
    pub state: RenderLoopState,
}

impl RenderLoopController {
    /// A fresh controller, before any window exists.
    pub fn new() -> (controller: RenderLoopController)
        ensures
            controller.state == RenderLoopState::Uninitialized,
    {
        RenderLoopController { state: RenderLoopState::Uninitialized }
    }

    /// Handles one window event: takes the transition of `step_state` and
    /// returns the ordered actions of `step_actions` for the host loop to
    /// perform.
    pub fn handle_event(&mut self, event: LoopEvent) -> (actions: Vec<LoopAction>)
        requires
            state_wf(old(self).state),
            event_wf(event),
        ensures
            final(self).state == step_state(old(self).state, event),
            state_wf(final(self).state),
            actions@ == step_actions(old(self).state, event),
    {
        let mut actions: Vec<LoopAction> = Vec::new();
        match self.state {
            RenderLoopState::Uninitialized => {
                match event {
                    LoopEvent::Resumed { config } => {
                        let surface = PresentationSurface::new(config);
                        self.state = RenderLoopState::Active { surface };
                        actions.push(LoopAction::RequestRedraw);
                    },
                    _ => {},
                }
            },
            RenderLoopState::Active { surface } => {
                match event {
                    LoopEvent::CloseRequested => {
                        actions.push(LoopAction::Exit);
                    },
                    LoopEvent::RedrawRequested => {
                        actions.push(LoopAction::RenderFrame);
                        actions.push(LoopAction::RequestRedraw);
                    },
                    LoopEvent::Resized { width, height } => {
                        let mut resized = surface;
                        let reconfigure = resized.resize(width, height);
                        self.state = RenderLoopState::Active { surface: resized };
                        if reconfigure {
                            actions.push(LoopAction::Reconfigure);
                        }
                    },
                    LoopEvent::Resumed { .. } => {},
                }
            },
        }
        proof {
            assert(actions@ =~= step_actions(old(self).state, event));
        }
        actions
    }
}

/// Delivering the resume signal while uninitialized activates the loop,
/// carrying the configuration that was built for the window.
pub proof fn lemma_resume_activates(config: SurfaceConfiguration)
    ensures
        step_state(RenderLoopState::Uninitialized, LoopEvent::Resumed { config })
            == (RenderLoopState::Active { surface: PresentationSurface { config } }),
{
}

/// No event deactivates the loop: once active, always active, so the
/// transition out of `Uninitialized` happens at most once in any run.
pub proof fn lemma_active_is_terminal(state: RenderLoopState, event: LoopEvent)
    requires
        state is Active,
    ensures
        step_state(state, event) is Active,
{
}

/// A close request while active triggers exactly one termination signal and
/// no further redraw request.
pub proof fn lemma_close_terminates_once(state: RenderLoopState)
    requires
        state is Active,
    ensures
        step_actions(state, LoopEvent::CloseRequested) == seq![LoopAction::Exit],
        !step_actions(state, LoopEvent::CloseRequested).contains(LoopAction::RequestRedraw),
{
    let actions = step_actions(state, LoopEvent::CloseRequested);
    assert forall|i: int| 0 <= i < actions.len() implies actions[i] != LoopAction::RequestRedraw by {
        assert(actions[i] == LoopAction::Exit);
    }
}

/// Any event other than resume is a no-op while uninitialized: no state
/// change and no work.
pub proof fn lemma_uninitialized_absorbs(event: LoopEvent)
    requires
        !(event is Resumed),
    ensures
        step_state(RenderLoopState::Uninitialized, event) == RenderLoopState::Uninitialized,
        step_actions(RenderLoopState::Uninitialized, event) == Seq::<LoopAction>::empty(),
{
}

} // verus!
