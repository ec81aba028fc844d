//! The render loop state machine and its hot-reload policy.
//!
//! The controller owns the active rendering program, the view state and the
//! loop phase. One frame is: attempt a reload (a success replaces the
//! program, a failure keeps it and is dropped), hand the current uniforms to
//! the draw call, then drain the pending events; a close request observed
//! while draining moves the loop to its terminal phase, after which no
//! further frame is produced.
//!
//! The program handle is an opaque type parameter: the GPU object it stands
//! for is created and destroyed outside the library.

use vstd::prelude::*;

use crate::geometry::ComplexParameter;
use crate::geometry::GeometryMapping;
use crate::geometry::mapping_for;
use crate::geometry::scale_x_spec;
use crate::geometry::scale_y_spec;
use crate::state::InputEvent;
use crate::state::ViewState;
use crate::state::apply_events_spec;
use crate::state::has_close;
use crate::state::initial_view_spec;
use crate::state::lemma_close_latches;

verus! {

/// Why a reload attempt produced no program. Both are recoverable: the
/// previous program keeps rendering.
#[derive(Debug)]
pub enum LoadError {
    /// A program source could not be read.
    SourceUnavailable,
    /// The compiler rejected the sources; the diagnostic text, where
    /// available, is carried along to be surfaced, never parsed.
    CompileFailed(String),
}

/// The phase of the render loop.
#[derive(Clone, Copy, Debug)]
pub enum Phase {
    Running,
    /// Terminal: entered on a close request, never left.
    Closing,
}

/// The active program after a sequence of reload attempts, starting from
/// `initial`: the payload of the latest successful attempt, or `initial` if
/// none succeeded yet.
pub open spec fn active_after<P>(initial: P, attempts: Seq<Result<P, LoadError>>) -> P
    decreases attempts.len(),
{
    if attempts.len() == 0 {
        initial
    } else {
        match attempts.last() {
            Ok(p) => p,
            Err(_) => active_after(initial, attempts.drop_last()),
        }
    }
}

/// Hot-reload fallback: if the reload attempt of frame `n` fails, the
/// active program after frame `n` is exactly the active program after frame
/// `n - 1`.
pub proof fn lemma_reload_fallback<P>(initial: P, attempts: Seq<Result<P, LoadError>>, n: int)
    requires
        0 <= n < attempts.len(),
        attempts[n] is Err,
    ensures
        active_after(initial, attempts.take(n + 1)) == active_after(initial, attempts.take(n)),
{
    assert(attempts.take(n + 1).drop_last() =~= attempts.take(n));
    assert(attempts.take(n + 1).last() == attempts[n]);
}

/// Hot-reload recovery: if the reload attempt of frame `n` succeeds with
/// program `p`, then `p` is the active program after frame `n`, whatever
/// happened on earlier frames.
pub proof fn lemma_reload_recovery<P>(initial: P, attempts: Seq<Result<P, LoadError>>, n: int)
    requires
        0 <= n < attempts.len(),
        attempts[n] is Ok,
    ensures
        active_after(initial, attempts.take(n + 1)) == attempts[n]->Ok_0,
{
    assert(attempts.take(n + 1).last() == attempts[n]);
}

/// The uniform inputs that vary per frame: the geometry mapping and the
/// complex parameter.
#[derive(Clone, Copy, Debug)]
pub struct FrameUniforms {
    pub screen_to_complex: GeometryMapping,
    pub c: ComplexParameter,
}

/// The render loop controller: the single owner of the active program, the
/// view state and the loop phase.
pub struct Controller<P> {
    pub program: P,
    pub view: ViewState,
    pub phase: Phase,
}

impl<P> Controller<P> {
    /// The view state is well formed and the phase mirrors the latched
    /// close request.
    pub open spec fn wf(self) -> bool {
        &&& self.view.wf()
        &&& (self.phase is Closing <==> self.view.close_requested)
    }

    /// A controller entering the loop. The initial program load must have
    /// succeeded before the loop may start, so a program is required here;
    /// a startup failure is fatal and never reaches this point.
    pub fn new(program: P, width: u32, height: u32) -> (ctl: Controller<P>)
        ensures
            ctl.program == program,
            ctl.view == initial_view_spec(width, height),
            ctl.phase is Running,
            ctl.wf(),
    {
        Controller { program, view: ViewState::new(width, height), phase: Phase::Running }
    }

    /// Whether another frame may be produced.
    pub fn is_running(&self) -> (r: bool)
        ensures
            r == (self.phase is Running),
    {
        match self.phase {
            Phase::Running => true,
            Phase::Closing => false,
        }
    }

    /// The frame-varying uniform inputs of the draw call, computed from the
    /// current view state.
    pub fn frame_uniforms(&self) -> (u: FrameUniforms)
        requires
            self.wf(),
        ensures
            u.screen_to_complex.scale_x == scale_x_spec(self.view.dims),
            u.screen_to_complex.scale_y == scale_y_spec(self.view.dims),
            u.c == self.view.c,
            u.screen_to_complex.wf() && u.c.wf(),
    {
        FrameUniforms { screen_to_complex: mapping_for(self.view.dims), c: self.view.c }
    }

    /// The first step of a frame: apply the outcome of this frame's reload
    /// attempt. A success replaces the active program wholesale, the old
    /// handle is discarded; a failure keeps the previous program unchanged
    /// and drops the error, so the loop never downgrades to an invalid
    /// program. Nothing else changes.
    pub fn apply_reload_outcome(&mut self, attempt: Result<P, LoadError>)
        requires
            old(self).wf(),
            old(self).phase is Running,
        ensures
            final(self).wf(),
            attempt matches Ok(p) ==> final(self).program == p,
            attempt is Err ==> final(self).program == old(self).program,
            final(self).view == old(self).view,
            final(self).phase is Running,
    {
        match attempt {
            Ok(p) => {
                self.program = p;
            },
            Err(_) => {},
        }
    }

    /// The last step of a frame, taken after the draw call was issued and
    /// presented: drain the pending events in delivery order, so they
    /// affect the next frame. A close request anywhere in the batch moves
    /// the loop to the terminal phase once the whole batch is applied, and
    /// no further frame is produced; otherwise the loop keeps running. The
    /// active program is untouched.
    pub fn finish_frame(&mut self, events: &Vec<InputEvent>)
        requires
            old(self).wf(),
            old(self).phase is Running,
        ensures
            final(self).wf(),
            final(self).program == old(self).program,
            final(self).view == apply_events_spec(old(self).view, events@),
            final(self).phase is Closing <==> has_close(events@),
    {
        self.view.drain(events);
        proof {
            lemma_close_latches(old(self).view, events@);
        }
        self.phase = if self.view.close_requested {
            Phase::Closing
        } else {
            Phase::Running
        };
    }
}

} // verus!
