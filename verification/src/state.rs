//! View state and input-event dispatch.
//!
//! One batch of window events is drained per frame. Events are applied in
//! delivery order against the shared view state: a resize replaces the
//! viewport dimensions (clamped away from zero), a pointer move recomputes
//! the complex parameter from the dimensions current at that moment, a
//! close request latches the termination flag, and any unrecognized event
//! is a no-op. Later events override earlier ones within a batch.

use vstd::prelude::*;

use crate::geometry::ComplexParameter;
use crate::geometry::Dimensions;
use crate::geometry::Rat;
use crate::geometry::param_im_spec;
use crate::geometry::param_re_spec;
use crate::geometry::pointer_to_param;
use crate::geometry::spec_clamp;

verus! {

/// One window or input event, as handed to the core by the event source.
/// Kinds the core does not react to arrive as `Other`.
#[derive(Clone, Copy, Debug)]
pub enum InputEvent {
    Close,
    Resize { width: u32, height: u32 },
    PointerMoved { x: u32, y: u32 },
    Other,
}

/// The mutable state of the view: the viewport, the complex parameter
/// driving the visualization, and the pending close request.
#[derive(Clone, Copy, Debug)]
pub struct ViewState {
    pub dims: Dimensions,
    pub c: ComplexParameter,
    pub close_requested: bool,
}

/// The view state at startup: the initial framebuffer dimensions (clamped)
/// and the parameter at the origin.
pub open spec fn initial_view_spec(width: u32, height: u32) -> ViewState {
    ViewState {
        dims: Dimensions { width: spec_clamp(width), height: spec_clamp(height) },
        c: ComplexParameter { re: Rat { num: 0, den: 1 }, im: Rat { num: 0, den: 1 } },
        close_requested: false,
    }
}

impl ViewState {
    /// The viewport is non-degenerate and the parameter's denominators are
    /// positive.
    pub open spec fn wf(self) -> bool {
        self.dims.wf() && self.c.wf()
    }

    /// The state at startup: the initial framebuffer dimensions (clamped)
    /// and the parameter at the origin.
    pub fn new(width: u32, height: u32) -> (s: ViewState)
        ensures
            s == initial_view_spec(width, height),
            s.c.re.is_int(0) && s.c.im.is_int(0),
            s.wf(),
    {
        ViewState {
            dims: Dimensions::clamped(width, height),
            c: ComplexParameter { re: Rat { num: 0, den: 1 }, im: Rat { num: 0, den: 1 } },
            close_requested: false,
        }
    }
}

/// The state after one event is applied.
pub open spec fn apply_event_spec(s: ViewState, e: InputEvent) -> ViewState {
    match e {
        InputEvent::Close => ViewState { close_requested: true, ..s },
        InputEvent::Resize { width, height } => ViewState {
            dims: Dimensions { width: spec_clamp(width), height: spec_clamp(height) },
            ..s
        },
        InputEvent::PointerMoved { x, y } => ViewState {
            c: ComplexParameter {
                re: param_re_spec(s.dims, x),
                im: param_im_spec(s.dims, y),
            },
            ..s
        },
        InputEvent::Other => s,
    }
}

/// The state after a batch of events is applied in delivery order.
pub open spec fn apply_events_spec(s: ViewState, evs: Seq<InputEvent>) -> ViewState
    decreases evs.len(),
{
    if evs.len() == 0 {
        s
    } else {
        apply_events_spec(apply_event_spec(s, evs[0]), evs.skip(1))
    }
}

/// Whether a batch holds a close request anywhere.
pub open spec fn has_close(evs: Seq<InputEvent>) -> bool {
    exists|i: int| 0 <= i < evs.len() && evs[i] is Close
}

impl ViewState {
    /// Apply one event to the view state.
    pub fn apply_event(&mut self, e: InputEvent)
        requires
            old(self).wf(),
        ensures
            *final(self) == apply_event_spec(*old(self), e),
            final(self).wf(),
    {
        match e {
            InputEvent::Close => {
                self.close_requested = true;
            },
            InputEvent::Resize { width, height } => {
                self.dims = Dimensions::clamped(width, height);
            },
            InputEvent::PointerMoved { x, y } => {
                self.c = pointer_to_param(self.dims, x, y);
            },
            InputEvent::Other => {},
        }
    }

    /// Drain one batch of pending events, applying them in delivery order.
    pub fn drain(&mut self, events: &Vec<InputEvent>)
        requires
            old(self).wf(),
        ensures
            *final(self) == apply_events_spec(*old(self), events@),
            final(self).wf(),
    {
        let ghost initial: ViewState = *self;
        proof {
            assert(events@.skip(0) =~= events@);
        }
        let mut i: usize = 0;
        while i < events.len()
            invariant
                i <= events.len(),
                self.wf(),
                apply_events_spec(*self, events@.skip(i as int)) == apply_events_spec(
                    initial,
                    events@,
                ),
            decreases events.len() - i,
        {
            proof {
                assert(events@.skip(i as int)[0] == events@[i as int]);
                assert(events@.skip(i as int).skip(1) =~= events@.skip(i as int + 1));
            }
            self.apply_event(events[i]);
            i = i + 1;
        }
        proof {
            assert(events@.skip(events@.len() as int) =~= Seq::<InputEvent>::empty());
        }
    }
}

/// A close request is latched, never lost: after a batch is drained the
/// close flag is set exactly when it was set before or the batch holds a
/// `Close` event anywhere.
pub proof fn lemma_close_latches(s: ViewState, evs: Seq<InputEvent>)
    ensures
        apply_events_spec(s, evs).close_requested == (s.close_requested || has_close(evs)),
    decreases evs.len(),
{
    if evs.len() == 0 {
    } else {
        let s1 = apply_event_spec(s, evs[0]);
        lemma_close_latches(s1, evs.skip(1));
        assert(has_close(evs) == (evs[0] is Close || has_close(evs.skip(1)))) by {
            if evs[0] is Close {
                assert(has_close(evs));
            }
            if has_close(evs.skip(1)) {
                let i = choose|i: int| 0 <= i < evs.skip(1).len() && evs.skip(1)[i] is Close;
                assert(evs[i + 1] is Close);
            }
            if has_close(evs) {
                let i = choose|i: int| 0 <= i < evs.len() && evs[i] is Close;
                if i > 0 {
                    assert(evs.skip(1)[i - 1] is Close);
                }
            }
        }
    }
}

/// A resize followed by a pointer move to the exact center of the new
/// viewport yields the complex parameter zero, whatever the prior state:
/// the viewport center always maps to the origin of the parameter plane.
pub proof fn lemma_center_after_resize(s: ViewState, width: u32, height: u32, x: u32, y: u32)
    requires
        width >= 1,
        height >= 1,
        2 * x == width,
        2 * y == height,
    ensures
        ({
            let after = apply_events_spec(
                s,
                seq![
                    InputEvent::Resize { width, height },
                    InputEvent::PointerMoved { x, y },
                ],
            );
            after.c.re.is_int(0) && after.c.im.is_int(0)
        }),
{
    let evs = seq![
        InputEvent::Resize { width, height },
        InputEvent::PointerMoved { x, y },
    ];
    let s1 = apply_event_spec(s, evs[0]);
    let s2 = apply_event_spec(s1, evs[1]);
    assert(evs.skip(1)[0] == evs[1]);
    assert(evs.skip(1).skip(1) =~= Seq::<InputEvent>::empty());
    assert(apply_events_spec(s, evs) == apply_events_spec(s1, evs.skip(1)));
    assert(apply_events_spec(s1, evs.skip(1)) == apply_events_spec(s2, evs.skip(1).skip(1)));
    assert(apply_events_spec(s2, Seq::<InputEvent>::empty()) == s2);
}

/// The viewport never degenerates: draining any batch from a well-formed
/// state leaves the dimensions at 1 or more, so no aspect computation ever
/// divides by zero.
pub proof fn lemma_dims_stay_wf(s: ViewState, evs: Seq<InputEvent>)
    requires
        s.wf(),
    ensures
        apply_events_spec(s, evs).wf(),
    decreases evs.len(),
{
    if evs.len() == 0 {
    } else {
        lemma_dims_stay_wf(apply_event_spec(s, evs[0]), evs.skip(1));
    }
}

} // verus!
