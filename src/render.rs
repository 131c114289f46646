//! The render worker: the drawable state of a rotating square and the
//! messages that drive it.
//!
//! The worker owns the square's geometry, its rotation and whether a pointer
//! drag is in progress. Drawing itself is rasterisation on the caller's side:
//! `draw` hands out what to draw and advances the rotation.

use vstd::prelude::*;
use crate::geometry::{Point, Size};

verus! {

/// Half of a coordinate, rounded toward zero as integer division does.
pub open spec fn half(x: int) -> int {
    if x >= 0 {
        x / 2
    } else {
        -((-x) / 2)
    }
}

/// What the rotation is measured from.
#[derive(Clone, Copy, Debug, PartialEq, Eq, Structural)]
pub enum AngleAnchor {
    /// The starting rotation, a quarter of a half turn (π/4 radians).
    Initial,
    /// The direction of the vector `(dx, dy)`, that is `atan2(dy, dx)`.
    Toward { dx: i64, dy: i64 },
}

/// The square's rotation: its anchor plus `idle_steps` idle increments of one
/// hundredth of a radian each.
#[derive(Clone, Copy, Debug, PartialEq, Eq, Structural)]
pub struct Angle {
    pub anchor: AngleAnchor,
    pub idle_steps: u64,
}

/// The rotation one idle draw later. The step count stops at the top of `u64`.
pub open spec fn advanced(a: Angle) -> Angle {
    Angle {
        anchor: a.anchor,
        idle_steps: if a.idle_steps == u64::MAX {
            u64::MAX
        } else {
            (a.idle_steps + 1) as u64
        },
    }
}

/// The rotation that points the square from `pt` toward `center`.
pub open spec fn pointing_from(center: Point, pt: Point) -> Angle {
    Angle {
        anchor: AngleAnchor::Toward {
            dx: (center.x - pt.x) as i64,
            dy: (center.y - pt.y) as i64,
        },
        idle_steps: 0,
    }
}

/// Everything one frame shows: a canvas of `size`, and a square of
/// `square_size` at `square_offset`, turned by `angle` about its middle.
#[derive(Clone, Copy, Debug, PartialEq, Eq, Structural)]
pub struct FrameContent {
    pub size: Size,
    pub center: Point,
    pub square_offset: Point,
    pub square_size: Size,
    pub angle: Angle,
}

/// A message to the render worker.
#[derive(Clone, Copy, Debug, PartialEq, Eq, Structural)]
pub enum ApplicationEvent {
    /// Initialise for a canvas of `size`; only the first message may be this.
    Start { size: Size },
    /// Produce one frame.
    Draw,
    MouseButtonDown { which: i32, location: Point },
    MouseButtonUp { which: i32, location: Point },
    MouseButtonMoved { which: i32, location: Point },
}

/// Why the worker refused a message.
#[derive(Clone, Copy, Debug, PartialEq, Eq, Structural)]
pub enum WorkerError {
    /// The first message was not `Start`.
    NotStarted,
    /// A second `Start` arrived.
    AlreadyStarted,
}

/// What the worker answers to a message it accepted.
#[derive(Clone, Copy, Debug, PartialEq, Eq, Structural)]
pub enum WorkerReply {
    /// The frame to rasterise, for a `Draw`.
    Frame { content: FrameContent },
    /// Nothing to send back, for a pointer message.
    Done,
}

/// The render worker's state.
pub struct Application {
    size: Size,
    square_size: Size,
    square_offset: Point,
    center: Point,
    angle: Angle,
    tracking: bool,
}

/// The worker's state as plain values.
pub struct ApplicationView {
    pub size: Size,
    pub square_size: Size,
    pub square_offset: Point,
    pub center: Point,
    pub angle: Angle,
    pub tracking: bool,
}

impl View for Application {
    type V = ApplicationView;

    closed spec fn view(&self) -> ApplicationView {
        ApplicationView {
            size: self.size,
            square_size: self.square_size,
            square_offset: self.square_offset,
            center: self.center,
            angle: self.angle,
            tracking: self.tracking,
        }
    }
}

/// The smaller of two integers.
pub open spec fn min_int(a: int, b: int) -> int {
    if a <= b {
        a
    } else {
        b
    }
}

/// The state a worker starts in for a canvas of `size`: a square with sides
/// half the shorter dimension, centred, at the starting rotation, no drag.
pub open spec fn initial_state(size: Size) -> ApplicationView {
    let hw = half(size.width as int);
    let hh = half(size.height as int);
    let extent = min_int(hw, hh);
    ApplicationView {
        size,
        square_size: Size { width: extent as i32, height: extent as i32 },
        square_offset: Point { x: (hw - half(extent)) as i32, y: (hh - half(extent)) as i32 },
        center: Point { x: hw as i32, y: hh as i32 },
        angle: Angle { anchor: AngleAnchor::Initial, idle_steps: 0 },
        tracking: false,
    }
}

/// The frame a worker in state `v` draws.
pub open spec fn content_of(v: ApplicationView) -> FrameContent {
    FrameContent {
        size: v.size,
        center: v.center,
        square_offset: v.square_offset,
        square_size: v.square_size,
        angle: v.angle,
    }
}

/// The state after a draw: the rotation advances unless a drag is in progress.
pub open spec fn drawn(v: ApplicationView) -> ApplicationView {
    ApplicationView {
        angle: if v.tracking {
            v.angle
        } else {
            advanced(v.angle)
        },
        ..v
    }
}

/// The state after a pointer move to `pt`.
pub open spec fn moved(v: ApplicationView, pt: Point) -> ApplicationView {
    if v.tracking {
        ApplicationView { angle: pointing_from(v.center, pt), ..v }
    } else {
        v
    }
}

/// The state after a started worker handles `event`; a repeated `Start` is
/// refused and changes nothing.
pub open spec fn after_event(v: ApplicationView, event: ApplicationEvent) -> ApplicationView {
    match event {
        ApplicationEvent::Start { .. } => v,
        ApplicationEvent::Draw => drawn(v),
        ApplicationEvent::MouseButtonDown { .. } => ApplicationView { tracking: true, ..v },
        ApplicationEvent::MouseButtonUp { .. } => ApplicationView { tracking: false, ..v },
        ApplicationEvent::MouseButtonMoved { location, .. } => moved(v, location),
    }
}

/// The state after a started worker handles `events` in order.
pub open spec fn after_events(v: ApplicationView, events: Seq<ApplicationEvent>) -> ApplicationView
    decreases events.len(),
{
    if events.len() == 0 {
        v
    } else {
        after_event(after_events(v, events.drop_last()), events.last())
    }
}

/// The rotation a drag leaves: that of the last move in `events`, or `angle`
/// when there is none.
pub open spec fn drag_angle(angle: Angle, center: Point, events: Seq<ApplicationEvent>) -> Angle
    decreases events.len(),
{
    if events.len() == 0 {
        angle
    } else {
        match events.last() {
            ApplicationEvent::MouseButtonMoved { location, .. } => pointing_from(center, location),
            _ => drag_angle(angle, center, events.drop_last()),
        }
    }
}

/// True for the messages that may arrive while a drag lasts.
pub open spec fn keeps_drag(event: ApplicationEvent) -> bool {
    match event {
        ApplicationEvent::Draw => true,
        ApplicationEvent::MouseButtonDown { .. } => true,
        ApplicationEvent::MouseButtonMoved { .. } => true,
        _ => false,
    }
}

/// Idle rotation: with no drag in progress, each of two successive draws hands
/// out the rotation of the one before advanced by exactly one increment, never
/// by none (while the step count is below the top of `u64`).
pub proof fn lemma_idle_draws_advance(v: ApplicationView)
    requires
        !v.tracking,
        v.angle.idle_steps < u64::MAX - 1,
    ensures
        content_of(drawn(v)).angle == advanced(content_of(v).angle),
        content_of(drawn(drawn(v))).angle == advanced(content_of(drawn(v)).angle),
        content_of(drawn(v)).angle.anchor == content_of(v).angle.anchor,
        content_of(drawn(v)).angle.idle_steps == content_of(v).angle.idle_steps + 1,
        content_of(drawn(drawn(v))).angle.idle_steps == content_of(drawn(v)).angle.idle_steps + 1,
        content_of(drawn(v)).angle != content_of(v).angle,
{
}

/// Drag freeze: once a pointer is down, draws and further moves before the
/// pointer goes up leave the rotation to the moves alone; no draw applies the
/// idle increment, and every frame drawn shows the rotation of the last move.
pub proof fn lemma_drag_freezes_rotation(v: ApplicationView, events: Seq<ApplicationEvent>)
    requires
        v.tracking,
        forall|i: int| 0 <= i < events.len() ==> keeps_drag(#[trigger] events[i]),
    ensures
        after_events(v, events).tracking,
        after_events(v, events).center == v.center,
        after_events(v, events).angle == drag_angle(v.angle, v.center, events),
        content_of(after_events(v, events)).angle == content_of(
            drawn(after_events(v, events)),
        ).angle,
    decreases events.len(),
{
    if events.len() > 0 {
        let prefix = events.drop_last();
        assert forall|i: int| 0 <= i < prefix.len() implies keeps_drag(#[trigger] prefix[i]) by {
            assert(prefix[i] == events[i]);
        }
        lemma_drag_freezes_rotation(v, prefix);
        assert(keeps_drag(events[events.len() - 1]));
    }
}

impl Application {
    /// A worker for a canvas of `size`.
    pub fn new(size: Size) -> (r: Application)
        ensures
            r@ == initial_state(size),
    {
        let half_height = size.height / 2;
        let half_width = size.width / 2;
        let extent = if half_width <= half_height {
            half_width
        } else {
            half_height
        };
        Application {
            size,
            square_size: Size { width: extent, height: extent },
            square_offset: Point { x: half_width - extent / 2, y: half_height - extent / 2 },
            center: Point { x: size.width / 2, y: size.height / 2 },
            angle: Angle { anchor: AngleAnchor::Initial, idle_steps: 0 },
            tracking: false,
        }
    }

    /// The current rotation.
    pub fn angle(&self) -> (r: Angle)
        ensures
            r == self@.angle,
    {
        self.angle
    }

    /// Whether a pointer drag is in progress.
    pub fn tracking(&self) -> (r: bool)
        ensures
            r == self@.tracking,
    {
        self.tracking
    }

    /// The middle of the canvas.
    pub fn center(&self) -> (r: Point)
        ensures
            r == self@.center,
    {
        self.center
    }

    /// Hands out the frame to draw at the current rotation; then, unless a
    /// drag is in progress, advances the rotation by one idle increment.
    pub fn draw(&mut self) -> (r: FrameContent)
        ensures
            r == content_of(old(self)@),
            final(self)@ == drawn(old(self)@),
    {
        let content = FrameContent {
            size: self.size,
            center: self.center,
            square_offset: self.square_offset,
            square_size: self.square_size,
            angle: self.angle,
        };
        if !self.tracking {
            self.angle = Angle {
                anchor: self.angle.anchor,
                idle_steps: self.angle.idle_steps.saturating_add(1),
            };
        }
        content
    }

    /// A pointer went down: a drag begins.
    pub fn touch_start(&mut self, _touch_id: i32, _pt: Point)
        ensures
            final(self)@ == (ApplicationView { tracking: true, ..old(self)@ }),
    {
        self.tracking = true;
    }

    /// A pointer moved: during a drag the square turns to point from the
    /// pointer toward the middle of the canvas.
    pub fn touch_move(&mut self, _touch_id: i32, pt: Point)
        ensures
            final(self)@ == moved(old(self)@, pt),
    {
        if self.tracking {
            let dy = self.center.y as i64 - pt.y as i64;
            let dx = self.center.x as i64 - pt.x as i64;
            self.angle = Angle { anchor: AngleAnchor::Toward { dx, dy }, idle_steps: 0 };
        }
    }

    /// A pointer went up: the drag ends.
    pub fn touch_end(&mut self, _touch_id: i32, _pt: Point)
        ensures
            final(self)@ == (ApplicationView { tracking: false, ..old(self)@ }),
    {
        self.tracking = false;
    }
    /// A worker started by its first message, which must be `Start`.
    pub fn start(first: ApplicationEvent) -> (r: Result<Application, WorkerError>)
        ensures
            match first {
                ApplicationEvent::Start { size } => r is Ok && r->Ok_0@ == initial_state(size),
                _ => r == Err::<Application, WorkerError>(WorkerError::NotStarted),
            },
    {
        match first {
            ApplicationEvent::Start { size } => Ok(Application::new(size)),
            _ => Err(WorkerError::NotStarted),
        }
    }

    /// Handles one message after the start: a frame for `Draw`, a state change
    /// for a pointer message, a refusal for a second `Start`.
    pub fn handle_event(&mut self, event: ApplicationEvent) -> (r: Result<WorkerReply, WorkerError>)
        ensures
            final(self)@ == after_event(old(self)@, event),
            r == match event {
                ApplicationEvent::Start { .. } => Err(WorkerError::AlreadyStarted),
                ApplicationEvent::Draw => Ok(WorkerReply::Frame { content: content_of(old(self)@) }),
                _ => Ok(WorkerReply::Done),
            },
    {
        match event {
            ApplicationEvent::Start { .. } => Err(WorkerError::AlreadyStarted),
            ApplicationEvent::Draw => {
                let content = self.draw();
                Ok(WorkerReply::Frame { content })
            },
            ApplicationEvent::MouseButtonDown { which, location } => {
                self.touch_start(which, location);
                Ok(WorkerReply::Done)
            },
            ApplicationEvent::MouseButtonUp { which, location } => {
                self.touch_end(which, location);
                Ok(WorkerReply::Done)
            },
            ApplicationEvent::MouseButtonMoved { which, location } => {
                self.touch_move(which, location);
                Ok(WorkerReply::Done)
            },
        }
    }
}

} // verus!
