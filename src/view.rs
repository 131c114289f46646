//! The view bridge: what a view does on each invalidation from the compositor.
//!
//! The compositor drives the view. On the first invalidation that carries a
//! layout the view starts its render worker; from then on every invalidation
//! corrects the frame timing, asks the worker for exactly one frame, and, once
//! the pixels are back, publishes a one-node scene tagged with the corrected
//! presentation time and the invalidation's scene version. The caller performs
//! each step this module decides on (starting the worker, the draw request,
//! the publication) and reports its outcome back.

use vstd::prelude::*;
use crate::frame_tracker::{
    corrected_frame_info, next_frame_count, update_admissible, FrameInfo, FrameTracker, FrameTrackerView, TimePoint,
};
use crate::geometry::Size;
use crate::scene::{
    frame_bytes, frame_len, full_view_scene_update, full_view_update, size_valid, SceneMetadata,
    SceneUpdate,
};

verus! {

/// Where a view stands in its life.
#[derive(Clone, Copy, Debug, PartialEq, Eq, Structural)]
pub enum ViewState {
    /// No layout seen yet; no render worker.
    Uninitialized,
    /// The worker runs and no frame is being drawn.
    Active,
    /// One draw request is outstanding.
    Drawing,
}

/// What the caller must do for one invalidation, in this order.
#[derive(Clone, Copy, Debug, PartialEq, Eq, Structural)]
pub struct InvalidationStep {
    /// Start the render worker for a canvas of this size, and begin
    /// delivering input to it.
    pub start: Option<Size>,
    /// Send the worker one draw request and report the pixels back.
    pub draw: bool,
}

/// A frame ready for the compositor: submit `update`, then publish with
/// `metadata`, then ask for the next invalidation.
#[derive(Clone, Copy, Debug, PartialEq, Eq, Structural)]
pub struct ScenePublication {
    pub update: SceneUpdate,
    pub metadata: SceneMetadata,
}

/// Why a rendered frame could not be published.
#[derive(Clone, Copy, Debug, PartialEq, Eq, Structural)]
pub enum FrameError {
    /// The worker's buffer does not hold exactly one frame of the view's size.
    BufferSize { expected: u64, actual: u64 },
}

/// A view's state as plain values.
pub struct BaseViewView {
    pub state: ViewState,
    pub size: Size,
    pub scene_version: u32,
    pub timing: FrameTrackerView,
}

/// One view's bridge between the compositor and its render worker.
pub struct BaseView {
    state: ViewState,
    size: Size,
    scene_version: u32,
    frame_tracker: FrameTracker,
}

impl View for BaseView {
    type V = BaseViewView;

    closed spec fn view(&self) -> BaseViewView {
        BaseViewView {
            state: self.state,
            size: self.size,
            scene_version: self.scene_version,
            timing: self.frame_tracker@,
        }
    }
}

/// True when an invalidation with `layout` finds, or leaves, the view with a
/// running worker, so that a frame is drawn for it.
pub open spec fn draws_for(state: ViewState, layout: Option<Size>) -> bool {
    state == ViewState::Active || (state == ViewState::Uninitialized && layout is Some)
}

/// The metadata a frame is published with.
pub open spec fn metadata_of(v: BaseViewView) -> SceneMetadata {
    SceneMetadata {
        version: v.scene_version,
        presentation_time: v.timing.frame_info.presentation_time,
    }
}

impl BaseView {
    /// The view's invariant: its size is a valid one and its timing record
    /// holds valid ticks.
    pub open spec fn wf(&self) -> bool {
        &&& size_valid(self@.size)
        &&& self@.timing.frame_info.ticks_valid()
    }

    /// A view that has seen no invalidation.
    pub fn new() -> (r: BaseView)
        ensures
            r.wf(),
            r@.state == ViewState::Uninitialized,
            r@.size == (Size { width: 0, height: 0 }),
            r@.scene_version == 0,
            r@.timing == FrameTracker::new_view(),
    {
        BaseView {
            state: ViewState::Uninitialized,
            size: Size { width: 0, height: 0 },
            scene_version: 0,
            frame_tracker: FrameTracker::new(),
        }
    }

    /// Where the view stands.
    pub fn state(&self) -> (r: ViewState)
        ensures
            r == self@.state,
    {
        self.state
    }

    /// The view's size, as the first layout gave it.
    pub fn size(&self) -> (r: Size)
        ensures
            r == self@.size,
    {
        self.size
    }

    /// The scene version of the last invalidation that drew a frame.
    pub fn scene_version(&self) -> (r: u32)
        ensures
            r == self@.scene_version,
    {
        self.scene_version
    }

    /// The corrected timing of the last frame.
    pub fn frame_info(&self) -> (r: FrameInfo)
        ensures
            r == self@.timing.frame_info,
    {
        self.frame_tracker.frame_info()
    }

    /// The metadata the current frame is published with.
    pub fn create_scene_metadata(&self) -> (r: SceneMetadata)
        ensures
            r == metadata_of(self@),
    {
        SceneMetadata {
            version: self.scene_version,
            presentation_time: self.frame_tracker.frame_info().presentation_time,
        }
    }

    /// Decides what to do for one invalidation: `layout` is the new layout
    /// size if the invalidation carries one, `frame_info` the compositor's
    /// timing for the upcoming frame, `scene_version` the compositor's scene
    /// counter, and `now` the clock reading.
    ///
    /// The first layout starts the worker. While the worker runs, the timing is
    /// corrected, the version recorded, and one frame requested; the view then
    /// waits for that frame and takes no other invalidation until it is back.
    pub fn on_invalidation(
        &mut self,
        layout: Option<Size>,
        frame_info: FrameInfo,
        scene_version: u32,
        now: TimePoint,
    ) -> (r: InvalidationStep)
        requires
            old(self).wf(),
            old(self)@.state != ViewState::Drawing,
            layout matches Some(s) ==> size_valid(s),
            draws_for(old(self)@.state, layout) ==> update_admissible(frame_info, now.ticks as int),
        ensures
            final(self).wf(),
            r.start == (if old(self)@.state == ViewState::Uninitialized {
                layout
            } else {
                None
            }),
            final(self)@.size == (match r.start {
                Some(s) => s,
                None => old(self)@.size,
            }),
            r.draw == draws_for(old(self)@.state, layout),
            r.draw ==> {
                &&& final(self)@.state == ViewState::Drawing
                &&& final(self)@.scene_version == scene_version
                &&& final(self)@.timing.frame_info == corrected_frame_info(
                    old(self)@.timing.frame_info,
                    frame_info,
                    now.ticks as int,
                )
                &&& final(self)@.timing.frame_count == next_frame_count(old(self)@.timing.frame_count)
                &&& final(self)@.timing.presentation_time_delta
                    == final(self)@.timing.frame_info.base_time - old(self)@.timing.frame_info.base_time
            },
            !r.draw ==> final(self)@ == old(self)@,
    {
        let mut start: Option<Size> = None;
        if let Some(size) = layout {
            if matches!(self.state, ViewState::Uninitialized) {
                self.size = size;
                self.state = ViewState::Active;
                start = Some(size);
            }
        }
        if matches!(self.state, ViewState::Active) {
            self.frame_tracker.update(frame_info, now);
            self.scene_version = scene_version;
            self.state = ViewState::Drawing;
            InvalidationStep { start, draw: true }
        } else {
            InvalidationStep { start, draw: false }
        }
    }

    /// Takes the worker's answer to the outstanding draw request: a buffer of
    /// exactly one frame of the view's size is published as a full-view image
    /// with the corrected presentation time and the recorded scene version.
    /// Either way the view is ready for the next invalidation.
    pub fn on_frame_rendered(&mut self, pixels: &[u8]) -> (r: Result<
        ScenePublication,
        FrameError,
    >)
        requires
            old(self).wf(),
            old(self)@.state == ViewState::Drawing,
        ensures
            final(self).wf(),
            final(self)@ == (BaseViewView { state: ViewState::Active, ..old(self)@ }),
            r == (if pixels@.len() == frame_len(old(self)@.size) {
                Ok(
                    ScenePublication {
                        update: full_view_update(old(self)@.size),
                        metadata: metadata_of(old(self)@),
                    },
                )
            } else {
                Err(
                    FrameError::BufferSize {
                        expected: frame_len(old(self)@.size) as u64,
                        actual: pixels@.len() as u64,
                    },
                )
            }),
    {
        self.state = ViewState::Active;
        let expected = frame_bytes(self.size);
        let actual = pixels.len() as u64;
        if actual == expected {
            Ok(
                ScenePublication {
                    update: full_view_scene_update(self.size),
                    metadata: self.create_scene_metadata(),
                },
            )
        } else {
            Err(FrameError::BufferSize { expected, actual })
        }
    }
}

} // verus!
