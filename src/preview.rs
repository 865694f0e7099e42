//! The staged preview pipeline: requests for the rasterizing worker, the
//! events it sends back, and the rule by which those events reach the
//! preview of the current selection.

use crate::app_state::DirEntry;
use crate::ids::random_id;
use crate::raster::PreviewImage;
use std::sync::Arc;
use vstd::prelude::*;

verus! {

/// What the preview pane shows.
#[derive(Debug, Clone, Default)]
pub enum PreviewState {
    #[default]
    Empty,
    Loading,
    Text(String),
    Image(Arc<PreviewImage>),
    Directory(Vec<DirEntry>),
    Error(String),
}

/// Identifies the preview requested for one selection.
#[derive(Debug, Clone, Copy, PartialEq, Eq, Hash, Structural)]
pub struct TaskId(pub u128);

/// A fresh random preview identifier.
pub fn new_task_id() -> TaskId {
    TaskId(random_id())
}

/// Which stage of a progressive preview a request renders.
#[derive(Debug, Clone, Copy, PartialEq, Eq, Structural)]
pub enum RenderStage {
    Thumbnail,
    Final,
}

/// One rasterization job for the worker.
#[derive(Debug, Clone, PartialEq, Eq)]
pub struct RenderRequest {
    pub id: TaskId,
    pub path: String,
    pub width: u32,
    pub height: u32,
    pub stage: RenderStage,
}

/// An event from the worker: a rendered stage, or why it failed.
#[derive(Debug, Clone)]
pub enum PreviewEvent {
    ThumbnailLoaded(TaskId, Arc<PreviewImage>),
    FinalImageLoaded(TaskId, Arc<PreviewImage>),
    Error(TaskId, String),
}

impl PreviewEvent {
    /// The preview the event belongs to.
    pub open spec fn spec_task_id(self) -> TaskId {
        match self {
            PreviewEvent::ThumbnailLoaded(id, _) => id,
            PreviewEvent::FinalImageLoaded(id, _) => id,
            PreviewEvent::Error(id, _) => id,
        }
    }

    pub fn task_id(&self) -> (r: TaskId)
        ensures
            r == self.spec_task_id(),
    {
        match self {
            PreviewEvent::ThumbnailLoaded(id, _) => *id,
            PreviewEvent::FinalImageLoaded(id, _) => *id,
            PreviewEvent::Error(id, _) => *id,
        }
    }
}

/// A thumbnail side: a quarter of the final side, at least 1.
pub open spec fn thumbnail_side(side: u32) -> u32 {
    if side / 4 == 0 {
        1
    } else {
        side / 4
    }
}

/// The requests of one preview, in the order they are queued: for a
/// progressive preview a thumbnail first, then always the final image.
pub open spec fn planned_requests(
    id: TaskId,
    path: String,
    final_width: u32,
    final_height: u32,
    progressive: bool,
) -> Seq<RenderRequest> {
    let last = RenderRequest {
        id,
        path,
        width: final_width,
        height: final_height,
        stage: RenderStage::Final,
    };
    if progressive {
        seq![
            RenderRequest {
                id,
                path,
                width: thumbnail_side(final_width),
                height: thumbnail_side(final_height),
                stage: RenderStage::Thumbnail,
            },
            last,
        ]
    } else {
        seq![last]
    }
}

/// The requests to queue, in order, for a preview of `path` under `id`.
pub fn preview_requests(
    id: TaskId,
    path: String,
    final_width: u32,
    final_height: u32,
    progressive: bool,
) -> (r: Vec<RenderRequest>)
    ensures
        r@ == planned_requests(id, path, final_width, final_height, progressive),
{
    let mut out: Vec<RenderRequest> = Vec::new();
    if progressive {
        let tw = if final_width / 4 == 0 {
            1
        } else {
            final_width / 4
        };
        let th = if final_height / 4 == 0 {
            1
        } else {
            final_height / 4
        };
        out.push(
            RenderRequest {
                id,
                path: path.clone(),
                width: tw,
                height: th,
                stage: RenderStage::Thumbnail,
            },
        );
    }
    out.push(
        RenderRequest {
            id,
            path,
            width: final_width,
            height: final_height,
            stage: RenderStage::Final,
        },
    );
    proof {
        assert(out@ =~= planned_requests(id, path, final_width, final_height, progressive));
    }
    out
}

/// The event the worker sends for `request` once rasterization gave `outcome`.
pub open spec fn spec_event_for(
    request: RenderRequest,
    outcome: Result<PreviewImage, String>,
) -> PreviewEvent {
    match outcome {
        Ok(image) => match request.stage {
            RenderStage::Thumbnail => PreviewEvent::ThumbnailLoaded(request.id, Arc::new(image)),
            RenderStage::Final => PreviewEvent::FinalImageLoaded(request.id, Arc::new(image)),
        },
        Err(message) => PreviewEvent::Error(request.id, message),
    }
}

/// Exactly one event per request: the image under the request's stage, or
/// the failure, tagged with the request's identifier.
pub fn event_for(request: &RenderRequest, outcome: Result<PreviewImage, String>) -> (r: PreviewEvent)
    ensures
        r == spec_event_for(*request, outcome),
{
    match outcome {
        Ok(image) => match request.stage {
            RenderStage::Thumbnail => PreviewEvent::ThumbnailLoaded(request.id, Arc::new(image)),
            RenderStage::Final => PreviewEvent::FinalImageLoaded(request.id, Arc::new(image)),
        },
        Err(message) => PreviewEvent::Error(request.id, message),
    }
}

/// The preview after `event` arrives while `current` is the identifier of
/// the selection. An event of another preview changes nothing. An image is
/// shown if none is, or if it is strictly wider than the one shown, so a
/// late thumbnail never replaces its final image. An error is shown only
/// while no image is.
pub open spec fn preview_after(
    current: Option<TaskId>,
    state: PreviewState,
    event: PreviewEvent,
) -> PreviewState {
    if current != Some(event.spec_task_id()) {
        state
    } else {
        match event {
            PreviewEvent::ThumbnailLoaded(_, image) => image_after(state, image),
            PreviewEvent::FinalImageLoaded(_, image) => image_after(state, image),
            PreviewEvent::Error(_, message) => match state {
                PreviewState::Image(_) => state,
                _ => PreviewState::Error(message),
            },
        }
    }
}

/// The preview after a rendered `image` of the current selection arrives.
pub open spec fn image_after(state: PreviewState, image: Arc<PreviewImage>) -> PreviewState {
    match state {
        PreviewState::Image(shown) => if image.width > shown.width {
            PreviewState::Image(image)
        } else {
            state
        },
        _ => PreviewState::Image(image),
    }
}

/// The preview of one selection and the identifier of the request that
/// feeds it; events of earlier requests are dropped on arrival.
#[derive(Debug, Clone, Default)]
pub struct PreviewSlot {
    pub current: Option<TaskId>,
    pub state: PreviewState,
}

impl PreviewSlot {
    pub fn new() -> (r: PreviewSlot)
        ensures
            r.current is None,
            r.state is Empty,
    {
        PreviewSlot { current: None, state: PreviewState::Empty }
    }

    /// Follows a new selection: `id` is the request for it, if one was made;
    /// the preview shows `Loading` until its events arrive, and every event
    /// in flight for an earlier request is superseded.
    pub fn begin(&mut self, id: Option<TaskId>)
        ensures
            final(self).current == id,
            final(self).state is Loading,
    {
        self.current = id;
        self.state = PreviewState::Loading;
    }

    /// Leaves the preview empty and follows no request.
    pub fn reset(&mut self)
        ensures
            final(self).current is None,
            final(self).state is Empty,
    {
        self.current = None;
        self.state = PreviewState::Empty;
    }

    /// Shows content that needs no rendering (text, a listing, an error).
    pub fn show(&mut self, state: PreviewState)
        ensures
            final(self).current == old(self).current,
            final(self).state == state,
    {
        self.state = state;
    }

    /// Applies a worker event under the rule of `preview_after`. Returns
    /// whether the preview changed.
    pub fn handle_event(&mut self, event: PreviewEvent) -> (changed: bool)
        ensures
            final(self).current == old(self).current,
            final(self).state == preview_after(old(self).current, old(self).state, event),
            !changed ==> final(self).state == old(self).state,
            old(self).current != Some(event.spec_task_id()) ==> !changed,
    {
        let id = event.task_id();
        match self.current {
            Some(cur) => {
                if cur != id {
                    return false;
                }
            },
            None => {
                return false;
            },
        }
        match event {
            PreviewEvent::ThumbnailLoaded(_, image) => self.install_image(image),
            PreviewEvent::FinalImageLoaded(_, image) => self.install_image(image),
            PreviewEvent::Error(_, message) => {
                if matches!(self.state, PreviewState::Image(_)) {
                    false
                } else {
                    self.state = PreviewState::Error(message);
                    true
                }
            },
        }
    }

    fn install_image(&mut self, image: Arc<PreviewImage>) -> (changed: bool)
        ensures
            final(self).current == old(self).current,
            final(self).state == image_after(old(self).state, image),
            !changed ==> final(self).state == old(self).state,
    {
        let wider = match &self.state {
            PreviewState::Image(shown) => image.width > shown.width,
            _ => true,
        };
        if wider {
            self.state = PreviewState::Image(image);
        }
        wider
    }
}

/// Once an event of another preview arrives, nothing changes: the slot
/// keeps its preview whatever the event holds.
pub proof fn lemma_stale_event_dropped(slot: PreviewSlot, event: PreviewEvent)
    requires
        slot.current != Some(event.spec_task_id()),
    ensures
        preview_after(slot.current, slot.state, event) == slot.state,
{
}

/// An error shown before any image gives way to the image that follows it
/// for the same preview.
pub proof fn lemma_image_replaces_error(
    current: TaskId,
    state: PreviewState,
    message: String,
    image: Arc<PreviewImage>,
)
    requires
        !(state is Image),
    ensures
        ({
            let shown = preview_after(Some(current), state, PreviewEvent::Error(current, message));
            &&& shown == PreviewState::Error(message)
            &&& preview_after(Some(current), shown, PreviewEvent::FinalImageLoaded(current, image))
                == PreviewState::Image(image)
        }),
{
}

/// A thumbnail no wider than the image shown for the same preview leaves
/// it in place; a final image wider than its thumbnail replaces it.
pub proof fn lemma_width_decides(
    current: TaskId,
    shown: Arc<PreviewImage>,
    image: Arc<PreviewImage>,
)
    ensures
        image.width <= shown.width ==> preview_after(
            Some(current),
            PreviewState::Image(shown),
            PreviewEvent::ThumbnailLoaded(current, image),
        ) == PreviewState::Image(shown),
        image.width > shown.width ==> preview_after(
            Some(current),
            PreviewState::Image(shown),
            PreviewEvent::FinalImageLoaded(current, image),
        ) == PreviewState::Image(image),
{
}

} // verus!
