use rtfm_core::raster::PreviewImage;
use rtfm_core::preview::{
    event_for, new_task_id, preview_requests, PreviewEvent, PreviewSlot, PreviewState,
    RenderStage, TaskId,
};
use std::sync::Arc;

fn image(width: u32) -> Arc<PreviewImage> {
    Arc::new(PreviewImage {
        width,
        height: 1,
        stride: width * 4,
        pixels: vec![0; width as usize * 4],
    })
}

fn shown_width(slot: &PreviewSlot) -> Option<u32> {
    match &slot.state {
        PreviewState::Image(img) => Some(img.width),
        _ => None,
    }
}

#[test]
fn progressive_request_queues_thumbnail_then_final() {
    let id = TaskId(7);
    let requests = preview_requests(id, "/p/a.pdf".to_string(), 400, 400, true);
    assert_eq!(requests.len(), 2);
    assert_eq!(requests[0].id, id);
    assert_eq!(requests[0].path, "/p/a.pdf");
    assert_eq!((requests[0].width, requests[0].height), (100, 100));
    assert_eq!(requests[0].stage, RenderStage::Thumbnail);
    assert_eq!(requests[1].id, id);
    assert_eq!((requests[1].width, requests[1].height), (400, 400));
    assert_eq!(requests[1].stage, RenderStage::Final);
}

#[test]
fn plain_request_queues_final_only() {
    let requests = preview_requests(TaskId(1), "x".to_string(), 640, 480, false);
    assert_eq!(requests.len(), 1);
    assert_eq!((requests[0].width, requests[0].height), (640, 480));
    assert_eq!(requests[0].stage, RenderStage::Final);
}

#[test]
fn thumbnail_is_at_least_one_pixel() {
    let requests = preview_requests(TaskId(1), "x".to_string(), 3, 9, true);
    assert_eq!((requests[0].width, requests[0].height), (1, 2));
    let requests = preview_requests(TaskId(1), "x".to_string(), 0, 0, true);
    assert_eq!((requests[0].width, requests[0].height), (1, 1));
    assert_eq!((requests[1].width, requests[1].height), (0, 0));
}

#[test]
fn narrower_thumbnail_keeps_shown_image() {
    let id = TaskId(3);
    let mut slot = PreviewSlot::new();
    slot.begin(Some(id));
    assert!(slot.handle_event(PreviewEvent::FinalImageLoaded(id, image(100))));
    assert!(!slot.handle_event(PreviewEvent::ThumbnailLoaded(id, image(25))));
    assert_eq!(shown_width(&slot), Some(100));
    assert!(!slot.handle_event(PreviewEvent::FinalImageLoaded(id, image(100))));
    assert!(slot.handle_event(PreviewEvent::FinalImageLoaded(id, image(101))));
    assert_eq!(shown_width(&slot), Some(101));
}

#[test]
fn error_then_image_shows_the_image() {
    let id = TaskId(4);
    let mut slot = PreviewSlot::new();
    slot.begin(Some(id));
    assert!(slot.handle_event(PreviewEvent::Error(id, "corrupt".to_string())));
    assert!(matches!(&slot.state, PreviewState::Error(m) if m == "corrupt"));
    assert!(slot.handle_event(PreviewEvent::FinalImageLoaded(id, image(40))));
    assert_eq!(shown_width(&slot), Some(40));
    assert!(!slot.handle_event(PreviewEvent::Error(id, "late".to_string())));
    assert_eq!(shown_width(&slot), Some(40));
}

#[test]
fn stale_event_is_dropped() {
    let a = new_task_id();
    let mut b = new_task_id();
    while b == a {
        b = new_task_id();
    }
    let mut slot = PreviewSlot::new();
    slot.begin(Some(a));
    slot.begin(Some(b));
    assert!(!slot.handle_event(PreviewEvent::FinalImageLoaded(a, image(10))));
    assert!(matches!(slot.state, PreviewState::Loading));
    assert!(!slot.handle_event(PreviewEvent::Error(a, "gone".to_string())));
    assert!(matches!(slot.state, PreviewState::Loading));
    assert!(slot.handle_event(PreviewEvent::ThumbnailLoaded(b, image(5))));
    assert_eq!(shown_width(&slot), Some(5));
    assert_eq!(slot.current, Some(b));
}

#[test]
fn no_request_drops_every_event() {
    let mut slot = PreviewSlot::new();
    slot.reset();
    assert!(!slot.handle_event(PreviewEvent::FinalImageLoaded(TaskId(1), image(10))));
    assert!(matches!(slot.state, PreviewState::Empty));
}

#[test]
fn worker_event_follows_stage_and_outcome() {
    let requests = preview_requests(TaskId(9), "f".to_string(), 8, 8, true);
    let img = PreviewImage { width: 2, height: 2, stride: 8, pixels: vec![0; 16] };
    match event_for(&requests[0], Ok(img.clone())) {
        PreviewEvent::ThumbnailLoaded(id, got) => {
            assert_eq!(id, TaskId(9));
            assert_eq!(got.width, 2);
        }
        other => panic!("unexpected {:?}", other),
    }
    assert!(matches!(event_for(&requests[1], Ok(img)), PreviewEvent::FinalImageLoaded(TaskId(9), _)));
    match event_for(&requests[1], Err("bad".to_string())) {
        PreviewEvent::Error(id, m) => {
            assert_eq!(id, TaskId(9));
            assert_eq!(m, "bad");
        }
        other => panic!("unexpected {:?}", other),
    }
}
