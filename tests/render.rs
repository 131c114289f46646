use spinning_square::geometry::{Point, Size};
use spinning_square::render::{
    Angle, AngleAnchor, Application, ApplicationEvent, WorkerError, WorkerReply,
};

fn worker() -> Application {
    Application::new(Size { width: 200, height: 100 })
}

#[test]
fn new_worker_geometry() {
    let mut w = worker();
    assert_eq!(w.center(), Point { x: 100, y: 50 });
    assert!(!w.tracking());
    assert_eq!(w.angle(), Angle { anchor: AngleAnchor::Initial, idle_steps: 0 });
    let c = w.draw();
    assert_eq!(c.size, Size { width: 200, height: 100 });
    assert_eq!(c.square_size, Size { width: 50, height: 50 });
    assert_eq!(c.square_offset, Point { x: 75, y: 25 });
    assert_eq!(c.center, Point { x: 100, y: 50 });
}

#[test]
fn odd_and_negative_sizes_halve_toward_zero() {
    let mut w = Application::new(Size { width: 7, height: -9 });
    let c = w.draw();
    assert_eq!(c.center, Point { x: 3, y: -4 });
    assert_eq!(c.square_size, Size { width: -4, height: -4 });
    assert_eq!(c.square_offset, Point { x: 5, y: -2 });
}

#[test]
fn idle_draws_advance_by_one_step() {
    let mut w = worker();
    let a = w.draw().angle;
    let b = w.draw().angle;
    let c = w.draw().angle;
    assert_eq!(a.idle_steps, 0);
    assert_eq!(b.idle_steps, 1);
    assert_eq!(c.idle_steps, 2);
    assert_eq!(a.anchor, b.anchor);
    assert_ne!(a, b);
}

#[test]
fn drag_freezes_rotation() {
    let mut w = worker();
    w.draw();
    w.touch_start(1, Point { x: 10, y: 10 });
    let frozen = w.draw().angle;
    assert_eq!(w.draw().angle, frozen);
    w.touch_move(1, Point { x: 130, y: 90 });
    let pointed = Angle { anchor: AngleAnchor::Toward { dx: -30, dy: -40 }, idle_steps: 0 };
    assert_eq!(w.angle(), pointed);
    assert_eq!(w.draw().angle, pointed);
    assert_eq!(w.draw().angle, pointed);
    w.touch_end(1, Point { x: 130, y: 90 });
    assert_eq!(w.draw().angle, pointed);
    assert_eq!(w.angle(), Angle { anchor: AngleAnchor::Toward { dx: -30, dy: -40 }, idle_steps: 1 });
}

#[test]
fn move_without_drag_changes_nothing() {
    let mut w = worker();
    w.touch_move(1, Point { x: 0, y: 0 });
    assert_eq!(w.angle(), Angle { anchor: AngleAnchor::Initial, idle_steps: 0 });
}

#[test]
fn first_message_must_be_start() {
    assert_eq!(Application::start(ApplicationEvent::Draw).err(), Some(WorkerError::NotStarted));
    let down = ApplicationEvent::MouseButtonDown { which: 0, location: Point { x: 1, y: 1 } };
    assert_eq!(Application::start(down).err(), Some(WorkerError::NotStarted));
    let w = Application::start(ApplicationEvent::Start { size: Size { width: 200, height: 100 } });
    assert!(w.is_ok());
    assert_eq!(w.ok().map(|w| w.center()), Some(Point { x: 100, y: 50 }));
}

#[test]
fn worker_handles_messages() {
    let mut w = worker();
    let again = ApplicationEvent::Start { size: Size { width: 1, height: 1 } };
    assert_eq!(w.handle_event(again), Err(WorkerError::AlreadyStarted));
    assert_eq!(w.center(), Point { x: 100, y: 50 });
    match w.handle_event(ApplicationEvent::Draw) {
        Ok(WorkerReply::Frame { content }) => assert_eq!(content.angle.idle_steps, 0),
        other => panic!("unexpected reply {:?}", other),
    }
    let loc = Point { x: 100, y: 0 };
    assert_eq!(w.handle_event(ApplicationEvent::MouseButtonDown { which: 2, location: loc }), Ok(WorkerReply::Done));
    assert!(w.tracking());
    assert_eq!(w.handle_event(ApplicationEvent::MouseButtonMoved { which: 2, location: loc }), Ok(WorkerReply::Done));
    assert_eq!(w.angle(), Angle { anchor: AngleAnchor::Toward { dx: 0, dy: 50 }, idle_steps: 0 });
    assert_eq!(w.handle_event(ApplicationEvent::MouseButtonUp { which: 2, location: loc }), Ok(WorkerReply::Done));
    assert!(!w.tracking());
}
