use palm::canvas::DrawCommand;
use palm::color::Color;
use palm::error::{OsError, PalmErrorKind};
use palm::rect::Rect;
use palm::renderer::EmptyRenderer;
use palm::window::{registration_outcome, Action, Event, Phase, WindowAttributes, WindowBuilder, WindowLoop};

fn os_error(code: i32, message: &str) -> OsError {
    OsError { code, message: message.to_string() }
}

fn running<R: palm::renderer::Renderer>(target: R) -> WindowLoop<R> {
    let mut w = WindowLoop::new(target);
    assert!(w.window_created(Ok(())).is_ok());
    assert!(w.context_bound(Ok(())).is_ok());
    w
}

#[test]
fn default_attributes_title() {
    assert_eq!(WindowAttributes::default().title, "Palm app");
}

#[test]
fn title_c_string_ends_in_nul() {
    let attrs = WindowAttributes { title: "Hello! :)".to_string() };
    assert_eq!(attrs.title_c_string(), b"Hello! :)\0".to_vec());
    let empty = WindowAttributes { title: String::new() };
    assert_eq!(empty.title_c_string(), vec![0u8]);
    let accented = WindowAttributes { title: "é".to_string() };
    assert_eq!(accented.title_c_string(), vec![0xC3, 0xA9, 0]);
}

#[test]
fn registration_outcomes() {
    assert!(registration_outcome(Ok(0xC001)).is_ok());
    assert!(registration_outcome(Err(os_error(1410, "Class already exists."))).is_ok());
    assert!(registration_outcome(Err(os_error(0x80070582u32 as i32, "Class already exists."))).is_ok());
    let e = registration_outcome(Err(os_error(87, "The parameter is incorrect."))).unwrap_err();
    assert_eq!(*e.kind(), PalmErrorKind::WindowCreation);
    assert_eq!(e.msg(), "Failed to register window class");
    let e = registration_outcome(Err(os_error(8, "no memory"))).unwrap_err();
    assert_eq!(*e.kind(), PalmErrorKind::NotEnoughMemory);
}

#[test]
fn scenario_one_red_rect_then_close() {
    let attrs = WindowAttributes { title: "Test".to_string() };
    assert_eq!(attrs.title_c_string(), b"Test\0".to_vec());
    let mut w = WindowLoop::new(vec![Rect::new(0, 0, 100, 100, Color::red())]);
    assert_eq!(w.phase(), Phase::Uninitialized);
    assert!(w.window_created(Ok(())).is_ok());
    assert_eq!(w.phase(), Phase::WindowCreated);
    assert!(w.context_bound(Ok(())).is_ok());
    assert_eq!(w.phase(), Phase::Running);
    match w.dispatch(Event::Repaint) {
        Action::Present(cmds) => assert_eq!(
            cmds,
            vec![DrawCommand::FillRect { x: 0, y: 0, width: 100, height: 100, color: Color::red() }]
        ),
        other => panic!("unexpected action {:?}", other),
    }
    assert!(w.frame_presented(Ok(())).is_none());
    assert!(matches!(w.dispatch(Event::Destroy), Action::PostQuit));
    assert!(!w.is_running());
    assert!(w.context_release_due());
    assert!(w.finish(Ok(())).is_none());
    assert_eq!(w.phase(), Phase::Finished);
    assert!(!w.context_release_due());
}

#[test]
fn repaint_before_state_is_stored_does_not_render() {
    let mut w = WindowLoop::new(vec![Rect::new(0, 0, 1, 1, Color::red())]);
    assert!(matches!(w.dispatch(Event::Repaint), Action::Validate));
    assert_eq!(w.phase(), Phase::Uninitialized);
    assert!(w.window_created(Ok(())).is_ok());
    assert!(matches!(w.dispatch(Event::Repaint), Action::Validate));
    assert_eq!(w.phase(), Phase::WindowCreated);
}

#[test]
fn repaint_after_destroy_does_not_render() {
    let mut w = running(vec![Rect::new(0, 0, 1, 1, Color::red())]);
    assert!(matches!(w.dispatch(Event::Destroy), Action::PostQuit));
    assert!(matches!(w.dispatch(Event::Repaint), Action::Validate));
}

#[test]
fn destroy_releases_once_and_stops_loop() {
    let mut w = running(EmptyRenderer);
    assert!(w.is_running());
    assert!(matches!(w.dispatch(Event::Other), Action::Forward));
    assert!(matches!(w.dispatch(Event::Repaint), Action::Present(_)));
    assert!(matches!(w.dispatch(Event::Destroy), Action::PostQuit));
    assert_eq!(w.phase(), Phase::Destroyed);
    assert!(!w.is_running());
    assert!(matches!(w.dispatch(Event::Destroy), Action::Ignore));
    assert_eq!(w.phase(), Phase::Destroyed);
}

#[test]
fn repaint_presents_each_frame() {
    let mut w = running(vec![
        Rect::new(0, 0, 10, 10, Color::black()),
        Rect::new(2, 2, 3, 3, Color::white()),
    ]);
    for _ in 0..2 {
        match w.dispatch(Event::Repaint) {
            Action::Present(cmds) => {
                assert_eq!(cmds.len(), 2);
                assert_eq!(cmds[1], DrawCommand::FillRect { x: 2, y: 2, width: 3, height: 3, color: Color::white() });
            }
            other => panic!("unexpected action {:?}", other),
        }
    }
    assert_eq!(w.phase(), Phase::Running);
}

#[test]
fn empty_renderer_presents_nothing() {
    let mut w = running(EmptyRenderer);
    match w.dispatch(Event::Repaint) {
        Action::Present(cmds) => assert!(cmds.is_empty()),
        other => panic!("unexpected action {:?}", other),
    }
}

#[test]
fn window_creation_failure() {
    let mut w = WindowLoop::new(EmptyRenderer);
    let e = w.window_created(Err(os_error(1407, "Cannot find window class."))).unwrap_err();
    assert_eq!(*e.kind(), PalmErrorKind::WindowCreation);
    assert_eq!(e.msg(), "Failed to create window");
    assert_eq!(w.phase(), Phase::Failed);
    assert!(!w.is_running());
    assert!(!w.context_release_due());
    assert!(matches!(w.dispatch(Event::Destroy), Action::Ignore));
    assert!(matches!(w.dispatch(Event::Repaint), Action::Validate));
}

#[test]
fn window_creation_out_of_memory() {
    let mut w = WindowLoop::new(EmptyRenderer);
    let e = w.window_created(Err(os_error(14, "no memory"))).unwrap_err();
    assert_eq!(*e.kind(), PalmErrorKind::NotEnoughMemory);
    assert_eq!(e.msg(), "Failed to create window");
}

#[test]
fn graphics_init_failure() {
    let mut w = WindowLoop::new(EmptyRenderer);
    assert!(w.window_created(Ok(())).is_ok());
    let e = w.context_bound(Err(os_error(2000, "The pixel format is invalid."))).unwrap_err();
    assert_eq!(*e.kind(), PalmErrorKind::GraphicsInit);
    assert_eq!(e.msg(), "The pixel format is invalid.");
    assert_eq!(w.phase(), Phase::Failed);
    assert!(!w.context_release_due());
}

#[test]
fn failed_frame_keeps_window() {
    let mut w = running(EmptyRenderer);
    let e = w.frame_presented(Err(os_error(6, "The handle is invalid."))).unwrap();
    assert_eq!(*e.kind(), PalmErrorKind::Unspecified);
    assert_eq!(e.msg(), "The handle is invalid.");
    assert_eq!(w.phase(), Phase::Running);
    assert!(matches!(w.dispatch(Event::Repaint), Action::Present(_)));
}

#[test]
fn cleanup_failure_is_reported() {
    let mut w = running(EmptyRenderer);
    assert!(matches!(w.dispatch(Event::Destroy), Action::PostQuit));
    let e = w.finish(Err(os_error(8, "no memory"))).unwrap();
    assert_eq!(*e.kind(), PalmErrorKind::NotEnoughMemory);
    assert_eq!(e.msg(), "Not enough memory");
    assert_eq!(w.phase(), Phase::Finished);
}

#[test]
fn finish_without_destroy_releases_state() {
    let mut w = running(EmptyRenderer);
    assert!(w.context_release_due());
    assert!(w.finish(Ok(())).is_none());
    assert!(!w.is_running());
    assert!(matches!(w.dispatch(Event::Repaint), Action::Validate));
}

#[test]
fn builder_default_and_title() {
    assert_eq!(WindowBuilder::default().attributes().title, "Palm app");
    assert_eq!(WindowBuilder::default().with_title("Hello!").attributes().title, "Hello!");
}
