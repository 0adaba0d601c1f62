use webhost::app::{
    App, AppConfig, ConstructError, FrameAction, HostGlobal, HostInfo, Unsupported,
};
use webhost::event::{Event, EventClass, HostEvent, Listener};
use webhost::surface::{PixelRatio, Surface};

fn config(width: u32, height: u32) -> AppConfig {
    AppConfig { size: (width, height), fullscreen: false, show_cursor: true, headless: false }
}

fn host(millionths: u32) -> HostInfo {
    HostInfo {
        window: true,
        document: true,
        body: true,
        device_pixel_ratio: PixelRatio { millionths },
    }
}

fn app_800_by_600() -> App {
    App::new(config(800, 600), host(1_000_000)).unwrap()
}

fn pending(app: &App) -> Vec<Event> {
    app.events().as_slice().to_vec()
}

#[test]
fn new_sizes_the_surface_by_the_pixel_ratio() {
    let app = App::new(config(800, 600), host(2_000_000)).unwrap();
    assert_eq!(
        *app.canvas(),
        Surface {
            width: 1600,
            height: 1200,
            tab_index: 1,
            cursor_visible: true,
            left: 0,
            top: 0,
        }
    );
    assert_eq!(app.hidpi_factor(), PixelRatio { millionths: 2_000_000 });
    assert!(app.events().is_empty());
    assert!(!app.is_cancelled());
    assert_eq!(app.startup_warning(), None);
}

#[test]
fn new_rounds_fractional_sizes() {
    let app = App::new(config(801, 333), host(1_250_000)).unwrap();
    assert_eq!(app.canvas().width, 1001);
    assert_eq!(app.canvas().height, 416);
}

#[test]
fn new_hides_the_cursor_on_request() {
    let mut wanted = config(10, 10);
    wanted.show_cursor = false;
    let app = App::new(wanted, host(1_000_000)).unwrap();
    assert!(!app.canvas().cursor_visible);
}

#[test]
fn fullscreen_request_is_warned_about_not_refused() {
    let mut wanted = config(10, 10);
    wanted.fullscreen = true;
    let app = App::new(wanted, host(1_000_000)).unwrap();
    assert_eq!(app.startup_warning(), Some("Webgl do not support with_screen."));
}

#[test]
fn headless_is_unsupported() {
    let mut wanted = config(800, 600);
    wanted.headless = true;
    assert_eq!(
        App::new(wanted, host(1_000_000)).unwrap_err(),
        ConstructError::ConfigurationUnsupported(Unsupported::Headless)
    );
    let mut bare = host(1_000_000);
    bare.window = false;
    assert_eq!(
        App::new(wanted, bare).unwrap_err(),
        ConstructError::ConfigurationUnsupported(Unsupported::Headless)
    );
}

#[test]
fn missing_globals_are_reported_in_order() {
    let mut no_body = host(1_000_000);
    no_body.body = false;
    assert_eq!(no_body.missing_global(), Some(HostGlobal::Body));
    assert_eq!(
        App::new(config(800, 600), no_body).unwrap_err(),
        ConstructError::HostUnavailable(HostGlobal::Body)
    );
    let mut no_document = no_body;
    no_document.document = false;
    assert_eq!(
        App::new(config(800, 600), no_document).unwrap_err(),
        ConstructError::HostUnavailable(HostGlobal::Document)
    );
    let mut no_window = no_document;
    no_window.window = false;
    assert_eq!(
        App::new(config(800, 600), no_window).unwrap_err(),
        ConstructError::HostUnavailable(HostGlobal::Window)
    );
    assert_eq!(host(1_000_000).missing_global(), None);
}

#[test]
fn oversized_surface_is_unsupported() {
    assert_eq!(
        App::new(config(u32::MAX, 600), host(2_000_000)).unwrap_err(),
        ConstructError::ConfigurationUnsupported(Unsupported::SurfaceSize)
    );
    assert_eq!(
        App::new(config(800, 3_000_000_000), host(1_500_000)).unwrap_err(),
        ConstructError::ConfigurationUnsupported(Unsupported::SurfaceSize)
    );
    assert_eq!(config(800, 3_000_000_000).plan_surface(PixelRatio { millionths: 1_500_000 }), None);
    let mut no_window = host(2_000_000);
    no_window.window = false;
    assert_eq!(
        App::new(config(u32::MAX, 600), no_window).unwrap_err(),
        ConstructError::HostUnavailable(HostGlobal::Window)
    );
}

#[test]
fn setup_listener_places_the_surface_and_lists_the_listeners() {
    let mut app = app_800_by_600();
    let listeners = app.setup_listener(30, -40);
    assert_eq!(
        listeners,
        vec![
            Listener { class: EventClass::PointerPress, prevent_default: false },
            Listener { class: EventClass::PointerRelease, prevent_default: true },
            Listener { class: EventClass::PointerMove, prevent_default: true },
            Listener { class: EventClass::KeyPress, prevent_default: true },
            Listener { class: EventClass::KeyRelease, prevent_default: true },
            Listener { class: EventClass::SurfaceResize, prevent_default: false },
        ]
    );
    assert_eq!(
        *app.canvas(),
        Surface {
            width: 800,
            height: 600,
            tab_index: 1,
            cursor_visible: true,
            left: 30,
            top: -40,
        }
    );
    assert!(app.events().is_empty());
}

#[test]
fn listeners_queue_in_delivery_order_and_report_suppression() {
    let mut app = app_800_by_600();
    app.setup_listener(100, 50);
    assert!(!app.on_host_event(HostEvent::PointerPress { button: 0 }));
    assert!(app.on_host_event(HostEvent::PointerMove { client_x: 130, client_y: 45 }));
    assert!(app.on_host_event(HostEvent::PointerRelease { button: 0 }));
    assert!(app.on_host_event(HostEvent::KeyPress { key_code: 32 }));
    assert!(app.on_host_event(HostEvent::KeyRelease { key_code: 32 }));
    assert!(!app.on_host_event(HostEvent::SurfaceResize { width: 640, height: 480 }));
    assert!(app.on_host_event(HostEvent::KeyPress { key_code: 32 }));
    assert_eq!(
        pending(&app),
        vec![
            Event::MouseDown(0),
            Event::MousePos(30, -5),
            Event::MouseUp(0),
            Event::KeyDown(32),
            Event::KeyUp(32),
            Event::Resized(640, 480),
            Event::KeyDown(32),
        ]
    );
}

#[test]
fn frame_callback_sees_all_deliveries_and_the_queue_is_empty_after() {
    let mut app = app_800_by_600();
    let mut expected: Vec<Event> = Vec::new();
    for n in 0..50u32 {
        app.on_host_event(HostEvent::KeyPress { key_code: n });
        expected.push(Event::KeyDown(n));
    }
    let mut seen: Vec<Event> = Vec::new();
    let action = app.run_loop(|app: &mut App| seen = pending(app));
    assert_eq!(action, FrameAction::Reschedule);
    assert_eq!(seen, expected);
    assert!(app.events().is_empty());

    app.on_host_event(HostEvent::KeyRelease { key_code: 7 });
    let mut seen_next: Vec<Event> = Vec::new();
    app.run_loop(|app: &mut App| seen_next = pending(app));
    assert_eq!(seen_next, vec![Event::KeyUp(7)]);
    assert!(app.events().is_empty());
}

#[test]
fn frame_without_deliveries_sees_an_empty_queue() {
    let mut app = app_800_by_600();
    let mut seen: Vec<Event> = vec![Event::KeyDown(0)];
    let action = app.run_loop(|app: &mut App| seen = pending(app));
    assert_eq!(action, FrameAction::Reschedule);
    assert!(seen.is_empty());
}

#[test]
fn events_queued_during_the_frame_are_cleared_with_it() {
    let mut app = app_800_by_600();
    app.run_loop(|app: &mut App| {
        app.on_host_event(HostEvent::KeyPress { key_code: 1 });
    });
    assert!(app.events().is_empty());
}

#[test]
fn resize_produces_exactly_one_event() {
    let mut app = app_800_by_600();
    assert_eq!((app.canvas().width, app.canvas().height), (800, 600));
    assert!(!app.on_host_event(HostEvent::SurfaceResize { width: 1024, height: 768 }));
    assert_eq!(pending(&app), vec![Event::Resized(1024, 768)]);
}

#[test]
fn poll_events_runs_the_callback_once_and_clears() {
    let mut app = app_800_by_600();
    app.on_host_event(HostEvent::PointerPress { button: 1 });
    app.on_host_event(HostEvent::PointerRelease { button: 1 });
    let mut calls = 0;
    let mut seen: Vec<Event> = Vec::new();
    let ok = app.poll_events(|app: &mut App| {
        calls += 1;
        seen = pending(app);
    });
    assert!(ok);
    assert_eq!(calls, 1);
    assert_eq!(seen, vec![Event::MouseDown(1), Event::MouseUp(1)]);
    assert!(app.events().is_empty());
}

#[test]
fn poll_events_runs_even_when_cancelled() {
    let mut app = app_800_by_600();
    app.cancel();
    app.on_host_event(HostEvent::KeyPress { key_code: 3 });
    let mut calls = 0;
    assert!(app.poll_events(|_: &mut App| calls += 1));
    assert_eq!(calls, 1);
    assert!(app.events().is_empty());
}

#[test]
fn run_starts_the_loop_unless_cancelled() {
    let mut app = app_800_by_600();
    assert_eq!(app.run(), FrameAction::Reschedule);
    app.cancel();
    assert!(app.is_cancelled());
    assert_eq!(app.run(), FrameAction::Stop);
}

#[test]
fn cancelled_loop_runs_nothing_and_changes_nothing() {
    let mut app = app_800_by_600();
    app.on_host_event(HostEvent::KeyPress { key_code: 3 });
    app.cancel();
    let mut calls = 0;
    let action = app.run_loop(|_: &mut App| calls += 1);
    assert_eq!(action, FrameAction::Stop);
    assert_eq!(calls, 0);
    assert_eq!(pending(&app), vec![Event::KeyDown(3)]);
}

#[test]
fn cancelling_inside_the_frame_stops_the_loop() {
    let mut app = app_800_by_600();
    app.on_host_event(HostEvent::KeyPress { key_code: 27 });
    let action = app.run_loop(|app: &mut App| app.cancel());
    assert_eq!(action, FrameAction::Stop);
    assert!(app.events().is_empty());
    assert!(app.is_cancelled());
}

#[test]
fn set_fullscreen_and_exit_do_nothing() {
    let mut app = app_800_by_600();
    app.setup_listener(3, 4);
    app.on_host_event(HostEvent::KeyPress { key_code: 1 });
    let surface = *app.canvas();
    app.set_fullscreen(true);
    app.set_fullscreen(false);
    App::exit();
    assert_eq!(*app.canvas(), surface);
    assert_eq!(pending(&app), vec![Event::KeyDown(1)]);
    assert_eq!(app.startup_warning(), None);
    assert!(!app.is_cancelled());
    assert_eq!(app.hidpi_factor(), PixelRatio::one());
}
