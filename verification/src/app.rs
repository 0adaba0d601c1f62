//! The application façade: one surface, the queue its listeners feed, and
//! the frame driver that hands the queue to the caller once per frame.
//!
//! Nothing here touches the host. Construction takes what was found of the
//! host as plain values and says how the surface is to be set up; the
//! listeners' work is [`App::on_host_event`]; one display refresh is
//! [`App::run_loop`].

use crate::event::{events_of, listener_table, Event, EventClass, HostEvent, Listener};
use crate::params::{params, parse_query, texts};
use crate::queue::EventQueue;
use crate::surface::{scaled, PixelRatio, Surface, SURFACE_TAB_INDEX};
use vstd::prelude::*;

verus! {

/// What the application asks of its surface.
#[derive(Clone, Copy, Debug)]
pub struct AppConfig {
    /// Width and height in logical pixels.
    pub size: (u32, u32),
    pub fullscreen: bool,
    pub show_cursor: bool,
    pub headless: bool,
}

/// What was found of the host before construction.
#[derive(Clone, Copy, Debug)]
pub struct HostInfo {
    /// Whether the host has a window.
    pub window: bool,
    /// Whether the window has a document.
    pub document: bool,
    /// Whether the document has a body.
    pub body: bool,
    pub device_pixel_ratio: PixelRatio,
}

/// A global the host is expected to expose.
#[derive(Clone, Copy, Debug, PartialEq, Eq, Structural)]
pub enum HostGlobal {
    Window,
    Document,
    Body,
}

/// What of a configuration this backend cannot serve.
#[derive(Clone, Copy, Debug, PartialEq, Eq, Structural)]
pub enum Unsupported {
    /// Running without a surface.
    Headless,
    /// A surface with a side of more device pixels than 32 bits hold.
    SurfaceSize,
}

/// Why no application was constructed.
#[derive(Clone, Copy, Debug, PartialEq, Eq, Structural)]
pub enum ConstructError {
    ConfigurationUnsupported(Unsupported),
    /// The payload is the first global found missing.
    HostUnavailable(HostGlobal),
}

/// What the frame driver is to do after a display refresh.
#[derive(Clone, Copy, Debug, PartialEq, Eq, Structural)]
pub enum FrameAction {
    /// Register for the next display refresh.
    Reschedule,
    /// Do not register again.
    Stop,
}

/// The application: its surface, its pending events, and the device pixel
/// ratio found at construction.
#[derive(Debug)]
pub struct App {
    window: Surface,
    events: EventQueue,
    device_pixel_ratio: PixelRatio,
    fullscreen_requested: bool,
    cancelled: bool,
}

/// Mathematical value of an [`App`].
pub struct AppView {
    pub surface: Surface,
    /// The queued events, oldest first.
    pub pending: Seq<Event>,
    pub device_pixel_ratio: PixelRatio,
    /// Whether fullscreen was asked for, which this backend cannot give.
    pub fullscreen_requested: bool,
    /// Whether the frame loop was told to stop.
    pub cancelled: bool,
}

impl View for App {
    type V = AppView;

    closed spec fn view(&self) -> AppView {
        AppView {
            surface: self.window,
            pending: self.events@,
            device_pixel_ratio: self.device_pixel_ratio,
            fullscreen_requested: self.fullscreen_requested,
            cancelled: self.cancelled,
        }
    }
}

/// The first global that `host` lacks, looked for in the order window,
/// document, body.
pub open spec fn missing_global(host: HostInfo) -> Option<HostGlobal> {
    if !host.window {
        Some(HostGlobal::Window)
    } else if !host.document {
        Some(HostGlobal::Document)
    } else if !host.body {
        Some(HostGlobal::Body)
    } else {
        None
    }
}

/// The surface a configuration asks for at `ratio`, where both of its
/// sides fit.
pub open spec fn planned_surface(config: AppConfig, ratio: PixelRatio) -> Option<Surface> {
    if scaled(ratio, config.size.0) <= u32::MAX && scaled(ratio, config.size.1) <= u32::MAX {
        Some(
            Surface {
                width: scaled(ratio, config.size.0) as u32,
                height: scaled(ratio, config.size.1) as u32,
                tab_index: SURFACE_TAB_INDEX,
                cursor_visible: config.show_cursor,
                left: 0,
                top: 0,
            },
        )
    } else {
        None
    }
}

/// What construction yields. A headless configuration is refused before
/// the host is looked at, a missing global before the surface is sized.
pub open spec fn construct(config: AppConfig, host: HostInfo) -> Result<AppView, ConstructError> {
    if config.headless {
        Err(ConstructError::ConfigurationUnsupported(Unsupported::Headless))
    } else if let Some(global) = missing_global(host) {
        Err(ConstructError::HostUnavailable(global))
    } else if let Some(surface) = planned_surface(config, host.device_pixel_ratio) {
        Ok(
            AppView {
                surface,
                pending: Seq::empty(),
                device_pixel_ratio: host.device_pixel_ratio,
                fullscreen_requested: config.fullscreen,
                cancelled: false,
            },
        )
    } else {
        Err(ConstructError::ConfigurationUnsupported(Unsupported::SurfaceSize))
    }
}

/// The application after a listener received `host`: the event it becomes
/// is queued behind those already pending, and nothing else changes.
pub open spec fn receive(app: AppView, host: HostEvent) -> AppView {
    AppView {
        pending: app.pending.push(host.spec_to_event(app.surface.left, app.surface.top)),
        ..app
    }
}

/// The application after its listeners received `hosts`, first to last.
pub open spec fn receive_all(app: AppView, hosts: Seq<HostEvent>) -> AppView
    decreases hosts.len(),
{
    if hosts.len() == 0 {
        app
    } else {
        receive(receive_all(app, hosts.drop_last()), hosts.last())
    }
}

/// The application at the end of a frame: the queue is empty, and nothing
/// else changes.
pub open spec fn end_frame(app: AppView) -> AppView {
    AppView { pending: Seq::empty(), ..app }
}

/// What the driver does after a frame that left the application as `app`.
pub open spec fn next_action(app: AppView) -> FrameAction {
    if app.cancelled {
        FrameAction::Stop
    } else {
        FrameAction::Reschedule
    }
}

/// The text logged at start-up where fullscreen was asked for.
pub open spec fn fullscreen_warning() -> Seq<char> {
    "Webgl do not support with_screen."@
}

impl HostInfo {
    /// The first global that is missing, if any.
    pub fn missing_global(&self) -> (missing: Option<HostGlobal>)
        ensures
            missing == missing_global(*self),
    {
        if !self.window {
            Some(HostGlobal::Window)
        } else if !self.document {
            Some(HostGlobal::Document)
        } else if !self.body {
            Some(HostGlobal::Body)
        } else {
            None
        }
    }
}

impl AppConfig {
    /// The surface this configuration asks for at `ratio`, or `None` where
    /// one of its sides does not fit.
    pub fn plan_surface(&self, ratio: PixelRatio) -> (surface: Option<Surface>)
        ensures
            surface == planned_surface(*self, ratio),
    {
        match (ratio.scale(self.size.0), ratio.scale(self.size.1)) {
            (Some(width), Some(height)) => Some(
                Surface {
                    width,
                    height,
                    tab_index: SURFACE_TAB_INDEX,
                    cursor_visible: self.show_cursor,
                    left: 0,
                    top: 0,
                },
            ),
            _ => None,
        }
    }
}

impl App {
    /// Constructs the application for `config` on a host described by
    /// `host`. The new application has no pending events, and its surface
    /// is sized by the host's device pixel ratio, focusable, and placed at
    /// the origin until [`App::setup_listener`] says where it lies.
    pub fn new(config: AppConfig, host: HostInfo) -> (res: Result<App, ConstructError>)
        ensures
            match res {
                Ok(app) => construct(config, host) == Ok::<AppView, ConstructError>(app@),
                Err(e) => construct(config, host) == Err::<AppView, ConstructError>(e),
            },
    {
        if config.headless {
            return Err(ConstructError::ConfigurationUnsupported(Unsupported::Headless));
        }
        if let Some(global) = host.missing_global() {
            return Err(ConstructError::HostUnavailable(global));
        }
        match config.plan_surface(host.device_pixel_ratio) {
            Some(surface) => Ok(
                App {
                    window: surface,
                    events: EventQueue::new(),
                    device_pixel_ratio: host.device_pixel_ratio,
                    fullscreen_requested: config.fullscreen,
                    cancelled: false,
                },
            ),
            None => Err(ConstructError::ConfigurationUnsupported(Unsupported::SurfaceSize)),
        }
    }

    /// Records where the surface lies in client coordinates and returns the
    /// listeners to attach to it, in order.
    pub fn setup_listener(&mut self, left: i32, top: i32) -> (listeners: Vec<Listener>)
        ensures
            listeners@ == listener_table(),
            final(self)@ == (AppView {
                surface: Surface { left, top, ..old(self)@.surface },
                ..old(self)@
            }),
    {
        self.window.left = left;
        self.window.top = top;
        let mut listeners: Vec<Listener> = Vec::new();
        listeners.push(EventClass::PointerPress.listener());
        listeners.push(EventClass::PointerRelease.listener());
        listeners.push(EventClass::PointerMove.listener());
        listeners.push(EventClass::KeyPress.listener());
        listeners.push(EventClass::KeyRelease.listener());
        listeners.push(EventClass::SurfaceResize.listener());
        assert(listeners@ =~= listener_table());
        listeners
    }

    /// The work of a listener: queues the event that `host` becomes and
    /// says whether the host's default handling is to be suppressed.
    pub fn on_host_event(&mut self, host: HostEvent) -> (prevent_default: bool)
        ensures
            final(self)@ == receive(old(self)@, host),
            prevent_default == host.spec_class().spec_suppresses_default(),
    {
        let event: Event = host.to_event(self.window.left, self.window.top);
        self.events.push(event);
        host.class().suppresses_default()
    }

    /// Leaving the process is not something this backend can do: a call
    /// has no effect.
    pub fn exit() {
    }

    /// The parameters of the host's query string `query`.
    pub fn get_params(query: &str) -> (out: Vec<String>)
        ensures
            texts(out@) == params(query@),
    {
        parse_query(query)
    }

    /// The device pixel ratio found at construction.
    pub fn hidpi_factor(&self) -> (ratio: PixelRatio)
        ensures
            ratio == self@.device_pixel_ratio,
    {
        self.device_pixel_ratio
    }

    /// The surface.
    pub fn canvas(&self) -> (surface: &Surface)
        ensures
            *surface == self@.surface,
    {
        &self.window
    }

    /// The pending events, oldest first.
    pub fn events(&self) -> (events: &EventQueue)
        ensures
            events@ == self@.pending,
    {
        &self.events
    }

    /// The warning to log at start-up, if there is one.
    pub fn startup_warning(&self) -> (warning: Option<&'static str>)
        ensures
            warning is Some <==> self@.fullscreen_requested,
            warning matches Some(text) ==> text@ == fullscreen_warning(),
    {
        if self.fullscreen_requested {
            Some("Webgl do not support with_screen.")
        } else {
            None
        }
    }

    /// Tells the frame loop to stop: no frame runs after this, and the
    /// driver does not register again.
    pub fn cancel(&mut self)
        ensures
            final(self)@ == (AppView { cancelled: true, ..old(self)@ }),
    {
        self.cancelled = true;
    }

    /// Whether the frame loop was told to stop.
    pub fn is_cancelled(&self) -> (cancelled: bool)
        ensures
            cancelled == self@.cancelled,
    {
        self.cancelled
    }

    /// What the driver does to start the loop.
    pub fn run(&self) -> (action: FrameAction)
        ensures
            action == next_action(self@),
    {
        if self.cancelled {
            FrameAction::Stop
        } else {
            FrameAction::Reschedule
        }
    }

    /// One display refresh. Unless the loop was cancelled, `callback` runs
    /// once on the application as it stands, pending events included; then
    /// the queue is emptied. A cancelled loop runs nothing and changes
    /// nothing.
    pub fn run_loop<F>(&mut self, callback: F) -> (action: FrameAction) where F: FnOnce(&mut App)
        requires
            !old(self)@.cancelled ==> forall|app: &mut App|
                *app == *old(self) ==> call_requires(callback, (app,)),
        ensures
            old(self)@.cancelled ==> action == FrameAction::Stop && *final(self) == *old(self),
            !old(self)@.cancelled ==> exists|app: &mut App|
                *app == *old(self) && #[trigger] call_ensures(callback, (app,), ())
                    && final(self)@ == end_frame(final(app)@) && action == next_action(
                    final(app)@,
                ),
    {
        if self.cancelled {
            return FrameAction::Stop;
        }
        callback(self);
        self.events.clear();
        if self.cancelled {
            FrameAction::Stop
        } else {
            FrameAction::Reschedule
        }
    }

    /// One frame for a host that does not drive a loop of its own:
    /// `callback` runs once on the application as it stands, pending
    /// events included; then the queue is emptied.
    pub fn poll_events<F>(&mut self, callback: F) -> (ok: bool) where F: FnOnce(&mut App)
        requires
            forall|app: &mut App| *app == *old(self) ==> call_requires(callback, (app,)),
        ensures
            ok,
            exists|app: &mut App|
                *app == *old(self) && #[trigger] call_ensures(callback, (app,), ())
                    && final(self)@ == end_frame(final(app)@),
    {
        callback(self);
        self.events.clear();
        true
    }

    /// Fullscreen cannot be toggled on this backend: nothing changes.
    pub fn set_fullscreen(&mut self, _b: bool)
        ensures
            *final(self) == *old(self),
    {
    }
}

/// Deliveries change nothing but the queue.
pub proof fn lemma_delivery_keeps_rest(app: AppView, hosts: Seq<HostEvent>)
    ensures
        receive_all(app, hosts) == (AppView { pending: receive_all(app, hosts).pending, ..app }),
    decreases hosts.len(),
{
    if hosts.len() > 0 {
        lemma_delivery_keeps_rest(app, hosts.drop_last());
    }
}

/// Whatever was queued before, after the end of a frame and the delivery of
/// `hosts` the queue holds exactly the events that `hosts` become, in the
/// order of delivery, and nothing else of the application has changed. The
/// end of the next frame leaves the queue empty again.
pub proof fn lemma_frame_sees_deliveries(app: AppView, hosts: Seq<HostEvent>)
    ensures
        receive_all(end_frame(app), hosts) == (AppView {
            pending: events_of(hosts, app.surface.left, app.surface.top),
            ..app
        }),
        end_frame(receive_all(end_frame(app), hosts)) == end_frame(app),
    decreases hosts.len(),
{
    let left = app.surface.left;
    let top = app.surface.top;
    if hosts.len() == 0 {
        assert(events_of(hosts, left, top) =~= Seq::<Event>::empty());
    } else {
        let front = hosts.drop_last();
        lemma_frame_sees_deliveries(app, front);
        assert(events_of(front, left, top).push(hosts.last().spec_to_event(left, top))
            =~= events_of(hosts, left, top));
    }
}

/// Each delivery queues exactly one event.
pub proof fn lemma_one_event_per_delivery(app: AppView, hosts: Seq<HostEvent>)
    ensures
        receive_all(app, hosts).pending.len() == app.pending.len() + hosts.len(),
        receive_all(app, hosts).pending == app.pending + events_of(
            hosts,
            app.surface.left,
            app.surface.top,
        ),
    decreases hosts.len(),
{
    let left = app.surface.left;
    let top = app.surface.top;
    if hosts.len() == 0 {
        assert(app.pending + events_of(hosts, left, top) =~= app.pending);
    } else {
        let front = hosts.drop_last();
        lemma_one_event_per_delivery(app, front);
        assert(receive_all(app, front).surface == app.surface) by {
            lemma_delivery_keeps_rest(app, front);
        }
        assert((app.pending + events_of(front, left, top)).push(
            hosts.last().spec_to_event(left, top),
        ) =~= app.pending + events_of(hosts, left, top));
    }
}

} // verus!
