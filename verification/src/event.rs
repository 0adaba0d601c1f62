//! Input events: what the host reports, what the application sees, and the
//! rule that maps one to the other.

use vstd::prelude::*;

verus! {

/// An input event as the application sees it.
#[derive(Clone, Copy, Debug, PartialEq, Eq, Structural)]
pub enum Event {
    /// A pointer button was pressed; the payload is the button index.
    MouseDown(i16),
    /// A pointer button was released; the payload is the button index.
    MouseUp(i16),
    /// The pointer moved; the payload is its position relative to the
    /// top-left corner of the surface.
    MousePos(i64, i64),
    /// A key was pressed; the payload is the key code.
    KeyDown(u32),
    /// A key was released; the payload is the key code.
    KeyUp(u32),
    /// The surface changed size; the payload is the new width and height.
    Resized(u32, u32),
}

/// The six kinds of input the surface listens for.
#[derive(Clone, Copy, Debug, PartialEq, Eq, Structural)]
pub enum EventClass {
    PointerPress,
    PointerRelease,
    PointerMove,
    KeyPress,
    KeyRelease,
    SurfaceResize,
}

/// One input notification of the host, reduced to the values the
/// application reads from it.
#[derive(Clone, Copy, Debug, PartialEq, Eq, Structural)]
pub enum HostEvent {
    PointerPress { button: i16 },
    PointerRelease { button: i16 },
    /// Pointer position in client coordinates.
    PointerMove { client_x: i32, client_y: i32 },
    KeyPress { key_code: u32 },
    KeyRelease { key_code: u32 },
    /// The size the surface has after the change.
    SurfaceResize { width: u32, height: u32 },
}

/// One listener to attach to the surface.
#[derive(Clone, Copy, Debug, PartialEq, Eq, Structural)]
pub struct Listener {
    pub class: EventClass,
    /// Whether the listener suppresses the host's default handling.
    pub prevent_default: bool,
}

impl EventClass {
    /// Whether a listener of this class suppresses the host's default
    /// handling: all do, except pointer presses and surface resizes.
    pub open spec fn spec_suppresses_default(self) -> bool {
        !(self is PointerPress) && !(self is SurfaceResize)
    }

    #[verifier::when_used_as_spec(spec_suppresses_default)]
    pub fn suppresses_default(self) -> (suppress: bool)
        ensures
            suppress == self.spec_suppresses_default(),
    {
        match self {
            EventClass::PointerPress => false,
            EventClass::PointerRelease => true,
            EventClass::PointerMove => true,
            EventClass::KeyPress => true,
            EventClass::KeyRelease => true,
            EventClass::SurfaceResize => false,
        }
    }

    /// The name under which the host dispatches events of this class.
    pub open spec fn spec_host_name(self) -> Seq<char> {
        match self {
            EventClass::PointerPress => "mousedown"@,
            EventClass::PointerRelease => "mouseup"@,
            EventClass::PointerMove => "mousemove"@,
            EventClass::KeyPress => "keydown"@,
            EventClass::KeyRelease => "keyup"@,
            EventClass::SurfaceResize => "resize"@,
        }
    }

    pub fn host_name(self) -> (name: &'static str)
        ensures
            name@ == self.spec_host_name(),
    {
        match self {
            EventClass::PointerPress => "mousedown",
            EventClass::PointerRelease => "mouseup",
            EventClass::PointerMove => "mousemove",
            EventClass::KeyPress => "keydown",
            EventClass::KeyRelease => "keyup",
            EventClass::SurfaceResize => "resize",
        }
    }

    /// The listener the surface carries for this class.
    pub open spec fn spec_listener(self) -> Listener {
        Listener { class: self, prevent_default: self.spec_suppresses_default() }
    }

    #[verifier::when_used_as_spec(spec_listener)]
    pub fn listener(self) -> (listener: Listener)
        ensures
            listener == self.spec_listener(),
    {
        Listener { class: self, prevent_default: self.suppresses_default() }
    }
}

impl HostEvent {
    pub open spec fn spec_class(self) -> EventClass {
        match self {
            HostEvent::PointerPress { .. } => EventClass::PointerPress,
            HostEvent::PointerRelease { .. } => EventClass::PointerRelease,
            HostEvent::PointerMove { .. } => EventClass::PointerMove,
            HostEvent::KeyPress { .. } => EventClass::KeyPress,
            HostEvent::KeyRelease { .. } => EventClass::KeyRelease,
            HostEvent::SurfaceResize { .. } => EventClass::SurfaceResize,
        }
    }

    /// The class of listener that receives this notification.
    #[verifier::when_used_as_spec(spec_class)]
    pub fn class(self) -> (class: EventClass)
        ensures
            class == self.spec_class(),
    {
        match self {
            HostEvent::PointerPress { .. } => EventClass::PointerPress,
            HostEvent::PointerRelease { .. } => EventClass::PointerRelease,
            HostEvent::PointerMove { .. } => EventClass::PointerMove,
            HostEvent::KeyPress { .. } => EventClass::KeyPress,
            HostEvent::KeyRelease { .. } => EventClass::KeyRelease,
            HostEvent::SurfaceResize { .. } => EventClass::SurfaceResize,
        }
    }

    /// The application event this notification becomes on a surface whose
    /// top-left corner lies at `(left, top)` in client coordinates. Only a
    /// pointer move depends on the corner.
    pub open spec fn spec_to_event(self, left: i32, top: i32) -> Event {
        match self {
            HostEvent::PointerPress { button } => Event::MouseDown(button),
            HostEvent::PointerRelease { button } => Event::MouseUp(button),
            HostEvent::PointerMove { client_x, client_y } => Event::MousePos(
                (client_x - left) as i64,
                (client_y - top) as i64,
            ),
            HostEvent::KeyPress { key_code } => Event::KeyDown(key_code),
            HostEvent::KeyRelease { key_code } => Event::KeyUp(key_code),
            HostEvent::SurfaceResize { width, height } => Event::Resized(width, height),
        }
    }

    #[verifier::when_used_as_spec(spec_to_event)]
    pub fn to_event(self, left: i32, top: i32) -> (event: Event)
        ensures
            event == self.spec_to_event(left, top),
            event matches Event::MousePos(x, y) ==> self matches HostEvent::PointerMove {
                client_x,
                client_y,
            } && x == client_x - left && y == client_y - top,
    {
        match self {
            HostEvent::PointerPress { button } => Event::MouseDown(button),
            HostEvent::PointerRelease { button } => Event::MouseUp(button),
            HostEvent::PointerMove { client_x, client_y } => Event::MousePos(
                client_x as i64 - left as i64,
                client_y as i64 - top as i64,
            ),
            HostEvent::KeyPress { key_code } => Event::KeyDown(key_code),
            HostEvent::KeyRelease { key_code } => Event::KeyUp(key_code),
            HostEvent::SurfaceResize { width, height } => Event::Resized(width, height),
        }
    }
}

/// The listeners a surface carries, in the order in which they are attached.
pub open spec fn listener_table() -> Seq<Listener> {
    seq![
        Listener { class: EventClass::PointerPress, prevent_default: false },
        Listener { class: EventClass::PointerRelease, prevent_default: true },
        Listener { class: EventClass::PointerMove, prevent_default: true },
        Listener { class: EventClass::KeyPress, prevent_default: true },
        Listener { class: EventClass::KeyRelease, prevent_default: true },
        Listener { class: EventClass::SurfaceResize, prevent_default: false },
    ]
}

/// The application events that a run of host notifications becomes, one for
/// one and in the same order.
pub open spec fn events_of(hosts: Seq<HostEvent>, left: i32, top: i32) -> Seq<Event> {
    Seq::new(hosts.len(), |i: int| hosts[i].spec_to_event(left, top))
}

/// Every class has exactly one entry in the table, and that entry is the
/// class's own listener.
pub proof fn lemma_listener_table_covers(class: EventClass)
    ensures
        exists|i: int|
            0 <= i < listener_table().len() && #[trigger] listener_table()[i]
                == class.spec_listener(),
        forall|i: int, j: int|
            0 <= i < listener_table().len() && 0 <= j < listener_table().len()
                && listener_table()[i].class == listener_table()[j].class ==> i == j,
{
    let t = listener_table();
    match class {
        EventClass::PointerPress => assert(t[0] == class.spec_listener()),
        EventClass::PointerRelease => assert(t[1] == class.spec_listener()),
        EventClass::PointerMove => assert(t[2] == class.spec_listener()),
        EventClass::KeyPress => assert(t[3] == class.spec_listener()),
        EventClass::KeyRelease => assert(t[4] == class.spec_listener()),
        EventClass::SurfaceResize => assert(t[5] == class.spec_listener()),
    }
}

} // verus!
