//! The calls that a query asks of the platform, and what the platform
//! answers, as plain values.
//!
//! A state machine of this crate never calls the platform. It names the
//! call it needs next as a [`Request`]; whoever drives it makes the call and
//! hands back the [`Reply`].

use vstd::prelude::*;

verus! {

/// Flags of the message lookup: from the system's table, inserts left alone.
pub const FORMAT_MESSAGE_FLAGS: u32 = 0x1200;

/// Code units offered to the message lookup: a buffer of 1024, less the
/// terminator.
pub const FORMAT_MESSAGE_CAPACITY: u32 = 1023;

/// State flag of a display device that is part of the desktop.
pub const DISPLAY_DEVICE_ATTACHED_TO_DESKTOP: u32 = 0x1;

/// A bounding box as the platform reports it, by its edges.
#[derive(Clone, Copy, Debug, PartialEq, Eq)]
pub struct Rect {
    pub left: i32,
    pub top: i32,
    pub right: i32,
    pub bottom: i32,
}

impl Rect {
    /// Whether width and height of the box are `i32` values.
    pub open spec fn spans_fit(&self) -> bool {
        &&& i32::MIN <= self.right - self.left <= i32::MAX
        &&& i32::MIN <= self.bottom - self.top <= i32::MAX
    }

    /// Whether `self` lies within `outer`.
    pub open spec fn within(&self, outer: Rect) -> bool {
        &&& outer.left <= self.left
        &&& outer.top <= self.top
        &&& self.right <= outer.right
        &&& self.bottom <= outer.bottom
    }

    /// Tests `spans_fit`.
    pub fn fits(&self) -> (fit: bool)
        ensures
            fit == self.spans_fit(),
    {
        self.right.checked_sub(self.left).is_some() && self.bottom.checked_sub(
            self.top,
        ).is_some()
    }
}

/// What the platform tells of one monitor: the NUL-terminated buffer with its
/// device name, its bounding box and its work box.
#[derive(Clone, Debug, PartialEq, Eq)]
pub struct MonitorData {
    pub device: Vec<u16>,
    pub bounds: Rect,
    pub work: Rect,
}

/// A call for the platform.
#[derive(Clone, Debug, PartialEq, Eq)]
pub enum Request {
    /// Start visiting the display monitors. Answered by `MonitorFound` for
    /// the first monitor, or by `EnumerationEnded`.
    EnumerateMonitors,
    /// Go on to the next monitor. Answered like `EnumerateMonitors`.
    NextMonitor,
    /// Look up the monitor with this identifier.
    MonitorInfo { monitor: usize },
    /// Look up the display device that this NUL-terminated buffer names:
    /// the first of that name, without flags.
    DisplayDevice { device: Vec<u16> },
    /// Register a window class under this NUL-terminated name, for the
    /// module of the running process, with a window procedure that does as
    /// `wnd_proc` of this crate says.
    RegisterClass { name: Vec<u16> },
    /// Create a top-level window of this class, owned by the module of the
    /// running process: no extended style, no parent, no menu, no creation
    /// data.
    CreateWindow {
        class: Vec<u16>,
        title: Vec<u16>,
        style: u32,
        x: i32,
        y: i32,
        width: i32,
        height: i32,
    },
    /// Read the client box of this window.
    ClientRect { window: usize },
    /// Wait for the next message of this thread's queue, of whatever window
    /// and kind.
    NextMessage,
    /// Translate and dispatch the message last retrieved.
    DispatchMessage,
    /// Destroy this window.
    DestroyWindow { window: usize },
    /// Unregister the window class of this name, of the module of the
    /// running process.
    UnregisterClass { name: Vec<u16> },
    /// Read the thread's last error code.
    LastError,
    /// Look up the message of an error code in the language that the
    /// platform chooses, into a buffer of `capacity` code units and one for
    /// the terminator.
    FormatMessage { code: u32, flags: u32, capacity: u32 },
    /// Reset the thread's last error code to zero.
    ClearLastError,
    /// Read the work box of the desktop.
    DesktopWorkArea,
}

/// The model of a [`Request`].
pub enum RequestView {
    EnumerateMonitors,
    NextMonitor,
    MonitorInfo { monitor: usize },
    DisplayDevice { device: Seq<u16> },
    RegisterClass { name: Seq<u16> },
    CreateWindow {
        class: Seq<u16>,
        title: Seq<u16>,
        style: u32,
        x: i32,
        y: i32,
        width: i32,
        height: i32,
    },
    ClientRect { window: usize },
    NextMessage,
    DispatchMessage,
    DestroyWindow { window: usize },
    UnregisterClass { name: Seq<u16> },
    LastError,
    FormatMessage { code: u32, flags: u32, capacity: u32 },
    ClearLastError,
    DesktopWorkArea,
}

impl View for Request {
    type V = RequestView;

    open spec fn view(&self) -> RequestView {
        match *self {
            Request::EnumerateMonitors => RequestView::EnumerateMonitors,
            Request::NextMonitor => RequestView::NextMonitor,
            Request::MonitorInfo { monitor } => RequestView::MonitorInfo { monitor },
            Request::DisplayDevice { device } => RequestView::DisplayDevice { device: device@ },
            Request::RegisterClass { name } => RequestView::RegisterClass { name: name@ },
            Request::CreateWindow { class, title, style, x, y, width, height } => {
                RequestView::CreateWindow {
                    class: class@,
                    title: title@,
                    style,
                    x,
                    y,
                    width,
                    height,
                }
            },
            Request::ClientRect { window } => RequestView::ClientRect { window },
            Request::NextMessage => RequestView::NextMessage,
            Request::DispatchMessage => RequestView::DispatchMessage,
            Request::DestroyWindow { window } => RequestView::DestroyWindow { window },
            Request::UnregisterClass { name } => RequestView::UnregisterClass { name: name@ },
            Request::LastError => RequestView::LastError,
            Request::FormatMessage { code, flags, capacity } => {
                RequestView::FormatMessage { code, flags, capacity }
            },
            Request::ClearLastError => RequestView::ClearLastError,
            Request::DesktopWorkArea => RequestView::DesktopWorkArea,
        }
    }
}

/// The model of the request that a machine waits on, if any.
pub open spec fn request_view(request: Option<Request>) -> Option<RequestView> {
    match request {
        Some(r) => Some(r@),
        None => None,
    }
}

/// What the platform answered. A `result` is the call's own return value:
/// zero where it failed.
#[derive(Clone, Debug, PartialEq, Eq)]
pub enum Reply {
    /// The enumeration came to the monitor with this identifier.
    MonitorFound { monitor: usize },
    /// The enumeration is over.
    EnumerationEnded { result: i32 },
    MonitorInfo { result: i32, info: MonitorData },
    DisplayDevice { result: i32, state_flags: u32 },
    /// The atom of the class; zero where registration failed.
    ClassRegistered { atom: u16 },
    /// The handle of the window; zero where creation failed.
    WindowCreated { window: usize },
    ClientRect { result: i32, rect: Rect },
    /// -1 where retrieval failed, 0 for the quit message, anything else for a
    /// message to dispatch.
    Message { result: i32 },
    MessageDispatched,
    WindowDestroyed { result: i32 },
    ClassUnregistered { result: i32 },
    LastError { code: u32 },
    /// The message text: the first `length` code units of `buffer`; a
    /// `length` of zero where the lookup failed.
    MessageFormatted { length: u32, buffer: Vec<u16> },
    LastErrorCleared,
    DesktopWorkArea { result: i32, rect: Rect },
}

} // verus!
