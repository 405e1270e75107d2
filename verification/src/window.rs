//! Window classes and windows: the two platform resources that a
//! measurement holds, and the window procedure of its class.

use crate::platform::{Request, RequestView};
use crate::text::{copy_units, encode_utf16, utf16};
use vstd::prelude::*;

verus! {

/// Style of an overlapped window with caption, system menu, sizing frame
/// and both caption buttons.
pub const WS_OVERLAPPEDWINDOW: u32 = 0x00CF0000;

/// Style bit of the system menu.
pub const WS_SYSMENU: u32 = 0x00080000;

/// The notification that a window is being destroyed.
pub const WM_DESTROY: u32 = 0x0002;

/// A text as the platform takes it: UTF-16 with a NUL behind it.
pub open spec fn wide(text: Seq<char>) -> Seq<u16> {
    utf16(text).push(0)
}

/// Encodes `text` as UTF-16 and puts the terminating NUL behind it.
pub fn to_wide(text: &str) -> (units: Vec<u16>)
    ensures
        units@ == wide(text@),
{
    let mut units = encode_utf16(text);
    units.push(0);
    units
}

/// The style of the window of a measurement: the standard frame without
/// the system menu.
pub fn frame_style() -> (style: u32)
    ensures
        style == WS_OVERLAPPEDWINDOW & !WS_SYSMENU,
        style == 0x00C70000,
{
    assert(0x00CF0000u32 & !0x00080000u32 == 0x00C70000u32) by (bit_vector);
    WS_OVERLAPPEDWINDOW & !WS_SYSMENU
}

/// A window class that is registered with the platform. Whoever holds the
/// value owes the platform its removal.
#[derive(Debug, PartialEq, Eq)]
pub struct WindowClass {
    name: Vec<u16>,
}

impl View for WindowClass {
    type V = Seq<u16>;

    /// The NUL-terminated name that the class is registered under.
    closed spec fn view(&self) -> Seq<u16> {
        self.name@
    }
}

/// The model of a class that may be held.
pub open spec fn class_view(class: Option<WindowClass>) -> Option<Seq<u16>> {
    match class {
        Some(c) => Some(c@),
        None => None,
    }
}

impl WindowClass {
    /// The call that registers a class under `name`.
    pub fn registration(name: &str) -> (request: Request)
        ensures
            request@ == (RequestView::RegisterClass { name: wide(name@) }),
    {
        Request::RegisterClass { name: to_wide(name) }
    }

    /// The class registered under `name`, given the atom that its
    /// registration returned: none where the atom is zero, which is how the
    /// platform reports that it failed.
    pub fn new(name: &str, atom: u16) -> (class: Option<WindowClass>)
        ensures
            class_view(class) == if atom == 0 {
                None
            } else {
                Some(wide(name@))
            },
    {
        Self::register(name, atom)
    }

    fn register(name: &str, atom: u16) -> (class: Option<WindowClass>)
        ensures
            class_view(class) == if atom == 0 {
                None
            } else {
                Some(wide(name@))
            },
    {
        if atom == 0 {
            None
        } else {
            Some(WindowClass { name: to_wide(name) })
        }
    }

    /// The call that removes the class.
    pub fn removal(&self) -> (request: Request)
        ensures
            request@ == (RequestView::UnregisterClass { name: self@ }),
    {
        Request::UnregisterClass { name: copy_units(&self.name) }
    }

    /// Gives the class up: the platform has removed it, and `result` is what
    /// its removal returned. A result of zero, by which the platform
    /// refuses, is no input: a class that cannot be removed is fatal, and
    /// whoever holds it then keeps it and goes no further.
    pub fn unregister(self, result: i32)
        requires
            result != 0,
    {
    }
}

/// A live window. Whoever holds the value owes the platform its
/// destruction, before the removal of its class.
#[derive(Debug, PartialEq, Eq)]
pub struct Window {
    handle: usize,
}

impl View for Window {
    type V = usize;

    /// The platform's handle of the window.
    closed spec fn view(&self) -> usize {
        self.handle
    }
}

/// The model of a window that may be held.
pub open spec fn window_view(window: Option<Window>) -> Option<usize> {
    match window {
        Some(w) => Some(w@),
        None => None,
    }
}

impl Window {
    /// The platform's handle of the window. The window stays with `self`.
    pub fn as_handle(&mut self) -> (handle: usize)
        ensures
            handle == old(self)@,
            *final(self) == *old(self),
    {
        self.handle
    }

    /// The call that reads the client box of the window.
    pub fn client_rect(&self) -> (request: Request)
        ensures
            request@ == (RequestView::ClientRect { window: self@ }),
    {
        Request::ClientRect { window: self.handle }
    }

    /// The call that destroys the window.
    pub fn destruction(&self) -> (request: Request)
        ensures
            request@ == (RequestView::DestroyWindow { window: self@ }),
    {
        Request::DestroyWindow { window: self.handle }
    }

    /// Gives the window up: the platform has destroyed it, and `result` is
    /// what its destruction returned. A result of zero, by which the
    /// platform refuses, is no input: a window that cannot be destroyed is
    /// fatal, and whoever holds it then keeps it and goes no further.
    pub fn destroy_window(self, result: i32)
        requires
            result != 0,
    {
    }
}

/// Collects what the creation of a window takes: its class, title,
/// position and size.
#[derive(Debug, PartialEq, Eq)]
pub struct WindowBuilder<'a> {
    class: &'a WindowClass,
    title: Vec<u16>,
    pos_x: i32,
    pos_y: i32,
    width: i32,
    height: i32,
}

/// The model of a [`WindowBuilder`].
pub struct WindowBuilderView {
    pub class: Seq<u16>,
    pub title: Seq<u16>,
    pub pos_x: i32,
    pub pos_y: i32,
    pub width: i32,
    pub height: i32,
}

impl<'a> View for WindowBuilder<'a> {
    type V = WindowBuilderView;

    closed spec fn view(&self) -> WindowBuilderView {
        WindowBuilderView {
            class: self.class@,
            title: self.title@,
            pos_x: self.pos_x,
            pos_y: self.pos_y,
            width: self.width,
            height: self.height,
        }
    }
}

impl<'a> WindowBuilder<'a> {
    /// A builder for a window of `class`, with no title, at the origin, of
    /// no size.
    pub fn new(class: &'a WindowClass) -> (builder: Self)
        ensures
            builder@ == (WindowBuilderView {
                class: class@,
                title: Seq::empty(),
                pos_x: 0,
                pos_y: 0,
                width: 0,
                height: 0,
            }),
    {
        WindowBuilder { class, title: Vec::new(), pos_x: 0, pos_y: 0, width: 0, height: 0 }
    }

    /// Sets the title.
    pub fn with_title(self, title: &str) -> (builder: Self)
        ensures
            builder@ == (WindowBuilderView { title: wide(title@), ..self@ }),
    {
        let title = to_wide(title);
        WindowBuilder { title, ..self }
    }

    /// Sets the position of the upper left corner.
    pub fn with_pos(self, pos_x: i32, pos_y: i32) -> (builder: Self)
        ensures
            builder@ == (WindowBuilderView { pos_x, pos_y, ..self@ }),
    {
        WindowBuilder { pos_x, pos_y, ..self }
    }

    /// Sets the size.
    pub fn with_size(self, width: i32, height: i32) -> (builder: Self)
        ensures
            builder@ == (WindowBuilderView { width, height, ..self@ }),
    {
        WindowBuilder { width, height, ..self }
    }

    /// The model of the call that creates the window: a top-level window
    /// with the standard frame and no system menu.
    pub open spec fn request_model(&self) -> RequestView {
        RequestView::CreateWindow {
            class: self@.class,
            title: self@.title,
            style: 0x00C70000,
            x: self@.pos_x,
            y: self@.pos_y,
            width: self@.width,
            height: self@.height,
        }
    }

    /// The call that creates the window.
    pub fn request(&self) -> (request: Request)
        ensures
            request@ == self.request_model(),
    {
        Request::CreateWindow {
            class: copy_units(&self.class.name),
            title: copy_units(&self.title),
            style: frame_style(),
            x: self.pos_x,
            y: self.pos_y,
            width: self.width,
            height: self.height,
        }
    }

    /// The window, given the handle that its creation returned: none where
    /// the handle is zero, which is how the platform reports that it failed.
    pub fn build(self, handle: usize) -> (window: Option<Window>)
        ensures
            window_view(window) == if handle == 0 {
                None
            } else {
                Some(handle)
            },
    {
        if handle == 0 {
            None
        } else {
            Some(Window { handle })
        }
    }
}

/// What the window procedure does with a notification.
#[derive(Clone, Copy, Debug, PartialEq, Eq)]
pub enum ProcAction {
    /// Post the quit message with this exit code to the thread's queue, and
    /// return `result`.
    PostQuit { exit_code: i32, result: isize },
    /// Hand the notification to the platform's default procedure, and
    /// return what it returns.
    Default,
}

/// The window procedure of every class of a measurement. It reads nothing
/// but the notification: the destruction of the window asks the thread's
/// message loop to end, with exit code 0, and is reported as handled, by 0;
/// anything else is left to the platform.
pub fn wnd_proc(msg: u32) -> (action: ProcAction)
    ensures
        action == if msg == WM_DESTROY {
            ProcAction::PostQuit { exit_code: 0, result: 0 }
        } else {
            ProcAction::Default
        },
{
    if msg == WM_DESTROY {
        ProcAction::PostQuit { exit_code: 0, result: 0 }
    } else {
        ProcAction::Default
    }
}

} // verus!
