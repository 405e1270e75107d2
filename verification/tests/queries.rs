use desktop_work_area::desktop_work_area::{get_desktop_work_area, DesktopQuery, DesktopWorkArea};
use desktop_work_area::error::Error;
use desktop_work_area::measure::{query_client_area, Held, Measurement};
use desktop_work_area::monitor::{
    is_attached, monitor_enum_proc, query_monitors, MonitorArea, MonitorInfo, MonitorQuery, Visit,
};
use desktop_work_area::platform::{MonitorData, Rect, Reply, Request};
use desktop_work_area::work_area::{get_work_areas, WorkArea, WorkAreaQuery};

const ACCESS_DENIED: u32 = 5;
const CLASS_ALREADY_EXISTS: u32 = 1410;
const CLASS_DOES_NOT_EXIST: u32 = 1411;
const INVALID_WINDOW_HANDLE: u32 = 1400;
const MESSAGE_NOT_FOUND: u32 = 317;

fn wide(text: &str) -> Vec<u16> {
    let mut units: Vec<u16> = text.encode_utf16().collect();
    units.push(0);
    units
}

fn device_buffer(name: &str) -> Vec<u16> {
    let mut units: Vec<u16> = name.encode_utf16().collect();
    units.resize(32, 0);
    units
}

fn rect(left: i32, top: i32, right: i32, bottom: i32) -> Rect {
    Rect { left, top, right, bottom }
}

fn area(x: i32, y: i32, width: i32, height: i32) -> MonitorArea {
    MonitorArea { x, y, width, height }
}

fn winapi(text: &str) -> Error {
    Error::WinApi(String::from(text))
}

/// One monitor of the desktop that the tests pretend to have.
struct Screen {
    data: Option<MonitorData>,
    state_flags: Option<u32>,
}

fn screen(name: &str, bounds: Rect, work: Rect) -> Screen {
    Screen {
        data: Some(MonitorData { device: device_buffer(name), bounds, work }),
        state_flags: Some(0x1),
    }
}

/// A platform in memory: a table of classes, a table of windows, a queue of
/// messages and a last error code, behaving as the tests need.
struct Desk {
    screens: Vec<Screen>,
    cursor: usize,
    enumeration_result: i32,
    classes: Vec<Vec<u16>>,
    windows: Vec<(usize, i32, i32)>,
    handles_given: usize,
    frame: (i32, i32),
    messages: Vec<i32>,
    last_error: u32,
    desktop: Option<Rect>,
    refuse_window: bool,
    refuse_client_rect: bool,
    refuse_destroy: bool,
    refuse_unregister: bool,
    log: Vec<Request>,
}

fn desk(screens: Vec<Screen>) -> Desk {
    Desk {
        screens,
        cursor: 0,
        enumeration_result: 1,
        classes: Vec::new(),
        windows: Vec::new(),
        handles_given: 0,
        frame: (16, 39),
        messages: Vec::new(),
        last_error: 0,
        desktop: Some(rect(0, 0, 1920, 1040)),
        refuse_window: false,
        refuse_client_rect: false,
        refuse_destroy: false,
        refuse_unregister: false,
        log: Vec::new(),
    }
}

impl Desk {
    fn message_of(code: u32) -> Option<&'static str> {
        match code {
            ACCESS_DENIED => Some("Access is denied.\r\n"),
            CLASS_ALREADY_EXISTS => Some("Class already exists.\r\n"),
            CLASS_DOES_NOT_EXIST => Some("Class does not exist.\r\n"),
            INVALID_WINDOW_HANDLE => Some("Invalid window handle.\r\n"),
            _ => None,
        }
    }

    fn next_monitor(&mut self) -> Reply {
        if self.cursor < self.screens.len() && self.enumeration_result != 0 {
            self.cursor += 1;
            Reply::MonitorFound { monitor: 0x10000 + self.cursor }
        } else {
            if self.enumeration_result == 0 {
                self.last_error = ACCESS_DENIED;
            }
            Reply::EnumerationEnded { result: self.enumeration_result }
        }
    }

    fn perform(&mut self, request: Request) -> Reply {
        self.log.push(request.clone());
        match request {
            Request::EnumerateMonitors => {
                self.cursor = 0;
                self.next_monitor()
            }
            Request::NextMonitor => self.next_monitor(),
            Request::MonitorInfo { monitor } => {
                match &self.screens[monitor - 0x10001].data {
                    Some(data) => Reply::MonitorInfo { result: 1, info: data.clone() },
                    None => {
                        self.last_error = ACCESS_DENIED;
                        Reply::MonitorInfo {
                            result: 0,
                            info: MonitorData {
                                device: vec![0; 32],
                                bounds: rect(0, 0, 0, 0),
                                work: rect(0, 0, 0, 0),
                            },
                        }
                    }
                }
            }
            Request::DisplayDevice { device } => {
                let found = self.screens.iter().find(|s| match &s.data {
                    Some(data) => data.device == device,
                    None => false,
                });
                match found.and_then(|s| s.state_flags) {
                    Some(state_flags) => Reply::DisplayDevice { result: 1, state_flags },
                    None => {
                        self.last_error = ACCESS_DENIED;
                        Reply::DisplayDevice { result: 0, state_flags: 0 }
                    }
                }
            }
            Request::RegisterClass { name } => {
                if self.classes.contains(&name) {
                    self.last_error = CLASS_ALREADY_EXISTS;
                    Reply::ClassRegistered { atom: 0 }
                } else {
                    self.classes.push(name);
                    Reply::ClassRegistered { atom: 0xC000 + self.classes.len() as u16 }
                }
            }
            Request::CreateWindow { class, width, height, .. } => {
                if self.refuse_window {
                    self.last_error = ACCESS_DENIED;
                    Reply::WindowCreated { window: 0 }
                } else if !self.classes.contains(&class) {
                    self.last_error = CLASS_DOES_NOT_EXIST;
                    Reply::WindowCreated { window: 0 }
                } else {
                    self.handles_given += 1;
                    let window = 0x500 + self.handles_given;
                    self.windows.push((window, width, height));
                    Reply::WindowCreated { window }
                }
            }
            Request::ClientRect { window } => {
                match self.windows.iter().find(|w| w.0 == window) {
                    Some(&(_, width, height)) if !self.refuse_client_rect => Reply::ClientRect {
                        result: 1,
                        rect: rect(
                            0,
                            0,
                            (width - self.frame.0).max(0),
                            (height - self.frame.1).max(0),
                        ),
                    },
                    _ => {
                        self.last_error = INVALID_WINDOW_HANDLE;
                        Reply::ClientRect { result: 0, rect: rect(0, 0, 0, 0) }
                    }
                }
            }
            Request::NextMessage => {
                let result = if self.messages.is_empty() { 0 } else { self.messages.remove(0) };
                if result == -1 {
                    self.last_error = INVALID_WINDOW_HANDLE;
                }
                Reply::Message { result }
            }
            Request::DispatchMessage => Reply::MessageDispatched,
            Request::DestroyWindow { window } => {
                let at = self.windows.iter().position(|w| w.0 == window);
                match at {
                    Some(i) if !self.refuse_destroy => {
                        self.windows.remove(i);
                        Reply::WindowDestroyed { result: 1 }
                    }
                    _ => {
                        self.last_error = INVALID_WINDOW_HANDLE;
                        Reply::WindowDestroyed { result: 0 }
                    }
                }
            }
            Request::UnregisterClass { name } => {
                let at = self.classes.iter().position(|c| *c == name);
                match at {
                    Some(i) if !self.refuse_unregister => {
                        self.classes.remove(i);
                        Reply::ClassUnregistered { result: 1 }
                    }
                    _ => {
                        self.last_error = CLASS_DOES_NOT_EXIST;
                        Reply::ClassUnregistered { result: 0 }
                    }
                }
            }
            Request::LastError => Reply::LastError { code: self.last_error },
            Request::FormatMessage { code, capacity, .. } => {
                let mut buffer = vec![0u16; capacity as usize + 1];
                match Desk::message_of(code) {
                    Some(text) => {
                        let units: Vec<u16> = text.encode_utf16().collect();
                        buffer[..units.len()].copy_from_slice(&units);
                        Reply::MessageFormatted { length: units.len() as u32, buffer }
                    }
                    None => {
                        self.last_error = MESSAGE_NOT_FOUND;
                        Reply::MessageFormatted { length: 0, buffer }
                    }
                }
            }
            Request::ClearLastError => {
                self.last_error = 0;
                Reply::LastErrorCleared
            }
            Request::DesktopWorkArea => match self.desktop {
                Some(rect) => Reply::DesktopWorkArea { result: 1, rect },
                None => {
                    self.last_error = ACCESS_DENIED;
                    Reply::DesktopWorkArea { result: 0, rect: rect(0, 0, 0, 0) }
                }
            },
        }
    }

    fn measure(&mut self, target: MonitorArea) -> Measurement {
        let mut measurement = query_client_area(&target);
        while let Some(request) = measurement.request() {
            let reply = self.perform(request);
            assert!(measurement.accepts(&reply));
            measurement = measurement.resume(reply);
        }
        measurement
    }

    fn query(&mut self) -> MonitorQuery {
        let mut query = query_monitors();
        while let Some(request) = query.request() {
            let reply = self.perform(request);
            assert!(query.accepts(&reply));
            query = query.resume(reply);
        }
        query
    }

    fn work_areas(&mut self) -> WorkAreaQuery {
        let mut query = get_work_areas();
        while let Some(request) = query.request() {
            let reply = self.perform(request);
            assert!(query.accepts(&reply));
            query = query.resume(reply);
        }
        query
    }

    fn desktop_work_area(&mut self) -> DesktopQuery {
        let mut query = get_desktop_work_area();
        while let Some(request) = query.request() {
            let reply = self.perform(request);
            assert!(query.accepts(&reply));
            query = query.resume(reply);
        }
        query
    }

    fn count(&self, wanted: fn(&Request) -> bool) -> usize {
        self.log.iter().filter(|r| wanted(r)).count()
    }
}

fn three_screens() -> Vec<Screen> {
    vec![
        screen("\\\\.\\DISPLAY1", rect(0, 0, 1920, 1080), rect(0, 0, 1920, 1040)),
        screen("\\\\.\\DISPLAY2", rect(-1280, 56, 0, 1080), rect(-1280, 56, 0, 1040)),
        screen("\\\\.\\DISPLAY3", rect(1920, -360, 4480, 1080), rect(1920, -360, 4480, 1040)),
    ]
}

#[test]
fn measuring_800_by_600_gives_no_more_than_asked() {
    let mut desk = desk(Vec::new());
    let end = desk.measure(area(0, 0, 800, 600));
    match end {
        Measurement::Finished { outcome: Ok(client) } => {
            assert!(client.width <= 800);
            assert!(client.height <= 600);
            assert!(client.width >= 0);
            assert!(client.height >= 0);
            assert_eq!(client, area(0, 0, 784, 561));
        }
        other => panic!("{:?}", other),
    }
}

#[test]
fn measuring_asks_the_platform_in_order() {
    let mut desk = desk(Vec::new());
    desk.messages = vec![1, 275];
    desk.measure(area(-1280, 56, 1280, 984));
    assert_eq!(
        desk.log,
        vec![
            Request::RegisterClass { name: wide("desktop-work-area-wc") },
            Request::CreateWindow {
                class: wide("desktop-work-area-wc"),
                title: wide("desktop-work-area"),
                style: 0x00C70000,
                x: -1280,
                y: 56,
                width: 1280,
                height: 984,
            },
            Request::ClientRect { window: 0x501 },
            Request::NextMessage,
            Request::DispatchMessage,
            Request::NextMessage,
            Request::DispatchMessage,
            Request::NextMessage,
            Request::DestroyWindow { window: 0x501 },
            Request::UnregisterClass { name: wide("desktop-work-area-wc") },
        ]
    );
}

#[test]
fn measuring_twice_registers_the_class_twice() {
    let mut desk = desk(Vec::new());
    let first = desk.measure(area(0, 0, 800, 600));
    assert!(desk.classes.is_empty());
    assert!(desk.windows.is_empty());
    let second = desk.measure(area(0, 0, 800, 600));
    assert!(desk.classes.is_empty());
    assert!(desk.windows.is_empty());
    assert_eq!(first, Measurement::Finished { outcome: Ok(area(0, 0, 784, 561)) });
    assert_eq!(second, Measurement::Finished { outcome: Ok(area(0, 0, 784, 561)) });
    assert_eq!(desk.count(|r| matches!(r, Request::RegisterClass { .. })), 2);
    assert_eq!(desk.count(|r| matches!(r, Request::UnregisterClass { .. })), 2);
    assert_eq!(desk.count(|r| matches!(r, Request::CreateWindow { .. })), 2);
    assert_eq!(desk.count(|r| matches!(r, Request::DestroyWindow { .. })), 2);
}

#[test]
fn measuring_fails_where_the_class_is_taken() {
    let mut desk = desk(Vec::new());
    desk.classes.push(wide("desktop-work-area-wc"));
    let end = desk.measure(area(0, 0, 800, 600));
    assert_eq!(end, Measurement::Finished { outcome: Err(winapi("Class already exists.\r\n")) });
    assert_eq!(
        desk.log,
        vec![
            Request::RegisterClass { name: wide("desktop-work-area-wc") },
            Request::LastError,
            Request::FormatMessage { code: 1410, flags: 0x1200, capacity: 1023 },
            Request::ClearLastError,
        ]
    );
    assert_eq!(desk.classes.len(), 1);
}

#[test]
fn measuring_removes_the_class_where_the_window_fails() {
    let mut desk = desk(Vec::new());
    desk.refuse_window = true;
    let end = desk.measure(area(0, 0, 800, 600));
    assert_eq!(end, Measurement::Finished { outcome: Err(winapi("Access is denied.\r\n")) });
    assert!(desk.classes.is_empty());
    assert_eq!(desk.count(|r| matches!(r, Request::DestroyWindow { .. })), 0);
    assert_eq!(
        desk.log.last(),
        Some(&Request::UnregisterClass { name: wide("desktop-work-area-wc") })
    );
}

#[test]
fn measuring_releases_both_where_the_client_box_fails() {
    let mut desk = desk(Vec::new());
    desk.refuse_client_rect = true;
    let end = desk.measure(area(0, 0, 800, 600));
    assert_eq!(end, Measurement::Finished { outcome: Err(winapi("Invalid window handle.\r\n")) });
    assert!(desk.classes.is_empty());
    assert!(desk.windows.is_empty());
    assert_eq!(desk.count(|r| matches!(r, Request::NextMessage)), 0);
    let n = desk.log.len();
    assert_eq!(desk.log[n - 2], Request::DestroyWindow { window: 0x501 });
    assert_eq!(desk.log[n - 1], Request::UnregisterClass { name: wide("desktop-work-area-wc") });
}

#[test]
fn measuring_releases_both_where_the_message_loop_fails() {
    let mut desk = desk(Vec::new());
    desk.messages = vec![15, -1];
    let end = desk.measure(area(0, 0, 800, 600));
    assert_eq!(end, Measurement::Finished { outcome: Err(winapi("Invalid window handle.\r\n")) });
    assert!(desk.classes.is_empty());
    assert!(desk.windows.is_empty());
    assert_eq!(desk.count(|r| matches!(r, Request::DispatchMessage)), 1);
}

#[test]
fn measuring_without_diagnostic_gives_the_general_error() {
    let measurement = query_client_area(&area(0, 0, 10, 10));
    let measurement = measurement.resume(Reply::ClassRegistered { atom: 0 });
    assert_eq!(measurement.request(), Some(Request::LastError));
    let measurement = measurement.resume(Reply::LastError { code: 0 });
    assert_eq!(
        measurement,
        Measurement::Finished {
            outcome: Err(Error::General(String::from(
                "expected a platform error but none was available"
            )))
        }
    );
    assert_eq!(measurement.request(), None);
}

#[test]
fn measuring_aborts_where_the_window_cannot_be_destroyed() {
    let mut desk = desk(Vec::new());
    desk.refuse_destroy = true;
    let end = desk.measure(area(0, 0, 800, 600));
    match end {
        Measurement::Aborted { held: Held::Window(_, _), error } => {
            assert_eq!(error, winapi("Invalid window handle.\r\n"));
        }
        other => panic!("{:?}", other),
    }
    assert_eq!(desk.count(|r| matches!(r, Request::UnregisterClass { .. })), 0);
    assert_eq!(desk.classes.len(), 1);
    assert_eq!(desk.windows.len(), 1);
}

#[test]
fn measuring_aborts_where_the_class_cannot_be_removed() {
    let mut desk = desk(Vec::new());
    desk.refuse_unregister = true;
    let end = desk.measure(area(0, 0, 800, 600));
    match end {
        Measurement::Aborted { held: Held::Class(_), error } => {
            assert_eq!(error, winapi("Class does not exist.\r\n"));
        }
        other => panic!("{:?}", other),
    }
    assert!(desk.windows.is_empty());
}

#[test]
fn measuring_reads_the_client_box_by_its_edges() {
    let measurement = query_client_area(&area(5, 6, 300, 200))
        .resume(Reply::ClassRegistered { atom: 9 })
        .resume(Reply::WindowCreated { window: 4 })
        .resume(Reply::ClientRect { result: 1, rect: rect(-3, 2, 281, 163) });
    let measurement = measurement
        .resume(Reply::Message { result: 0 })
        .resume(Reply::WindowDestroyed { result: 1 })
        .resume(Reply::ClassUnregistered { result: 1 });
    assert_eq!(measurement, Measurement::Finished { outcome: Ok(area(-3, 2, 284, 161)) });
}

#[test]
fn measuring_leaves_a_box_too_wide_aside() {
    let measurement = query_client_area(&area(0, 0, 1, 1))
        .resume(Reply::ClassRegistered { atom: 9 })
        .resume(Reply::WindowCreated { window: 4 });
    let too_wide = Reply::ClientRect { result: 1, rect: rect(i32::MIN, 0, 1, 1) };
    assert!(!measurement.accepts(&too_wide));
    let measurement = measurement.resume(too_wide);
    assert_eq!(measurement.request(), Some(Request::ClientRect { window: 4 }));
    assert!(measurement.accepts(&Reply::ClientRect { result: 0, rect: rect(i32::MIN, 0, 1, 1) }));
    assert!(measurement.accepts(&Reply::ClientRect { result: 1, rect: rect(i32::MIN, 0, -1, 1) }));
    assert!(!measurement.accepts(&Reply::Message { result: 0 }));
}

#[test]
fn no_monitors_is_an_empty_success() {
    let mut desk = desk(Vec::new());
    assert_eq!(desk.query(), MonitorQuery::Finished { outcome: Ok(Vec::new()) });
    assert_eq!(desk.log, vec![Request::EnumerateMonitors]);
}

#[test]
fn detached_monitors_are_passed_over() {
    let mut screens = three_screens();
    screens[0].state_flags = Some(0);
    screens[1].state_flags = Some(0x8);
    screens[2].state_flags = Some(0xFFFFFFFE);
    let mut desk = desk(screens);
    assert_eq!(desk.query(), MonitorQuery::Finished { outcome: Ok(Vec::new()) });
    assert_eq!(desk.count(|r| matches!(r, Request::RegisterClass { .. })), 0);
    assert_eq!(desk.count(|r| matches!(r, Request::NextMonitor)), 3);
}

#[test]
fn attached_is_the_lowest_flag() {
    assert!(is_attached(0x1));
    assert!(is_attached(0x5));
    assert!(is_attached(u32::MAX));
    assert!(!is_attached(0));
    assert!(!is_attached(0x4));
}

#[test]
fn one_monitor_is_told_in_full() {
    let mut desk = desk(vec![screen(
        "\\\\.\\DISPLAY1",
        rect(0, 0, 1920, 1080),
        rect(0, 0, 1920, 1040),
    )]);
    assert_eq!(
        desk.query(),
        MonitorQuery::Finished {
            outcome: Ok(vec![Ok(MonitorInfo {
                name: String::from("\\\\.\\DISPLAY1"),
                area: area(0, 0, 1920, 1080),
                work_area: area(0, 0, 1920, 1040),
                client_area: area(0, 0, 1904, 1001),
            })])
        }
    );
}

#[test]
fn work_area_lies_within_the_monitor() {
    let mut desk = desk(three_screens());
    match desk.query() {
        MonitorQuery::Finished { outcome: Ok(entries) } => {
            assert_eq!(entries.len(), 3);
            for entry in entries {
                let info = entry.unwrap();
                assert!(info.work_area.x >= info.area.x);
                assert!(info.work_area.y >= info.area.y);
                assert!(info.work_area.x + info.work_area.width <= info.area.x + info.area.width);
                assert!(
                    info.work_area.y + info.work_area.height <= info.area.y + info.area.height
                );
            }
        }
        other => panic!("{:?}", other),
    }
}

#[test]
fn three_monitors_of_which_one_fails_device_lookup() {
    let mut screens = three_screens();
    screens[1].state_flags = None;
    let mut desk = desk(screens);
    match desk.query() {
        MonitorQuery::Finished { outcome: Ok(entries) } => {
            assert_eq!(entries.len(), 3);
            assert_eq!(entries.iter().filter(|e| e.is_err()).count(), 1);
            assert_eq!(entries.iter().filter(|e| e.is_ok()).count(), 2);
            assert_eq!(
                entries[0],
                Ok(MonitorInfo {
                    name: String::from("\\\\.\\DISPLAY1"),
                    area: area(0, 0, 1920, 1080),
                    work_area: area(0, 0, 1920, 1040),
                    client_area: area(0, 0, 1904, 1001),
                })
            );
            assert_eq!(entries[1], Err(winapi("Access is denied.\r\n")));
            assert_eq!(
                entries[2],
                Ok(MonitorInfo {
                    name: String::from("\\\\.\\DISPLAY3"),
                    area: area(1920, -360, 2560, 1440),
                    work_area: area(1920, -360, 2560, 1400),
                    client_area: area(0, 0, 2544, 1361),
                })
            );
        }
        other => panic!("{:?}", other),
    }
    assert!(desk.classes.is_empty());
    assert!(desk.windows.is_empty());
}

#[test]
fn failed_monitor_lookup_is_one_entry_and_the_rest_stay() {
    let mut screens = three_screens();
    screens[0].data = None;
    let mut desk = desk(screens);
    match desk.query() {
        MonitorQuery::Finished { outcome: Ok(entries) } => {
            assert_eq!(entries.len(), 3);
            assert_eq!(entries[0], Err(winapi("Access is denied.\r\n")));
            assert_eq!(entries[1].as_ref().unwrap().name, "\\\\.\\DISPLAY2");
            assert_eq!(entries[1].as_ref().unwrap().area, area(-1280, 56, 1280, 1024));
            assert_eq!(entries[1].as_ref().unwrap().work_area, area(-1280, 56, 1280, 984));
            assert_eq!(entries[2].as_ref().unwrap().name, "\\\\.\\DISPLAY3");
        }
        other => panic!("{:?}", other),
    }
    assert_eq!(desk.count(|r| matches!(r, Request::DisplayDevice { .. })), 2);
}

#[test]
fn failed_measurement_is_one_entry_and_the_rest_stay() {
    let mut desk = desk(three_screens());
    desk.messages = vec![0, -1];
    match desk.query() {
        MonitorQuery::Finished { outcome: Ok(entries) } => {
            assert_eq!(entries.len(), 3);
            assert!(entries[0].is_ok());
            assert_eq!(entries[1], Err(winapi("Invalid window handle.\r\n")));
            assert!(entries[2].is_ok());
        }
        other => panic!("{:?}", other),
    }
    assert!(desk.classes.is_empty());
    assert!(desk.windows.is_empty());
}

#[test]
fn failed_enumeration_is_one_error() {
    let mut desk = desk(three_screens());
    desk.enumeration_result = 0;
    assert_eq!(
        desk.query(),
        MonitorQuery::Finished { outcome: Err(winapi("Access is denied.\r\n")) }
    );
}

#[test]
fn enumeration_that_fails_after_entries_is_still_one_error() {
    let query = query_monitors()
        .resume(Reply::MonitorFound { monitor: 1 })
        .resume(Reply::MonitorInfo {
            result: 0,
            info: MonitorData {
                device: Vec::new(),
                bounds: rect(0, 0, 0, 0),
                work: rect(0, 0, 0, 0),
            },
        })
        .resume(Reply::LastError { code: 0 });
    assert_eq!(query.request(), Some(Request::NextMonitor));
    let query = query.resume(Reply::EnumerationEnded { result: 0 });
    assert_eq!(query.request(), Some(Request::LastError));
    let query = query.resume(Reply::LastError { code: 0 });
    assert_eq!(
        query,
        MonitorQuery::Finished {
            outcome: Err(Error::General(String::from(
                "expected a platform error but none was available"
            )))
        }
    );
}

#[test]
fn query_aborts_where_a_measurement_cannot_release() {
    let mut desk = desk(three_screens());
    desk.refuse_unregister = true;
    match desk.query() {
        MonitorQuery::Aborted { held: Held::Class(_), error } => {
            assert_eq!(error, winapi("Class does not exist.\r\n"));
        }
        other => panic!("{:?}", other),
    }
    assert_eq!(desk.count(|r| matches!(r, Request::MonitorInfo { .. })), 1);
    assert_eq!(desk.classes, vec![wide("desktop-work-area-wc")]);
}

#[test]
fn visit_asks_for_the_device_by_the_whole_buffer() {
    let visit = monitor_enum_proc(0xABC);
    assert_eq!(visit.request(), Some(Request::MonitorInfo { monitor: 0xABC }));
    let visit = visit.resume(Reply::MonitorInfo {
        result: 1,
        info: MonitorData {
            device: vec![0x41, 0, 0x42, 0],
            bounds: rect(0, 0, 10, 10),
            work: rect(0, 0, 10, 9),
        },
    });
    assert_eq!(visit.request(), Some(Request::DisplayDevice { device: vec![0x41, 0, 0x42, 0] }));
    let visit = visit.resume(Reply::DisplayDevice { result: 1, state_flags: 1 });
    match &visit {
        Visit::Measuring { name, area: bounds, work_area, .. } => {
            assert_eq!(name, "A");
            assert_eq!(*bounds, area(0, 0, 10, 10));
            assert_eq!(*work_area, area(0, 0, 10, 9));
        }
        other => panic!("{:?}", other),
    }
    assert_eq!(
        visit.request(),
        Some(Request::RegisterClass { name: wide("desktop-work-area-wc") })
    );
}

#[test]
fn visit_of_a_detached_monitor_ends_without_entry() {
    let visit = monitor_enum_proc(1)
        .resume(Reply::MonitorInfo {
            result: 1,
            info: MonitorData {
                device: device_buffer("D"),
                bounds: rect(i32::MIN, 0, i32::MAX, 1),
                work: rect(0, 0, 1, 1),
            },
        })
        .resume(Reply::DisplayDevice { result: 1, state_flags: 0 });
    assert_eq!(visit, Visit::Done { entry: None });
    assert_eq!(visit.request(), None);
}

#[test]
fn visit_leaves_boxes_too_wide_aside() {
    let visit = monitor_enum_proc(1).resume(Reply::MonitorInfo {
        result: 1,
        info: MonitorData {
            device: device_buffer("D"),
            bounds: rect(i32::MIN, 0, i32::MAX, 1),
            work: rect(0, 0, 1, 1),
        },
    });
    assert!(!visit.accepts(&Reply::DisplayDevice { result: 1, state_flags: 1 }));
    assert!(visit.accepts(&Reply::DisplayDevice { result: 1, state_flags: 2 }));
    assert!(visit.accepts(&Reply::DisplayDevice { result: 0, state_flags: 1 }));
    let visit = visit.resume(Reply::DisplayDevice { result: 1, state_flags: 1 });
    assert_eq!(visit.request(), Some(Request::DisplayDevice { device: device_buffer("D") }));
}

#[test]
fn work_areas_are_told_by_size() {
    let mut screens = three_screens();
    screens[1].state_flags = Some(0);
    let mut desk = desk(screens);
    assert_eq!(
        desk.work_areas(),
        WorkAreaQuery::Finished {
            outcome: Ok(vec![
                Ok(WorkArea { width: 1920, height: 1040 }),
                Ok(WorkArea { width: 2560, height: 1400 }),
            ])
        }
    );
    assert_eq!(desk.count(|r| matches!(r, Request::RegisterClass { .. })), 0);
}

#[test]
fn work_areas_keep_an_error_for_a_failed_lookup() {
    let mut screens = three_screens();
    screens[0].data = None;
    screens[2].state_flags = None;
    let mut desk = desk(screens);
    assert_eq!(
        desk.work_areas(),
        WorkAreaQuery::Finished {
            outcome: Ok(vec![
                Err(winapi("Access is denied.\r\n")),
                Ok(WorkArea { width: 1280, height: 984 }),
                Err(winapi("Access is denied.\r\n")),
            ])
        }
    );
}

#[test]
fn work_areas_of_no_monitors_are_an_empty_success() {
    let mut desk = desk(Vec::new());
    assert_eq!(desk.work_areas(), WorkAreaQuery::Finished { outcome: Ok(Vec::new()) });
}

#[test]
fn work_areas_fail_with_the_enumeration() {
    let mut desk = desk(three_screens());
    desk.enumeration_result = 0;
    assert_eq!(
        desk.work_areas(),
        WorkAreaQuery::Finished { outcome: Err(winapi("Access is denied.\r\n")) }
    );
}

#[test]
fn desktop_work_area_is_told_by_size() {
    let mut desk = desk(Vec::new());
    desk.desktop = Some(rect(0, 23, 1440, 900));
    assert_eq!(
        desk.desktop_work_area(),
        DesktopQuery::Finished { outcome: Ok(DesktopWorkArea { width: 1440, height: 877 }) }
    );
    assert_eq!(desk.log, vec![Request::DesktopWorkArea]);
}

#[test]
fn desktop_work_area_fails_with_the_diagnostic() {
    let mut desk = desk(Vec::new());
    desk.desktop = None;
    assert_eq!(
        desk.desktop_work_area(),
        DesktopQuery::Finished { outcome: Err(winapi("Access is denied.\r\n")) }
    );
}

#[test]
fn unknown_error_code_is_reported_by_both_codes() {
    let mut desk = desk(Vec::new());
    desk.desktop = None;
    let mut query = get_desktop_work_area();
    let reply = desk.perform(query.request().unwrap());
    query = query.resume(reply);
    desk.last_error = 9999;
    while let Some(request) = query.request() {
        let reply = desk.perform(request);
        query = query.resume(reply);
    }
    assert_eq!(
        query,
        DesktopQuery::Finished {
            outcome: Err(winapi(
                "FormatMessageW failed with error '317' while handling error '9999'"
            ))
        }
    );
    assert_eq!(desk.last_error, 0);
}

#[test]
fn areas_are_the_distances_between_the_edges() {
    assert_eq!(MonitorArea::from_rect(&rect(-5, -7, 5, 0)), area(-5, -7, 10, 7));
    assert_eq!(MonitorArea::from_rect(&rect(3, 4, 3, 4)), area(3, 4, 0, 0));
    assert_eq!(MonitorArea::from_rect(&rect(10, 10, 0, 5)), area(10, 10, -10, -5));
    assert_eq!(WorkArea::from_rect(&rect(-5, -7, 5, 0)), WorkArea { width: 10, height: 7 });
    assert_eq!(
        DesktopWorkArea::from_rect(&rect(1, 2, 4, 8)),
        DesktopWorkArea { width: 3, height: 6 }
    );
    assert!(rect(0, 0, i32::MAX, i32::MAX).fits());
    assert!(rect(-1, 0, i32::MAX, 0).fits() == false);
    assert!(rect(0, 1, 0, i32::MIN).fits() == false);
    assert!(rect(i32::MIN, i32::MIN, -1, -1).fits());
}

#[test]
fn monitor_is_told_in_eight_lines() {
    let info = MonitorInfo {
        name: String::from("\\\\.\\DISPLAY2"),
        area: area(-1280, 56, 1280, 1024),
        work_area: area(-1280, 56, 1280, 984),
        client_area: area(0, 0, 1264, 945),
    };
    assert_eq!(
        info.to_text(),
        "----------------------------------------\n\
         Name: \\\\.\\DISPLAY2\n\
         Origin: (-1280, 56)\n\
         Size: (1280, 1024)\n\
         Work area origin: (-1280, 56)\n\
         Work area size: (1280, 984)\n\
         Window client area size: (1264, 945)\n\
         ----------------------------------------"
    );
}

#[test]
fn query_of_three_monitors_registers_and_removes_three_times() {
    let mut desk = desk(three_screens());
    desk.messages = vec![0, 7, 0];
    let end = desk.query();
    assert!(matches!(end, MonitorQuery::Finished { outcome: Ok(_) }));
    assert_eq!(desk.count(|r| matches!(r, Request::RegisterClass { .. })), 3);
    assert_eq!(desk.count(|r| matches!(r, Request::UnregisterClass { .. })), 3);
    assert_eq!(desk.count(|r| matches!(r, Request::CreateWindow { .. })), 3);
    assert_eq!(desk.count(|r| matches!(r, Request::DestroyWindow { .. })), 3);
    let mut held = 0;
    for request in desk.log.iter() {
        match request {
            Request::RegisterClass { .. } => {
                assert_eq!(held, 0);
                held += 1;
            }
            Request::UnregisterClass { .. } => held -= 1,
            _ => {}
        }
    }
    assert_eq!(held, 0);
}

#[test]
fn failed_device_lookup_leaves_the_other_entries_as_they_are() {
    let mut whole = desk(three_screens());
    let without_failure = match whole.query() {
        MonitorQuery::Finished { outcome: Ok(entries) } => entries,
        other => panic!("{:?}", other),
    };
    for k in 0..3 {
        let mut screens = three_screens();
        screens[k].state_flags = None;
        let mut desk = desk(screens);
        let entries = match desk.query() {
            MonitorQuery::Finished { outcome: Ok(entries) } => entries,
            other => panic!("{:?}", other),
        };
        assert_eq!(entries.len(), 3);
        for i in 0..3 {
            if i == k {
                assert_eq!(entries[i], Err(winapi("Access is denied.\r\n")));
            } else {
                assert!(entries[i].is_ok());
                assert_eq!(entries[i], without_failure[i]);
            }
        }
    }
}
