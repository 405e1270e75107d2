//! The query of the display monitors: for each monitor of the desktop its
//! name, its bounds, its work area and the client area of a window laid over
//! the work area.

use crate::error::{expected, Error, ErrorProbe, ErrorView, ProbeView};
use crate::measure::{count, query_client_area, Held, HeldView, Measurement, MeasurementView};
use crate::platform::{
    request_view, MonitorData, Rect, Reply, Request, RequestView,
    DISPLAY_DEVICE_ATTACHED_TO_DESKTOP,
};
use crate::text::{
    before_nul, copy_units, decode_utf16_lossy, push_signed_decimal, signed_decimal, until_nul,
    utf16_lossy,
};
use vstd::prelude::*;

verus! {

/// A rectangle by its upper left corner and its size.
#[derive(Clone, Copy, Debug, PartialEq, Eq)]
pub struct MonitorArea {
    pub x: i32,
    pub y: i32,
    pub width: i32,
    pub height: i32,
}

impl MonitorArea {
    /// The rectangle of a bounding box: its upper left corner, and the
    /// distances between its edges.
    pub open spec fn of(rect: Rect) -> MonitorArea {
        MonitorArea {
            x: rect.left,
            y: rect.top,
            width: (rect.right - rect.left) as i32,
            height: (rect.bottom - rect.top) as i32,
        }
    }

    /// The rectangle of a bounding box.
    pub fn from_rect(rect: &Rect) -> (area: MonitorArea)
        requires
            rect.spans_fit(),
        ensures
            area == MonitorArea::of(*rect),
            area.x == rect.left,
            area.y == rect.top,
            area.width == rect.right - rect.left,
            area.height == rect.bottom - rect.top,
    {
        MonitorArea {
            x: rect.left,
            y: rect.top,
            width: rect.right - rect.left,
            height: rect.bottom - rect.top,
        }
    }
}

/// What the query tells of one monitor.
#[derive(Clone, Debug, PartialEq, Eq)]
pub struct MonitorInfo {
    /// The name of the display device.
    pub name: String,
    /// The whole of the monitor.
    pub area: MonitorArea,
    /// The part of the monitor that is free for windows.
    pub work_area: MonitorArea,
    /// The client area of a window laid over the work area.
    pub client_area: MonitorArea,
}

/// The model of a [`MonitorInfo`].
pub struct MonitorInfoView {
    pub name: Seq<char>,
    pub area: MonitorArea,
    pub work_area: MonitorArea,
    pub client_area: MonitorArea,
}

impl View for MonitorInfo {
    type V = MonitorInfoView;

    open spec fn view(&self) -> MonitorInfoView {
        MonitorInfoView {
            name: self.name@,
            area: self.area,
            work_area: self.work_area,
            client_area: self.client_area,
        }
    }
}

/// The rule above and below the lines of a monitor: forty hyphens.
pub open spec fn separator() -> Seq<char> {
    "----------------------------------------"@
}

impl MonitorInfoView {
    /// The text that tells of the monitor: between two rules, a line for its
    /// name, two for corner and size of the monitor, two for corner and size
    /// of the work area, one for the size of the client area.
    pub open spec fn text(self) -> Seq<char> {
        separator() + "\nName: "@ + self.name + "\nOrigin: ("@ + signed_decimal(
            self.area.x as int,
        ) + ", "@ + signed_decimal(self.area.y as int) + ")\nSize: ("@ + signed_decimal(
            self.area.width as int,
        ) + ", "@ + signed_decimal(self.area.height as int) + ")\nWork area origin: ("@
            + signed_decimal(self.work_area.x as int) + ", "@ + signed_decimal(
            self.work_area.y as int,
        ) + ")\nWork area size: ("@ + signed_decimal(self.work_area.width as int) + ", "@
            + signed_decimal(self.work_area.height as int) + ")\nWindow client area size: ("@
            + signed_decimal(self.client_area.width as int) + ", "@ + signed_decimal(
            self.client_area.height as int,
        ) + ")\n"@ + separator()
    }
}

impl MonitorInfo {
    /// The text that tells of the monitor.
    pub fn to_text(&self) -> (text: String)
        ensures
            text@ == self@.text(),
    {
        let mut text = String::from_str("----------------------------------------");
        text.append("\nName: ");
        text.append(self.name.as_str());
        text.append("\nOrigin: (");
        push_signed_decimal(&mut text, self.area.x);
        text.append(", ");
        push_signed_decimal(&mut text, self.area.y);
        text.append(")\nSize: (");
        push_signed_decimal(&mut text, self.area.width);
        text.append(", ");
        push_signed_decimal(&mut text, self.area.height);
        text.append(")\nWork area origin: (");
        push_signed_decimal(&mut text, self.work_area.x);
        text.append(", ");
        push_signed_decimal(&mut text, self.work_area.y);
        text.append(")\nWork area size: (");
        push_signed_decimal(&mut text, self.work_area.width);
        text.append(", ");
        push_signed_decimal(&mut text, self.work_area.height);
        text.append(")\nWindow client area size: (");
        push_signed_decimal(&mut text, self.client_area.width);
        text.append(", ");
        push_signed_decimal(&mut text, self.client_area.height);
        text.append(")\n");
        text.append("----------------------------------------");
        text
    }
}

/// The model of what the query tells of one monitor, or of why it could
/// not.
pub open spec fn entry_view(entry: Result<MonitorInfo, Error>) -> Result<
    MonitorInfoView,
    ErrorView,
> {
    match entry {
        Ok(info) => Ok(info@),
        Err(error) => Err(error@),
    }
}

/// The models of the entries, in their order.
pub open spec fn entries_view(entries: Seq<Result<MonitorInfo, Error>>) -> Seq<
    Result<MonitorInfoView, ErrorView>,
> {
    entries.map_values(|entry: Result<MonitorInfo, Error>| entry_view(entry))
}

/// The model of the entry that a visit ends with, if it ends with one.
pub open spec fn visit_entry_view(entry: Option<Result<MonitorInfo, Error>>) -> Option<
    Result<MonitorInfoView, ErrorView>,
> {
    match entry {
        Some(e) => Some(entry_view(e)),
        None => None,
    }
}

/// The model of what a query ends with.
pub open spec fn query_outcome_view(
    outcome: Result<Vec<Result<MonitorInfo, Error>>, Error>,
) -> Result<Seq<Result<MonitorInfoView, ErrorView>>, ErrorView> {
    match outcome {
        Ok(entries) => Ok(entries_view(entries@)),
        Err(error) => Err(error@),
    }
}

/// Whether a display device with these state flags is part of the desktop.
pub open spec fn attached(state_flags: u32) -> bool {
    state_flags & DISPLAY_DEVICE_ATTACHED_TO_DESKTOP != 0
}

/// Tests `attached`.
pub fn is_attached(state_flags: u32) -> (yes: bool)
    ensures
        yes == attached(state_flags),
{
    state_flags & DISPLAY_DEVICE_ATTACHED_TO_DESKTOP != 0
}

/// The visit of one monitor: where it stands, and what it knows there.
///
/// A visit looks up the monitor's data, then the state of its display
/// device. A monitor that is no part of the desktop is passed over. For any
/// other the client area over its work area is measured. A lookup or a
/// measurement that fails ends the visit with the error as the monitor's
/// entry.
#[derive(Debug, PartialEq, Eq)]
pub enum Visit {
    /// Waiting for the monitor's data.
    Looking { monitor: usize },
    /// Waiting for the state of the monitor's display device.
    Checking { info: MonitorData },
    /// Measuring the client area over the work area.
    Measuring { name: String, area: MonitorArea, work_area: MonitorArea, measurement: Measurement },
    /// A lookup failed: reading its diagnostic.
    Failing { probe: ErrorProbe },
    /// Over: with an entry for the monitor, or with none for a monitor that
    /// is no part of the desktop.
    Done { entry: Option<Result<MonitorInfo, Error>> },
    /// The measurement could not release what it still holds.
    Aborted { held: Held, error: Error },
}

/// The model of a [`Visit`].
pub enum VisitView {
    Looking { monitor: usize },
    Checking { info: MonitorData },
    Measuring {
        name: Seq<char>,
        area: MonitorArea,
        work_area: MonitorArea,
        measurement: MeasurementView,
    },
    Failing { probe: ProbeView },
    Done { entry: Option<Result<MonitorInfoView, ErrorView>> },
    Aborted { held: HeldView, error: ErrorView },
}

impl View for Visit {
    type V = VisitView;

    open spec fn view(&self) -> VisitView {
        match *self {
            Visit::Looking { monitor } => VisitView::Looking { monitor },
            Visit::Checking { info } => VisitView::Checking { info },
            Visit::Measuring { name, area, work_area, measurement } => VisitView::Measuring {
                name: name@,
                area,
                work_area,
                measurement: measurement@,
            },
            Visit::Failing { probe } => VisitView::Failing { probe: probe@ },
            Visit::Done { entry } => VisitView::Done { entry: visit_entry_view(entry) },
            Visit::Aborted { held, error } => VisitView::Aborted { held: held@, error: error@ },
        }
    }
}

impl VisitView {
    /// The visit of `monitor` that has asked nothing yet.
    pub open spec fn start(monitor: usize) -> VisitView {
        VisitView::Looking { monitor }
    }

    /// The call that the visit waits on.
    pub open spec fn pending(self) -> Option<RequestView> {
        match self {
            VisitView::Looking { monitor } => Some(RequestView::MonitorInfo { monitor }),
            VisitView::Checking { info } => Some(
                RequestView::DisplayDevice { device: info.device@ },
            ),
            VisitView::Measuring { measurement, .. } => measurement.pending(),
            VisitView::Failing { probe } => probe.pending(),
            VisitView::Done { .. } => None,
            VisitView::Aborted { .. } => None,
        }
    }

    /// Whether `reply` answers the call that the visit waits on. The state
    /// of a device that is part of the desktop is an answer only if width
    /// and height of the monitor's two boxes are `i32` values.
    pub open spec fn accepts(self, reply: Reply) -> bool {
        match self {
            VisitView::Looking { .. } => reply is MonitorInfo,
            VisitView::Checking { info } => reply matches Reply::DisplayDevice {
                result,
                state_flags,
            } && (result != 0 && attached(state_flags) ==> info.bounds.spans_fit()
                && info.work.spans_fit()),
            VisitView::Measuring { measurement, .. } => measurement.accepts(reply),
            VisitView::Failing { probe } => probe.accepts(reply),
            VisitView::Done { .. } => false,
            VisitView::Aborted { .. } => false,
        }
    }

    /// The visit after a reply that it accepts.
    pub open spec fn advance(self, reply: Reply) -> VisitView {
        match (self, reply) {
            (VisitView::Looking { .. }, Reply::MonitorInfo { result, info }) => {
                if result == 0 {
                    VisitView::Failing { probe: ProbeView::start() }
                } else {
                    VisitView::Checking { info }
                }
            },
            (VisitView::Checking { info }, Reply::DisplayDevice { result, state_flags }) => {
                if result == 0 {
                    VisitView::Failing { probe: ProbeView::start() }
                } else if !attached(state_flags) {
                    VisitView::Done { entry: None }
                } else {
                    VisitView::Measuring {
                        name: utf16_lossy(before_nul(info.device@)),
                        area: MonitorArea::of(info.bounds),
                        work_area: MonitorArea::of(info.work),
                        measurement: MeasurementView::start(MonitorArea::of(info.work)),
                    }
                }
            },
            (VisitView::Measuring { name, area, work_area, measurement }, reply) => {
                match measurement.next(reply) {
                    MeasurementView::Finished { outcome: Ok(client_area) } => VisitView::Done {
                        entry: Some(Ok(MonitorInfoView { name, area, work_area, client_area })),
                    },
                    MeasurementView::Finished { outcome: Err(error) } => VisitView::Done {
                        entry: Some(Err(error)),
                    },
                    MeasurementView::Aborted { held, error } => VisitView::Aborted {
                        held,
                        error,
                    },
                    measurement => VisitView::Measuring { name, area, work_area, measurement },
                }
            },
            (VisitView::Failing { probe }, reply) => {
                let probe = probe.next(reply);
                if probe.done() {
                    VisitView::Done { entry: Some(Err(expected(probe.found))) }
                } else {
                    VisitView::Failing { probe }
                }
            },
            _ => self,
        }
    }

    /// The visit after `reply`: unchanged where it does not accept it.
    pub open spec fn next(self, reply: Reply) -> VisitView {
        if self.accepts(reply) {
            self.advance(reply)
        } else {
            self
        }
    }
}

/// Begins the visit of the monitor that the enumeration has come to.
pub fn monitor_enum_proc(monitor: usize) -> (visit: Visit)
    ensures
        visit@ == VisitView::start(monitor),
{
    Visit::Looking { monitor }
}

impl Visit {
    /// The call that the visit waits on; none once it is over.
    pub fn request(&self) -> (request: Option<Request>)
        ensures
            request_view(request) == self@.pending(),
    {
        match self {
            Visit::Looking { monitor } => Some(Request::MonitorInfo { monitor: *monitor }),
            Visit::Checking { info } => Some(
                Request::DisplayDevice { device: copy_units(&info.device) },
            ),
            Visit::Measuring { measurement, .. } => measurement.request(),
            Visit::Failing { probe } => probe.request(),
            Visit::Done { .. } => None,
            Visit::Aborted { .. } => None,
        }
    }

    /// Whether `reply` answers the call that the visit waits on.
    pub fn accepts(&self, reply: &Reply) -> (accepted: bool)
        ensures
            accepted == self@.accepts(*reply),
    {
        match self {
            Visit::Looking { .. } => matches!(reply, Reply::MonitorInfo { .. }),
            Visit::Checking { info } => match reply {
                Reply::DisplayDevice { result, state_flags } => {
                    *result == 0 || !is_attached(*state_flags) || (info.bounds.fits()
                        && info.work.fits())
                },
                _ => false,
            },
            Visit::Measuring { measurement, .. } => measurement.accepts(reply),
            Visit::Failing { probe } => probe.accepts(reply),
            Visit::Done { .. } => false,
            Visit::Aborted { .. } => false,
        }
    }

    /// Takes the platform's reply. A reply that does not answer the pending
    /// call leaves the visit as it is.
    pub fn resume(self, reply: Reply) -> (next: Visit)
        ensures
            next@ == self@.next(reply),
    {
        if !self.accepts(&reply) {
            return self;
        }
        match (self, reply) {
            (Visit::Looking { .. }, Reply::MonitorInfo { result, info }) => {
                if result == 0 {
                    Visit::Failing { probe: Error::maybe_winapi_error() }
                } else {
                    Visit::Checking { info }
                }
            },
            (Visit::Checking { info }, Reply::DisplayDevice { result, state_flags }) => {
                if result == 0 {
                    Visit::Failing { probe: Error::maybe_winapi_error() }
                } else if !is_attached(state_flags) {
                    Visit::Done { entry: None }
                } else {
                    let name = decode_utf16_lossy(&until_nul(&info.device));
                    let area = MonitorArea::from_rect(&info.bounds);
                    let work_area = MonitorArea::from_rect(&info.work);
                    let measurement = query_client_area(&work_area);
                    Visit::Measuring { name, area, work_area, measurement }
                }
            },
            (Visit::Measuring { name, area, work_area, measurement }, reply) => {
                match measurement.resume(reply) {
                    Measurement::Finished { outcome: Ok(client_area) } => Visit::Done {
                        entry: Some(Ok(MonitorInfo { name, area, work_area, client_area })),
                    },
                    Measurement::Finished { outcome: Err(error) } => Visit::Done {
                        entry: Some(Err(error)),
                    },
                    Measurement::Aborted { held, error } => Visit::Aborted { held, error },
                    measurement => Visit::Measuring { name, area, work_area, measurement },
                }
            },
            (Visit::Failing { probe }, reply) => {
                let probe = probe.resume(reply);
                if probe.done() {
                    Visit::Done {
                        entry: Some(Err(Error::expect_winapi_error(probe.into_found()))),
                    }
                } else {
                    Visit::Failing { probe }
                }
            },
            (visit, _) => visit,
        }
    }
}

/// Putting an entry behind the entries puts its model behind their models.
pub proof fn lemma_entries_push(
    entries: Seq<Result<MonitorInfo, Error>>,
    entry: Result<MonitorInfo, Error>,
)
    ensures
        entries_view(entries.push(entry)) == entries_view(entries).push(entry_view(entry)),
{
    assert(entries_view(entries.push(entry)) =~= entries_view(entries).push(entry_view(entry)));
}

/// A query of the monitors under way.
///
/// The platform enumerates the monitors; the query visits each as the
/// enumeration comes to it, and asks for the next when the visit is over,
/// whatever the visit ended with.
#[derive(Debug, PartialEq, Eq)]
pub enum MonitorQuery {
    /// Between two monitors: waiting for the enumeration to come to the
    /// next one, or to end. `started` tells whether the enumeration has been
    /// asked for.
    Enumerating { results: Vec<Result<MonitorInfo, Error>>, started: bool },
    /// At a monitor.
    Visiting { results: Vec<Result<MonitorInfo, Error>>, visit: Visit },
    /// The enumeration itself failed: reading its diagnostic.
    Failing { probe: ErrorProbe },
    /// Over: with one entry for each monitor of the desktop, in the order
    /// of the enumeration, or with the error of the enumeration.
    Finished { outcome: Result<Vec<Result<MonitorInfo, Error>>, Error> },
    /// A measurement could not release what it still holds. Nothing can go
    /// on from here.
    Aborted { held: Held, error: Error },
}

/// The model of a [`MonitorQuery`].
pub enum QueryView {
    Enumerating { results: Seq<Result<MonitorInfoView, ErrorView>>, started: bool },
    Visiting { results: Seq<Result<MonitorInfoView, ErrorView>>, visit: VisitView },
    Failing { probe: ProbeView },
    Finished { outcome: Result<Seq<Result<MonitorInfoView, ErrorView>>, ErrorView> },
    Aborted { held: HeldView, error: ErrorView },
}

impl View for MonitorQuery {
    type V = QueryView;

    open spec fn view(&self) -> QueryView {
        match *self {
            MonitorQuery::Enumerating { results, started } => QueryView::Enumerating {
                results: entries_view(results@),
                started,
            },
            MonitorQuery::Visiting { results, visit } => QueryView::Visiting {
                results: entries_view(results@),
                visit: visit@,
            },
            MonitorQuery::Failing { probe } => QueryView::Failing { probe: probe@ },
            MonitorQuery::Finished { outcome } => QueryView::Finished {
                outcome: query_outcome_view(outcome),
            },
            MonitorQuery::Aborted { held, error } => QueryView::Aborted {
                held: held@,
                error: error@,
            },
        }
    }
}

impl QueryView {
    /// A query that has asked nothing yet.
    pub open spec fn start() -> QueryView {
        QueryView::Enumerating { results: Seq::empty(), started: false }
    }

    /// The call that the query waits on.
    pub open spec fn pending(self) -> Option<RequestView> {
        match self {
            QueryView::Enumerating { started, .. } => if started {
                Some(RequestView::NextMonitor)
            } else {
                Some(RequestView::EnumerateMonitors)
            },
            QueryView::Visiting { visit, .. } => visit.pending(),
            QueryView::Failing { probe } => probe.pending(),
            QueryView::Finished { .. } => None,
            QueryView::Aborted { .. } => None,
        }
    }

    /// Whether `reply` answers the call that the query waits on.
    pub open spec fn accepts(self, reply: Reply) -> bool {
        match self {
            QueryView::Enumerating { .. } => reply is MonitorFound || reply is EnumerationEnded,
            QueryView::Visiting { visit, .. } => visit.accepts(reply),
            QueryView::Failing { probe } => probe.accepts(reply),
            QueryView::Finished { .. } => false,
            QueryView::Aborted { .. } => false,
        }
    }

    /// The query after a reply that it accepts. A visit that is over puts
    /// its entry, if it has one, behind the entries so far, and the
    /// enumeration goes on whatever the entry is. Only the failure of the
    /// enumeration itself makes the query fail.
    pub open spec fn advance(self, reply: Reply) -> QueryView {
        match (self, reply) {
            (QueryView::Enumerating { results, .. }, Reply::MonitorFound { monitor }) => {
                QueryView::Visiting { results, visit: VisitView::start(monitor) }
            },
            (QueryView::Enumerating { results, .. }, Reply::EnumerationEnded { result }) => {
                if result == 0 {
                    QueryView::Failing { probe: ProbeView::start() }
                } else {
                    QueryView::Finished { outcome: Ok(results) }
                }
            },
            (QueryView::Visiting { results, visit }, reply) => {
                match visit.next(reply) {
                    VisitView::Done { entry: Some(entry) } => QueryView::Enumerating {
                        results: results.push(entry),
                        started: true,
                    },
                    VisitView::Done { entry: None } => QueryView::Enumerating {
                        results,
                        started: true,
                    },
                    VisitView::Aborted { held, error } => QueryView::Aborted { held, error },
                    visit => QueryView::Visiting { results, visit },
                }
            },
            (QueryView::Failing { probe }, reply) => {
                let probe = probe.next(reply);
                if probe.done() {
                    QueryView::Finished { outcome: Err(expected(probe.found)) }
                } else {
                    QueryView::Failing { probe }
                }
            },
            _ => self,
        }
    }

    /// The query after `reply`: unchanged where it does not accept it.
    pub open spec fn next(self, reply: Reply) -> QueryView {
        if self.accepts(reply) {
            self.advance(reply)
        } else {
            self
        }
    }
}

/// Begins a query of the display monitors.
pub fn query_monitors() -> (query: MonitorQuery)
    ensures
        query@ == QueryView::start(),
{
    let results: Vec<Result<MonitorInfo, Error>> = Vec::new();
    proof {
        assert(entries_view(results@) =~= Seq::empty());
    }
    MonitorQuery::Enumerating { results, started: false }
}

impl MonitorQuery {
    /// The call that the query waits on; none once it is over.
    pub fn request(&self) -> (request: Option<Request>)
        ensures
            request_view(request) == self@.pending(),
    {
        match self {
            MonitorQuery::Enumerating { started, .. } => if *started {
                Some(Request::NextMonitor)
            } else {
                Some(Request::EnumerateMonitors)
            },
            MonitorQuery::Visiting { visit, .. } => visit.request(),
            MonitorQuery::Failing { probe } => probe.request(),
            MonitorQuery::Finished { .. } => None,
            MonitorQuery::Aborted { .. } => None,
        }
    }

    /// Whether `reply` answers the call that the query waits on.
    pub fn accepts(&self, reply: &Reply) -> (accepted: bool)
        ensures
            accepted == self@.accepts(*reply),
    {
        match self {
            MonitorQuery::Enumerating { .. } => matches!(
                reply,
                Reply::MonitorFound { .. } | Reply::EnumerationEnded { .. }
            ),
            MonitorQuery::Visiting { visit, .. } => visit.accepts(reply),
            MonitorQuery::Failing { probe } => probe.accepts(reply),
            MonitorQuery::Finished { .. } => false,
            MonitorQuery::Aborted { .. } => false,
        }
    }

    /// Takes the platform's reply. A reply that does not answer the pending
    /// call leaves the query as it is.
    pub fn resume(self, reply: Reply) -> (next: MonitorQuery)
        ensures
            next@ == self@.next(reply),
    {
        if !self.accepts(&reply) {
            return self;
        }
        match (self, reply) {
            (MonitorQuery::Enumerating { results, .. }, Reply::MonitorFound { monitor }) => {
                MonitorQuery::Visiting { results, visit: monitor_enum_proc(monitor) }
            },
            (MonitorQuery::Enumerating { results, .. }, Reply::EnumerationEnded { result }) => {
                if result == 0 {
                    MonitorQuery::Failing { probe: Error::maybe_winapi_error() }
                } else {
                    MonitorQuery::Finished { outcome: Ok(results) }
                }
            },
            (MonitorQuery::Visiting { results, visit }, reply) => {
                match visit.resume(reply) {
                    Visit::Done { entry: Some(entry) } => {
                        let mut results = results;
                        proof {
                            lemma_entries_push(results@, entry);
                        }
                        results.push(entry);
                        MonitorQuery::Enumerating { results, started: true }
                    },
                    Visit::Done { entry: None } => MonitorQuery::Enumerating {
                        results,
                        started: true,
                    },
                    Visit::Aborted { held, error } => MonitorQuery::Aborted { held, error },
                    visit => MonitorQuery::Visiting { results, visit },
                }
            },
            (MonitorQuery::Failing { probe }, reply) => {
                let probe = probe.resume(reply);
                if probe.done() {
                    MonitorQuery::Finished {
                        outcome: Err(Error::expect_winapi_error(probe.into_found())),
                    }
                } else {
                    MonitorQuery::Failing { probe }
                }
            },
            (query, _) => query,
        }
    }
}

impl VisitView {
    /// The visit after the replies, taken in their order.
    pub open spec fn run(self, replies: Seq<Reply>) -> VisitView
        decreases replies.len(),
    {
        if replies.len() == 0 {
            self
        } else {
            self.next(replies[0]).run(replies.drop_first())
        }
    }

    /// Whether the visit tells of the monitor what `info` holds, as far as
    /// it has come to tell anything: the device name in front of the first
    /// NUL, the bounds and the work area by corner and exact size.
    pub open spec fn tells(self, info: MonitorData) -> bool {
        match self {
            VisitView::Looking { .. } => false,
            VisitView::Checking { info: held } => held == info,
            VisitView::Measuring { name, area, work_area, .. } => {
                &&& info.bounds.spans_fit()
                &&& info.work.spans_fit()
                &&& name == utf16_lossy(before_nul(info.device@))
                &&& area == MonitorArea::of(info.bounds)
                &&& work_area == MonitorArea::of(info.work)
            },
            VisitView::Done { entry: Some(Ok(told)) } => {
                &&& info.bounds.spans_fit()
                &&& info.work.spans_fit()
                &&& told.name == utf16_lossy(before_nul(info.device@))
                &&& told.area == MonitorArea::of(info.bounds)
                &&& told.work_area == MonitorArea::of(info.work)
            },
            _ => true,
        }
    }
}

/// The area of a box whose width and height are `i32` values has the
/// corner of the box, and these as its width and height: not negative
/// where the edges of the box are in order.
pub proof fn lemma_area_of_box(rect: Rect)
    requires
        rect.spans_fit(),
    ensures
        MonitorArea::of(rect).x == rect.left,
        MonitorArea::of(rect).y == rect.top,
        MonitorArea::of(rect).width == rect.right - rect.left,
        MonitorArea::of(rect).height == rect.bottom - rect.top,
        rect.left <= rect.right ==> MonitorArea::of(rect).width >= 0,
        rect.top <= rect.bottom ==> MonitorArea::of(rect).height >= 0,
{
}

/// Where the platform's work box lies within its bounding box, the work
/// area lies within the area of the monitor.
pub proof fn lemma_work_area_within_bounds(
    bounds: Rect,
    work: Rect,
)
    requires
        bounds.spans_fit(),
        work.spans_fit(),
        work.within(bounds),
    ensures
        MonitorArea::of(bounds).x <= MonitorArea::of(work).x,
        MonitorArea::of(bounds).y <= MonitorArea::of(work).y,
        MonitorArea::of(work).x + MonitorArea::of(work).width <= MonitorArea::of(bounds).x
            + MonitorArea::of(bounds).width,
        MonitorArea::of(work).y + MonitorArea::of(work).height <= MonitorArea::of(bounds).y
            + MonitorArea::of(bounds).height,
{
}

/// A visit that has the data of its monitor tells them unchanged, whatever
/// the platform replies afterwards: an entry that it ends with has the
/// areas of the two boxes of `info`, of which width and height are the
/// distances between the edges.
pub proof fn lemma_visit_tells_boxes(
    visit: VisitView,
    info: MonitorData,
    replies: Seq<Reply>,
)
    requires
        visit.tells(info),
    ensures
        visit.run(replies).tells(info),
        visit.run(replies) matches VisitView::Done { entry: Some(Ok(told)) } ==> {
            &&& told.area.width == info.bounds.right - info.bounds.left
            &&& told.area.height == info.bounds.bottom - info.bounds.top
            &&& told.work_area.x == info.work.left
            &&& told.work_area.y == info.work.top
            &&& told.work_area.width == info.work.right - info.work.left
            &&& told.work_area.height == info.work.bottom - info.work.top
        },
    decreases replies.len(),
{
    if replies.len() != 0 {
        lemma_visit_tells_boxes(visit.next(replies[0]), info, replies.drop_first());
    }
}

/// A failed lookup ends the visit with an error for its monitor: never
/// with a record, never without an entry, and never with the end of the
/// query.
pub proof fn lemma_failed_lookup_ends_in_error(probe: ProbeView, replies: Seq<Reply>)
    ensures
        ({
            let end = (VisitView::Failing { probe }).run(replies);
            end is Failing || end matches VisitView::Done { entry: Some(Err(_)) }
        }),
    decreases replies.len(),
{
    let visit = VisitView::Failing { probe };
    if replies.len() != 0 {
        let next = visit.next(replies[0]);
        if next is Failing {
            lemma_failed_lookup_ends_in_error(next->Failing_probe, replies.drop_first());
        } else {
            lemma_visit_over(next, replies.drop_first());
        }
    }
}

/// A visit that is over takes no reply.
pub proof fn lemma_visit_over(visit: VisitView, replies: Seq<Reply>)
    requires
        visit is Done || visit is Aborted,
    ensures
        visit.run(replies) == visit,
    decreases replies.len(),
{
    if replies.len() != 0 {
        lemma_visit_over(visit, replies.drop_first());
    }
}

impl QueryView {
    /// The query after the replies, taken in their order.
    pub open spec fn run(self, replies: Seq<Reply>) -> QueryView
        decreases replies.len(),
    {
        if replies.len() == 0 {
            self
        } else {
            self.next(replies[0]).run(replies.drop_first())
        }
    }

    /// The entries that the query has, while it has any.
    pub open spec fn entries(self) -> Option<Seq<Result<MonitorInfoView, ErrorView>>> {
        match self {
            QueryView::Enumerating { results, .. } => Some(results),
            QueryView::Visiting { results, .. } => Some(results),
            QueryView::Finished { outcome: Ok(results) } => Some(results),
            _ => None,
        }
    }
}

/// An enumeration that ends in success before it came to any monitor gives
/// no entries, and no error.
pub proof fn lemma_no_monitors_is_success(result: i32)
    requires
        result != 0,
    ensures
        QueryView::start().next(Reply::EnumerationEnded { result }) == (QueryView::Finished {
            outcome: Ok(Seq::empty()),
        }),
{
}

/// A monitor that is no part of the desktop adds no entry, and no error:
/// the entries stay as they are, and the enumeration goes on.
pub proof fn lemma_detached_monitor_adds_nothing(
    results: Seq<Result<MonitorInfoView, ErrorView>>,
    info: MonitorData,
    result: i32,
    state_flags: u32,
)
    requires
        result != 0,
        !attached(state_flags),
    ensures
        (QueryView::Visiting { results, visit: VisitView::Checking { info } }).next(
            Reply::DisplayDevice { result, state_flags },
        ) == (QueryView::Enumerating { results, started: true }),
{
}

/// A visit that ends puts at most its one entry behind the entries so far
/// and changes none of them, and the enumeration goes on: with an error for
/// the monitor as with a record.
pub proof fn lemma_visit_end_adds_its_entry(
    results: Seq<Result<MonitorInfoView, ErrorView>>,
    visit: VisitView,
    reply: Reply,
)
    requires
        visit.accepts(reply),
        visit.next(reply) is Done,
    ensures
        ({
            let next = (QueryView::Visiting { results, visit }).next(reply);
            match visit.next(reply)->Done_entry {
                Some(entry) => next == (QueryView::Enumerating {
                    results: results.push(entry),
                    started: true,
                }),
                None => next == (QueryView::Enumerating { results, started: true }),
            }
        }),
{
}

/// The entries that a query has are never taken back or changed: what it
/// has later begins with what it had before.
pub proof fn lemma_entries_are_kept(query: QueryView, replies: Seq<Reply>)
    ensures
        query.entries() is None ==> query.run(replies).entries() is None,
        query.run(replies).entries() matches Some(later) ==> query.entries().unwrap().is_prefix_of(
            later,
        ),
    decreases replies.len(),
{
    if replies.len() != 0 {
        let next = query.next(replies[0]);
        lemma_entries_are_kept(next, replies.drop_first());
        if query.run(replies).entries() is Some {
            let before = query.entries().unwrap();
            let between = next.entries().unwrap();
            let later = query.run(replies).entries().unwrap();
            assert(before.is_prefix_of(between));
            assert(before.is_prefix_of(later));
        }
    }
}

/// Where the enumeration itself fails, the query ends with an error: no
/// later reply makes it a success, with or without entries.
pub proof fn lemma_failed_enumeration_is_error(
    results: Seq<Result<MonitorInfoView, ErrorView>>,
    started: bool,
    replies: Seq<Reply>,
)
    ensures
        ({
            let failed = (QueryView::Enumerating { results, started }).next(
                Reply::EnumerationEnded { result: 0 },
            );
            let end = failed.run(replies);
            end is Failing || end matches QueryView::Finished { outcome: Err(_) }
        }),
{
    let failed = (QueryView::Enumerating { results, started }).next(
        Reply::EnumerationEnded { result: 0 },
    );
    lemma_failing_query_ends_in_error(failed, replies);
}

/// A query that reads the diagnostic of its enumeration, or has ended with
/// an error, stays so.
pub proof fn lemma_failing_query_ends_in_error(query: QueryView, replies: Seq<Reply>)
    requires
        query is Failing || query matches QueryView::Finished { outcome: Err(_) },
    ensures
        query.run(replies) is Failing || query.run(replies) matches QueryView::Finished {
            outcome: Err(_),
        },
    decreases replies.len(),
{
    if replies.len() != 0 {
        lemma_failing_query_ends_in_error(query.next(replies[0]), replies.drop_first());
    }
}

impl QueryView {
    /// The measurement that the query is in, if it is in one.
    pub open spec fn measurement(self) -> Option<MeasurementView> {
        match self {
            QueryView::Visiting { visit: VisitView::Measuring { measurement, .. }, .. } => Some(
                measurement,
            ),
            _ => None,
        }
    }

    /// The platform resources that the query holds: those of the
    /// measurement that it is in, or that it could not release.
    pub open spec fn held(self) -> HeldView {
        match self {
            QueryView::Visiting { visit: VisitView::Measuring { measurement, .. }, .. } => {
                measurement.held()
            },
            QueryView::Visiting { visit: VisitView::Aborted { held, .. }, .. } => held,
            QueryView::Aborted { held, .. } => held,
            _ => HeldView::Nothing,
        }
    }

    /// Whether `reply` tells the query that a class is registered.
    pub open spec fn registers(self, reply: Reply) -> bool {
        self.measurement() matches Some(m) && m.registers(reply)
    }

    /// Whether `reply` tells the query that a class is removed.
    pub open spec fn unregisters(self, reply: Reply) -> bool {
        self.measurement() matches Some(m) && m.unregisters(reply)
    }

    /// Whether `reply` tells the query that a window is created.
    pub open spec fn creates(self, reply: Reply) -> bool {
        self.measurement() matches Some(m) && m.creates(reply)
    }

    /// Whether `reply` tells the query that a window is destroyed.
    pub open spec fn destroys(self, reply: Reply) -> bool {
        self.measurement() matches Some(m) && m.destroys(reply)
    }

    /// How many classes the platform registered in the course of the
    /// replies.
    pub open spec fn registrations(self, replies: Seq<Reply>) -> nat
        decreases replies.len(),
    {
        if replies.len() == 0 {
            0
        } else {
            count(self.registers(replies[0])) + self.next(replies[0]).registrations(
                replies.drop_first(),
            )
        }
    }

    /// How many classes the platform removed in the course of the replies.
    pub open spec fn removals(self, replies: Seq<Reply>) -> nat
        decreases replies.len(),
    {
        if replies.len() == 0 {
            0
        } else {
            count(self.unregisters(replies[0])) + self.next(replies[0]).removals(
                replies.drop_first(),
            )
        }
    }

    /// How many windows the platform created in the course of the replies.
    pub open spec fn creations(self, replies: Seq<Reply>) -> nat
        decreases replies.len(),
    {
        if replies.len() == 0 {
            0
        } else {
            count(self.creates(replies[0])) + self.next(replies[0]).creations(
                replies.drop_first(),
            )
        }
    }

    /// How many windows the platform destroyed in the course of the
    /// replies.
    pub open spec fn destructions(self, replies: Seq<Reply>) -> nat
        decreases replies.len(),
    {
        if replies.len() == 0 {
            0
        } else {
            count(self.destroys(replies[0])) + self.next(replies[0]).destructions(
                replies.drop_first(),
            )
        }
    }
}

/// What a query holds changes with the platform's word only, as it does
/// for the measurement that the query is in; between two measurements it
/// holds nothing. A class is registered only while none is held: the
/// measurements of a query never meet in the platform's table of classes.
pub proof fn lemma_query_resources_step(query: QueryView, reply: Reply)
    ensures
        count(query.next(reply).held().class()) + count(query.unregisters(reply)) == count(
            query.held().class(),
        ) + count(query.registers(reply)),
        count(query.next(reply).held().window()) + count(query.destroys(reply)) == count(
            query.held().window(),
        ) + count(query.creates(reply)),
        query.registers(reply) ==> !query.held().class(),
        query.creates(reply) ==> query.held().class() && !query.held().window(),
        query.unregisters(reply) ==> !query.held().window(),
        query.next(reply) is Finished || query.next(reply) is Enumerating ==> query.next(
            reply,
        ).held() is Nothing,
{
    if let Some(m) = query.measurement() {
        crate::measure::lemma_resources_step(m, reply);
    }
}

/// Over any replies, the classes registered and the one held at first are
/// the classes removed and the one held at last; and so for the windows.
pub proof fn lemma_query_resources_balance(query: QueryView, replies: Seq<Reply>)
    ensures
        count(query.held().class()) + query.registrations(replies) == query.removals(replies)
            + count(query.run(replies).held().class()),
        count(query.held().window()) + query.creations(replies) == query.destructions(replies)
            + count(query.run(replies).held().window()),
    decreases replies.len(),
{
    if replies.len() != 0 {
        lemma_query_resources_step(query, replies[0]);
        lemma_query_resources_balance(query.next(replies[0]), replies.drop_first());
    }
}

/// A query that has finished, with entries or with the error of the
/// enumeration, has had every class that was registered for it removed, and
/// every window that was created for it destroyed; and so has a query that
/// stands between two monitors.
pub proof fn lemma_finished_query_holds_nothing(replies: Seq<Reply>)
    requires
        QueryView::start().run(replies) is Finished || QueryView::start().run(
            replies,
        ) is Enumerating,
    ensures
        QueryView::start().registrations(replies) == QueryView::start().removals(replies),
        QueryView::start().creations(replies) == QueryView::start().destructions(replies),
{
    lemma_query_resources_balance(QueryView::start(), replies);
}

/// What the platform replies in the course of the visit of one monitor.
pub struct VisitScript {
    /// The identifier that the enumeration gives for the monitor.
    pub monitor: usize,
    /// The replies to the calls of the visit, in their order.
    pub replies: Seq<Reply>,
}

impl VisitView {
    /// Whether the replies take the visit to its end and no further: the
    /// visit is over with the last of them, and not before.
    pub open spec fn ends_with(self, replies: Seq<Reply>) -> bool
        decreases replies.len(),
    {
        if replies.len() == 0 {
            self is Done
        } else {
            !(self is Done) && !(self is Aborted) && self.next(replies[0]).ends_with(
                replies.drop_first(),
            )
        }
    }

    /// The entry that the visit has ended with, as a sequence of one or of
    /// none.
    pub open spec fn told(self) -> Seq<Result<MonitorInfoView, ErrorView>> {
        match self {
            VisitView::Done { entry: Some(entry) } => seq![entry],
            _ => Seq::empty(),
        }
    }
}

impl VisitScript {
    /// Whether the replies are those of a whole visit of the monitor.
    pub open spec fn complete(self) -> bool {
        VisitView::start(self.monitor).ends_with(self.replies)
    }

    /// The visit of the monitor after the replies.
    pub open spec fn end(self) -> VisitView {
        VisitView::start(self.monitor).run(self.replies)
    }

    /// Whether the monitor's display device could not be looked up: the
    /// monitor's data came, and the lookup of the device failed.
    pub open spec fn device_lookup_fails(self) -> bool {
        &&& self.replies.len() >= 2
        &&& self.replies[0] matches Reply::MonitorInfo { result, .. } && result != 0
        &&& self.replies[1] matches Reply::DisplayDevice { result, .. } && result == 0
    }
}

/// What the platform replies in the course of an enumeration that comes to
/// these visits: for each the monitor found, and then the replies of its
/// visit.
pub open spec fn script_replies(scripts: Seq<VisitScript>) -> Seq<Reply>
    decreases scripts.len(),
{
    if scripts.len() == 0 {
        Seq::empty()
    } else {
        seq![Reply::MonitorFound { monitor: scripts[0].monitor }] + scripts[0].replies
            + script_replies(scripts.drop_first())
    }
}

/// The entries of the visits, in the order of the visits: for each visit
/// what that visit alone ends with.
pub open spec fn script_entries(scripts: Seq<VisitScript>) -> Seq<
    Result<MonitorInfoView, ErrorView>,
>
    decreases scripts.len(),
{
    if scripts.len() == 0 {
        Seq::empty()
    } else {
        scripts[0].end().told() + script_entries(scripts.drop_first())
    }
}

/// Replies taken one run after the other are taken in one run.
pub proof fn lemma_query_run_concat(query: QueryView, first: Seq<Reply>, second: Seq<Reply>)
    ensures
        query.run(first + second) == query.run(first).run(second),
    decreases first.len(),
{
    if first.len() == 0 {
        assert(first + second =~= second);
    } else {
        assert((first + second).drop_first() =~= first.drop_first() + second);
        lemma_query_run_concat(query.next(first[0]), first.drop_first(), second);
    }
}

/// Replies that take a visit to its end leave it over.
pub proof fn lemma_visit_ends(visit: VisitView, replies: Seq<Reply>)
    requires
        visit.ends_with(replies),
    ensures
        visit.run(replies) is Done,
    decreases replies.len(),
{
    if replies.len() != 0 {
        lemma_visit_ends(visit.next(replies[0]), replies.drop_first());
    }
}

/// A visit within a query runs as it runs alone, and when it is over the
/// query has what the visit ended with behind the entries that it had: the
/// entries before are as they were, and the next monitor is asked for.
pub proof fn lemma_visit_within_query(
    results: Seq<Result<MonitorInfoView, ErrorView>>,
    visit: VisitView,
    replies: Seq<Reply>,
)
    requires
        !(visit is Done),
        visit.ends_with(replies),
    ensures
        (QueryView::Visiting { results, visit }).run(replies) == (QueryView::Enumerating {
            results: results + visit.run(replies).told(),
            started: true,
        }),
    decreases replies.len(),
{
    let query = QueryView::Visiting { results, visit };
    let rest = replies.drop_first();
    let next = visit.next(replies[0]);
    assert(next.ends_with(rest));
    assert(query.run(replies) == query.next(replies[0]).run(rest));
    assert(visit.run(replies) == next.run(rest));
    if next is Done {
        assert(rest.len() == 0);
        assert(next.run(rest) == next);
        assert(visit.accepts(replies[0]));
        let after = QueryView::Enumerating { results: results + next.told(), started: true };
        assert(results + next.told() =~= match next->Done_entry {
            Some(entry) => results.push(entry),
            None => results,
        });
        assert(query.next(replies[0]) == after);
        assert(after.run(rest) == after);
    } else {
        assert(query.next(replies[0]) == QueryView::Visiting { results, visit: next });
        lemma_visit_within_query(results, next, rest);
    }
}

/// An enumeration that comes to these visits, each of them whole, leaves
/// the query with the entries of the visits behind the entries that it had,
/// in the order of the visits.
pub proof fn lemma_enumeration_entries(
    results: Seq<Result<MonitorInfoView, ErrorView>>,
    started: bool,
    scripts: Seq<VisitScript>,
)
    requires
        forall|i: int| 0 <= i < scripts.len() ==> (#[trigger] scripts[i]).complete(),
    ensures
        (QueryView::Enumerating { results, started }).run(script_replies(scripts)) == (
        QueryView::Enumerating {
            results: results + script_entries(scripts),
            started: started || scripts.len() > 0,
        }),
    decreases scripts.len(),
{
    let query = QueryView::Enumerating { results, started };
    if scripts.len() == 0 {
        assert(results + script_entries(scripts) =~= results);
    } else {
        let script = scripts[0];
        let rest = scripts.drop_first();
        let found = seq![Reply::MonitorFound { monitor: script.monitor }];
        let visiting = QueryView::Visiting { results, visit: VisitView::start(script.monitor) };
        assert(script.complete());
        assert forall|i: int| 0 <= i < rest.len() implies (#[trigger] rest[i]).complete() by {
            assert(rest[i] == scripts[i + 1]);
        }
        assert(script_replies(scripts) =~= found + (script.replies + script_replies(rest)));
        lemma_query_run_concat(query, found, script.replies + script_replies(rest));
        assert(query.run(found) == visiting) by {
            assert(found.drop_first() =~= Seq::<Reply>::empty());
            assert(query.next(found[0]) == visiting);
            assert(visiting.run(Seq::<Reply>::empty()) == visiting);
        }
        lemma_query_run_concat(visiting, script.replies, script_replies(rest));
        lemma_visit_within_query(results, VisitView::start(script.monitor), script.replies);
        lemma_enumeration_entries(results + script.end().told(), true, rest);
        assert(results + script.end().told() + script_entries(rest) =~= results + script_entries(
            scripts,
        ));
    }
}

/// A query whose enumeration comes to any number of monitors and ends in
/// success ends with the entries of the visits, in the order of the visits:
/// for each visit what that visit alone ends with, whatever the other
/// visits end with.
pub proof fn lemma_query_outcome(scripts: Seq<VisitScript>, result: i32)
    requires
        forall|i: int| 0 <= i < scripts.len() ==> (#[trigger] scripts[i]).complete(),
        result != 0,
    ensures
        QueryView::start().run(script_replies(scripts).push(Reply::EnumerationEnded { result }))
            == (QueryView::Finished { outcome: Ok(script_entries(scripts)) }),
{
    let ended = seq![Reply::EnumerationEnded { result }];
    let between = QueryView::Enumerating {
        results: script_entries(scripts),
        started: scripts.len() > 0,
    };
    assert(script_replies(scripts).push(Reply::EnumerationEnded { result }) =~= script_replies(
        scripts,
    ) + ended);
    lemma_query_run_concat(QueryView::start(), script_replies(scripts), ended);
    lemma_enumeration_entries(Seq::empty(), false, scripts);
    assert(Seq::<Result<MonitorInfoView, ErrorView>>::empty() + script_entries(scripts)
        =~= script_entries(scripts));
    assert(between.run(ended) == QueryView::Finished { outcome: Ok(script_entries(scripts)) })
        by {
        assert(ended.drop_first() =~= Seq::<Reply>::empty());
        let finished = between.next(ended[0]);
        assert(finished.run(Seq::<Reply>::empty()) == finished);
    }
}

/// Where every visit ends with an entry, there is one entry for each
/// monitor, at the place of the monitor in the enumeration, and it is what
/// the visit of that monitor ends with.
pub proof fn lemma_entry_per_monitor(scripts: Seq<VisitScript>)
    requires
        forall|i: int|
            0 <= i < scripts.len() ==> (#[trigger] scripts[i]).end() matches VisitView::Done {
                entry: Some(_),
            },
    ensures
        script_entries(scripts).len() == scripts.len(),
        forall|i: int|
            0 <= i < scripts.len() ==> (#[trigger] scripts[i]).end() == (VisitView::Done {
                entry: Some(script_entries(scripts)[i]),
            }),
    decreases scripts.len(),
{
    if scripts.len() != 0 {
        let rest = scripts.drop_first();
        assert(scripts[0].end() matches VisitView::Done { entry: Some(_) });
        assert forall|i: int| 0 <= i < rest.len() implies (#[trigger] rest[i]).end() matches
            VisitView::Done { entry: Some(_) } by {
            assert(rest[i] == scripts[i + 1]);
        }
        lemma_entry_per_monitor(rest);
        assert forall|i: int| 0 <= i < scripts.len() implies (#[trigger] scripts[i]).end() == (
        VisitView::Done { entry: Some(script_entries(scripts)[i]) }) by {
            if i > 0 {
                assert(scripts[i] == rest[i - 1]);
                assert(script_entries(scripts)[i] == script_entries(rest)[i - 1]);
            }
        }
    }
}

/// A whole visit in which the lookup of the display device fails ends with
/// an error as the entry of its monitor.
pub proof fn lemma_failed_device_lookup_is_error(script: VisitScript)
    requires
        script.complete(),
        script.device_lookup_fails(),
    ensures
        script.end() matches VisitView::Done { entry: Some(Err(_)) },
{
    let looking = VisitView::start(script.monitor);
    let checking = looking.next(script.replies[0]);
    let failing = checking.next(script.replies[1]);
    let after_one = script.replies.drop_first();
    let tail = after_one.drop_first();
    assert(after_one[0] == script.replies[1]);
    assert(looking.run(script.replies) == checking.run(after_one));
    assert(checking.run(after_one) == failing.run(tail));
    assert(checking.ends_with(after_one));
    assert(failing.ends_with(tail));
    lemma_visit_ends(failing, tail);
    lemma_failed_lookup_ends_in_error(failing->Failing_probe, tail);
}

/// Among any number of monitors of the desktop, a monitor whose display
/// device cannot be looked up is one error among the entries, at its place,
/// and the query still ends in success, with as many entries as monitors.
/// The entry of every other monitor is what it is where that lookup does not
/// fail: `others` is any such enumeration, the same but for the visit at
/// `k`.
pub proof fn lemma_one_failed_lookup_among_monitors(
    scripts: Seq<VisitScript>,
    others: Seq<VisitScript>,
    k: int,
    result: i32,
)
    requires
        result != 0,
        0 <= k < scripts.len(),
        others.len() == scripts.len(),
        forall|i: int| 0 <= i < scripts.len() ==> (#[trigger] scripts[i]).complete(),
        forall|i: int| 0 <= i < others.len() ==> (#[trigger] others[i]).complete(),
        forall|i: int|
            0 <= i < scripts.len() ==> (#[trigger] scripts[i]).end() matches VisitView::Done {
                entry: Some(_),
            },
        forall|i: int|
            0 <= i < others.len() ==> (#[trigger] others[i]).end() matches VisitView::Done {
                entry: Some(_),
            },
        forall|i: int| 0 <= i < scripts.len() && i != k ==> #[trigger] scripts[i] == others[i],
        scripts[k].device_lookup_fails(),
    ensures
        QueryView::start().run(script_replies(scripts).push(Reply::EnumerationEnded { result }))
            == (QueryView::Finished { outcome: Ok(script_entries(scripts)) }),
        QueryView::start().run(script_replies(others).push(Reply::EnumerationEnded { result }))
            == (QueryView::Finished { outcome: Ok(script_entries(others)) }),
        script_entries(scripts).len() == scripts.len(),
        script_entries(others).len() == scripts.len(),
        script_entries(scripts)[k] is Err,
        forall|i: int|
            0 <= i < scripts.len() && i != k ==> #[trigger] script_entries(scripts)[i]
                == script_entries(others)[i],
{
    lemma_query_outcome(scripts, result);
    lemma_query_outcome(others, result);
    lemma_entry_per_monitor(scripts);
    lemma_entry_per_monitor(others);
    assert(scripts[k].complete());
    lemma_failed_device_lookup_is_error(scripts[k]);
    assert forall|i: int| 0 <= i < scripts.len() && i != k implies #[trigger] script_entries(
        scripts,
    )[i] == script_entries(others)[i] by {
        assert(scripts[i] == others[i]);
        assert(scripts[i].end() == VisitView::Done { entry: Some(script_entries(scripts)[i]) });
        assert(others[i].end() == VisitView::Done { entry: Some(script_entries(others)[i]) });
    }
}

} // verus!
