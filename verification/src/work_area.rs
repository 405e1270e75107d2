//! The query of the work areas of the display monitors, by size alone.

use crate::error::{expected, Error, ErrorProbe, ErrorView, ProbeView};
use crate::monitor::{attached, is_attached};
use crate::platform::{request_view, MonitorData, Rect, Reply, Request, RequestView};
use crate::text::copy_units;
use vstd::prelude::*;

verus! {

/// The size of the part of a monitor that is free for windows.
#[derive(Clone, Copy, Debug, PartialEq, Eq)]
pub struct WorkArea {
    pub width: i32,
    pub height: i32,
}

impl WorkArea {
    /// The size of a bounding box: the distances between its edges.
    pub open spec fn of(rect: Rect) -> WorkArea {
        WorkArea {
            width: (rect.right - rect.left) as i32,
            height: (rect.bottom - rect.top) as i32,
        }
    }

    /// The size of a bounding box.
    pub fn from_rect(rect: &Rect) -> (area: WorkArea)
        requires
            rect.spans_fit(),
        ensures
            area == WorkArea::of(*rect),
            area.width == rect.right - rect.left,
            area.height == rect.bottom - rect.top,
    {
        WorkArea { width: rect.right - rect.left, height: rect.bottom - rect.top }
    }
}

/// The model of the work area of one monitor, or of why it is not known.
pub open spec fn area_view(entry: Result<WorkArea, Error>) -> Result<WorkArea, ErrorView> {
    match entry {
        Ok(area) => Ok(area),
        Err(error) => Err(error@),
    }
}

/// The models of the entries, in their order.
pub open spec fn areas_view(entries: Seq<Result<WorkArea, Error>>) -> Seq<
    Result<WorkArea, ErrorView>,
> {
    entries.map_values(|entry: Result<WorkArea, Error>| area_view(entry))
}

/// The model of what the query ends with.
pub open spec fn areas_outcome_view(
    outcome: Result<Vec<Result<WorkArea, Error>>, Error>,
) -> Result<Seq<Result<WorkArea, ErrorView>>, ErrorView> {
    match outcome {
        Ok(entries) => Ok(areas_view(entries@)),
        Err(error) => Err(error@),
    }
}

/// Putting an entry behind the entries puts its model behind their models.
pub proof fn lemma_areas_push(
    entries: Seq<Result<WorkArea, Error>>,
    entry: Result<WorkArea, Error>,
)
    ensures
        areas_view(entries.push(entry)) == areas_view(entries).push(area_view(entry)),
{
    assert(areas_view(entries.push(entry)) =~= areas_view(entries).push(area_view(entry)));
}

/// A query of the work areas under way.
#[derive(Debug, PartialEq, Eq)]
pub enum WorkAreaQuery {
    /// Between two monitors: waiting for the enumeration to come to the
    /// next one, or to end. `started` tells whether the enumeration has been
    /// asked for.
    Enumerating { results: Vec<Result<WorkArea, Error>>, started: bool },
    /// At a monitor: waiting for its data.
    Looking { results: Vec<Result<WorkArea, Error>>, monitor: usize },
    /// At a monitor: waiting for the state of its display device.
    Checking { results: Vec<Result<WorkArea, Error>>, info: MonitorData },
    /// A lookup at a monitor failed: reading its diagnostic.
    LookupFailing { results: Vec<Result<WorkArea, Error>>, probe: ErrorProbe },
    /// The enumeration itself failed: reading its diagnostic.
    Failing { probe: ErrorProbe },
    /// Over: with one entry for each monitor of the desktop, in the order
    /// of the enumeration, or with the error of the enumeration.
    Finished { outcome: Result<Vec<Result<WorkArea, Error>>, Error> },
}

/// The model of a [`WorkAreaQuery`].
pub enum WorkAreaQueryView {
    Enumerating { results: Seq<Result<WorkArea, ErrorView>>, started: bool },
    Looking { results: Seq<Result<WorkArea, ErrorView>>, monitor: usize },
    Checking { results: Seq<Result<WorkArea, ErrorView>>, info: MonitorData },
    LookupFailing { results: Seq<Result<WorkArea, ErrorView>>, probe: ProbeView },
    Failing { probe: ProbeView },
    Finished { outcome: Result<Seq<Result<WorkArea, ErrorView>>, ErrorView> },
}

impl View for WorkAreaQuery {
    type V = WorkAreaQueryView;

    open spec fn view(&self) -> WorkAreaQueryView {
        match *self {
            WorkAreaQuery::Enumerating { results, started } => WorkAreaQueryView::Enumerating {
                results: areas_view(results@),
                started,
            },
            WorkAreaQuery::Looking { results, monitor } => WorkAreaQueryView::Looking {
                results: areas_view(results@),
                monitor,
            },
            WorkAreaQuery::Checking { results, info } => WorkAreaQueryView::Checking {
                results: areas_view(results@),
                info,
            },
            WorkAreaQuery::LookupFailing { results, probe } => WorkAreaQueryView::LookupFailing {
                results: areas_view(results@),
                probe: probe@,
            },
            WorkAreaQuery::Failing { probe } => WorkAreaQueryView::Failing { probe: probe@ },
            WorkAreaQuery::Finished { outcome } => WorkAreaQueryView::Finished {
                outcome: areas_outcome_view(outcome),
            },
        }
    }
}

impl WorkAreaQueryView {
    /// A query that has asked nothing yet.
    pub open spec fn start() -> WorkAreaQueryView {
        WorkAreaQueryView::Enumerating { results: Seq::empty(), started: false }
    }

    /// The call that the query waits on.
    pub open spec fn pending(self) -> Option<RequestView> {
        match self {
            WorkAreaQueryView::Enumerating { started, .. } => if started {
                Some(RequestView::NextMonitor)
            } else {
                Some(RequestView::EnumerateMonitors)
            },
            WorkAreaQueryView::Looking { monitor, .. } => Some(
                RequestView::MonitorInfo { monitor },
            ),
            WorkAreaQueryView::Checking { info, .. } => Some(
                RequestView::DisplayDevice { device: info.device@ },
            ),
            WorkAreaQueryView::LookupFailing { probe, .. } => probe.pending(),
            WorkAreaQueryView::Failing { probe } => probe.pending(),
            WorkAreaQueryView::Finished { .. } => None,
        }
    }

    /// Whether `reply` answers the call that the query waits on. The state
    /// of a device that is part of the desktop is an answer only if width
    /// and height of the monitor's work box are `i32` values.
    pub open spec fn accepts(self, reply: Reply) -> bool {
        match self {
            WorkAreaQueryView::Enumerating { .. } => reply is MonitorFound
                || reply is EnumerationEnded,
            WorkAreaQueryView::Looking { .. } => reply is MonitorInfo,
            WorkAreaQueryView::Checking { info, .. } => reply matches Reply::DisplayDevice {
                result,
                state_flags,
            } && (result != 0 && attached(state_flags) ==> info.work.spans_fit()),
            WorkAreaQueryView::LookupFailing { probe, .. } => probe.accepts(reply),
            WorkAreaQueryView::Failing { probe } => probe.accepts(reply),
            WorkAreaQueryView::Finished { .. } => false,
        }
    }

    /// The query after a reply that it accepts. A lookup that fails puts
    /// its error behind the entries so far, a monitor of the desktop its
    /// work area, any other monitor nothing; the enumeration goes on in each
    /// case. Only the failure of the enumeration itself makes the query
    /// fail.
    pub open spec fn advance(self, reply: Reply) -> WorkAreaQueryView {
        match (self, reply) {
            (WorkAreaQueryView::Enumerating { results, .. }, Reply::MonitorFound { monitor }) => {
                WorkAreaQueryView::Looking { results, monitor }
            },
            (
                WorkAreaQueryView::Enumerating { results, .. },
                Reply::EnumerationEnded { result },
            ) => {
                if result == 0 {
                    WorkAreaQueryView::Failing { probe: ProbeView::start() }
                } else {
                    WorkAreaQueryView::Finished { outcome: Ok(results) }
                }
            },
            (WorkAreaQueryView::Looking { results, .. }, Reply::MonitorInfo { result, info }) => {
                if result == 0 {
                    WorkAreaQueryView::LookupFailing { results, probe: ProbeView::start() }
                } else {
                    WorkAreaQueryView::Checking { results, info }
                }
            },
            (
                WorkAreaQueryView::Checking { results, info },
                Reply::DisplayDevice { result, state_flags },
            ) => {
                if result == 0 {
                    WorkAreaQueryView::LookupFailing { results, probe: ProbeView::start() }
                } else if attached(state_flags) {
                    WorkAreaQueryView::Enumerating {
                        results: results.push(Ok(WorkArea::of(info.work))),
                        started: true,
                    }
                } else {
                    WorkAreaQueryView::Enumerating { results, started: true }
                }
            },
            (WorkAreaQueryView::LookupFailing { results, probe }, reply) => {
                let probe = probe.next(reply);
                if probe.done() {
                    WorkAreaQueryView::Enumerating {
                        results: results.push(Err(expected(probe.found))),
                        started: true,
                    }
                } else {
                    WorkAreaQueryView::LookupFailing { results, probe }
                }
            },
            (WorkAreaQueryView::Failing { probe }, reply) => {
                let probe = probe.next(reply);
                if probe.done() {
                    WorkAreaQueryView::Finished { outcome: Err(expected(probe.found)) }
                } else {
                    WorkAreaQueryView::Failing { probe }
                }
            },
            _ => self,
        }
    }

    /// The query after `reply`: unchanged where it does not accept it.
    pub open spec fn next(self, reply: Reply) -> WorkAreaQueryView {
        if self.accepts(reply) {
            self.advance(reply)
        } else {
            self
        }
    }
}

/// Begins a query of the work areas of the display monitors.
pub fn get_work_areas() -> (query: WorkAreaQuery)
    ensures
        query@ == WorkAreaQueryView::start(),
{
    let results: Vec<Result<WorkArea, Error>> = Vec::new();
    proof {
        assert(areas_view(results@) =~= Seq::empty());
    }
    WorkAreaQuery::Enumerating { results, started: false }
}

impl WorkAreaQuery {
    /// The call that the query waits on; none once it is over.
    pub fn request(&self) -> (request: Option<Request>)
        ensures
            request_view(request) == self@.pending(),
    {
        match self {
            WorkAreaQuery::Enumerating { started, .. } => if *started {
                Some(Request::NextMonitor)
            } else {
                Some(Request::EnumerateMonitors)
            },
            WorkAreaQuery::Looking { monitor, .. } => Some(
                Request::MonitorInfo { monitor: *monitor },
            ),
            WorkAreaQuery::Checking { info, .. } => Some(
                Request::DisplayDevice { device: copy_units(&info.device) },
            ),
            WorkAreaQuery::LookupFailing { probe, .. } => probe.request(),
            WorkAreaQuery::Failing { probe } => probe.request(),
            WorkAreaQuery::Finished { .. } => None,
        }
    }

    /// Whether `reply` answers the call that the query waits on.
    pub fn accepts(&self, reply: &Reply) -> (accepted: bool)
        ensures
            accepted == self@.accepts(*reply),
    {
        match self {
            WorkAreaQuery::Enumerating { .. } => matches!(
                reply,
                Reply::MonitorFound { .. } | Reply::EnumerationEnded { .. }
            ),
            WorkAreaQuery::Looking { .. } => matches!(reply, Reply::MonitorInfo { .. }),
            WorkAreaQuery::Checking { info, .. } => match reply {
                Reply::DisplayDevice { result, state_flags } => {
                    *result == 0 || !is_attached(*state_flags) || info.work.fits()
                },
                _ => false,
            },
            WorkAreaQuery::LookupFailing { probe, .. } => probe.accepts(reply),
            WorkAreaQuery::Failing { probe } => probe.accepts(reply),
            WorkAreaQuery::Finished { .. } => false,
        }
    }

    /// Takes the platform's reply. A reply that does not answer the pending
    /// call leaves the query as it is.
    pub fn resume(self, reply: Reply) -> (next: WorkAreaQuery)
        ensures
            next@ == self@.next(reply),
    {
        if !self.accepts(&reply) {
            return self;
        }
        match (self, reply) {
            (WorkAreaQuery::Enumerating { results, .. }, Reply::MonitorFound { monitor }) => {
                WorkAreaQuery::Looking { results, monitor }
            },
            (WorkAreaQuery::Enumerating { results, .. }, Reply::EnumerationEnded { result }) => {
                if result == 0 {
                    WorkAreaQuery::Failing { probe: Error::maybe_winapi_error() }
                } else {
                    WorkAreaQuery::Finished { outcome: Ok(results) }
                }
            },
            (WorkAreaQuery::Looking { results, .. }, Reply::MonitorInfo { result, info }) => {
                if result == 0 {
                    WorkAreaQuery::LookupFailing { results, probe: Error::maybe_winapi_error() }
                } else {
                    WorkAreaQuery::Checking { results, info }
                }
            },
            (
                WorkAreaQuery::Checking { results, info },
                Reply::DisplayDevice { result, state_flags },
            ) => {
                if result == 0 {
                    WorkAreaQuery::LookupFailing { results, probe: Error::maybe_winapi_error() }
                } else if is_attached(state_flags) {
                    let mut results = results;
                    let entry: Result<WorkArea, Error> = Ok(WorkArea::from_rect(&info.work));
                    proof {
                        lemma_areas_push(results@, entry);
                    }
                    results.push(entry);
                    WorkAreaQuery::Enumerating { results, started: true }
                } else {
                    WorkAreaQuery::Enumerating { results, started: true }
                }
            },
            (WorkAreaQuery::LookupFailing { results, probe }, reply) => {
                let probe = probe.resume(reply);
                if probe.done() {
                    let mut results = results;
                    let entry: Result<WorkArea, Error> = Err(
                        Error::expect_winapi_error(probe.into_found()),
                    );
                    proof {
                        lemma_areas_push(results@, entry);
                    }
                    results.push(entry);
                    WorkAreaQuery::Enumerating { results, started: true }
                } else {
                    WorkAreaQuery::LookupFailing { results, probe }
                }
            },
            (WorkAreaQuery::Failing { probe }, reply) => {
                let probe = probe.resume(reply);
                if probe.done() {
                    WorkAreaQuery::Finished {
                        outcome: Err(Error::expect_winapi_error(probe.into_found())),
                    }
                } else {
                    WorkAreaQuery::Failing { probe }
                }
            },
            (query, _) => query,
        }
    }
}

} // verus!
