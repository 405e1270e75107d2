//! The query of the work area of the desktop.

use crate::error::{expected, Error, ErrorProbe, ErrorView, ProbeView};
use crate::platform::{request_view, Rect, Reply, Request, RequestView};
use vstd::prelude::*;

verus! {

/// The size of the part of the desktop that is free for windows.
#[derive(Clone, Copy, Debug, PartialEq, Eq)]
pub struct DesktopWorkArea {
    pub width: i32,
    pub height: i32,
}

impl DesktopWorkArea {
    /// The size of a bounding box: the distances between its edges.
    pub open spec fn of(rect: Rect) -> DesktopWorkArea {
        DesktopWorkArea {
            width: (rect.right - rect.left) as i32,
            height: (rect.bottom - rect.top) as i32,
        }
    }

    /// The size of a bounding box.
    pub fn from_rect(rect: &Rect) -> (area: DesktopWorkArea)
        requires
            rect.spans_fit(),
        ensures
            area == DesktopWorkArea::of(*rect),
            area.width == rect.right - rect.left,
            area.height == rect.bottom - rect.top,
    {
        DesktopWorkArea { width: rect.right - rect.left, height: rect.bottom - rect.top }
    }
}

/// The model of what the query ends with.
pub open spec fn desktop_outcome_view(outcome: Result<DesktopWorkArea, Error>) -> Result<
    DesktopWorkArea,
    ErrorView,
> {
    match outcome {
        Ok(area) => Ok(area),
        Err(error) => Err(error@),
    }
}

/// A query of the desktop's work area under way.
#[derive(Debug, PartialEq, Eq)]
pub enum DesktopQuery {
    /// Waiting for the work box.
    Reading,
    /// The platform did not give the work box: reading its diagnostic.
    Failing { probe: ErrorProbe },
    /// Over.
    Finished { outcome: Result<DesktopWorkArea, Error> },
}

/// The model of a [`DesktopQuery`].
pub enum DesktopQueryView {
    Reading,
    Failing { probe: ProbeView },
    Finished { outcome: Result<DesktopWorkArea, ErrorView> },
}

impl View for DesktopQuery {
    type V = DesktopQueryView;

    open spec fn view(&self) -> DesktopQueryView {
        match *self {
            DesktopQuery::Reading => DesktopQueryView::Reading,
            DesktopQuery::Failing { probe } => DesktopQueryView::Failing { probe: probe@ },
            DesktopQuery::Finished { outcome } => DesktopQueryView::Finished {
                outcome: desktop_outcome_view(outcome),
            },
        }
    }
}

impl DesktopQueryView {
    /// The call that the query waits on.
    pub open spec fn pending(self) -> Option<RequestView> {
        match self {
            DesktopQueryView::Reading => Some(RequestView::DesktopWorkArea),
            DesktopQueryView::Failing { probe } => probe.pending(),
            DesktopQueryView::Finished { .. } => None,
        }
    }

    /// Whether `reply` answers the call that the query waits on. A work box
    /// is an answer only if its width and height are `i32` values.
    pub open spec fn accepts(self, reply: Reply) -> bool {
        match self {
            DesktopQueryView::Reading => reply matches Reply::DesktopWorkArea { result, rect }
                && (result != 0 ==> rect.spans_fit()),
            DesktopQueryView::Failing { probe } => probe.accepts(reply),
            DesktopQueryView::Finished { .. } => false,
        }
    }

    /// The query after a reply that it accepts.
    pub open spec fn advance(self, reply: Reply) -> DesktopQueryView {
        match (self, reply) {
            (DesktopQueryView::Reading, Reply::DesktopWorkArea { result, rect }) => {
                if result == 0 {
                    DesktopQueryView::Failing { probe: ProbeView::start() }
                } else {
                    DesktopQueryView::Finished { outcome: Ok(DesktopWorkArea::of(rect)) }
                }
            },
            (DesktopQueryView::Failing { probe }, reply) => {
                let probe = probe.next(reply);
                if probe.done() {
                    DesktopQueryView::Finished { outcome: Err(expected(probe.found)) }
                } else {
                    DesktopQueryView::Failing { probe }
                }
            },
            _ => self,
        }
    }

    /// The query after `reply`: unchanged where it does not accept it.
    pub open spec fn next(self, reply: Reply) -> DesktopQueryView {
        if self.accepts(reply) {
            self.advance(reply)
        } else {
            self
        }
    }
}

/// Begins a query of the work area of the desktop.
pub fn get_desktop_work_area() -> (query: DesktopQuery)
    ensures
        query@ == DesktopQueryView::Reading,
{
    DesktopQuery::Reading
}

impl DesktopQuery {
    /// The call that the query waits on; none once it is over.
    pub fn request(&self) -> (request: Option<Request>)
        ensures
            request_view(request) == self@.pending(),
    {
        match self {
            DesktopQuery::Reading => Some(Request::DesktopWorkArea),
            DesktopQuery::Failing { probe } => probe.request(),
            DesktopQuery::Finished { .. } => None,
        }
    }

    /// Whether `reply` answers the call that the query waits on.
    pub fn accepts(&self, reply: &Reply) -> (accepted: bool)
        ensures
            accepted == self@.accepts(*reply),
    {
        match self {
            DesktopQuery::Reading => match reply {
                Reply::DesktopWorkArea { result, rect } => *result == 0 || rect.fits(),
                _ => false,
            },
            DesktopQuery::Failing { probe } => probe.accepts(reply),
            DesktopQuery::Finished { .. } => false,
        }
    }

    /// Takes the platform's reply. A reply that does not answer the pending
    /// call leaves the query as it is.
    pub fn resume(self, reply: Reply) -> (next: DesktopQuery)
        ensures
            next@ == self@.next(reply),
    {
        if !self.accepts(&reply) {
            return self;
        }
        match (self, reply) {
            (DesktopQuery::Reading, Reply::DesktopWorkArea { result, rect }) => {
                if result == 0 {
                    DesktopQuery::Failing { probe: Error::maybe_winapi_error() }
                } else {
                    DesktopQuery::Finished { outcome: Ok(DesktopWorkArea::from_rect(&rect)) }
                }
            },
            (DesktopQuery::Failing { probe }, reply) => {
                let probe = probe.resume(reply);
                if probe.done() {
                    DesktopQuery::Finished {
                        outcome: Err(Error::expect_winapi_error(probe.into_found())),
                    }
                } else {
                    DesktopQuery::Failing { probe }
                }
            },
            (query, _) => query,
        }
    }
}

} // verus!
