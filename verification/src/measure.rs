//! The measurement of the client area that a window gets when it is laid
//! over a given rectangle.

use crate::error::{expected, Error, ErrorProbe, ErrorView, ProbeView};
use crate::monitor::MonitorArea;
use crate::platform::{request_view, Rect, Reply, Request, RequestView};
use crate::window::{wide, Window, WindowBuilder, WindowClass};
use vstd::prelude::*;

verus! {

/// The name of the window class of a measurement.
pub open spec fn class_name() -> Seq<char> {
    "desktop-work-area-wc"@
}

/// The title of the window of a measurement.
pub open spec fn window_title() -> Seq<char> {
    "desktop-work-area"@
}

/// The platform resources that a measurement holds. A window is held
/// together with its class only.
#[derive(Debug, PartialEq, Eq)]
pub enum Held {
    Nothing,
    Class(WindowClass),
    Window(WindowClass, Window),
}

/// The model of [`Held`]: the name of the class, the handle of the window.
pub enum HeldView {
    Nothing,
    Class(Seq<u16>),
    Window(Seq<u16>, usize),
}

impl HeldView {
    /// Whether a registered class is held.
    pub open spec fn class(self) -> bool {
        !(self is Nothing)
    }

    /// Whether a live window is held.
    pub open spec fn window(self) -> bool {
        self is Window
    }
}

impl View for Held {
    type V = HeldView;

    open spec fn view(&self) -> HeldView {
        match *self {
            Held::Nothing => HeldView::Nothing,
            Held::Class(class) => HeldView::Class(class@),
            Held::Window(class, window) => HeldView::Window(class@, window@),
        }
    }
}

/// The model of what a measurement ends with.
pub open spec fn outcome_view(outcome: Result<MonitorArea, Error>) -> Result<
    MonitorArea,
    ErrorView,
> {
    match outcome {
        Ok(area) => Ok(area),
        Err(error) => Err(error@),
    }
}

/// A measurement under way: where it stands, and what it holds there.
///
/// A measurement registers a window class, creates a window of it over the
/// target, reads the client box of the window, and then retrieves and
/// dispatches the messages of the thread until the quit message comes. At
/// its end it destroys the window and then removes the class, whether it
/// ends with the client area or with the error of a call that failed. The
/// error of a failed call is read from the platform before anything else is
/// asked of it.
#[derive(Debug, PartialEq, Eq)]
pub enum Measurement {
    /// Waiting for the class to be registered.
    Registering { target: MonitorArea },
    /// Waiting for the window to be created.
    Creating { target: MonitorArea, class: WindowClass },
    /// Waiting for the client box of the window.
    Reading { class: WindowClass, window: Window },
    /// Waiting for the next message.
    Pumping { class: WindowClass, window: Window, client_area: MonitorArea },
    /// Waiting for a message to be dispatched.
    Dispatching { class: WindowClass, window: Window, client_area: MonitorArea },
    /// A call failed: reading its diagnostic.
    Failing { held: Held, probe: ErrorProbe },
    /// Waiting for the window to be destroyed.
    DestroyingWindow { class: WindowClass, window: Window, outcome: Result<MonitorArea, Error> },
    /// Waiting for the class to be unregistered.
    UnregisteringClass { class: WindowClass, outcome: Result<MonitorArea, Error> },
    /// A resource could not be released: reading the diagnostic.
    Aborting { held: Held, probe: ErrorProbe },
    /// Done, with everything released.
    Finished { outcome: Result<MonitorArea, Error> },
    /// A resource could not be released. Nothing can go on from here.
    Aborted { held: Held, error: Error },
}

/// The model of a [`Measurement`].
pub enum MeasurementView {
    Registering { target: MonitorArea },
    Creating { target: MonitorArea, class: Seq<u16> },
    Reading { class: Seq<u16>, window: usize },
    Pumping { class: Seq<u16>, window: usize, client_area: MonitorArea },
    Dispatching { class: Seq<u16>, window: usize, client_area: MonitorArea },
    Failing { held: HeldView, probe: ProbeView },
    DestroyingWindow { class: Seq<u16>, window: usize, outcome: Result<MonitorArea, ErrorView> },
    UnregisteringClass { class: Seq<u16>, outcome: Result<MonitorArea, ErrorView> },
    Aborting { held: HeldView, probe: ProbeView },
    Finished { outcome: Result<MonitorArea, ErrorView> },
    Aborted { held: HeldView, error: ErrorView },
}

impl View for Measurement {
    type V = MeasurementView;

    open spec fn view(&self) -> MeasurementView {
        match *self {
            Measurement::Registering { target } => MeasurementView::Registering { target },
            Measurement::Creating { target, class } => MeasurementView::Creating {
                target,
                class: class@,
            },
            Measurement::Reading { class, window } => MeasurementView::Reading {
                class: class@,
                window: window@,
            },
            Measurement::Pumping { class, window, client_area } => MeasurementView::Pumping {
                class: class@,
                window: window@,
                client_area,
            },
            Measurement::Dispatching { class, window, client_area } => {
                MeasurementView::Dispatching { class: class@, window: window@, client_area }
            },
            Measurement::Failing { held, probe } => MeasurementView::Failing {
                held: held@,
                probe: probe@,
            },
            Measurement::DestroyingWindow { class, window, outcome } => {
                MeasurementView::DestroyingWindow {
                    class: class@,
                    window: window@,
                    outcome: outcome_view(outcome),
                }
            },
            Measurement::UnregisteringClass { class, outcome } => {
                MeasurementView::UnregisteringClass {
                    class: class@,
                    outcome: outcome_view(outcome),
                }
            },
            Measurement::Aborting { held, probe } => MeasurementView::Aborting {
                held: held@,
                probe: probe@,
            },
            Measurement::Finished { outcome } => MeasurementView::Finished {
                outcome: outcome_view(outcome),
            },
            Measurement::Aborted { held, error } => MeasurementView::Aborted {
                held: held@,
                error: error@,
            },
        }
    }
}

impl MeasurementView {
    /// A measurement of `target` that has asked nothing yet.
    pub open spec fn start(target: MonitorArea) -> MeasurementView {
        MeasurementView::Registering { target }
    }

    /// The resources that the measurement holds.
    pub open spec fn held(self) -> HeldView {
        match self {
            MeasurementView::Registering { .. } => HeldView::Nothing,
            MeasurementView::Creating { class, .. } => HeldView::Class(class),
            MeasurementView::Reading { class, window } => HeldView::Window(class, window),
            MeasurementView::Pumping { class, window, .. } => HeldView::Window(class, window),
            MeasurementView::Dispatching { class, window, .. } => HeldView::Window(class, window),
            MeasurementView::Failing { held, .. } => held,
            MeasurementView::DestroyingWindow { class, window, .. } => HeldView::Window(
                class,
                window,
            ),
            MeasurementView::UnregisteringClass { class, .. } => HeldView::Class(class),
            MeasurementView::Aborting { held, .. } => held,
            MeasurementView::Finished { .. } => HeldView::Nothing,
            MeasurementView::Aborted { held, .. } => held,
        }
    }

    /// What the measurement is to end with, once it gives up what it holds:
    /// the client area read, or the error of the call that failed.
    pub open spec fn settled(self) -> Option<Result<MonitorArea, ErrorView>> {
        match self {
            MeasurementView::DestroyingWindow { outcome, .. } => Some(outcome),
            MeasurementView::UnregisteringClass { outcome, .. } => Some(outcome),
            MeasurementView::Finished { outcome } => Some(outcome),
            _ => None,
        }
    }

    /// Gives up what is held, the window before its class, and ends with
    /// `outcome`.
    pub open spec fn release(
        held: HeldView,
        outcome: Result<MonitorArea, ErrorView>,
    ) -> MeasurementView {
        match held {
            HeldView::Window(class, window) => MeasurementView::DestroyingWindow {
                class,
                window,
                outcome,
            },
            HeldView::Class(class) => MeasurementView::UnregisteringClass { class, outcome },
            HeldView::Nothing => MeasurementView::Finished { outcome },
        }
    }

    /// The call that the measurement waits on.
    pub open spec fn pending(self) -> Option<RequestView> {
        match self {
            MeasurementView::Registering { .. } => Some(
                RequestView::RegisterClass { name: wide(class_name()) },
            ),
            MeasurementView::Creating { target, class } => Some(
                RequestView::CreateWindow {
                    class,
                    title: wide(window_title()),
                    style: 0x00C70000,
                    x: target.x,
                    y: target.y,
                    width: target.width,
                    height: target.height,
                },
            ),
            MeasurementView::Reading { window, .. } => Some(RequestView::ClientRect { window }),
            MeasurementView::Pumping { .. } => Some(RequestView::NextMessage),
            MeasurementView::Dispatching { .. } => Some(RequestView::DispatchMessage),
            MeasurementView::Failing { probe, .. } => probe.pending(),
            MeasurementView::DestroyingWindow { window, .. } => Some(
                RequestView::DestroyWindow { window },
            ),
            MeasurementView::UnregisteringClass { class, .. } => Some(
                RequestView::UnregisterClass { name: class },
            ),
            MeasurementView::Aborting { probe, .. } => probe.pending(),
            MeasurementView::Finished { .. } => None,
            MeasurementView::Aborted { .. } => None,
        }
    }

    /// Whether `reply` answers the call that the measurement waits on. A
    /// client box is an answer only if its width and height are `i32`
    /// values.
    pub open spec fn accepts(self, reply: Reply) -> bool {
        match self {
            MeasurementView::Registering { .. } => reply is ClassRegistered,
            MeasurementView::Creating { .. } => reply is WindowCreated,
            MeasurementView::Reading { .. } => reply matches Reply::ClientRect { result, rect }
                && (result != 0 ==> rect.spans_fit()),
            MeasurementView::Pumping { .. } => reply is Message,
            MeasurementView::Dispatching { .. } => reply is MessageDispatched,
            MeasurementView::Failing { probe, .. } => probe.accepts(reply),
            MeasurementView::DestroyingWindow { .. } => reply is WindowDestroyed,
            MeasurementView::UnregisteringClass { .. } => reply is ClassUnregistered,
            MeasurementView::Aborting { probe, .. } => probe.accepts(reply),
            MeasurementView::Finished { .. } => false,
            MeasurementView::Aborted { .. } => false,
        }
    }

    /// The measurement after a reply that it accepts.
    pub open spec fn advance(self, reply: Reply) -> MeasurementView {
        match (self, reply) {
            (MeasurementView::Registering { target }, Reply::ClassRegistered { atom }) => {
                if atom == 0 {
                    MeasurementView::Failing { held: HeldView::Nothing, probe: ProbeView::start() }
                } else {
                    MeasurementView::Creating { target, class: wide(class_name()) }
                }
            },
            (MeasurementView::Creating { target, class }, Reply::WindowCreated { window }) => {
                if window == 0 {
                    MeasurementView::Failing {
                        held: HeldView::Class(class),
                        probe: ProbeView::start(),
                    }
                } else {
                    MeasurementView::Reading { class, window }
                }
            },
            (MeasurementView::Reading { class, window }, Reply::ClientRect { result, rect }) => {
                if result == 0 {
                    MeasurementView::Failing {
                        held: HeldView::Window(class, window),
                        probe: ProbeView::start(),
                    }
                } else {
                    MeasurementView::Pumping {
                        class,
                        window,
                        client_area: MonitorArea::of(rect),
                    }
                }
            },
            (
                MeasurementView::Pumping { class, window, client_area },
                Reply::Message { result },
            ) => {
                if result == -1 {
                    MeasurementView::Failing {
                        held: HeldView::Window(class, window),
                        probe: ProbeView::start(),
                    }
                } else if result == 0 {
                    MeasurementView::release(HeldView::Window(class, window), Ok(client_area))
                } else {
                    MeasurementView::Dispatching { class, window, client_area }
                }
            },
            (
                MeasurementView::Dispatching { class, window, client_area },
                Reply::MessageDispatched,
            ) => MeasurementView::Pumping { class, window, client_area },
            (MeasurementView::Failing { held, probe }, reply) => {
                let probe = probe.next(reply);
                if probe.done() {
                    MeasurementView::release(held, Err(expected(probe.found)))
                } else {
                    MeasurementView::Failing { held, probe }
                }
            },
            (
                MeasurementView::DestroyingWindow { class, window, outcome },
                Reply::WindowDestroyed { result },
            ) => {
                if result == 0 {
                    MeasurementView::Aborting {
                        held: HeldView::Window(class, window),
                        probe: ProbeView::start(),
                    }
                } else {
                    MeasurementView::release(HeldView::Class(class), outcome)
                }
            },
            (
                MeasurementView::UnregisteringClass { class, outcome },
                Reply::ClassUnregistered { result },
            ) => {
                if result == 0 {
                    MeasurementView::Aborting {
                        held: HeldView::Class(class),
                        probe: ProbeView::start(),
                    }
                } else {
                    MeasurementView::release(HeldView::Nothing, outcome)
                }
            },
            (MeasurementView::Aborting { held, probe }, reply) => {
                let probe = probe.next(reply);
                if probe.done() {
                    MeasurementView::Aborted { held, error: expected(probe.found) }
                } else {
                    MeasurementView::Aborting { held, probe }
                }
            },
            _ => self,
        }
    }

    /// The measurement after `reply`: unchanged where it does not accept it.
    pub open spec fn next(self, reply: Reply) -> MeasurementView {
        if self.accepts(reply) {
            self.advance(reply)
        } else {
            self
        }
    }
}

/// Begins to measure the client area of a window laid over `work_area`.
pub fn query_client_area(work_area: &MonitorArea) -> (measurement: Measurement)
    ensures
        measurement@ == MeasurementView::start(*work_area),
{
    Measurement::Registering { target: *work_area }
}

fn release(held: Held, outcome: Result<MonitorArea, Error>) -> (measurement: Measurement)
    ensures
        measurement@ == MeasurementView::release(held@, outcome_view(outcome)),
{
    match held {
        Held::Window(class, window) => Measurement::DestroyingWindow { class, window, outcome },
        Held::Class(class) => Measurement::UnregisteringClass { class, outcome },
        Held::Nothing => Measurement::Finished { outcome },
    }
}

fn builder<'a>(target: &MonitorArea, class: &'a WindowClass) -> (builder: WindowBuilder<'a>)
    ensures
        builder.request_model() == (RequestView::CreateWindow {
            class: class@,
            title: wide(window_title()),
            style: 0x00C70000,
            x: target.x,
            y: target.y,
            width: target.width,
            height: target.height,
        }),
{
    WindowBuilder::new(class).with_title("desktop-work-area").with_pos(
        target.x,
        target.y,
    ).with_size(target.width, target.height)
}

impl Measurement {
    /// The call that the measurement waits on; none once it is over.
    pub fn request(&self) -> (request: Option<Request>)
        ensures
            request_view(request) == self@.pending(),
    {
        match self {
            Measurement::Registering { .. } => Some(
                WindowClass::registration("desktop-work-area-wc"),
            ),
            Measurement::Creating { target, class } => Some(builder(target, class).request()),
            Measurement::Reading { window, .. } => Some(window.client_rect()),
            Measurement::Pumping { .. } => Some(Request::NextMessage),
            Measurement::Dispatching { .. } => Some(Request::DispatchMessage),
            Measurement::Failing { probe, .. } => probe.request(),
            Measurement::DestroyingWindow { window, .. } => Some(window.destruction()),
            Measurement::UnregisteringClass { class, .. } => Some(class.removal()),
            Measurement::Aborting { probe, .. } => probe.request(),
            Measurement::Finished { .. } => None,
            Measurement::Aborted { .. } => None,
        }
    }

    /// Whether `reply` answers the call that the measurement waits on.
    pub fn accepts(&self, reply: &Reply) -> (accepted: bool)
        ensures
            accepted == self@.accepts(*reply),
    {
        match self {
            Measurement::Registering { .. } => matches!(reply, Reply::ClassRegistered { .. }),
            Measurement::Creating { .. } => matches!(reply, Reply::WindowCreated { .. }),
            Measurement::Reading { .. } => match reply {
                Reply::ClientRect { result, rect } => *result == 0 || rect.fits(),
                _ => false,
            },
            Measurement::Pumping { .. } => matches!(reply, Reply::Message { .. }),
            Measurement::Dispatching { .. } => matches!(reply, Reply::MessageDispatched),
            Measurement::Failing { probe, .. } => probe.accepts(reply),
            Measurement::DestroyingWindow { .. } => matches!(reply, Reply::WindowDestroyed { .. }),
            Measurement::UnregisteringClass { .. } => matches!(
                reply,
                Reply::ClassUnregistered { .. }
            ),
            Measurement::Aborting { probe, .. } => probe.accepts(reply),
            Measurement::Finished { .. } => false,
            Measurement::Aborted { .. } => false,
        }
    }

    /// Takes the platform's reply. A reply that does not answer the pending
    /// call leaves the measurement as it is.
    pub fn resume(self, reply: Reply) -> (next: Measurement)
        ensures
            next@ == self@.next(reply),
    {
        if !self.accepts(&reply) {
            return self;
        }
        match (self, reply) {
            (Measurement::Registering { target }, Reply::ClassRegistered { atom }) => {
                match WindowClass::new("desktop-work-area-wc", atom) {
                    Some(class) => Measurement::Creating { target, class },
                    None => Measurement::Failing {
                        held: Held::Nothing,
                        probe: Error::maybe_winapi_error(),
                    },
                }
            },
            (Measurement::Creating { target, class }, Reply::WindowCreated { window }) => {
                match builder(&target, &class).build(window) {
                    Some(window) => Measurement::Reading { class, window },
                    None => Measurement::Failing {
                        held: Held::Class(class),
                        probe: Error::maybe_winapi_error(),
                    },
                }
            },
            (Measurement::Reading { class, window }, Reply::ClientRect { result, rect }) => {
                if result == 0 {
                    Measurement::Failing {
                        held: Held::Window(class, window),
                        probe: Error::maybe_winapi_error(),
                    }
                } else {
                    Measurement::Pumping {
                        class,
                        window,
                        client_area: MonitorArea::from_rect(&rect),
                    }
                }
            },
            (Measurement::Pumping { class, window, client_area }, Reply::Message { result }) => {
                if result == -1 {
                    Measurement::Failing {
                        held: Held::Window(class, window),
                        probe: Error::maybe_winapi_error(),
                    }
                } else if result == 0 {
                    release(Held::Window(class, window), Ok(client_area))
                } else {
                    Measurement::Dispatching { class, window, client_area }
                }
            },
            (
                Measurement::Dispatching { class, window, client_area },
                Reply::MessageDispatched,
            ) => Measurement::Pumping { class, window, client_area },
            (Measurement::Failing { held, probe }, reply) => {
                let probe = probe.resume(reply);
                if probe.done() {
                    release(held, Err(Error::expect_winapi_error(probe.into_found())))
                } else {
                    Measurement::Failing { held, probe }
                }
            },
            (
                Measurement::DestroyingWindow { class, window, outcome },
                Reply::WindowDestroyed { result },
            ) => {
                if result == 0 {
                    Measurement::Aborting {
                        held: Held::Window(class, window),
                        probe: Error::maybe_winapi_error(),
                    }
                } else {
                    window.destroy_window(result);
                    release(Held::Class(class), outcome)
                }
            },
            (
                Measurement::UnregisteringClass { class, outcome },
                Reply::ClassUnregistered { result },
            ) => {
                if result == 0 {
                    Measurement::Aborting {
                        held: Held::Class(class),
                        probe: Error::maybe_winapi_error(),
                    }
                } else {
                    class.unregister(result);
                    release(Held::Nothing, outcome)
                }
            },
            (Measurement::Aborting { held, probe }, reply) => {
                let probe = probe.resume(reply);
                if probe.done() {
                    Measurement::Aborted {
                        held,
                        error: Error::expect_winapi_error(probe.into_found()),
                    }
                } else {
                    Measurement::Aborting { held, probe }
                }
            },
            (measurement, _) => measurement,
        }
    }
}

/// One or zero, for counting.
pub open spec fn count(yes: bool) -> nat {
    if yes {
        1
    } else {
        0
    }
}

impl MeasurementView {
    /// Whether `reply` tells the measurement that its class is registered.
    pub open spec fn registers(self, reply: Reply) -> bool {
        self is Registering && (reply matches Reply::ClassRegistered { atom } && atom != 0)
    }

    /// Whether `reply` tells the measurement that its class is removed.
    pub open spec fn unregisters(self, reply: Reply) -> bool {
        self is UnregisteringClass && (reply matches Reply::ClassUnregistered { result }
            && result != 0)
    }

    /// Whether `reply` tells the measurement that its window is created.
    pub open spec fn creates(self, reply: Reply) -> bool {
        self is Creating && (reply matches Reply::WindowCreated { window } && window != 0)
    }

    /// Whether `reply` tells the measurement that its window is destroyed.
    pub open spec fn destroys(self, reply: Reply) -> bool {
        self is DestroyingWindow && (reply matches Reply::WindowDestroyed { result } && result
            != 0)
    }

    /// The measurement after the replies, taken in their order.
    pub open spec fn run(self, replies: Seq<Reply>) -> MeasurementView
        decreases replies.len(),
    {
        if replies.len() == 0 {
            self
        } else {
            self.next(replies[0]).run(replies.drop_first())
        }
    }

    /// How many classes the platform registered in the course of the
    /// replies.
    pub open spec fn registrations(self, replies: Seq<Reply>) -> nat
        decreases replies.len(),
    {
        if replies.len() == 0 {
            0
        } else {
            count(self.registers(replies[0])) + self.next(replies[0]).registrations(
                replies.drop_first(),
            )
        }
    }

    /// How many classes the platform removed in the course of the replies.
    pub open spec fn removals(self, replies: Seq<Reply>) -> nat
        decreases replies.len(),
    {
        if replies.len() == 0 {
            0
        } else {
            count(self.unregisters(replies[0])) + self.next(replies[0]).removals(
                replies.drop_first(),
            )
        }
    }

    /// How many windows the platform created in the course of the replies.
    pub open spec fn creations(self, replies: Seq<Reply>) -> nat
        decreases replies.len(),
    {
        if replies.len() == 0 {
            0
        } else {
            count(self.creates(replies[0])) + self.next(replies[0]).creations(
                replies.drop_first(),
            )
        }
    }

    /// How many windows the platform destroyed in the course of the
    /// replies.
    pub open spec fn destructions(self, replies: Seq<Reply>) -> nat
        decreases replies.len(),
    {
        if replies.len() == 0 {
            0
        } else {
            count(self.destroys(replies[0])) + self.next(replies[0]).destructions(
                replies.drop_first(),
            )
        }
    }
}

/// What a measurement holds changes with the platform's word only: a class
/// is held from the reply that registers it to the reply that removes it, a
/// window from the reply that creates it to the reply that destroys it. A
/// window is created while its class is held; a class is removed when no
/// window is held. A measurement that is finished holds nothing.
pub proof fn lemma_resources_step(m: MeasurementView, reply: Reply)
    ensures
        count(m.next(reply).held().class()) + count(m.unregisters(reply)) == count(
            m.held().class(),
        ) + count(m.registers(reply)),
        count(m.next(reply).held().window()) + count(m.destroys(reply)) == count(
            m.held().window(),
        ) + count(m.creates(reply)),
        m.registers(reply) ==> !m.held().class(),
        m.creates(reply) ==> m.held().class() && !m.held().window(),
        m.destroys(reply) ==> m.held().window(),
        m.unregisters(reply) ==> m.held().class() && !m.held().window(),
        m.next(reply).held().window() ==> m.next(reply).held().class(),
        m.next(reply) is Finished ==> m.next(reply).held() is Nothing,
{
}

/// Over any replies, the classes registered and the one held at first are
/// the classes removed and the one held at last; and so for the windows.
pub proof fn lemma_resources_balance(m: MeasurementView, replies: Seq<Reply>)
    ensures
        count(m.held().class()) + m.registrations(replies) == m.removals(replies) + count(
            m.run(replies).held().class(),
        ),
        count(m.held().window()) + m.creations(replies) == m.destructions(replies) + count(
            m.run(replies).held().window(),
        ),
    decreases replies.len(),
{
    if replies.len() != 0 {
        lemma_resources_step(m, replies[0]);
        lemma_resources_balance(m.next(replies[0]), replies.drop_first());
    }
}

/// A measurement that has finished, whatever the platform replied on the
/// way and whatever it ends with, has had every class that was registered for
/// it removed, and every window that was created for it destroyed.
pub proof fn lemma_finished_measurement_holds_nothing(
    target: MonitorArea,
    replies: Seq<Reply>,
)
    requires
        MeasurementView::start(target).run(replies) is Finished,
    ensures
        MeasurementView::start(target).registrations(replies) == MeasurementView::start(
            target,
        ).removals(replies),
        MeasurementView::start(target).creations(replies) == MeasurementView::start(
            target,
        ).destructions(replies),
{
    lemma_resources_balance(MeasurementView::start(target), replies);
}

/// Once a measurement gives up what it holds, what it ends with is
/// decided: the replies on the way to the end do not change it. The one way
/// out is that the platform refuses to release a resource, which ends in no
/// outcome at all.
pub proof fn lemma_release_keeps_outcome(
    m: MeasurementView,
    outcome: Result<MonitorArea, ErrorView>,
    replies: Seq<Reply>,
)
    requires
        m.settled() == Some(outcome) || m is Aborting || m is Aborted,
    ensures
        m.run(replies).settled() == Some(outcome) || m.run(replies) is Aborting || m.run(
            replies,
        ) is Aborted,
    decreases replies.len(),
{
    if replies.len() != 0 {
        lemma_release_keeps_outcome(m.next(replies[0]), outcome, replies.drop_first());
    }
}

impl MeasurementView {
    /// Whether the measurement can still end with `client_area` only, if it
    /// ends with a client area at all.
    pub open spec fn carries(self, client_area: MonitorArea) -> bool {
        match self {
            MeasurementView::Registering { .. } => false,
            MeasurementView::Creating { .. } => false,
            MeasurementView::Reading { .. } => false,
            MeasurementView::Pumping { client_area: read, .. } => read == client_area,
            MeasurementView::Dispatching { client_area: read, .. } => read == client_area,
            MeasurementView::DestroyingWindow { outcome, .. } => outcome is Err || outcome == Ok::<
                MonitorArea,
                ErrorView,
            >(client_area),
            MeasurementView::UnregisteringClass { outcome, .. } => outcome is Err || outcome
                == Ok::<MonitorArea, ErrorView>(client_area),
            MeasurementView::Finished { outcome } => outcome is Err || outcome == Ok::<
                MonitorArea,
                ErrorView,
            >(client_area),
            _ => true,
        }
    }
}

/// The client area is read once, before the first message is waited for,
/// and nothing that the platform replies later changes it.
pub proof fn lemma_client_area_is_kept(
    m: MeasurementView,
    client_area: MonitorArea,
    replies: Seq<Reply>,
)
    requires
        m.carries(client_area),
    ensures
        m.run(replies).carries(client_area),
    decreases replies.len(),
{
    if replies.len() != 0 {
        lemma_client_area_is_kept(m.next(replies[0]), client_area, replies.drop_first());
    }
}

/// A measurement that ends with a client area ends with the area of the
/// client box that the platform gave for its window: with the corner of the
/// box, and with the distances between its edges as width and height. So
/// where the box is no larger than the target, the client area is not
/// either, and where its edges are in order, width and height are not
/// negative.
pub proof fn lemma_measured_area_is_client_box(
    class: Seq<u16>,
    window: usize,
    result: i32,
    rect: Rect,
    replies: Seq<Reply>,
)
    requires
        result != 0,
        rect.spans_fit(),
    ensures
        (MeasurementView::Reading { class, window }).next(Reply::ClientRect { result, rect }).run(
            replies,
        ) matches MeasurementView::Finished { outcome: Ok(client_area) } ==> {
            &&& client_area.x == rect.left
            &&& client_area.y == rect.top
            &&& client_area.width == rect.right - rect.left
            &&& client_area.height == rect.bottom - rect.top
        },
{
    let read = (MeasurementView::Reading { class, window }).next(
        Reply::ClientRect { result, rect },
    );
    lemma_client_area_is_kept(read, MonitorArea::of(rect), replies);
}

} // verus!
