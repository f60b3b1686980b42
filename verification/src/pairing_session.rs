//! The conversation in which the helper makes a device accept a new pairing record.
use vstd::prelude::*;
use crate::console::{lines_view, on_stderr, stderr, Line, LineView};
use crate::device_error::{error_text, names};
use crate::text::{decimal, digits, same};

verus! {

/// The service of the device that pairs with hosts it does not trust yet.
pub const TUNNEL_SERVICE: &'static str =
    "com.apple.internal.dt.coredevice.untrusted.tunnelservice";

/// The PIN that the host answers with where the device asks for one.
pub const PAIRING_PIN: &'static str = "000000";

/// The failure of a session with a device that does not offer the service.
pub const SERVICE_NOT_FOUND: &'static str =
    "InternalError(\"Untrusted tunnel service not found\")";

/// A service that the device offers.
#[derive(Debug, PartialEq, Eq)]
pub struct Service {
    pub name: String,
    pub port: u16,
}

/// The model of a service.
#[verifier::ext_equal]
pub struct ServiceView {
    pub name: Seq<char>,
    pub port: u16,
}

impl View for Service {
    type V = ServiceView;

    open spec fn view(&self) -> ServiceView {
        ServiceView { name: self.name@, port: self.port }
    }
}

/// The models of a list of services.
pub open spec fn services_view(v: Seq<Service>) -> Seq<ServiceView> {
    v.map_values(|s: Service| s@)
}

/// The port of the first service of this name.
pub open spec fn port_of(services: Seq<ServiceView>, name: Seq<char>) -> Option<u16>
    decreases services.len(),
{
    if services.len() == 0 {
        None
    } else if services[0].name == name {
        Some(services[0].port)
    } else {
        port_of(services.skip(1), name)
    }
}

/// The two passes over the pairing service: the first makes the record, the second
/// has the device commit it.
#[derive(Clone, Copy, Debug, PartialEq, Eq, Structural)]
pub enum Pass {
    First,
    Second,
}

/// How far the session is.
#[derive(Clone, Copy, Debug, PartialEq, Eq, Structural)]
pub enum Stage {
    Proxy,
    Tunnel,
    RsdStream,
    Handshake,
    Stream(Pass),
    Xpc(Pass),
    XpcHandshake(Pass),
    Root(Pass),
    Record,
    Pairing(Pass),
}

/// What there is to do.
#[derive(Debug, PartialEq, Eq)]
pub enum SessionWork {
    /// Connect to the core device proxy.
    ConnectProxy,
    /// Build the software tunnel over it.
    CreateTunnel,
    /// Open a stream to this port through the tunnel.
    ConnectPort(u16),
    /// Shake hands with the service directory on that stream.
    RsdHandshake,
    /// Start a remote XPC client on that stream.
    OpenXpc,
    /// Shake hands as that client.
    XpcHandshake,
    /// Receive a message on the root channel.
    ReceiveRoot,
    /// Make a new record for the host of this name.
    CreateRecord { hostname: String },
    /// Pair through that client as the host of this name, with the record, and answer
    /// with this PIN where the device asks for one.
    Pair { hostname: String, pin: String },
}

/// The model of what there is to do.
#[verifier::ext_equal]
pub enum SessionWorkView {
    ConnectProxy,
    CreateTunnel,
    ConnectPort(u16),
    RsdHandshake,
    OpenXpc,
    XpcHandshake,
    ReceiveRoot,
    CreateRecord { hostname: Seq<char> },
    Pair { hostname: Seq<char>, pin: Seq<char> },
}

impl View for SessionWork {
    type V = SessionWorkView;

    open spec fn view(&self) -> SessionWorkView {
        match self {
            SessionWork::ConnectProxy => SessionWorkView::ConnectProxy,
            SessionWork::CreateTunnel => SessionWorkView::CreateTunnel,
            SessionWork::ConnectPort(port) => SessionWorkView::ConnectPort(*port),
            SessionWork::RsdHandshake => SessionWorkView::RsdHandshake,
            SessionWork::OpenXpc => SessionWorkView::OpenXpc,
            SessionWork::XpcHandshake => SessionWorkView::XpcHandshake,
            SessionWork::ReceiveRoot => SessionWorkView::ReceiveRoot,
            SessionWork::CreateRecord { hostname } => SessionWorkView::CreateRecord {
                hostname: hostname@,
            },
            SessionWork::Pair { hostname, pin } => SessionWorkView::Pair {
                hostname: hostname@,
                pin: pin@,
            },
        }
    }
}

/// How a piece of work went.
#[derive(Debug, PartialEq, Eq)]
pub enum SessionEvent {
    /// The proxy is connected; its service directory is at this port.
    ProxyConnected(u16),
    /// The directory lists these services.
    Services(Vec<Service>),
    /// It was done.
    Done,
    /// It failed, for this reason.
    Failed(String),
}

/// The model of an event.
#[verifier::ext_equal]
pub enum SessionEventView {
    ProxyConnected(u16),
    Services(Seq<ServiceView>),
    Done,
    Failed(Seq<char>),
}

impl View for SessionEvent {
    type V = SessionEventView;

    open spec fn view(&self) -> SessionEventView {
        match self {
            SessionEvent::ProxyConnected(port) => SessionEventView::ProxyConnected(*port),
            SessionEvent::Services(services) => SessionEventView::Services(
                services_view(services@),
            ),
            SessionEvent::Done => SessionEventView::Done,
            SessionEvent::Failed(text) => SessionEventView::Failed(text@),
        }
    }
}

/// What to do next.
#[derive(Debug, PartialEq, Eq)]
pub enum SessionStep {
    /// Go on with this work.
    Perform(SessionWork),
    /// The device has accepted the record.
    Paired,
    /// Fail with this error.
    Fail(String),
}

/// The model of a step.
#[verifier::ext_equal]
pub enum SessionStepView {
    Perform(SessionWorkView),
    Paired,
    Fail(Seq<char>),
}

impl View for SessionStep {
    type V = SessionStepView;

    open spec fn view(&self) -> SessionStepView {
        match self {
            SessionStep::Perform(work) => SessionStepView::Perform(work@),
            SessionStep::Paired => SessionStepView::Paired,
            SessionStep::Fail(text) => SessionStepView::Fail(text@),
        }
    }
}

/// The state of the session, which is held for the host of this name.
#[derive(Debug, PartialEq, Eq)]
pub struct PairingSession {
    pub hostname: String,
    pub stage: Stage,
    pub rsd_port: u16,
    pub service_port: u16,
}

/// The model of the session.
#[verifier::ext_equal]
pub struct PairingSessionView {
    pub hostname: Seq<char>,
    pub stage: Stage,
    pub rsd_port: u16,
    pub service_port: u16,
}

impl View for PairingSession {
    type V = PairingSessionView;

    open spec fn view(&self) -> PairingSessionView {
        PairingSessionView {
            hostname: self.hostname@,
            stage: self.stage,
            rsd_port: self.rsd_port,
            service_port: self.service_port,
        }
    }
}

/// The session before anything is done.
pub open spec fn session_start(hostname: Seq<char>) -> PairingSessionView {
    PairingSessionView { hostname, stage: Stage::Proxy, rsd_port: 0, service_port: 0 }
}

/// The work that the session is at.
pub open spec fn work_at(state: PairingSessionView) -> SessionWorkView {
    match state.stage {
        Stage::Proxy => SessionWorkView::ConnectProxy,
        Stage::Tunnel => SessionWorkView::CreateTunnel,
        Stage::RsdStream => SessionWorkView::ConnectPort(state.rsd_port),
        Stage::Handshake => SessionWorkView::RsdHandshake,
        Stage::Stream(_) => SessionWorkView::ConnectPort(state.service_port),
        Stage::Xpc(_) => SessionWorkView::OpenXpc,
        Stage::XpcHandshake(_) => SessionWorkView::XpcHandshake,
        Stage::Root(_) => SessionWorkView::ReceiveRoot,
        Stage::Record => SessionWorkView::CreateRecord { hostname: state.hostname },
        Stage::Pairing(_) => SessionWorkView::Pair {
            hostname: state.hostname,
            pin: PAIRING_PIN@,
        },
    }
}

/// The event is one that the work under way can have.
pub open spec fn session_fits(stage: Stage, event: SessionEventView) -> bool {
    match event {
        SessionEventView::ProxyConnected(_) => stage == Stage::Proxy,
        SessionEventView::Services(_) => stage == Stage::Handshake,
        SessionEventView::Done => stage != Stage::Proxy && stage != Stage::Handshake,
        SessionEventView::Failed(_) => true,
    }
}

/// Why the session fails with this event, if it does. What becomes of the root
/// message is of no concern.
pub open spec fn session_failure(state: PairingSessionView, event: SessionEventView) -> Option<
    Seq<char>,
> {
    match event {
        SessionEventView::Failed(text) => if state.stage is Root {
            None
        } else {
            Some(text)
        },
        SessionEventView::Services(services) => if port_of(services, TUNNEL_SERVICE@) is None {
            Some(SERVICE_NOT_FOUND@)
        } else {
            None
        },
        _ => None,
    }
}

/// The stage behind this one, if there is one.
pub open spec fn stage_after(stage: Stage) -> Option<Stage> {
    match stage {
        Stage::Proxy => Some(Stage::Tunnel),
        Stage::Tunnel => Some(Stage::RsdStream),
        Stage::RsdStream => Some(Stage::Handshake),
        Stage::Handshake => Some(Stage::Stream(Pass::First)),
        Stage::Stream(pass) => Some(Stage::Xpc(pass)),
        Stage::Xpc(pass) => Some(Stage::XpcHandshake(pass)),
        Stage::XpcHandshake(pass) => Some(Stage::Root(pass)),
        Stage::Root(Pass::First) => Some(Stage::Record),
        Stage::Root(Pass::Second) => Some(Stage::Pairing(Pass::Second)),
        Stage::Record => Some(Stage::Pairing(Pass::First)),
        Stage::Pairing(Pass::First) => Some(Stage::Stream(Pass::Second)),
        Stage::Pairing(Pass::Second) => None,
    }
}

/// The session after an event.
pub open spec fn session_next(
    state: PairingSessionView,
    event: SessionEventView,
) -> PairingSessionView {
    if session_failure(state, event) is Some {
        state
    } else {
        PairingSessionView {
            hostname: state.hostname,
            stage: match stage_after(state.stage) {
                Some(stage) => stage,
                None => state.stage,
            },
            rsd_port: match event {
                SessionEventView::ProxyConnected(port) => port,
                _ => state.rsd_port,
            },
            service_port: match event {
                SessionEventView::Services(services) => port_of(services, TUNNEL_SERVICE@)->0,
                _ => state.service_port,
            },
        }
    }
}

/// The step that an event leads to.
pub open spec fn session_step(
    state: PairingSessionView,
    event: SessionEventView,
) -> SessionStepView {
    match session_failure(state, event) {
        Some(text) => SessionStepView::Fail(text),
        None => if stage_after(state.stage) is None {
            SessionStepView::Paired
        } else {
            SessionStepView::Perform(work_at(session_next(state, event)))
        },
    }
}

/// The lines that a stage is announced with.
pub open spec fn stage_lines(state: PairingSessionView) -> Seq<LineView> {
    match state.stage {
        Stage::Proxy => seq![on_stderr("[1/6] Connecting CoreDeviceProxy over USB..."@)],
        Stage::Tunnel => seq![
            on_stderr(
                "[2/6] Starting software tunnel; RSD port="@ + digits(state.rsd_port as nat)
                    + "..."@,
            ),
        ],
        Stage::RsdStream => seq![on_stderr("[3/6] Performing RSD handshake..."@)],
        Stage::Stream(Pass::First) => seq![
            on_stderr("[4/6] Opening untrusted RemoteXPC pairing service..."@),
        ],
        Stage::Record => seq![
            on_stderr("[5/6] Creating idevice-native RemotePairing record..."@),
            on_stderr(
                "      Keep the iPhone/iPad unlocked. Accept Trust/Pairing prompts if shown."@,
            ),
        ],
        Stage::Stream(Pass::Second) => seq![
            on_stderr("[6/6] Verifying/committing pairing identity..."@),
        ],
        _ => Seq::empty(),
    }
}

/// The lines that an event is reported with: those of the stage that it leads to.
pub open spec fn session_lines(
    state: PairingSessionView,
    event: SessionEventView,
) -> Seq<LineView> {
    if session_step(state, event) is Perform {
        stage_lines(session_next(state, event))
    } else {
        Seq::empty()
    }
}

/// The port of the first service of this name.
pub fn service_port(services: &Vec<Service>, name: &str) -> (r: Option<u16>)
    ensures
        r == port_of(services_view(services@), name@),
{
    let ghost all = services_view(services@);
    assert(all.skip(0) =~= all);
    for i in 0..services.len()
        invariant
            all == services_view(services@),
            port_of(all, name@) == port_of(all.skip(i as int), name@),
    {
        assert(all.skip(i as int)[0] == services@[i as int]@);
        if same(services[i].name.as_str(), name) {
            return Some(services[i].port);
        }
        assert(all.skip(i as int).skip(1) =~= all.skip(i + 1));
    }
    None
}

/// The event of work that failed with this error. The reason is the error's text,
/// which names the error.
pub fn session_failed(error: &idevice::IdeviceError) -> (event: SessionEvent)
    ensures
        event matches SessionEvent::Failed(text) && names(text@, *error),
{
    SessionEvent::Failed(error_text(error))
}

impl PairingSession {
    /// The session of the host of this name before anything is done, what to do first,
    /// and how to announce it.
    pub fn start(hostname: &str) -> (r: (PairingSession, Vec<Line>, SessionWork))
        ensures
            r.0@ == session_start(hostname@),
            lines_view(r.1@) == stage_lines(session_start(hostname@)),
            r.2@ == work_at(session_start(hostname@)),
    {
        let state = PairingSession {
            hostname: hostname.to_string(),
            stage: Stage::Proxy,
            rsd_port: 0,
            service_port: 0,
        };
        let lines = state.announce();
        let work = state.work();
        (state, lines, work)
    }

    /// The work that the session is at.
    pub fn work(&self) -> (r: SessionWork)
        ensures
            r@ == work_at(self@),
    {
        match self.stage {
            Stage::Proxy => SessionWork::ConnectProxy,
            Stage::Tunnel => SessionWork::CreateTunnel,
            Stage::RsdStream => SessionWork::ConnectPort(self.rsd_port),
            Stage::Handshake => SessionWork::RsdHandshake,
            Stage::Stream(_) => SessionWork::ConnectPort(self.service_port),
            Stage::Xpc(_) => SessionWork::OpenXpc,
            Stage::XpcHandshake(_) => SessionWork::XpcHandshake,
            Stage::Root(_) => SessionWork::ReceiveRoot,
            Stage::Record => SessionWork::CreateRecord { hostname: self.hostname.clone() },
            Stage::Pairing(_) => SessionWork::Pair {
                hostname: self.hostname.clone(),
                pin: PAIRING_PIN.to_string(),
            },
        }
    }

    fn announce(&self) -> (r: Vec<Line>)
        ensures
            lines_view(r@) == stage_lines(self@),
    {
        let mut lines: Vec<Line> = Vec::new();
        match self.stage {
            Stage::Proxy => {
                lines.push(stderr("[1/6] Connecting CoreDeviceProxy over USB...".to_string()));
            },
            Stage::Tunnel => {
                let port = decimal(self.rsd_port as u64);
                lines.push(
                    stderr(
                        "[2/6] Starting software tunnel; RSD port=".to_string().concat(
                            port.as_str(),
                        ).concat("..."),
                    ),
                );
            },
            Stage::RsdStream => {
                lines.push(stderr("[3/6] Performing RSD handshake...".to_string()));
            },
            Stage::Stream(Pass::First) => {
                lines.push(
                    stderr("[4/6] Opening untrusted RemoteXPC pairing service...".to_string()),
                );
            },
            Stage::Record => {
                lines.push(
                    stderr("[5/6] Creating idevice-native RemotePairing record...".to_string()),
                );
                lines.push(
                    stderr(
                        "      Keep the iPhone/iPad unlocked. Accept Trust/Pairing prompts if shown.".to_string(),
                    ),
                );
            },
            Stage::Stream(Pass::Second) => {
                lines.push(
                    stderr("[6/6] Verifying/committing pairing identity...".to_string()),
                );
            },
            _ => {},
        }
        assert(lines_view(lines@) =~= stage_lines(self@));
        lines
    }

    fn next_stage(stage: Stage) -> (r: Option<Stage>)
        ensures
            r == stage_after(stage),
    {
        match stage {
            Stage::Proxy => Some(Stage::Tunnel),
            Stage::Tunnel => Some(Stage::RsdStream),
            Stage::RsdStream => Some(Stage::Handshake),
            Stage::Handshake => Some(Stage::Stream(Pass::First)),
            Stage::Stream(pass) => Some(Stage::Xpc(pass)),
            Stage::Xpc(pass) => Some(Stage::XpcHandshake(pass)),
            Stage::XpcHandshake(pass) => Some(Stage::Root(pass)),
            Stage::Root(Pass::First) => Some(Stage::Record),
            Stage::Root(Pass::Second) => Some(Stage::Pairing(Pass::Second)),
            Stage::Record => Some(Stage::Pairing(Pass::First)),
            Stage::Pairing(Pass::First) => Some(Stage::Stream(Pass::Second)),
            Stage::Pairing(Pass::Second) => None,
        }
    }

    /// Takes the result of the work under way; says what to do next, and announces it.
    pub fn generate_remote_pairing_file(&mut self, event: SessionEvent) -> (r: (
        Vec<Line>,
        SessionStep,
    ))
        requires
            session_fits(old(self).stage, event@),
        ensures
            final(self)@ == session_next(old(self)@, event@),
            lines_view(r.0@) == session_lines(old(self)@, event@),
            r.1@ == session_step(old(self)@, event@),
    {
        let mut lines: Vec<Line> = Vec::new();
        assert(lines_view(lines@) =~= Seq::<LineView>::empty());
        match &event {
            SessionEvent::Failed(text) => {
                let ignored = match self.stage {
                    Stage::Root(_) => true,
                    _ => false,
                };
                if !ignored {
                    return (lines, SessionStep::Fail(text.clone()));
                }
            },
            SessionEvent::Services(services) => {
                match service_port(services, TUNNEL_SERVICE) {
                    Some(port) => {
                        self.service_port = port;
                    },
                    None => {
                        return (lines, SessionStep::Fail(SERVICE_NOT_FOUND.to_string()));
                    },
                }
            },
            SessionEvent::ProxyConnected(port) => {
                self.rsd_port = *port;
            },
            SessionEvent::Done => {},
        }
        match PairingSession::next_stage(self.stage) {
            Some(stage) => {
                self.stage = stage;
                (self.announce(), SessionStep::Perform(self.work()))
            },
            None => (lines, SessionStep::Paired),
        }
    }
}

/// The events are ones that the session can have, in turn, up to its end.
pub open spec fn session_answered(
    state: PairingSessionView,
    events: Seq<SessionEventView>,
) -> bool
    decreases events.len(),
{
    events.len() == 0 || {
        &&& session_fits(state.stage, events[0])
        &&& session_step(state, events[0]) is Perform ==> session_answered(
            session_next(state, events[0]),
            events.drop_first(),
        )
    }
}

/// Where these events lead: the end of the session, or the work that it is at when
/// they run out.
pub open spec fn session_run(
    state: PairingSessionView,
    events: Seq<SessionEventView>,
) -> SessionStepView
    decreases events.len(),
{
    if events.len() == 0 {
        SessionStepView::Perform(work_at(state))
    } else if session_step(state, events[0]) is Perform {
        session_run(session_next(state, events[0]), events.drop_first())
    } else {
        session_step(state, events[0])
    }
}

/// The work that is done: `events[i]` is the result of the work at place `i`. Events
/// behind the end of the session are the result of none.
pub open spec fn session_works(
    state: PairingSessionView,
    events: Seq<SessionEventView>,
) -> Seq<SessionWorkView>
    decreases events.len(),
{
    if events.len() == 0 {
        Seq::empty()
    } else if session_step(state, events[0]) is Perform {
        seq![work_at(state)] + session_works(
            session_next(state, events[0]),
            events.drop_first(),
        )
    } else {
        seq![work_at(state)]
    }
}

/// The work on the way to the pairing service.
pub open spec fn approach(rsd_port: u16) -> Seq<SessionWorkView> {
    seq![
        SessionWorkView::ConnectProxy,
        SessionWorkView::CreateTunnel,
        SessionWorkView::ConnectPort(rsd_port),
        SessionWorkView::RsdHandshake,
    ]
}

/// The work at the pairing service: pairing with a new record, and once more through
/// a new stream to the same port, with the record that there is; both times as the
/// same host, and with the same PIN.
pub open spec fn two_passes(hostname: Seq<char>, port: u16) -> Seq<SessionWorkView> {
    seq![
        SessionWorkView::ConnectPort(port),
        SessionWorkView::OpenXpc,
        SessionWorkView::XpcHandshake,
        SessionWorkView::ReceiveRoot,
        SessionWorkView::CreateRecord { hostname },
        SessionWorkView::Pair { hostname, pin: PAIRING_PIN@ },
        SessionWorkView::ConnectPort(port),
        SessionWorkView::OpenXpc,
        SessionWorkView::XpcHandshake,
        SessionWorkView::ReceiveRoot,
        SessionWorkView::Pair { hostname, pin: PAIRING_PIN@ },
    ]
}

/// How many works of the two passes are done when a stage is reached.
spec fn passed(stage: Stage) -> int {
    match stage {
        Stage::Stream(Pass::First) => 0,
        Stage::Xpc(Pass::First) => 1,
        Stage::XpcHandshake(Pass::First) => 2,
        Stage::Root(Pass::First) => 3,
        Stage::Record => 4,
        Stage::Pairing(Pass::First) => 5,
        Stage::Stream(Pass::Second) => 6,
        Stage::Xpc(Pass::Second) => 7,
        Stage::XpcHandshake(Pass::Second) => 8,
        Stage::Root(Pass::Second) => 9,
        Stage::Pairing(Pass::Second) => 10,
        _ => -1,
    }
}

proof fn lemma_passes_from(state: PairingSessionView, events: Seq<SessionEventView>)
    requires
        passed(state.stage) >= 0,
        session_answered(state, events),
        session_run(state, events) is Paired,
    ensures
        session_works(state, events) == two_passes(state.hostname, state.service_port).skip(
            passed(state.stage),
        ),
    decreases events.len(),
{
    let all = two_passes(state.hostname, state.service_port);
    let at = passed(state.stage);
    assert(all[at] == work_at(state));
    if session_step(state, events[0]) is Perform {
        lemma_passes_from(session_next(state, events[0]), events.drop_first());
        assert(seq![all[at]] + all.skip(at + 1) =~= all.skip(at));
    } else {
        assert(seq![all[at]] =~= all.skip(at));
    }
}

/// A session that ends with a pairing has done all its work in one order: through the
/// proxy to the service directory, then to the port that the directory gives for the
/// tunnel service, where it has made a record for its host and paired twice with it.
pub proof fn law_paired_session_paired_twice(
    hostname: Seq<char>,
    events: Seq<SessionEventView>,
)
    requires
        session_answered(session_start(hostname), events),
        session_run(session_start(hostname), events) is Paired,
    ensures
        events.len() >= 4,
        events[0] is ProxyConnected,
        events[3] is Services,
        port_of(events[3]->Services_0, TUNNEL_SERVICE@) is Some,
        session_works(session_start(hostname), events) == approach(
            events[0]->ProxyConnected_0,
        ) + two_passes(hostname, port_of(events[3]->Services_0, TUNNEL_SERVICE@)->0),
{
    let s0 = session_start(hostname);
    let s1 = session_next(s0, events[0]);
    let s2 = session_next(s1, events[1]);
    let s3 = session_next(s2, events[2]);
    let s4 = session_next(s3, events[3]);
    let e1 = events.drop_first();
    let e2 = e1.drop_first();
    let e3 = e2.drop_first();
    let e4 = e3.drop_first();
    assert(session_answered(s1, e1) && session_run(s1, e1) is Paired);
    assert(e1[0] == events[1]);
    assert(session_answered(s2, e2) && session_run(s2, e2) is Paired);
    assert(e2[0] == events[2]);
    assert(session_answered(s3, e3) && session_run(s3, e3) is Paired);
    assert(e3[0] == events[3]);
    assert(session_answered(s4, e4) && session_run(s4, e4) is Paired);
    lemma_passes_from(s4, e4);
    let passes = two_passes(hostname, s4.service_port);
    assert(passes.skip(0) =~= passes);
    assert(session_works(s3, e3) == seq![work_at(s3)] + session_works(s4, e4));
    assert(session_works(s2, e2) == seq![work_at(s2)] + session_works(s3, e3));
    assert(session_works(s1, e1) == seq![work_at(s1)] + session_works(s2, e2));
    assert(session_works(s0, events) =~= approach(events[0]->ProxyConnected_0) + passes);
}

/// This event ends the session with this error, as the result of this work: the work
/// failed with it, and is not the receiving of a root message; or the service is not
/// among those that are listed.
pub open spec fn fails_with(
    work: SessionWorkView,
    event: SessionEventView,
    text: Seq<char>,
) -> bool {
    ||| event == SessionEventView::Failed(text) && work != SessionWorkView::ReceiveRoot
    ||| {
        &&& event matches SessionEventView::Services(services)
        &&& port_of(services, TUNNEL_SERVICE@) is None
        &&& text == SERVICE_NOT_FOUND@
    }
}

/// A session fails exactly when some work of it fails, other than the receiving of a
/// root message, or the service is not listed; it fails with that error, and that work
/// is its last.
pub proof fn law_session_fails_with_its_first_error(
    state: PairingSessionView,
    events: Seq<SessionEventView>,
    text: Seq<char>,
)
    ensures
        ({
            let works = session_works(state, events);
            &&& works.len() <= events.len()
            &&& session_run(state, events) == SessionStepView::Fail(text) <==> works.len() > 0
                && fails_with(works.last(), events[works.len() - 1], text)
            &&& forall|i: int, other: Seq<char>|
                0 <= i < works.len() - 1 ==> !#[trigger] fails_with(works[i], events[i], other)
        }),
    decreases events.len(),
{
    if events.len() > 0 {
        let works = session_works(state, events);
        assert(state.stage is Root <==> work_at(state) == SessionWorkView::ReceiveRoot);
        if session_step(state, events[0]) is Perform {
            let next = session_next(state, events[0]);
            let rest = events.drop_first();
            let after = session_works(next, rest);
            law_session_fails_with_its_first_error(next, rest, text);
            assert(works =~= seq![work_at(state)] + after);
            if after.len() > 0 {
                assert(works.last() == after.last());
                assert(events[works.len() - 1] == rest[after.len() - 1]);
            }
            assert forall|i: int, other: Seq<char>| 0 <= i < works.len() - 1 implies !#[trigger]
                fails_with(works[i], events[i], other) by {
                if i > 0 {
                    assert(works[i] == after[i - 1]);
                    assert(events[i] == rest[i - 1]);
                    assert(!fails_with(after[i - 1], rest[i - 1], other));
                }
            }
        }
    }
}

/// The root messages are of no concern: two courses of events that differ only in what
/// became of them do the same work and end alike.
pub proof fn law_root_messages_are_of_no_concern(
    state: PairingSessionView,
    a: Seq<SessionEventView>,
    b: Seq<SessionEventView>,
)
    requires
        session_answered(state, a),
        session_answered(state, b),
        a.len() == b.len(),
        forall|i: int|
            0 <= i < a.len() ==> #[trigger] a[i] == b[i] || (i < session_works(state, a).len()
                && session_works(state, a)[i] == SessionWorkView::ReceiveRoot),
    ensures
        session_run(state, a) == session_run(state, b),
        session_works(state, a) == session_works(state, b),
    decreases a.len(),
{
    if a.len() > 0 {
        assert(session_works(state, a)[0] == work_at(state));
        assert(a[0] == b[0] || state.stage is Root);
        assert(session_step(state, a[0]) == session_step(state, b[0]));
        assert(session_next(state, a[0]) == session_next(state, b[0]));
        if session_step(state, a[0]) is Perform {
            let next = session_next(state, a[0]);
            let p = a.drop_first();
            let q = b.drop_first();
            assert forall|i: int| 0 <= i < p.len() implies #[trigger] p[i] == q[i] || (i
                < session_works(next, p).len() && session_works(next, p)[i]
                == SessionWorkView::ReceiveRoot) by {
                assert(p[i] == a[i + 1] && q[i] == b[i + 1]);
                if a[i + 1] != b[i + 1] {
                    assert(session_works(state, a)[i + 1] == session_works(next, p)[i]);
                }
            }
            law_root_messages_are_of_no_concern(next, p, q);
        }
    }
}

/// A service of a name that no other has is found by it, wherever it stands.
pub proof fn law_service_is_found_by_name(services: Seq<ServiceView>, i: int)
    requires
        0 <= i < services.len(),
        forall|j: int| 0 <= j < services.len() && j != i ==> #[trigger] services[j].name
            != services[i].name,
    ensures
        port_of(services, services[i].name) == Some(services[i].port),
    decreases i,
{
    if i > 0 {
        let rest = services.skip(1);
        assert(services[0].name != services[i].name);
        assert forall|j: int| 0 <= j < rest.len() && j != i - 1 implies #[trigger] rest[j].name
            != rest[i - 1].name by {
            assert(rest[j] == services[j + 1]);
        }
        law_service_is_found_by_name(rest, i - 1);
    }
}

proof fn lemma_passes_succeed(state: PairingSessionView, events: Seq<SessionEventView>)
    requires
        passed(state.stage) >= 0,
        events.len() == 11 - passed(state.stage),
        forall|i: int|
            0 <= i < events.len() ==> #[trigger] events[i] == SessionEventView::Done || (
            events[i] is Failed && two_passes(
                state.hostname,
                state.service_port,
            )[passed(state.stage) + i] == SessionWorkView::ReceiveRoot),
    ensures
        session_run(state, events) is Paired,
    decreases events.len(),
{
    let at = passed(state.stage);
    let all = two_passes(state.hostname, state.service_port);
    assert(all[at] == work_at(state));
    assert(all[at + 0] == work_at(state));
    assert(session_failure(state, events[0]) is None);
    if at < 10 {
        let next = session_next(state, events[0]);
        let rest = events.drop_first();
        assert forall|i: int| 0 <= i < rest.len() implies #[trigger] rest[i]
            == SessionEventView::Done || (rest[i] is Failed && two_passes(
            next.hostname,
            next.service_port,
        )[passed(next.stage) + i] == SessionWorkView::ReceiveRoot) by {
            assert(rest[i] == events[i + 1]);
            assert(passed(next.stage) + i == at + (i + 1));
        }
        lemma_passes_succeed(next, rest);
    }
}

/// A session in which all goes well, but perhaps for the root messages, ends with a
/// pairing.
pub proof fn law_session_pairs_unless_work_fails(
    hostname: Seq<char>,
    rsd_port: u16,
    services: Seq<ServiceView>,
    behind: Seq<SessionEventView>,
)
    requires
        port_of(services, TUNNEL_SERVICE@) is Some,
        behind.len() == 11,
        forall|i: int|
            0 <= i < 11 ==> #[trigger] behind[i] == SessionEventView::Done || (behind[i] is Failed
                && (i == 3 || i == 9)),
    ensures
        session_run(
            session_start(hostname),
            seq![
                SessionEventView::ProxyConnected(rsd_port),
                SessionEventView::Done,
                SessionEventView::Done,
                SessionEventView::Services(services),
            ] + behind,
        ) is Paired,
{
    let e0 = seq![
        SessionEventView::ProxyConnected(rsd_port),
        SessionEventView::Done,
        SessionEventView::Done,
        SessionEventView::Services(services),
    ] + behind;
    let e1 = e0.drop_first();
    let e2 = e1.drop_first();
    let e3 = e2.drop_first();
    let e4 = e3.drop_first();
    let s0 = session_start(hostname);
    let s1 = session_next(s0, e0[0]);
    let s2 = session_next(s1, e1[0]);
    let s3 = session_next(s2, e2[0]);
    let s4 = session_next(s3, e3[0]);
    assert(e1[0] == e0[1] && e2[0] == e0[2] && e3[0] == e0[3]);
    assert(e4 =~= behind);
    assert(session_run(s0, e0) == session_run(s1, e1));
    assert(session_run(s1, e1) == session_run(s2, e2));
    assert(session_run(s2, e2) == session_run(s3, e3));
    assert(session_run(s3, e3) == session_run(s4, e4));
    lemma_passes_succeed(s4, behind);
}

/// The port that a name stands for is that of the first service of that name, wherever it
/// stands; a name that no service has stands for none.
pub proof fn law_first_service_of_a_name_is_found(
    services: Seq<ServiceView>,
    name: Seq<char>,
    i: int,
)
    requires
        0 <= i <= services.len(),
        forall|j: int| 0 <= j < i ==> (#[trigger] services[j]).name != name,
        i < services.len() ==> services[i].name == name,
    ensures
        i < services.len() ==> port_of(services, name) == Some(services[i].port),
        i == services.len() ==> port_of(services, name) is None,
    decreases i,
{
    if i > 0 {
        let rest = services.skip(1);
        assert(services[0].name != name);
        assert forall|j: int| 0 <= j < i - 1 implies (#[trigger] rest[j]).name != name by {
            assert(rest[j] == services[j + 1]);
        }
        if i < services.len() {
            assert(rest[i - 1] == services[i]);
        }
        law_first_service_of_a_name_is_found(rest, name, i - 1);
    }
}

/// What the session prints from its second stage on.
pub open spec fn session_said(
    state: PairingSessionView,
    events: Seq<SessionEventView>,
) -> Seq<LineView>
    decreases events.len(),
{
    if events.len() == 0 {
        Seq::empty()
    } else {
        session_lines(state, events[0]) + (if session_step(state, events[0]) is Perform {
            session_said(session_next(state, events[0]), events.drop_first())
        } else {
            Seq::empty()
        })
    }
}

/// What the session prints at the works of the two passes, one list for each.
pub open spec fn pass_report() -> Seq<Seq<LineView>> {
    seq![
        seq![on_stderr("[4/6] Opening untrusted RemoteXPC pairing service..."@)],
        Seq::empty(),
        Seq::empty(),
        Seq::empty(),
        seq![
            on_stderr("[5/6] Creating idevice-native RemotePairing record..."@),
            on_stderr(
                "      Keep the iPhone/iPad unlocked. Accept Trust/Pairing prompts if shown."@,
            ),
        ],
        Seq::empty(),
        seq![on_stderr("[6/6] Verifying/committing pairing identity..."@)],
        Seq::empty(),
        Seq::empty(),
        Seq::empty(),
        Seq::empty(),
    ]
}

/// Announced once: the stages up to the first pass, with the port that the proxy gives.
pub open spec fn approach_report(rsd_port: u16) -> Seq<LineView> {
    seq![
        on_stderr("[2/6] Starting software tunnel; RSD port="@ + digits(rsd_port as nat) + "..."@),
        on_stderr("[3/6] Performing RSD handshake..."@),
    ]
}

/// What the session prints from the works of the two passes at this place on, once that
/// work is announced.
pub open spec fn report_behind(at: int) -> Seq<LineView> {
    pass_report().skip(at + 1).flatten()
}

proof fn lemma_report_steps(at: int)
    requires
        0 <= at < 11,
    ensures
        at < 10 ==> report_behind(at) == pass_report()[at + 1] + report_behind(at + 1),
        at == 10 ==> report_behind(at) == Seq::<LineView>::empty(),
{
    let rest = pass_report().skip(at + 1);
    if at < 10 {
        assert(rest[0] == pass_report()[at + 1]);
        assert(rest.drop_first() =~= pass_report().skip(at + 2));
    } else {
        assert(rest =~= Seq::empty());
    }
}

proof fn lemma_passes_said(state: PairingSessionView, events: Seq<SessionEventView>)
    requires
        passed(state.stage) >= 0,
        session_answered(state, events),
        session_run(state, events) is Paired,
    ensures
        session_said(state, events) == report_behind(passed(state.stage)),
    decreases events.len(),
{
    let at = passed(state.stage);
    lemma_report_steps(at);
    if session_step(state, events[0]) is Perform {
        let next = session_next(state, events[0]);
        lemma_passes_said(next, events.drop_first());
        assert(passed(next.stage) == at + 1);
        assert(session_lines(state, events[0]) =~= pass_report()[at + 1]);
    } else {
        assert(session_said(state, events) =~= Seq::<LineView>::empty());
    }
}

/// A session that ends with a pairing has announced its six parts, in their order: the
/// first as it began, the second with the port that the proxy gave.
pub proof fn law_session_announces_its_parts(hostname: Seq<char>, events: Seq<SessionEventView>)
    requires
        session_answered(session_start(hostname), events),
        session_run(session_start(hostname), events) is Paired,
    ensures
        stage_lines(session_start(hostname)) == seq![
            on_stderr("[1/6] Connecting CoreDeviceProxy over USB..."@),
        ],
        events[0] is ProxyConnected,
        session_said(session_start(hostname), events) == approach_report(
            events[0]->ProxyConnected_0,
        ) + pass_report().flatten(),
{
    law_paired_session_paired_twice(hostname, events);
    let s0 = session_start(hostname);
    let s1 = session_next(s0, events[0]);
    let s2 = session_next(s1, events[1]);
    let s3 = session_next(s2, events[2]);
    let s4 = session_next(s3, events[3]);
    let e1 = events.drop_first();
    let e2 = e1.drop_first();
    let e3 = e2.drop_first();
    let e4 = e3.drop_first();
    assert(session_answered(s1, e1) && session_run(s1, e1) is Paired);
    assert(e1[0] == events[1]);
    assert(session_answered(s2, e2) && session_run(s2, e2) is Paired);
    assert(e2[0] == events[2]);
    assert(session_answered(s3, e3) && session_run(s3, e3) is Paired);
    assert(e3[0] == events[3]);
    assert(session_answered(s4, e4) && session_run(s4, e4) is Paired);
    lemma_passes_said(s4, e4);
    assert(pass_report().drop_first() =~= pass_report().skip(1));
    assert(pass_report().flatten() == pass_report()[0] + report_behind(0));
    assert(session_said(s3, e3) == session_lines(s3, events[3]) + session_said(s4, e4));
    assert(session_lines(s3, events[3]) =~= pass_report()[0]);
    assert(session_said(s2, e2) =~= session_said(s3, e3));
    assert(session_said(s1, e1) == session_lines(s1, events[1]) + session_said(s2, e2));
    assert(session_said(s0, events) =~= approach_report(events[0]->ProxyConnected_0)
        + pass_report().flatten());
}

/// An event that ends the session is not announced.
pub proof fn law_ends_are_not_announced(state: PairingSessionView, event: SessionEventView)
    requires
        !(session_step(state, event) is Perform),
    ensures
        session_lines(state, event) == Seq::<LineView>::empty(),
{
}

/// Work that fails ends the session with its reason, unchanged, unless it is the receiving
/// of a root message; so does a directory without the service, with a reason of its own.
/// Nothing else ends it before the second pairing.
pub proof fn law_failed_work_ends_the_session(state: PairingSessionView, reason: Seq<char>)
    ensures
        work_at(state) != SessionWorkView::ReceiveRoot ==> session_step(
            state,
            SessionEventView::Failed(reason),
        ) == SessionStepView::Fail(reason),
        work_at(state) == SessionWorkView::ReceiveRoot ==> session_step(
            state,
            SessionEventView::Failed(reason),
        ) == session_step(state, SessionEventView::Done),
        forall|services: Seq<ServiceView>|
            port_of(services, "com.apple.internal.dt.coredevice.untrusted.tunnelservice"@) is None
                ==> #[trigger] session_step(state, SessionEventView::Services(services))
                == SessionStepView::Fail(
                "InternalError(\"Untrusted tunnel service not found\")"@,
            ),
{
}

/// A session for a host is held for that host to its end.
pub proof fn law_session_keeps_its_host(
    state: PairingSessionView,
    event: SessionEventView,
    hostname: Seq<char>,
)
    ensures
        session_start(hostname).hostname == hostname,
        session_next(state, event).hostname == state.hostname,
{
}

/// The step that goes on asks for the work that the session is then at.
pub proof fn law_session_asks_for_the_work_it_is_at(
    state: PairingSessionView,
    event: SessionEventView,
)
    ensures
        session_step(state, event) matches SessionStepView::Perform(work) ==> work == work_at(
            session_next(state, event),
        ),
        session_step(state, event) is Perform ==> session_lines(state, event) == stage_lines(
            session_next(state, event),
        ),
{
}

/// Each of the six parts is announced as its first work begins, and nothing else is: the
/// passes are told apart by their first work.
pub proof fn law_parts_are_announced_as_they_begin(state: PairingSessionView)
    ensures
        stage_lines(state) == (match work_at(state) {
            SessionWorkView::ConnectProxy => seq![
                on_stderr("[1/6] Connecting CoreDeviceProxy over USB..."@),
            ],
            SessionWorkView::CreateTunnel => seq![
                on_stderr(
                    "[2/6] Starting software tunnel; RSD port="@ + digits(state.rsd_port as nat)
                        + "..."@,
                ),
            ],
            SessionWorkView::ConnectPort(_) => if state.stage == Stage::RsdStream {
                seq![on_stderr("[3/6] Performing RSD handshake..."@)]
            } else if state.stage == Stage::Stream(Pass::First) {
                seq![on_stderr("[4/6] Opening untrusted RemoteXPC pairing service..."@)]
            } else {
                seq![on_stderr("[6/6] Verifying/committing pairing identity..."@)]
            },
            SessionWorkView::CreateRecord { .. } => seq![
                on_stderr("[5/6] Creating idevice-native RemotePairing record..."@),
                on_stderr(
                    "      Keep the iPhone/iPad unlocked. Accept Trust/Pairing prompts if shown."@,
                ),
            ],
            _ => Seq::empty(),
        }),
{
}

/// Every work can fail, for any reason. The proxy brings a port, the handshake with the
/// directory brings services, and each other work can be done.
pub proof fn law_every_result_of_a_work_fits(
    state: PairingSessionView,
    port: u16,
    services: Seq<ServiceView>,
    reason: Seq<char>,
)
    ensures
        session_fits(state.stage, SessionEventView::Failed(reason)),
        work_at(state) is ConnectProxy ==> session_fits(
            state.stage,
            SessionEventView::ProxyConnected(port),
        ),
        work_at(state) is RsdHandshake ==> session_fits(
            state.stage,
            SessionEventView::Services(services),
        ),
        !(work_at(state) is ConnectProxy) && !(work_at(state) is RsdHandshake) ==> session_fits(
            state.stage,
            SessionEventView::Done,
        ),
{
}

proof fn lemma_passes_answered(state: PairingSessionView, events: Seq<SessionEventView>)
    requires
        passed(state.stage) >= 0,
        forall|i: int|
            0 <= i < events.len() ==> #[trigger] events[i] == SessionEventView::Done || events[i]
                is Failed,
    ensures
        session_answered(state, events),
    decreases events.len(),
{
    if events.len() > 0 {
        let rest = events.drop_first();
        assert(events[0] == SessionEventView::Done || events[0] is Failed);
        if session_step(state, events[0]) is Perform {
            assert forall|i: int| 0 <= i < rest.len() implies #[trigger] rest[i]
                == SessionEventView::Done || rest[i] is Failed by {
                assert(rest[i] == events[i + 1]);
            }
            lemma_passes_answered(session_next(state, events[0]), rest);
        }
    }
}

/// Whatever port the proxy gives, whatever services the directory lists beside the one of
/// the tunnel, and whatever becomes of the root messages: a session whose works go well
/// connects to that port, then to the service's, makes a record for its host and pairs
/// with it, connects to the same port once more and pairs again, as the same host and with
/// the same PIN; and then it has paired.
pub proof fn law_session_pairs_twice_through_the_listed_port(
    hostname: Seq<char>,
    rsd_port: u16,
    services: Seq<ServiceView>,
    at: int,
    behind: Seq<SessionEventView>,
)
    requires
        0 <= at < services.len(),
        services[at].name == "com.apple.internal.dt.coredevice.untrusted.tunnelservice"@,
        forall|j: int|
            0 <= j < at ==> (#[trigger] services[j]).name
                != "com.apple.internal.dt.coredevice.untrusted.tunnelservice"@,
        behind.len() == 11,
        forall|i: int|
            0 <= i < 11 ==> #[trigger] behind[i] == SessionEventView::Done || (behind[i] is Failed
                && (i == 3 || i == 9)),
    ensures
        ({
            let events = seq![
                SessionEventView::ProxyConnected(rsd_port),
                SessionEventView::Done,
                SessionEventView::Done,
                SessionEventView::Services(services),
            ] + behind;
            let port = services[at].port;
            let pin = "000000"@;
            &&& session_run(session_start(hostname), events) is Paired
            &&& session_works(session_start(hostname), events) == seq![
                SessionWorkView::ConnectProxy,
                SessionWorkView::CreateTunnel,
                SessionWorkView::ConnectPort(rsd_port),
                SessionWorkView::RsdHandshake,
                SessionWorkView::ConnectPort(port),
                SessionWorkView::OpenXpc,
                SessionWorkView::XpcHandshake,
                SessionWorkView::ReceiveRoot,
                SessionWorkView::CreateRecord { hostname },
                SessionWorkView::Pair { hostname, pin },
                SessionWorkView::ConnectPort(port),
                SessionWorkView::OpenXpc,
                SessionWorkView::XpcHandshake,
                SessionWorkView::ReceiveRoot,
                SessionWorkView::Pair { hostname, pin },
            ]
        }),
{
    let events = seq![
        SessionEventView::ProxyConnected(rsd_port),
        SessionEventView::Done,
        SessionEventView::Done,
        SessionEventView::Services(services),
    ] + behind;
    let port = services[at].port;
    law_first_service_of_a_name_is_found(services, TUNNEL_SERVICE@, at);
    law_session_pairs_unless_work_fails(hostname, rsd_port, services, behind);
    let e1 = events.drop_first();
    let e2 = e1.drop_first();
    let e3 = e2.drop_first();
    let e4 = e3.drop_first();
    let s0 = session_start(hostname);
    let s1 = session_next(s0, events[0]);
    let s2 = session_next(s1, e1[0]);
    let s3 = session_next(s2, e2[0]);
    let s4 = session_next(s3, e3[0]);
    assert(e1[0] == events[1] && e2[0] == events[2] && e3[0] == events[3]);
    assert(e4 =~= behind);
    lemma_passes_answered(s4, behind);
    assert(session_answered(s3, e3));
    assert(session_answered(s2, e2));
    assert(session_answered(s1, e1));
    assert(session_answered(s0, events));
    law_paired_session_paired_twice(hostname, events);
    assert(session_works(s0, events) =~= approach(rsd_port) + two_passes(hostname, port));
}

/// The model of a work tells all that the work carries.
pub proof fn law_work_model_tells_all(work: SessionWork)
    ensures
        work matches SessionWork::ConnectPort(port) ==> work@ == SessionWorkView::ConnectPort(port),
        work matches SessionWork::CreateRecord { hostname } ==> work@ == (
        SessionWorkView::CreateRecord { hostname: hostname@ }),
        work matches SessionWork::Pair { hostname, pin } ==> work@ == (SessionWorkView::Pair {
            hostname: hostname@,
            pin: pin@,
        }),
        work is ConnectProxy <==> work@ is ConnectProxy,
        work is CreateTunnel <==> work@ is CreateTunnel,
        work is RsdHandshake <==> work@ is RsdHandshake,
        work is OpenXpc <==> work@ is OpenXpc,
        work is XpcHandshake <==> work@ is XpcHandshake,
        work is ReceiveRoot <==> work@ is ReceiveRoot,
{
}

} // verus!
