//! Service lifecycle: maps an abstract service name to the init system's unit
//! and decides, step by step, which platform calls a status, start or stop
//! request makes. The host performs each call and hands back the reply.

use vstd::prelude::*;
use crate::text::same_text;

verus! {

/// The unit that stands for an abstract service name, if the platform offers
/// the service.
pub open spec fn service_unit(service: Seq<char>) -> Option<Seq<char>> {
    if service == "MongoDB"@ {
        Some("mongod.service"@)
    } else {
        None
    }
}

/// The init-system unit for an abstract service name; `None` for a service
/// that is not offered.
pub fn to_linux_service_name(service: &str) -> (r: Option<String>)
    ensures
        r.deep_view() == service_unit(service@),
{
    if same_text(service, "MongoDB") {
        Some(String::from_str("mongod.service"))
    } else {
        None
    }
}

/// What the caller asked for.
#[derive(Debug, Clone, Copy, PartialEq, Eq)]
pub enum ServiceOp {
    /// Whether the service runs; a stopped one is started first.
    Status,
    Start,
    Stop,
}

/// A call to the service manager.
#[derive(Debug, Clone, Copy, PartialEq, Eq)]
pub enum CallKind {
    Query,
    Start,
    Stop,
}

#[derive(Debug)]
pub struct PlatformCall {
    pub kind: CallKind,
    pub unit: String,
}

/// What the service manager answered.
#[derive(Debug, Clone, Copy, PartialEq, Eq)]
pub enum PlatformReply {
    /// The queried service runs.
    Running,
    /// The queried service is found but stopped.
    Stopped,
    /// A start or stop went through.
    Succeeded,
    /// The service manager could not be reached.
    ConnectFailed,
    /// The service is not installed.
    NotFound,
    /// The manager refused the operation.
    Rejected,
}

/// Where a request stands.
#[derive(Debug, Clone, Copy, PartialEq, Eq)]
pub enum ServicePhase {
    Begin,
    Querying,
    Starting,
    Stopping,
    Done(bool),
}

/// What the host does next.
#[derive(Debug)]
pub enum ServiceStep {
    Call(PlatformCall),
    Finish(bool),
}

/// One request in progress.
#[derive(Debug)]
pub struct ServiceSession {
    pub op: ServiceOp,
    pub unit: Option<String>,
    pub phase: ServicePhase,
}

/// The phase after `phase` given the reply to the last call (`None` before the
/// first call).
pub open spec fn advance(op: ServiceOp, has_unit: bool, phase: ServicePhase, reply: Option<PlatformReply>) -> ServicePhase {
    match phase {
        ServicePhase::Done(b) => ServicePhase::Done(b),
        _ if !has_unit => ServicePhase::Done(false),
        ServicePhase::Begin => {
            match op {
                ServiceOp::Status => ServicePhase::Querying,
                ServiceOp::Start => ServicePhase::Starting,
                ServiceOp::Stop => ServicePhase::Stopping,
            }
        },
        ServicePhase::Querying => match reply {
            Some(PlatformReply::Running) => ServicePhase::Done(true),
            Some(PlatformReply::Stopped) => ServicePhase::Starting,
            _ => ServicePhase::Done(false),
        },
        ServicePhase::Starting | ServicePhase::Stopping => ServicePhase::Done(
            reply == Some(PlatformReply::Succeeded),
        ),
        ServicePhase::Done(b) => ServicePhase::Done(b),
    }
}

/// The call that a phase waits on.
pub open spec fn call_of(phase: ServicePhase) -> Option<CallKind> {
    match phase {
        ServicePhase::Querying => Some(CallKind::Query),
        ServicePhase::Starting => Some(CallKind::Start),
        ServicePhase::Stopping => Some(CallKind::Stop),
        _ => None,
    }
}

/// The step that entering `phase` asks of the host.
pub open spec fn step_matches(s: ServiceStep, phase: ServicePhase, unit: Option<Seq<char>>) -> bool {
    match phase {
        ServicePhase::Done(b) => s == ServiceStep::Finish(b),
        _ => match s {
            ServiceStep::Call(c) => Some(c.kind) == call_of(phase) && Some(c.unit@) == unit,
            ServiceStep::Finish(_) => false,
        },
    }
}

impl ServiceSession {
    /// A request for `op` on the abstract service `service`.
    pub fn new(op: ServiceOp, service: &str) -> (r: ServiceSession)
        ensures
            r.op == op,
            r.unit.deep_view() == service_unit(service@),
            r.phase == ServicePhase::Begin,
    {
        ServiceSession { op, unit: to_linux_service_name(service), phase: ServicePhase::Begin }
    }

    /// Moves on with the reply to the last call and says what to do next.
    pub fn next(&mut self, reply: Option<PlatformReply>) -> (r: ServiceStep)
        ensures
            final(self).op == old(self).op,
            final(self).unit == old(self).unit,
            final(self).phase == advance(
                old(self).op,
                old(self).unit is Some,
                old(self).phase,
                reply,
            ),
            step_matches(r, final(self).phase, old(self).unit.deep_view()),
    {
        let phase = match self.phase {
            ServicePhase::Done(b) => ServicePhase::Done(b),
            _ if self.unit.is_none() => ServicePhase::Done(false),
            ServicePhase::Begin => match self.op {
                ServiceOp::Status => ServicePhase::Querying,
                ServiceOp::Start => ServicePhase::Starting,
                ServiceOp::Stop => ServicePhase::Stopping,
            },
            ServicePhase::Querying => match reply {
                Some(PlatformReply::Running) => ServicePhase::Done(true),
                Some(PlatformReply::Stopped) => ServicePhase::Starting,
                _ => ServicePhase::Done(false),
            },
            ServicePhase::Starting | ServicePhase::Stopping => ServicePhase::Done(
                match reply {
                    Some(PlatformReply::Succeeded) => true,
                    _ => false,
                },
            ),
        };
        self.phase = phase;
        let kind = match phase {
            ServicePhase::Done(b) => {
                return ServiceStep::Finish(b);
            },
            ServicePhase::Querying => CallKind::Query,
            ServicePhase::Starting => CallKind::Start,
            _ => CallKind::Stop,
        };
        match &self.unit {
            Some(u) => ServiceStep::Call(PlatformCall { kind, unit: u.clone() }),
            None => ServiceStep::Finish(false),
        }
    }
}

/// A status request on a service found stopped starts it, and answers true
/// exactly when that start succeeds.
pub proof fn lemma_status_starts_stopped_service(start_reply: PlatformReply)
    ensures
        advance(ServiceOp::Status, true, ServicePhase::Begin, None) == ServicePhase::Querying,
        advance(ServiceOp::Status, true, ServicePhase::Querying, Some(PlatformReply::Stopped))
            == ServicePhase::Starting,
        call_of(ServicePhase::Starting) == Some(CallKind::Start),
        advance(ServiceOp::Status, true, ServicePhase::Starting, Some(start_reply))
            == ServicePhase::Done(start_reply == PlatformReply::Succeeded),
{
}

/// A service the platform does not offer gets no platform call: status, start
/// and stop all answer false at once.
pub proof fn lemma_unsupported_makes_no_call(service: Seq<char>, op: ServiceOp, reply: Option<PlatformReply>)
    requires
        service_unit(service) is None,
    ensures
        advance(op, service_unit(service) is Some, ServicePhase::Begin, reply) == ServicePhase::Done(
            false,
        ),
        call_of(ServicePhase::Done(false)) is None,
{
}

} // verus!
