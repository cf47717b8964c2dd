//! The control skeleton of every workflow: which step comes next, given what
//! just happened.
//!
//! A workflow never performs a request or a pause itself. It answers each
//! [`Signal`] with a [`Command`] for the driver, and moves its [`Control`]
//! state along. The state is small and holds no text, so the whole transition
//! function is also a specification: the laws of [`crate::laws`] are proved
//! of it directly, and the data layer in [`crate::workflow`] is proved to
//! follow it.

use vstd::prelude::*;

verus! {

/// The remote operations.
#[derive(Debug, Clone, Copy, PartialEq, Eq, Structural)]
pub enum Endpoint {
    /// `POST /user/refresh_access`, sent without a bearer token.
    RefreshAccess,
    /// `GET /offer/search`.
    Search,
    /// `POST /offer`.
    CreateOffer,
    /// `PUT /offer/{id}`.
    UpdateOffer,
    /// `POST /inventory/softpin`.
    Softpin,
    /// `POST /inventory/job`.
    Job,
}

/// What a workflow is for.
#[derive(Debug, Clone, Copy, PartialEq, Eq, Structural)]
pub enum Flow {
    /// Acquire a token only if none is held.
    EnsureToken,
    /// Acquire a fresh token unconditionally.
    Refresh,
    /// One catalog search.
    Search,
    /// Create a placeholder listing.
    CreateOffer,
    /// Populate a listing with its details.
    UpdateOffer,
    /// Upload the credential payload of a listing.
    Softpin,
    /// Upload the credential payload, then submit the processing job.
    Upload,
    /// The whole publication: create, populate, upload, submit.
    Publish,
}

/// Where a workflow stands.
#[derive(Debug, Clone, Copy, PartialEq, Eq, Structural)]
pub enum Stage {
    /// Not started.
    Idle,
    /// Waiting out the pause that precedes a token refresh.
    RefreshPause,
    /// The refresh request is in flight.
    RefreshSent,
    /// The refresh reply is being decoded.
    RefreshDecode,
    /// Waiting out the pause that precedes the call.
    CallPause,
    /// The call is in flight.
    CallSent,
    /// The reply to the call is being decoded.
    CallDecode,
    /// Finished, with success or failure. Nothing further is ever sent.
    Done,
}

/// The named pauses of the pacing policy.
#[derive(Debug, Clone, Copy, PartialEq, Eq, Structural)]
pub enum PauseKind {
    /// Before a token refresh.
    PreRefresh,
    /// Before a catalog search.
    PreSearch,
    /// Between the steps of a publication.
    InterOfferStep,
    /// Between the credential upload and the job submission.
    InterUploadStep,
    /// Between two searches of a batch.
    InterSkin,
}

/// The class of an HTTP status, as far as the workflows tell statuses apart.
#[derive(Debug, Clone, Copy, PartialEq, Eq, Structural)]
pub enum StatusClass {
    /// 200 to 299.
    Success,
    /// 401.
    Unauthorized,
    /// Anything else.
    OtherFailure,
}

/// What the driver reports, reduced to what the control flow depends on.
#[derive(Debug, Clone, Copy, PartialEq, Eq, Structural)]
pub enum Signal {
    /// The workflow is started.
    Start,
    /// A pause is over.
    Woke,
    /// A reply arrived. `intact` tells whether its body could be taken out of
    /// its compression, where it had one.
    Reply { class: StatusClass, intact: bool },
    /// The request could not be carried out.
    TransportFailed,
    /// The reply was decoded into the expected shape. `accepted` tells whether
    /// its application code and payload denote success.
    Decoded { accepted: bool },
    /// The reply was not valid JSON of the expected shape.
    Malformed,
    /// Something that cannot be an answer to any command of this library.
    Stray,
}

/// How a workflow ended.
#[derive(Debug, Clone, Copy, PartialEq, Eq, Structural)]
pub enum Verdict {
    Completed,
    TransportFailed,
    DecodeFailed,
    ParseFailed,
    AuthFailed,
    /// The remote side answered with a failure status other than 401.
    Rejected,
    /// The reply was well formed but its application code or payload denotes
    /// failure.
    Refused,
    /// The driver reported something that the workflow was not waiting for.
    OutOfTurn,
}

/// What the driver is asked to do next.
#[derive(Debug, Clone, Copy, PartialEq, Eq, Structural)]
pub enum Command {
    /// Wait for a random time in the range of the given pause.
    Pause(PauseKind),
    /// Send the token refresh request.
    SendRefresh,
    /// Send the request of the given endpoint.
    SendCall(Endpoint),
    /// Decode the reply to the refresh request.
    DecodeRefresh,
    /// Decode the reply of the given endpoint.
    DecodeCall(Endpoint),
    /// Stop: the workflow has ended.
    Finish(Verdict),
}

/// The control state of a workflow.
#[derive(Debug, Clone, Copy, PartialEq, Eq, Structural)]
pub struct Control {
    pub flow: Flow,
    /// The endpoint that the workflow is currently working towards.
    pub endpoint: Endpoint,
    pub stage: Stage,
    /// Whether the call to `endpoint` has already been replayed after a 401.
    pub retried: bool,
    /// Whether the session holds a bearer token.
    pub has_token: bool,
}

/// The first endpoint of a flow.
pub open spec fn spec_first_endpoint(flow: Flow) -> Endpoint {
    match flow {
        Flow::EnsureToken => Endpoint::RefreshAccess,
        Flow::Refresh => Endpoint::RefreshAccess,
        Flow::Search => Endpoint::Search,
        Flow::CreateOffer => Endpoint::CreateOffer,
        Flow::UpdateOffer => Endpoint::UpdateOffer,
        Flow::Softpin => Endpoint::Softpin,
        Flow::Upload => Endpoint::Softpin,
        Flow::Publish => Endpoint::CreateOffer,
    }
}

/// The first endpoint of a flow.
#[verifier::when_used_as_spec(spec_first_endpoint)]
pub fn first_endpoint(flow: Flow) -> (endpoint: Endpoint)
    ensures
        endpoint == spec_first_endpoint(flow),
{
    match flow {
        Flow::EnsureToken => Endpoint::RefreshAccess,
        Flow::Refresh => Endpoint::RefreshAccess,
        Flow::Search => Endpoint::Search,
        Flow::CreateOffer => Endpoint::CreateOffer,
        Flow::UpdateOffer => Endpoint::UpdateOffer,
        Flow::Softpin => Endpoint::Softpin,
        Flow::Upload => Endpoint::Softpin,
        Flow::Publish => Endpoint::CreateOffer,
    }
}

/// Whether a 401 on this endpoint is answered, once, by discarding the token,
/// refreshing it and replaying the call. The credential upload and the job
/// submission are never replayed: a replay there could submit twice.
pub open spec fn spec_replays_on_unauthorized(endpoint: Endpoint) -> bool {
    endpoint == Endpoint::Search || endpoint == Endpoint::CreateOffer || endpoint
        == Endpoint::UpdateOffer
}

/// Whether a 401 on this endpoint is answered, once, by a refresh and a replay.
#[verifier::when_used_as_spec(spec_replays_on_unauthorized)]
pub fn replays_on_unauthorized(endpoint: Endpoint) -> (replays: bool)
    ensures
        replays == spec_replays_on_unauthorized(endpoint),
{
    match endpoint {
        Endpoint::Search => true,
        Endpoint::CreateOffer => true,
        Endpoint::UpdateOffer => true,
        _ => false,
    }
}

/// The step that follows a successful call to `endpoint` in `flow`, with the
/// pause that separates the two, if the flow goes on.
pub open spec fn spec_successor(flow: Flow, endpoint: Endpoint) -> Option<(PauseKind, Endpoint)> {
    match (flow, endpoint) {
        (Flow::Publish, Endpoint::CreateOffer) => Some(
            (PauseKind::InterOfferStep, Endpoint::UpdateOffer),
        ),
        (Flow::Publish, Endpoint::UpdateOffer) => Some(
            (PauseKind::InterOfferStep, Endpoint::Softpin),
        ),
        (Flow::Publish, Endpoint::Softpin) => Some((PauseKind::InterUploadStep, Endpoint::Job)),
        (Flow::Upload, Endpoint::Softpin) => Some((PauseKind::InterUploadStep, Endpoint::Job)),
        _ => None,
    }
}

/// The step that follows a successful call to `endpoint` in `flow`.
#[verifier::when_used_as_spec(spec_successor)]
pub fn successor(flow: Flow, endpoint: Endpoint) -> (next: Option<(PauseKind, Endpoint)>)
    ensures
        next == spec_successor(flow, endpoint),
{
    match (flow, endpoint) {
        (Flow::Publish, Endpoint::CreateOffer) => Some(
            (PauseKind::InterOfferStep, Endpoint::UpdateOffer),
        ),
        (Flow::Publish, Endpoint::UpdateOffer) => Some(
            (PauseKind::InterOfferStep, Endpoint::Softpin),
        ),
        (Flow::Publish, Endpoint::Softpin) => Some((PauseKind::InterUploadStep, Endpoint::Job)),
        (Flow::Upload, Endpoint::Softpin) => Some((PauseKind::InterUploadStep, Endpoint::Job)),
        _ => None,
    }
}

/// The state in which a workflow ends, whatever its outcome.
pub open spec fn spec_finished(c: Control) -> Control {
    Control { stage: Stage::Done, ..c }
}

/// The state and command with which the call to the current endpoint begins:
/// a search is preceded by its pause, every other call is sent at once.
pub open spec fn spec_begin_call(c: Control) -> (Control, Command) {
    if c.endpoint == Endpoint::Search {
        (Control { stage: Stage::CallPause, ..c }, Command::Pause(PauseKind::PreSearch))
    } else {
        (Control { stage: Stage::CallSent, ..c }, Command::SendCall(c.endpoint))
    }
}

/// The state and command with which a token refresh begins.
pub open spec fn spec_begin_refresh(c: Control) -> (Control, Command) {
    (Control { stage: Stage::RefreshPause, ..c }, Command::Pause(PauseKind::PreRefresh))
}

/// The state and command with which a workflow ends.
pub open spec fn spec_finish(c: Control, verdict: Verdict) -> (Control, Command) {
    (spec_finished(c), Command::Finish(verdict))
}

/// The transition function: the state after `signal` arrives in state `c`,
/// and the command that answers it.
pub open spec fn next(c: Control, signal: Signal) -> (Control, Command) {
    match (c.stage, signal) {
        (Stage::Idle, Signal::Start) => {
            let c = Control { endpoint: spec_first_endpoint(c.flow), retried: false, ..c };
            match c.flow {
                Flow::EnsureToken => if c.has_token {
                    spec_finish(c, Verdict::Completed)
                } else {
                    spec_begin_refresh(c)
                },
                Flow::Refresh => spec_begin_refresh(c),
                Flow::Search => if c.has_token {
                    spec_begin_call(c)
                } else {
                    spec_begin_refresh(c)
                },
                Flow::CreateOffer => spec_begin_refresh(c),
                Flow::Publish => spec_begin_refresh(c),
                _ => spec_begin_call(c),
            }
        },
        (Stage::RefreshPause, Signal::Woke) => (
            Control { stage: Stage::RefreshSent, ..c },
            Command::SendRefresh,
        ),
        (Stage::RefreshSent, Signal::Reply { class, intact }) => {
            if class != StatusClass::Success {
                spec_finish(c, Verdict::AuthFailed)
            } else if !intact {
                spec_finish(c, Verdict::DecodeFailed)
            } else {
                (Control { stage: Stage::RefreshDecode, ..c }, Command::DecodeRefresh)
            }
        },
        (Stage::RefreshDecode, Signal::Decoded { accepted }) => {
            if !accepted {
                spec_finish(c, Verdict::Refused)
            } else {
                let c = Control { has_token: true, ..c };
                if c.endpoint == Endpoint::RefreshAccess {
                    spec_finish(c, Verdict::Completed)
                } else {
                    spec_begin_call(c)
                }
            }
        },
        (Stage::CallPause, Signal::Woke) => (
            Control { stage: Stage::CallSent, ..c },
            Command::SendCall(c.endpoint),
        ),
        (Stage::CallSent, Signal::Reply { class, intact }) => {
            if class == StatusClass::Unauthorized {
                if spec_replays_on_unauthorized(c.endpoint) && !c.retried {
                    spec_begin_refresh(Control { has_token: false, retried: true, ..c })
                } else {
                    spec_finish(c, Verdict::AuthFailed)
                }
            } else if class != StatusClass::Success {
                spec_finish(c, Verdict::Rejected)
            } else if !intact {
                spec_finish(c, Verdict::DecodeFailed)
            } else {
                (Control { stage: Stage::CallDecode, ..c }, Command::DecodeCall(c.endpoint))
            }
        },
        (Stage::CallDecode, Signal::Decoded { accepted }) => {
            if !accepted {
                spec_finish(c, Verdict::Refused)
            } else {
                match spec_successor(c.flow, c.endpoint) {
                    Some((pause, endpoint)) => (
                        Control { endpoint, retried: false, stage: Stage::CallPause, ..c },
                        Command::Pause(pause),
                    ),
                    None => spec_finish(c, Verdict::Completed),
                }
            }
        },
        (Stage::RefreshSent, Signal::TransportFailed) => spec_finish(c, Verdict::TransportFailed),
        (Stage::CallSent, Signal::TransportFailed) => spec_finish(c, Verdict::TransportFailed),
        (Stage::RefreshDecode, Signal::Malformed) => spec_finish(c, Verdict::ParseFailed),
        (Stage::CallDecode, Signal::Malformed) => spec_finish(c, Verdict::ParseFailed),
        _ => spec_finish(c, Verdict::OutOfTurn),
    }
}

fn finish(c: Control, verdict: Verdict) -> (r: (Control, Command))
    ensures
        r == spec_finish(c, verdict),
{
    (Control { stage: Stage::Done, ..c }, Command::Finish(verdict))
}

fn begin_call(c: Control) -> (r: (Control, Command))
    ensures
        r == spec_begin_call(c),
{
    match c.endpoint {
        Endpoint::Search => (
            Control { stage: Stage::CallPause, ..c },
            Command::Pause(PauseKind::PreSearch),
        ),
        _ => (Control { stage: Stage::CallSent, ..c }, Command::SendCall(c.endpoint)),
    }
}

fn begin_refresh(c: Control) -> (r: (Control, Command))
    ensures
        r == spec_begin_refresh(c),
{
    (Control { stage: Stage::RefreshPause, ..c }, Command::Pause(PauseKind::PreRefresh))
}

/// Takes one step: the state after `signal` arrives in state `c`, and the
/// command that answers it.
pub fn step(c: Control, signal: Signal) -> (r: (Control, Command))
    ensures
        r == next(c, signal),
{
    match (c.stage, signal) {
        (Stage::Idle, Signal::Start) => {
            let c = Control { endpoint: first_endpoint(c.flow), retried: false, ..c };
            match c.flow {
                Flow::EnsureToken => if c.has_token {
                    finish(c, Verdict::Completed)
                } else {
                    begin_refresh(c)
                },
                Flow::Refresh => begin_refresh(c),
                Flow::Search => if c.has_token {
                    begin_call(c)
                } else {
                    begin_refresh(c)
                },
                Flow::CreateOffer => begin_refresh(c),
                Flow::Publish => begin_refresh(c),
                _ => begin_call(c),
            }
        },
        (Stage::RefreshPause, Signal::Woke) => (
            Control { stage: Stage::RefreshSent, ..c },
            Command::SendRefresh,
        ),
        (Stage::RefreshSent, Signal::Reply { class, intact }) => {
            match class {
                StatusClass::Success => if !intact {
                    finish(c, Verdict::DecodeFailed)
                } else {
                    (Control { stage: Stage::RefreshDecode, ..c }, Command::DecodeRefresh)
                },
                _ => finish(c, Verdict::AuthFailed),
            }
        },
        (Stage::RefreshDecode, Signal::Decoded { accepted }) => {
            if !accepted {
                finish(c, Verdict::Refused)
            } else {
                let c = Control { has_token: true, ..c };
                match c.endpoint {
                    Endpoint::RefreshAccess => finish(c, Verdict::Completed),
                    _ => begin_call(c),
                }
            }
        },
        (Stage::CallPause, Signal::Woke) => (
            Control { stage: Stage::CallSent, ..c },
            Command::SendCall(c.endpoint),
        ),
        (Stage::CallSent, Signal::Reply { class, intact }) => {
            match class {
                StatusClass::Unauthorized => if replays_on_unauthorized(c.endpoint) && !c.retried {
                    begin_refresh(Control { has_token: false, retried: true, ..c })
                } else {
                    finish(c, Verdict::AuthFailed)
                },
                StatusClass::OtherFailure => finish(c, Verdict::Rejected),
                StatusClass::Success => if !intact {
                    finish(c, Verdict::DecodeFailed)
                } else {
                    (Control { stage: Stage::CallDecode, ..c }, Command::DecodeCall(c.endpoint))
                },
            }
        },
        (Stage::CallDecode, Signal::Decoded { accepted }) => {
            if !accepted {
                finish(c, Verdict::Refused)
            } else {
                match successor(c.flow, c.endpoint) {
                    Some((pause, endpoint)) => (
                        Control { endpoint, retried: false, stage: Stage::CallPause, ..c },
                        Command::Pause(pause),
                    ),
                    None => finish(c, Verdict::Completed),
                }
            }
        },
        (Stage::RefreshSent, Signal::TransportFailed) => finish(c, Verdict::TransportFailed),
        (Stage::CallSent, Signal::TransportFailed) => finish(c, Verdict::TransportFailed),
        (Stage::RefreshDecode, Signal::Malformed) => finish(c, Verdict::ParseFailed),
        (Stage::CallDecode, Signal::Malformed) => finish(c, Verdict::ParseFailed),
        _ => finish(c, Verdict::OutOfTurn),
    }
}

} // verus!
