//! Laws of the workflows.
//!
//! The first part is proved of the transition function of [`crate::flow`],
//! for every sequence of signals that a driver could feed in. The second part
//! is proved of single steps of [`crate::workflow::Run::advance`], from what
//! its contract promises, and says what a step does to the session and what
//! it reports.

use vstd::prelude::*;
use crate::client::{G2GApiClient, G2GAuthTokens};
use crate::flow::{
    next, spec_replays_on_unauthorized, spec_successor, Command, Control, Endpoint, Flow, PauseKind,
    Signal, Stage, StatusClass, Verdict,
};
use crate::transport::{decoded_body, gunzip_of, has_gzip_magic, ApiError};
use crate::workflow::{follows, text_of, Action, Event, Outcome, Run};

verus! {

/// The state that a workflow reaches from `c` after the given signals.
pub open spec fn run(c: Control, signals: Seq<Signal>) -> Control
    decreases signals.len(),
{
    if signals.len() == 0 {
        c
    } else {
        run(next(c, signals[0]).0, signals.drop_first())
    }
}

/// How often the command `command` is given while the workflow in state `c`
/// is fed the given signals.
pub open spec fn times_given(c: Control, signals: Seq<Signal>, command: Command) -> nat
    decreases signals.len(),
{
    if signals.len() == 0 {
        0
    } else {
        let (after, given) = next(c, signals[0]);
        (if given == command {
            1nat
        } else {
            0nat
        }) + times_given(after, signals.drop_first(), command)
    }
}

/// The place of an endpoint in the order in which flows visit endpoints.
pub open spec fn rank(endpoint: Endpoint) -> nat {
    match endpoint {
        Endpoint::RefreshAccess => 0,
        Endpoint::Search => 1,
        Endpoint::CreateOffer => 2,
        Endpoint::UpdateOffer => 3,
        Endpoint::Softpin => 4,
        Endpoint::Job => 5,
    }
}

/// An upper bound on how often the call to `endpoint` can still be sent from
/// state `c`.
pub open spec fn calls_left(c: Control, endpoint: Endpoint) -> nat {
    let replay: nat = if spec_replays_on_unauthorized(endpoint) && !c.retried {
        1
    } else {
        0
    };
    match c.stage {
        Stage::Done => 0,
        Stage::Idle => 2,
        Stage::CallDecode => if rank(endpoint) > rank(c.endpoint) {
            2
        } else {
            0
        },
        Stage::CallSent => if c.endpoint == endpoint {
            replay
        } else if rank(endpoint) > rank(c.endpoint) {
            2
        } else {
            0
        },
        _ => if c.endpoint == endpoint {
            1 + replay
        } else if rank(endpoint) > rank(c.endpoint) {
            2
        } else {
            0
        },
    }
}

proof fn lemma_step_spends_call(c: Control, signal: Signal, endpoint: Endpoint)
    ensures
        (if next(c, signal).1 == Command::SendCall(endpoint) {
            1nat
        } else {
            0nat
        }) + calls_left(next(c, signal).0, endpoint) <= calls_left(c, endpoint),
{
}

proof fn lemma_calls_bounded(c: Control, signals: Seq<Signal>, endpoint: Endpoint)
    ensures
        times_given(c, signals, Command::SendCall(endpoint)) <= calls_left(c, endpoint),
    decreases signals.len(),
{
    if signals.len() > 0 {
        lemma_step_spends_call(c, signals[0], endpoint);
        lemma_calls_bounded(next(c, signals[0]).0, signals.drop_first(), endpoint);
    }
}

/// Whatever the driver reports, and in whatever order, no workflow sends the
/// call to one endpoint more than twice: once, and once more after a single
/// 401. The credential upload and the job submission, which are never
/// replayed, are sent at most once.
pub proof fn law_no_third_attempt(c: Control, signals: Seq<Signal>, endpoint: Endpoint)
    ensures
        times_given(c, signals, Command::SendCall(endpoint)) <= 2,
        !spec_replays_on_unauthorized(endpoint) ==> times_given(
            c,
            signals,
            Command::SendCall(endpoint),
        ) <= 1,
{
    lemma_calls_bounded(c, signals, endpoint);
    if !spec_replays_on_unauthorized(endpoint) {
        lemma_calls_bounded_single(c, signals, endpoint);
    }
}

/// A tighter bound for endpoints that are never replayed.
pub open spec fn single_calls_left(c: Control, endpoint: Endpoint) -> nat {
    match c.stage {
        Stage::Done => 0,
        Stage::Idle => 1,
        Stage::CallDecode | Stage::CallSent => if rank(endpoint) > rank(c.endpoint) {
            1
        } else {
            0
        },
        _ => if rank(endpoint) >= rank(c.endpoint) {
            1
        } else {
            0
        },
    }
}

proof fn lemma_calls_bounded_single(c: Control, signals: Seq<Signal>, endpoint: Endpoint)
    requires
        !spec_replays_on_unauthorized(endpoint),
    ensures
        times_given(c, signals, Command::SendCall(endpoint)) <= single_calls_left(c, endpoint),
    decreases signals.len(),
{
    if signals.len() > 0 {
        lemma_calls_bounded_single(next(c, signals[0]).0, signals.drop_first(), endpoint);
    }
}

/// The first 401 on a call that may be replayed discards the token and starts
/// a refresh, and does so only once: the state records that the replay is
/// used up. When the refresh then succeeds, the very same call is sent again,
/// after the pause of a search where the call is one.
pub proof fn law_unauthorized_refreshes_and_replays(c: Control, intact: bool)
    requires
        c.stage == Stage::CallSent,
        spec_replays_on_unauthorized(c.endpoint),
        !c.retried,
    ensures
        ({
            let signal = Signal::Reply { class: StatusClass::Unauthorized, intact };
            let (invalidated, first) = next(c, signal);
            let (sent, second) = next(invalidated, Signal::Woke);
            let (decoding, third) = next(
                sent,
                Signal::Reply { class: StatusClass::Success, intact: true },
            );
            let (resumed, fourth) = next(decoding, Signal::Decoded { accepted: true });
            &&& first == Command::Pause(PauseKind::PreRefresh)
            &&& !invalidated.has_token
            &&& invalidated.retried
            &&& invalidated.endpoint == c.endpoint
            &&& second == Command::SendRefresh
            &&& third == Command::DecodeRefresh
            &&& resumed.has_token
            &&& resumed.retried
            &&& resumed.endpoint == c.endpoint
            &&& if c.endpoint == Endpoint::Search {
                &&& fourth == Command::Pause(PauseKind::PreSearch)
                &&& next(resumed, Signal::Woke).1 == Command::SendCall(c.endpoint)
            } else {
                fourth == Command::SendCall(c.endpoint)
            }
        }),
{
}

/// A 401 on a call that has already been replayed, or that is never replayed,
/// ends the workflow with an authentication failure, and nothing is sent
/// after it.
pub proof fn law_second_unauthorized_is_terminal(
    c: Control,
    intact: bool,
    later: Seq<Signal>,
    command: Command,
)
    requires
        c.stage == Stage::CallSent,
        c.retried || !spec_replays_on_unauthorized(c.endpoint),
        !(command is Finish),
    ensures
        ({
            let signal = Signal::Reply { class: StatusClass::Unauthorized, intact };
            &&& next(c, signal).1 == Command::Finish(Verdict::AuthFailed)
            &&& next(c, signal).0.stage == Stage::Done
            &&& times_given(next(c, signal).0, later, command) == 0
        }),
{
    let signal = Signal::Reply { class: StatusClass::Unauthorized, intact };
    law_done_is_final(next(c, signal).0, later, command);
}

/// A finished workflow stays finished: it answers every further signal by
/// saying that it was not waiting for one, and never asks for a request, a
/// pause or a decoding again.
pub proof fn law_done_is_final(c: Control, signals: Seq<Signal>, command: Command)
    requires
        c.stage == Stage::Done,
        !(command is Finish),
    ensures
        run(c, signals) == c,
        times_given(c, signals, command) == 0,
    decreases signals.len(),
{
    if signals.len() > 0 {
        law_done_is_final(c, signals.drop_first(), command);
    }
}

/// Every command that ends a workflow leaves it finished, so that by
/// [`law_done_is_final`] nothing follows it. In particular a publication that
/// fails while populating the listing never goes on to upload credentials or
/// to submit the job.
pub proof fn law_failure_halts(c: Control, signal: Signal, later: Seq<Signal>, command: Command)
    requires
        next(c, signal).1 is Finish,
        !(command is Finish),
    ensures
        next(c, signal).0.stage == Stage::Done,
        next(c, signal).0.endpoint == c.endpoint || c.stage == Stage::Idle,
        times_given(next(c, signal).0, later, command) == 0,
{
    law_done_is_final(next(c, signal).0, later, command);
}

/// A publication reaches each step only through the success of the step
/// before it: the only signal that moves a workflow from one endpoint to the
/// next is the accepted reply to the call of the former.
pub proof fn law_steps_in_order(c: Control, signal: Signal)
    requires
        c.stage != Stage::Idle,
        next(c, signal).0.endpoint != c.endpoint,
    ensures
        c.stage == Stage::CallDecode,
        signal == (Signal::Decoded { accepted: true }),
        spec_successor(c.flow, c.endpoint) == Some(
            (
                match next(c, signal).1 {
                    Command::Pause(pause) => pause,
                    _ => PauseKind::PreRefresh,
                },
                next(c, signal).0.endpoint,
            ),
        ),
        next(c, signal).1 is Pause,
{
}

/// An upper bound on how often a refresh can still be sent while a token is
/// being ensured.
pub open spec fn refreshes_left(c: Control) -> nat {
    match c.stage {
        Stage::Idle => if c.has_token {
            0
        } else {
            1
        },
        Stage::RefreshPause => 1,
        Stage::RefreshSent | Stage::RefreshDecode | Stage::Done => 0,
        _ => 2,
    }
}

proof fn lemma_refreshes_bounded(c: Control, signals: Seq<Signal>)
    requires
        c.flow == Flow::EnsureToken,
        c.stage == Stage::Idle || c.stage == Stage::Done || c.endpoint == Endpoint::RefreshAccess,
        c.stage != Stage::CallPause,
        c.stage != Stage::CallSent,
        c.stage != Stage::CallDecode,
    ensures
        times_given(c, signals, Command::SendRefresh) <= refreshes_left(c),
    decreases signals.len(),
{
    if signals.len() > 0 {
        lemma_refreshes_bounded(next(c, signals[0]).0, signals.drop_first());
    }
}

proof fn lemma_token_needs_refresh(c: Control, signals: Seq<Signal>)
    requires
        !c.has_token,
        c.stage != Stage::RefreshSent,
        c.stage != Stage::RefreshDecode,
        run(c, signals).has_token,
    ensures
        times_given(c, signals, Command::SendRefresh) >= 1,
    decreases signals.len(),
{
    if signals.len() > 0 {
        let (after, given) = next(c, signals[0]);
        if given != Command::SendRefresh {
            lemma_token_needs_refresh(after, signals.drop_first());
        }
    }
}

/// Ensuring a token on a session that holds none sends the refresh request
/// exactly once by the time the session holds one, and never more than once;
/// on a session that holds a token it sends none at all.
pub proof fn law_ensure_token_refreshes_once(c: Control, signals: Seq<Signal>)
    requires
        c.flow == Flow::EnsureToken,
        c.stage == Stage::Idle,
    ensures
        c.has_token ==> times_given(c, signals, Command::SendRefresh) == 0,
        !c.has_token ==> times_given(c, signals, Command::SendRefresh) <= 1,
        !c.has_token && run(c, signals).has_token ==> times_given(
            c,
            signals,
            Command::SendRefresh,
        ) == 1,
        c.has_token ==> next(c, Signal::Start).1 == Command::Finish(Verdict::Completed),
{
    lemma_refreshes_bounded(c, signals);
    if !c.has_token && run(c, signals).has_token {
        lemma_token_needs_refresh(c, signals);
    }
}

/// A session that holds no token gets one only through a refresh: however a
/// workflow is driven, the session cannot come to hold a token without the
/// refresh request having been sent.
pub proof fn law_token_comes_from_refresh(c: Control, signals: Seq<Signal>)
    requires
        c.stage == Stage::Idle,
        !c.has_token,
        run(c, signals).has_token,
    ensures
        times_given(c, signals, Command::SendRefresh) >= 1,
{
    lemma_token_needs_refresh(c, signals);
}

/// A step that ensures a token on a session that holds one ends at once with
/// that token: nothing is sent and the session is left as it is.
pub proof fn law_held_token_is_kept(
    before: Run,
    client_before: G2GApiClient,
    tokens: G2GAuthTokens,
    after: Run,
    client_after: G2GApiClient,
    action: Action,
)
    requires
        before.flow == Flow::EnsureToken,
        before.stage == Stage::Idle,
        client_before.token() is Some,
        follows(before, client_before, tokens, Event::Start, after, client_after, action),
    ensures
        action matches Action::Finish(Outcome::Token(token)) && Some(token@)
            == client_before.token(),
        client_after.token() == client_before.token(),
        after.stage == Stage::Done,
{
}

/// The first 401 on a call that may be replayed discards the token of the
/// session and asks for the pause that precedes a refresh; nothing is
/// reported as failed.
pub proof fn law_unauthorized_discards_the_token(
    before: Run,
    client_before: G2GApiClient,
    tokens: G2GAuthTokens,
    body: Vec<u8>,
    after: Run,
    client_after: G2GApiClient,
    action: Action,
)
    requires
        before.stage == Stage::CallSent,
        spec_replays_on_unauthorized(before.endpoint),
        !before.retried,
        follows(
            before,
            client_before,
            tokens,
            Event::Reply { status: 401, body },
            after,
            client_after,
            action,
        ),
    ensures
        client_after.token() is None,
        action matches Action::Pause { kind, .. } && kind == PauseKind::PreRefresh,
        after.stage == Stage::RefreshPause,
        after.retried,
        after.endpoint == before.endpoint,
{
}

/// A 401 on a call that has been replayed, or that is never replayed, ends
/// the workflow with an authentication error that carries the status, and
/// leaves the token of the session as it is.
pub proof fn law_unauthorized_again_is_an_auth_error(
    before: Run,
    client_before: G2GApiClient,
    tokens: G2GAuthTokens,
    body: Vec<u8>,
    after: Run,
    client_after: G2GApiClient,
    action: Action,
)
    requires
        before.stage == Stage::CallSent,
        before.retried || !spec_replays_on_unauthorized(before.endpoint),
        follows(
            before,
            client_before,
            tokens,
            Event::Reply { status: 401, body },
            after,
            client_after,
            action,
        ),
    ensures
        action matches Action::Finish(Outcome::Failed(failure)) && (
        failure.error matches ApiError::Auth { status, .. } && status == 401),
        client_after.token() == client_before.token(),
        after.stage == Stage::Done,
{
}

/// Whenever a workflow asks for a payload to be decoded, the payload is what
/// the reply body stands for: the body itself, or what it decompresses to
/// where it begins with the gzip magic.
pub proof fn law_payload_is_decompressed_first(
    before: Run,
    client_before: G2GApiClient,
    tokens: G2GAuthTokens,
    event: Event,
    after: Run,
    client_after: G2GApiClient,
    action: Action,
)
    requires
        follows(before, client_before, tokens, event, after, client_after, action),
        action is Decode,
    ensures
        event matches Event::Reply { body, .. } && (action matches Action::Decode { payload, .. }
            && (if has_gzip_magic(body@) {
            gunzip_of(body@) == Some(payload@)
        } else {
            payload@ == body@
        })),
{
}

/// A reply is handled alike whether its body comes plain or compressed. Where
/// the compressed body decompresses to the plain one, the two replies leave
/// the workflow in the same control state and the session with the same
/// token, and where one hands a payload on for parsing, the other hands on
/// the same payload in the same shape. Whether to decompress is decided by
/// the two leading bytes alone.
pub proof fn law_compressed_reply_is_handled_as_plain(
    before: Run,
    client_before: G2GApiClient,
    tokens: G2GAuthTokens,
    status: u16,
    plain: Vec<u8>,
    packed: Vec<u8>,
    after_plain: Run,
    client_plain: G2GApiClient,
    action_plain: Action,
    after_packed: Run,
    client_packed: G2GApiClient,
    action_packed: Action,
)
    requires
        !has_gzip_magic(plain@),
        has_gzip_magic(packed@),
        gunzip_of(packed@) == Some(plain@),
        follows(
            before,
            client_before,
            tokens,
            Event::Reply { status, body: plain },
            after_plain,
            client_plain,
            action_plain,
        ),
        follows(
            before,
            client_before,
            tokens,
            Event::Reply { status, body: packed },
            after_packed,
            client_packed,
            action_packed,
        ),
    ensures
        decoded_body(plain@) == decoded_body(packed@),
        after_plain.control(client_plain) == after_packed.control(client_packed),
        client_plain.token() == client_packed.token(),
        text_of(after_plain.offer_id) == text_of(after_packed.offer_id),
        text_of(after_plain.relation_id) == text_of(after_packed.relation_id),
        after_plain.pending@ == after_packed.pending@,
        action_plain is Decode <==> action_packed is Decode,
        action_plain is Pause <==> action_packed is Pause,
        action_plain is Finish <==> action_packed is Finish,
        action_plain matches Action::Decode { shape, payload } ==> (
        action_packed matches Action::Decode { shape: other_shape, payload: other_payload }
            && other_shape == shape && other_payload@ == payload@ && payload@ == plain@),
{
}

/// A reply with a success status whose body begins with the gzip magic but
/// does not decompress ends the workflow with a decode error: nothing is
/// handed on for parsing.
pub proof fn law_corrupt_gzip_is_a_decode_error(
    before: Run,
    client_before: G2GApiClient,
    tokens: G2GAuthTokens,
    status: u16,
    body: Vec<u8>,
    after: Run,
    client_after: G2GApiClient,
    action: Action,
)
    requires
        before.stage == Stage::CallSent || before.stage == Stage::RefreshSent,
        200 <= status <= 299,
        has_gzip_magic(body@),
        gunzip_of(body@) is None,
        follows(
            before,
            client_before,
            tokens,
            Event::Reply { status, body },
            after,
            client_after,
            action,
        ),
    ensures
        action matches Action::Finish(Outcome::Failed(failure)) && failure.error is Decode,
        after.stage == Stage::Done,
{
}

/// A publication that fails while the listing is being populated reports the
/// identifier of the listing that it had created, and ends: by
/// [`law_done_is_final`] the credential upload is never attempted.
pub proof fn law_failed_details_keep_the_offer_id(
    before: Run,
    client_before: G2GApiClient,
    tokens: G2GAuthTokens,
    event: Event,
    after: Run,
    client_after: G2GApiClient,
    action: Action,
)
    requires
        before.wf(),
        before.flow == Flow::Publish,
        before.endpoint == Endpoint::UpdateOffer,
        before.stage != Stage::Idle,
        before.stage != Stage::Done,
        follows(before, client_before, tokens, event, after, client_after, action),
        action is Finish,
    ensures
        action matches Action::Finish(Outcome::Failed(failure)) && failure.offer_id is Some
            && text_of(failure.offer_id) == text_of(before.offer_id),
        after.stage == Stage::Done,
        after.endpoint == Endpoint::UpdateOffer,
{
}

/// No step of a workflow loses an identifier: once the remote side has
/// issued one, the workflow carries it to its end.
pub proof fn law_identifiers_are_kept(
    before: Run,
    client_before: G2GApiClient,
    tokens: G2GAuthTokens,
    event: Event,
    after: Run,
    client_after: G2GApiClient,
    action: Action,
)
    requires
        follows(before, client_before, tokens, event, after, client_after, action),
    ensures
        before.offer_id is Some ==> after.offer_id is Some,
        before.relation_id is Some ==> after.relation_id is Some,
{
}

} // verus!
