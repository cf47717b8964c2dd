//! The workflows of a client, driven from outside.
//!
//! A [`Run`] is one workflow under way. The driver hands it what happened as
//! an [`Event`] and gets back what to do next as an [`Action`]: wait, send a
//! request, decode a reply, or stop with an [`Outcome`]. Which step follows
//! which is decided by the transition function of [`crate::flow`]; this
//! module adds the data: the requests, the tokens and identifiers that are
//! carried along, and what an outcome holds.

use vstd::prelude::*;
use vstd::string::*;
use crate::client::{
    is_create_offer_request, is_job_request, is_refresh_request, is_search_request,
    is_softpin_request, is_update_offer_request, G2GApiClient, G2GAuthTokens, ListingDraft,
};
use crate::flow::{
    first_endpoint, next, spec_first_endpoint, step, Command, Control, Endpoint, Flow, PauseKind,
    Signal, Stage, StatusClass, Verdict,
};
use crate::pacing::{draw_pause, pause_ceiling, pause_floor};
use crate::search::{is_quote_of, quote_for, CatalogOffer, PriceQuote};
use crate::text::lowercase_text;
use crate::transport::{
    classify_status, decode_body, decoded_body, error_description, lossy_text, lossy_text_of,
    preview, preview_bytes_of, status_class_of, ApiError, HttpRequest, RemoteFault, SUCCESS_CODE,
};

verus! {

/// The shapes that a reply can be decoded into.
#[derive(Debug, Clone, Copy, PartialEq, Eq, Structural)]
pub enum Shape {
    Refresh,
    Search,
    CreateOffer,
    UpdateOffer,
    Status,
}

/// The reply to a token refresh.
#[derive(Debug, Clone)]
pub struct RefreshResponse {
    pub access_token: String,
}

/// The reply to a catalog search.
#[derive(Debug, Clone)]
pub struct SearchResponse {
    pub code: i32,
    pub results: Vec<CatalogOffer>,
}

/// The reply to the creation of a placeholder listing.
#[derive(Debug, Clone)]
pub struct CreateOfferResponse {
    pub code: i32,
    pub offer_id: String,
}

/// The reply to the population of a listing. The relation identifier is
/// absent where the reply carries no payload.
#[derive(Debug, Clone)]
pub struct UpdateOfferResponse {
    pub code: i32,
    pub relation_id: Option<String>,
}

/// A reply of which only the application code matters. The code is absent
/// where the reply has none that is a whole number.
#[derive(Debug, Clone)]
pub struct StatusResponse {
    pub code: Option<i64>,
}

/// A decoded reply.
#[derive(Debug, Clone)]
pub enum Envelope {
    Refresh(RefreshResponse),
    Search(SearchResponse),
    CreateOffer(CreateOfferResponse),
    UpdateOffer(UpdateOfferResponse),
    Status(StatusResponse),
}

/// What the driver reports to a workflow.
#[derive(Debug, Clone)]
pub enum Event {
    /// The workflow is started.
    Start,
    /// The pause that was asked for is over.
    Woke,
    /// The request that was asked for got this reply.
    Reply { status: u16, body: Vec<u8> },
    /// The request that was asked for could not be carried out.
    TransportFailed { detail: String },
    /// The payload that was to be decoded is this.
    Decoded(Envelope),
    /// The payload that was to be decoded is not JSON of the shape asked
    /// for.
    Malformed { detail: String },
}

/// Why a workflow failed, and what it had obtained by then. A listing that
/// was created but not completed stays on the remote side: its identifiers
/// are kept here so that it can be dealt with by hand.
#[derive(Debug, Clone)]
pub struct Failure {
    pub error: ApiError,
    pub offer_id: Option<String>,
    pub relation_id: Option<String>,
}

/// How a workflow ended.
#[derive(Debug, Clone)]
pub enum Outcome {
    /// The session holds this bearer token.
    Token(String),
    /// The search gave this quote.
    Quote(PriceQuote),
    /// The listing with this identifier was created or published.
    OfferId(String),
    /// The listing was populated and got this relation identifier.
    RelationId(String),
    /// The credential data was uploaded.
    Uploaded,
    /// The workflow failed.
    Failed(Failure),
}

/// What the driver is asked to do next.
#[derive(Debug, Clone)]
pub enum Action {
    /// Wait for `millis` milliseconds, then report [`Event::Woke`].
    Pause { kind: PauseKind, millis: u64 },
    /// Send the request, then report its reply or the failure to get one.
    Send(HttpRequest),
    /// Decode the payload as JSON of the given shape, then report the result.
    Decode { shape: Shape, payload: Vec<u8> },
    /// Stop: the workflow has ended.
    Finish(Outcome),
}

/// One workflow under way.
pub struct Run {
    pub flow: Flow,
    pub endpoint: Endpoint,
    pub stage: Stage,
    pub retried: bool,
    /// The search term, for a search.
    pub term: String,
    /// The server to search on, for a search.
    pub server: String,
    /// The listing to publish, for a publication or one of its steps.
    pub draft: ListingDraft,
    /// The identifier of the listing, once the remote side has issued it.
    pub offer_id: Option<String>,
    /// The relation identifier of the listing, once issued.
    pub relation_id: Option<String>,
    /// The payload that the driver was last asked to decode.
    pub pending: Vec<u8>,
}

/// The text of an optional string.
pub open spec fn text_of(value: Option<String>) -> Option<Seq<char>> {
    match value {
        Some(s) => Some(s@),
        None => None,
    }
}

/// The shape that the reply of an endpoint is decoded into.
pub open spec fn spec_shape_of(endpoint: Endpoint) -> Shape {
    match endpoint {
        Endpoint::RefreshAccess => Shape::Refresh,
        Endpoint::Search => Shape::Search,
        Endpoint::CreateOffer => Shape::CreateOffer,
        Endpoint::UpdateOffer => Shape::UpdateOffer,
        Endpoint::Softpin => Shape::Status,
        Endpoint::Job => Shape::Status,
    }
}

/// The shape that the reply of an endpoint is decoded into.
#[verifier::when_used_as_spec(spec_shape_of)]
pub fn shape_of(endpoint: Endpoint) -> (shape: Shape)
    ensures
        shape == spec_shape_of(endpoint),
{
    match endpoint {
        Endpoint::RefreshAccess => Shape::Refresh,
        Endpoint::Search => Shape::Search,
        Endpoint::CreateOffer => Shape::CreateOffer,
        Endpoint::UpdateOffer => Shape::UpdateOffer,
        Endpoint::Softpin => Shape::Status,
        Endpoint::Job => Shape::Status,
    }
}

/// The shape of a decoded reply.
pub open spec fn envelope_shape(envelope: Envelope) -> Shape {
    match envelope {
        Envelope::Refresh(_) => Shape::Refresh,
        Envelope::Search(_) => Shape::Search,
        Envelope::CreateOffer(_) => Shape::CreateOffer,
        Envelope::UpdateOffer(_) => Shape::UpdateOffer,
        Envelope::Status(_) => Shape::Status,
    }
}

/// Whether a decoded reply denotes success: a token refresh and a search
/// always do; the creation of a listing and the uploads need the success
/// code; the population of a listing needs the success code and a payload.
pub open spec fn accepts(envelope: Envelope) -> bool {
    match envelope {
        Envelope::Refresh(_) => true,
        Envelope::Search(_) => true,
        Envelope::CreateOffer(reply) => reply.code == SUCCESS_CODE,
        Envelope::UpdateOffer(reply) => reply.code == SUCCESS_CODE && reply.relation_id is Some,
        Envelope::Status(reply) => reply.code == Some(SUCCESS_CODE),
    }
}

/// What the remote side is blamed for when a decoded reply does not denote
/// success.
pub open spec fn is_fault_of(fault: RemoteFault, envelope: Envelope) -> bool {
    match envelope {
        Envelope::CreateOffer(reply) => {
            &&& fault matches RemoteFault::Code { code }
            &&& code == Some(reply.code as i64)
        },
        Envelope::UpdateOffer(reply) => if reply.code != SUCCESS_CODE {
            &&& fault matches RemoteFault::Code { code }
            &&& code == Some(reply.code as i64)
        } else {
            fault is MissingPayload
        },
        Envelope::Status(reply) => {
            &&& fault matches RemoteFault::Code { code }
            &&& code == reply.code
        },
        _ => true,
    }
}

/// The endpoint whose reply a workflow is waiting to have decoded.
pub open spec fn awaited_endpoint(run: Run) -> Endpoint {
    if run.stage == Stage::RefreshDecode {
        Endpoint::RefreshAccess
    } else {
        run.endpoint
    }
}

/// What an event means to the control flow of a workflow.
pub open spec fn signal_of(run: Run, event: Event) -> Signal {
    match event {
        Event::Start => Signal::Start,
        Event::Woke => Signal::Woke,
        Event::Reply { status, body } => Signal::Reply {
            class: status_class_of(status),
            intact: decoded_body(body@) is Some,
        },
        Event::TransportFailed { .. } => Signal::TransportFailed,
        Event::Decoded(envelope) => if envelope_shape(envelope) == spec_shape_of(
            awaited_endpoint(run),
        ) {
            Signal::Decoded { accepted: accepts(envelope) }
        } else {
            Signal::Stray
        },
        Event::Malformed { .. } => Signal::Malformed,
    }
}

/// Whether `request` is the call to the current endpoint of `run`, built from
/// what the run carries.
pub open spec fn is_call_request(
    request: HttpRequest,
    run: Run,
    client: G2GApiClient,
    tokens: G2GAuthTokens,
) -> bool {
    match run.endpoint {
        Endpoint::RefreshAccess => is_refresh_request(request, client.session(), tokens),
        Endpoint::Search => is_search_request(
            request,
            client.session(),
            client.token(),
            run.term@,
            run.server@,
        ),
        Endpoint::CreateOffer => is_create_offer_request(
            request,
            client.session(),
            client.token(),
            tokens.user_id@,
        ),
        Endpoint::UpdateOffer => {
            &&& run.offer_id matches Some(offer_id)
            &&& is_update_offer_request(
                request,
                client.session(),
                client.token(),
                tokens.user_id@,
                offer_id@,
                run.draft,
            )
        },
        Endpoint::Softpin => {
            &&& run.offer_id matches Some(offer_id)
            &&& run.relation_id matches Some(relation_id)
            &&& is_softpin_request(
                request,
                client.session(),
                client.token(),
                tokens.user_id@,
                offer_id@,
                relation_id@,
                run.draft.credential_payload@,
            )
        },
        Endpoint::Job => {
            &&& run.offer_id matches Some(offer_id)
            &&& run.relation_id matches Some(relation_id)
            &&& is_job_request(
                request,
                client.session(),
                client.token(),
                tokens.user_id@,
                offer_id@,
                relation_id@,
            )
        },
    }
}

/// Whether `error` is what a workflow that ended with `verdict` reports.
pub open spec fn blames(verdict: Verdict, error: ApiError, before: Run, event: Event) -> bool {
    match verdict {
        Verdict::Completed => false,
        Verdict::TransportFailed => {
            &&& error matches ApiError::Transport { detail }
            &&& event matches Event::TransportFailed { detail: reported }
            &&& detail@ == reported@
        },
        Verdict::DecodeFailed => error is Decode,
        Verdict::ParseFailed => {
            &&& error matches ApiError::Parse { detail, preview }
            &&& event matches Event::Malformed { detail: reported }
            &&& detail@ == reported@
            &&& preview@ == lossy_text_of(preview_bytes_of(before.pending@))
        },
        Verdict::AuthFailed => {
            &&& error matches ApiError::Auth { status, body }
            &&& event matches Event::Reply { status: got, body: raw }
            &&& status == got
            &&& body@ == lossy_text_of(raw@)
        },
        Verdict::Rejected => {
            &&& error matches ApiError::Remote(RemoteFault::Status { status, body })
            &&& event matches Event::Reply { status: got, body: raw }
            &&& status == got
            &&& body@ == lossy_text_of(raw@)
        },
        Verdict::Refused => {
            &&& error matches ApiError::Remote(fault)
            &&& event matches Event::Decoded(envelope)
            &&& is_fault_of(fault, envelope)
        },
        Verdict::OutOfTurn => error is OutOfTurn,
    }
}

/// Whether `outcome` is what a workflow that completed reports.
pub open spec fn completes(outcome: Outcome, before: Run, event: Event, client: G2GApiClient) -> bool {
    if before.stage != Stage::CallDecode {
        &&& outcome matches Outcome::Token(token)
        &&& client.token() == Some(token@)
    } else {
        match before.endpoint {
            Endpoint::RefreshAccess => true,
            Endpoint::Search => {
                &&& event matches Event::Decoded(Envelope::Search(reply))
                &&& outcome matches Outcome::Quote(quote)
                &&& is_quote_of(quote, reply.results@, lowercase_text(before.term@))
            },
            Endpoint::CreateOffer => {
                &&& event matches Event::Decoded(Envelope::CreateOffer(reply))
                &&& outcome matches Outcome::OfferId(id)
                &&& id@ == reply.offer_id@
            },
            Endpoint::UpdateOffer => {
                &&& event matches Event::Decoded(Envelope::UpdateOffer(reply))
                &&& outcome matches Outcome::RelationId(id)
                &&& Some(id@) == text_of(reply.relation_id)
            },
            Endpoint::Softpin => outcome is Uploaded,
            Endpoint::Job => if before.flow == Flow::Publish {
                &&& outcome matches Outcome::OfferId(id)
                &&& Some(id@) == text_of(before.offer_id)
            } else {
                outcome is Uploaded
            },
        }
    }
}

/// Whether `outcome` is what a workflow that ended with `verdict` reports: on
/// success what it was run for; on failure the error, together with the
/// identifiers that the workflow had obtained before it failed.
pub open spec fn concludes(
    verdict: Verdict,
    outcome: Outcome,
    before: Run,
    event: Event,
    client: G2GApiClient,
) -> bool {
    if verdict == Verdict::Completed {
        completes(outcome, before, event, client)
    } else {
        &&& outcome matches Outcome::Failed(failure)
        &&& text_of(failure.offer_id) == text_of(before.offer_id)
        &&& text_of(failure.relation_id) == text_of(before.relation_id)
        &&& blames(verdict, failure.error, before, event)
    }
}

/// Whether `action` carries out `command` with the right data.
pub open spec fn answers(
    command: Command,
    action: Action,
    before: Run,
    event: Event,
    after: Run,
    client: G2GApiClient,
    tokens: G2GAuthTokens,
) -> bool {
    match command {
        Command::Pause(kind) => {
            &&& action matches Action::Pause { kind: asked, millis }
            &&& asked == kind
            &&& pause_floor(kind) <= millis < pause_ceiling(kind)
        },
        Command::SendRefresh => {
            &&& action matches Action::Send(request)
            &&& is_refresh_request(request, client.session(), tokens)
        },
        Command::SendCall(_) => {
            &&& action matches Action::Send(request)
            &&& is_call_request(request, after, client, tokens)
        },
        Command::DecodeRefresh => {
            &&& action matches Action::Decode { shape, payload }
            &&& shape == Shape::Refresh
            &&& event matches Event::Reply { body, .. }
            &&& decoded_body(body@) == Some(payload@)
        },
        Command::DecodeCall(endpoint) => {
            &&& action matches Action::Decode { shape, payload }
            &&& shape == spec_shape_of(endpoint)
            &&& event matches Event::Reply { body, .. }
            &&& decoded_body(body@) == Some(payload@)
        },
        Command::Finish(verdict) => {
            &&& action matches Action::Finish(outcome)
            &&& concludes(verdict, outcome, before, event, client)
        },
    }
}

/// Whether the token of the session after a step is the one that the step
/// calls for: the token of an accepted refresh reply; none after a 401 that
/// is answered by a refresh; otherwise the one held before.
pub open spec fn token_follows(
    before: Run,
    client_before: G2GApiClient,
    event: Event,
    after: Control,
    client_after: G2GApiClient,
) -> bool {
    if before.stage == Stage::RefreshDecode && signal_of(before, event) == (Signal::Decoded {
        accepted: true,
    }) {
        &&& event matches Event::Decoded(Envelope::Refresh(reply))
        &&& client_after.token() == Some(reply.access_token@)
    } else if after.has_token {
        client_after.token() == client_before.token()
    } else {
        client_after.token() is None
    }
}

/// Whether the identifiers that a workflow carries after a step are the ones
/// that the step calls for: those of an accepted reply that issues them,
/// otherwise the ones carried before.
pub open spec fn identifiers_follow(before: Run, event: Event, after: Run) -> bool {
    let accepted = before.stage == Stage::CallDecode && signal_of(before, event) == (
    Signal::Decoded { accepted: true });
    &&& text_of(after.offer_id) == match event {
        Event::Decoded(Envelope::CreateOffer(reply)) => if accepted {
            Some(reply.offer_id@)
        } else {
            text_of(before.offer_id)
        },
        _ => text_of(before.offer_id),
    }
    &&& text_of(after.relation_id) == match event {
        Event::Decoded(Envelope::UpdateOffer(reply)) => if accepted {
            text_of(reply.relation_id)
        } else {
            text_of(before.relation_id)
        },
        _ => text_of(before.relation_id),
    }
}

/// Whether the payload that a workflow keeps for a preview is the one that
/// the driver was last asked to decode.
pub open spec fn pending_follows(before: Run, command: Command, action: Action, after: Run) -> bool {
    if command is DecodeRefresh || command is DecodeCall {
        &&& action matches Action::Decode { payload, .. }
        &&& after.pending@ == payload@
    } else {
        after.pending@ == before.pending@
    }
}

/// Whether a step of a workflow is the step that `event` calls for: the
/// control state moves as the transition function says, the action carries
/// out its command, and the session and the data of the workflow change only
/// as that step requires.
pub open spec fn follows(
    before: Run,
    client_before: G2GApiClient,
    tokens: G2GAuthTokens,
    event: Event,
    after: Run,
    client_after: G2GApiClient,
    action: Action,
) -> bool {
    let (control, command) = next(before.control(client_before), signal_of(before, event));
    &&& after.control(client_after) == control
    &&& client_after.session() == client_before.session()
    &&& after.term == before.term
    &&& after.server == before.server
    &&& after.draft == before.draft
    &&& token_follows(before, client_before, event, control, client_after)
    &&& identifiers_follow(before, event, after)
    &&& pending_follows(before, command, action, after)
    &&& answers(command, action, before, event, after, client_after, tokens)
}

/// The text that describes a failure: the error, followed by the identifiers
/// that had been obtained, so that what is left on the remote side can be
/// found.
pub open spec fn failure_description(failure: Failure) -> Seq<char> {
    error_description(failure.error) + match failure.offer_id {
        Some(id) => " | offer_id: "@ + id@,
        None => Seq::empty(),
    } + match failure.relation_id {
        Some(id) => " | relation_id: "@ + id@,
        None => Seq::empty(),
    }
}

impl Failure {
    /// Describes the failure in words: the error, and the identifiers of the
    /// listing as far as they had been obtained.
    pub fn describe(&self) -> (text: String)
        ensures
            text@ == failure_description(*self),
    {
        let mut text = self.error.describe();
        let ghost error = text@;
        match &self.offer_id {
            Some(id) => {
                text.append(" | offer_id: ");
                text.append(id.as_str());
            },
            None => {
                assert(text@ + Seq::<char>::empty() == text@);
            },
        }
        let ghost middle = text@;
        match &self.relation_id {
            Some(id) => {
                text.append(" | relation_id: ");
                text.append(id.as_str());
            },
            None => {
                assert(text@ + Seq::<char>::empty() == text@);
            },
        }
        assert(text@ == failure_description(*self));
        text
    }
}

fn envelope_shape_of(envelope: &Envelope) -> (shape: Shape)
    ensures
        shape == envelope_shape(*envelope),
{
    match envelope {
        Envelope::Refresh(_) => Shape::Refresh,
        Envelope::Search(_) => Shape::Search,
        Envelope::CreateOffer(_) => Shape::CreateOffer,
        Envelope::UpdateOffer(_) => Shape::UpdateOffer,
        Envelope::Status(_) => Shape::Status,
    }
}

fn is_accepted(envelope: &Envelope) -> (accepted: bool)
    ensures
        accepted == accepts(*envelope),
{
    match envelope {
        Envelope::Refresh(_) => true,
        Envelope::Search(_) => true,
        Envelope::CreateOffer(reply) => reply.code as i64 == SUCCESS_CODE,
        Envelope::UpdateOffer(reply) => reply.code as i64 == SUCCESS_CODE
            && reply.relation_id.is_some(),
        Envelope::Status(reply) => match reply.code {
            Some(code) => code == SUCCESS_CODE,
            None => false,
        },
    }
}

fn fault_for(envelope: &Envelope) -> (fault: RemoteFault)
    ensures
        is_fault_of(fault, *envelope),
{
    match envelope {
        Envelope::CreateOffer(reply) => RemoteFault::Code { code: Some(reply.code as i64) },
        Envelope::UpdateOffer(reply) => if reply.code as i64 != SUCCESS_CODE {
            RemoteFault::Code { code: Some(reply.code as i64) }
        } else {
            RemoteFault::MissingPayload
        },
        Envelope::Status(reply) => RemoteFault::Code { code: reply.code },
        _ => RemoteFault::MissingPayload,
    }
}

fn copy_bytes(bytes: &Vec<u8>) -> (copy: Vec<u8>)
    ensures
        copy@ == bytes@,
{
    let mut copy: Vec<u8> = Vec::new();
    let mut i: usize = 0;
    while i < bytes.len()
        invariant
            i <= bytes.len(),
            copy@ == bytes@.take(i as int),
        decreases bytes.len() - i,
    {
        copy.push(bytes[i]);
        assert(bytes@.take(i + 1) == bytes@.take(i as int).push(bytes@[i as int]));
        i = i + 1;
    }
    assert(bytes@.take(bytes.len() as int) == bytes@);
    copy
}

fn copy_text(value: &Option<String>) -> (copy: Option<String>)
    ensures
        text_of(copy) == text_of(*value),
{
    match value {
        Some(s) => Some(s.clone()),
        None => None,
    }
}

/// Whether `draft` is blank: every text empty, the price and the counts zero,
/// no screenshot.
pub open spec fn is_blank_draft(draft: ListingDraft) -> bool {
    is_draft_of(
        draft,
        Seq::empty(),
        Seq::empty(),
        0,
        Seq::empty(),
        Seq::empty(),
        0,
        0,
        Seq::empty(),
        None,
    )
}

/// The blank draft that a workflow carries when it publishes nothing.
fn empty_draft() -> (draft: ListingDraft)
    ensures
        is_blank_draft(draft),
{
    ListingDraft {
        title: String::new(),
        description: String::new(),
        unit_price: 0,
        server: String::new(),
        rank: String::new(),
        champions_count: 0,
        skins_count: 0,
        credential_payload: String::new(),
        screenshot_url: None,
    }
}

impl Run {
    /// The control state of the workflow, given the session it runs on.
    pub open spec fn control(&self, client: G2GApiClient) -> Control {
        Control {
            flow: self.flow,
            endpoint: self.endpoint,
            stage: self.stage,
            retried: self.retried,
            has_token: client.token() is Some,
        }
    }

    /// The invariant of a workflow: it carries the identifiers that the
    /// request of its current endpoint needs, and it never calls the refresh
    /// endpoint as an authenticated call.
    pub open spec fn wf(&self) -> bool {
        let endpoint = if self.stage == Stage::Idle {
            spec_first_endpoint(self.flow)
        } else {
            self.endpoint
        };
        &&& self.stage != Stage::Done && (endpoint == Endpoint::UpdateOffer || endpoint
            == Endpoint::Softpin || endpoint == Endpoint::Job) ==> self.offer_id is Some
        &&& self.stage != Stage::Done && (endpoint == Endpoint::Softpin || endpoint
            == Endpoint::Job) ==> self.relation_id is Some
        &&& (self.stage == Stage::CallPause || self.stage == Stage::CallSent || self.stage
            == Stage::CallDecode) ==> self.endpoint != Endpoint::RefreshAccess
    }

    /// Whether the invariant of a workflow holds, for callers that cannot
    /// know it otherwise.
    pub fn is_well_formed(&self) -> (sound: bool)
        ensures
            sound == self.wf(),
    {
        let endpoint = match self.stage {
            Stage::Idle => first_endpoint(self.flow),
            _ => self.endpoint,
        };
        let live = match self.stage {
            Stage::Done => false,
            _ => true,
        };
        let needs_offer = match endpoint {
            Endpoint::UpdateOffer => true,
            Endpoint::Softpin => true,
            Endpoint::Job => true,
            _ => false,
        };
        let needs_relation = match endpoint {
            Endpoint::Softpin => true,
            Endpoint::Job => true,
            _ => false,
        };
        let calling = match self.stage {
            Stage::CallPause => true,
            Stage::CallSent => true,
            Stage::CallDecode => true,
            _ => false,
        };
        let refreshing = match self.endpoint {
            Endpoint::RefreshAccess => true,
            _ => false,
        };
        (!(live && needs_offer) || self.offer_id.is_some()) && (!(live && needs_relation)
            || self.relation_id.is_some()) && !(calling && refreshing)
    }

    /// Whether the workflow has ended.
    pub fn is_done(&self) -> (done: bool)
        ensures
            done == (self.stage == Stage::Done),
    {
        self.stage == Stage::Done
    }

    /// A workflow of the given kind, not yet started.
    pub(crate) fn new(
        flow: Flow,
        term: String,
        server: String,
        draft: ListingDraft,
        offer_id: Option<String>,
        relation_id: Option<String>,
    ) -> (run: Run)
        requires
            (flow == Flow::UpdateOffer || flow == Flow::Softpin || flow == Flow::Upload)
                ==> offer_id is Some,
            (flow == Flow::Softpin || flow == Flow::Upload) ==> relation_id is Some,
        ensures
            run.wf(),
            run.flow == flow,
            run.stage == Stage::Idle,
            run.term == term,
            run.server == server,
            run.draft == draft,
            run.offer_id == offer_id,
            run.relation_id == relation_id,
            run.pending@.len() == 0,
    {
        Run {
            flow,
            endpoint: first_endpoint(flow),
            stage: Stage::Idle,
            retried: false,
            term,
            server,
            draft,
            offer_id,
            relation_id,
            pending: Vec::new(),
        }
    }

    fn control_now(&self, client: &G2GApiClient) -> (c: Control)
        ensures
            c == self.control(*client),
    {
        Control {
            flow: self.flow,
            endpoint: self.endpoint,
            stage: self.stage,
            retried: self.retried,
            has_token: client.has_token(),
        }
    }

    fn settle(&mut self, c: Control)
        ensures
            final(self).flow == c.flow,
            final(self).endpoint == c.endpoint,
            final(self).stage == c.stage,
            final(self).retried == c.retried,
            final(self).term == old(self).term,
            final(self).server == old(self).server,
            final(self).draft == old(self).draft,
            final(self).offer_id == old(self).offer_id,
            final(self).relation_id == old(self).relation_id,
            final(self).pending == old(self).pending,
    {
        self.flow = c.flow;
        self.endpoint = c.endpoint;
        self.stage = c.stage;
        self.retried = c.retried;
    }

    fn failed(&self, error: ApiError) -> (action: Action)
        ensures
            action matches Action::Finish(Outcome::Failed(failure)) && failure.error == error
                && text_of(failure.offer_id) == text_of(self.offer_id) && text_of(
                failure.relation_id,
            ) == text_of(self.relation_id),
    {
        Action::Finish(
            Outcome::Failed(
                Failure {
                    error,
                    offer_id: copy_text(&self.offer_id),
                    relation_id: copy_text(&self.relation_id),
                },
            ),
        )
    }

    fn call_request(&self, client: &G2GApiClient, tokens: &G2GAuthTokens) -> (request: HttpRequest)
        requires
            (self.endpoint == Endpoint::UpdateOffer || self.endpoint == Endpoint::Softpin
                || self.endpoint == Endpoint::Job) ==> self.offer_id is Some,
            (self.endpoint == Endpoint::Softpin || self.endpoint == Endpoint::Job)
                ==> self.relation_id is Some,
        ensures
            is_call_request(request, *self, *client, *tokens),
    {
        let offer_id: &str = match &self.offer_id {
            Some(id) => id.as_str(),
            None => "",
        };
        let relation_id: &str = match &self.relation_id {
            Some(id) => id.as_str(),
            None => "",
        };
        match self.endpoint {
            Endpoint::RefreshAccess => client.refresh_request(tokens),
            Endpoint::Search => client.search_request(self.term.as_str(), self.server.as_str()),
            Endpoint::CreateOffer => client.create_offer_request(tokens),
            Endpoint::UpdateOffer => client.update_offer_request(offer_id, &self.draft, tokens),
            Endpoint::Softpin => client.softpin_request(
                offer_id,
                relation_id,
                self.draft.credential_payload.as_str(),
                tokens,
            ),
            Endpoint::Job => client.job_request(offer_id, relation_id, tokens),
        }
    }

    /// Carries out a command that needs nothing from the event that led to
    /// it: a pause or a request.
    fn emit(&self, client: &G2GApiClient, tokens: &G2GAuthTokens, command: Command) -> (action:
        Action)
        requires
            command is Pause || command is SendRefresh || command is SendCall,
            self.stage != Stage::Idle,
            self.stage != Stage::Done,
            self.wf(),
        ensures
            forall|before: Run, event: Event|
                answers(command, action, before, event, *self, *client, *tokens),
    {
        match command {
            Command::Pause(kind) => Action::Pause { kind, millis: draw_pause(kind) },
            Command::SendRefresh => Action::Send(client.refresh_request(tokens)),
            _ => Action::Send(self.call_request(client, tokens)),
        }
    }

    fn on_plain(&mut self, client: &mut G2GApiClient, tokens: &G2GAuthTokens, start: bool) -> (action:
        Action)
        requires
            old(self).wf(),
        ensures
            final(self).wf(),
            follows(
                *old(self),
                *old(client),
                *tokens,
                if start {
                    Event::Start
                } else {
                    Event::Woke
                },
                *final(self),
                *final(client),
                action,
            ),
    {
        let signal = if start {
            Signal::Start
        } else {
            Signal::Woke
        };
        let (control, command) = step(self.control_now(client), signal);
        self.settle(control);
        match command {
            Command::Finish(Verdict::Completed) => {
                match client.current_token() {
                    Some(token) => Action::Finish(Outcome::Token(token.to_owned())),
                    None => self.failed(ApiError::OutOfTurn),
                }
            },
            Command::Finish(_) => self.failed(ApiError::OutOfTurn),
            _ => self.emit(client, tokens, command),
        }
    }

    fn on_reply(
        &mut self,
        client: &mut G2GApiClient,
        tokens: &G2GAuthTokens,
        status: u16,
        body: Vec<u8>,
    ) -> (action: Action)
        requires
            old(self).wf(),
        ensures
            final(self).wf(),
            follows(
                *old(self),
                *old(client),
                *tokens,
                Event::Reply { status, body },
                *final(self),
                *final(client),
                action,
            ),
    {
        let class = classify_status(status);
        let before = self.control_now(client);
        match class {
            StatusClass::Success => {
                match decode_body(body) {
                    Ok(payload) => {
                        let (control, command) = step(before, Signal::Reply { class, intact: true });
                        self.settle(control);
                        match command {
                            Command::DecodeRefresh => {
                                self.pending = copy_bytes(&payload);
                                Action::Decode { shape: Shape::Refresh, payload }
                            },
                            Command::DecodeCall(endpoint) => {
                                self.pending = copy_bytes(&payload);
                                Action::Decode { shape: shape_of(endpoint), payload }
                            },
                            _ => self.failed(ApiError::OutOfTurn),
                        }
                    },
                    Err(error) => {
                        let (control, command) = step(
                            before,
                            Signal::Reply { class, intact: false },
                        );
                        self.settle(control);
                        match command {
                            Command::Finish(Verdict::DecodeFailed) => self.failed(error),
                            _ => self.failed(ApiError::OutOfTurn),
                        }
                    },
                }
            },
            _ => {
                let (control, command) = step(before, Signal::Reply { class, intact: true });
                self.settle(control);
                match command {
                    Command::Pause(kind) => {
                        client.invalidate_token();
                        Action::Pause { kind, millis: draw_pause(kind) }
                    },
                    Command::Finish(Verdict::AuthFailed) => self.failed(
                        ApiError::Auth { status, body: lossy_text(&body) },
                    ),
                    Command::Finish(Verdict::Rejected) => self.failed(
                        ApiError::Remote(RemoteFault::Status { status, body: lossy_text(&body) }),
                    ),
                    _ => self.failed(ApiError::OutOfTurn),
                }
            },
        }
    }

    fn on_transport_failed(&mut self, client: &G2GApiClient, tokens: &G2GAuthTokens, detail: String) -> (action:
        Action)
        requires
            old(self).wf(),
        ensures
            final(self).wf(),
            follows(
                *old(self),
                *client,
                *tokens,
                Event::TransportFailed { detail },
                *final(self),
                *client,
                action,
            ),
    {
        let (control, command) = step(self.control_now(client), Signal::TransportFailed);
        self.settle(control);
        match command {
            Command::Finish(Verdict::TransportFailed) => self.failed(
                ApiError::Transport { detail },
            ),
            _ => self.failed(ApiError::OutOfTurn),
        }
    }

    fn on_malformed(&mut self, client: &G2GApiClient, tokens: &G2GAuthTokens, detail: String) -> (action:
        Action)
        requires
            old(self).wf(),
        ensures
            final(self).wf(),
            follows(
                *old(self),
                *client,
                *tokens,
                Event::Malformed { detail },
                *final(self),
                *client,
                action,
            ),
    {
        let (control, command) = step(self.control_now(client), Signal::Malformed);
        self.settle(control);
        match command {
            Command::Finish(Verdict::ParseFailed) => self.failed(
                ApiError::Parse { detail, preview: preview(&self.pending) },
            ),
            _ => self.failed(ApiError::OutOfTurn),
        }
    }

    fn on_decoded(&mut self, client: &mut G2GApiClient, tokens: &G2GAuthTokens, envelope: Envelope) -> (action:
        Action)
        requires
            old(self).wf(),
        ensures
            final(self).wf(),
            follows(
                *old(self),
                *old(client),
                *tokens,
                Event::Decoded(envelope),
                *final(self),
                *final(client),
                action,
            ),
    {
        let before = self.control_now(client);
        let stage = self.stage;
        let awaited = match stage {
            Stage::RefreshDecode => Endpoint::RefreshAccess,
            _ => self.endpoint,
        };
        if envelope_shape_of(&envelope) != shape_of(awaited) {
            let (control, command) = step(before, Signal::Stray);
            self.settle(control);
            return self.failed(ApiError::OutOfTurn);
        }
        let accepted = is_accepted(&envelope);
        let (control, command) = step(before, Signal::Decoded { accepted });
        if accepted && stage == Stage::RefreshDecode {
            match envelope {
                Envelope::Refresh(reply) => match command {
                    Command::Finish(_) => {
                        client.store_token(reply.access_token.clone());
                        self.settle(control);
                        Action::Finish(Outcome::Token(reply.access_token))
                    },
                    _ => {
                        client.store_token(reply.access_token);
                        self.settle(control);
                        self.emit(client, tokens, command)
                    },
                },
                _ => {
                    self.settle(control);
                    self.failed(ApiError::OutOfTurn)
                },
            }
        } else if accepted && stage == Stage::CallDecode {
            match envelope {
                Envelope::Search(reply) => {
                    self.settle(control);
                    match command {
                        Command::Finish(_) => Action::Finish(
                            Outcome::Quote(quote_for(self.term.as_str(), &reply.results)),
                        ),
                        _ => self.emit(client, tokens, command),
                    }
                },
                Envelope::CreateOffer(reply) => {
                    self.offer_id = Some(reply.offer_id.clone());
                    self.settle(control);
                    match command {
                        Command::Finish(_) => Action::Finish(Outcome::OfferId(reply.offer_id)),
                        _ => self.emit(client, tokens, command),
                    }
                },
                Envelope::UpdateOffer(reply) => {
                    self.relation_id = copy_text(&reply.relation_id);
                    self.settle(control);
                    match command {
                        Command::Finish(_) => match reply.relation_id {
                            Some(id) => Action::Finish(Outcome::RelationId(id)),
                            None => self.failed(ApiError::OutOfTurn),
                        },
                        _ => self.emit(client, tokens, command),
                    }
                },
                Envelope::Status(_) => {
                    let publishing = self.flow == Flow::Publish && self.endpoint == Endpoint::Job;
                    self.settle(control);
                    match command {
                        Command::Finish(_) => if publishing {
                            match &self.offer_id {
                                Some(id) => Action::Finish(Outcome::OfferId(id.clone())),
                                None => self.failed(ApiError::OutOfTurn),
                            }
                        } else {
                            Action::Finish(Outcome::Uploaded)
                        },
                        _ => self.emit(client, tokens, command),
                    }
                },
                Envelope::Refresh(_) => {
                    self.settle(control);
                    self.failed(ApiError::OutOfTurn)
                },
            }
        } else {
            self.settle(control);
            match command {
                Command::Finish(Verdict::Refused) => self.failed(
                    ApiError::Remote(fault_for(&envelope)),
                ),
                _ => self.failed(ApiError::OutOfTurn),
            }
        }
    }

    /// Takes one step of the workflow: given what happened, says what to do
    /// next.
    ///
    /// The step is the one that the transition function of [`crate::flow`]
    /// prescribes for the meaning of `event` in the current state; see
    /// [`follows`] for all that is promised of the new state and the action.
    /// An event that the workflow was not waiting for ends it.
    pub fn advance(&mut self, client: &mut G2GApiClient, tokens: &G2GAuthTokens, event: Event) -> (action:
        Action)
        requires
            old(self).wf(),
        ensures
            final(self).wf(),
            follows(*old(self), *old(client), *tokens, event, *final(self), *final(client), action),
    {
        match event {
            Event::Start => self.on_plain(client, tokens, true),
            Event::Woke => self.on_plain(client, tokens, false),
            Event::Reply { status, body } => self.on_reply(client, tokens, status, body),
            Event::TransportFailed { detail } => self.on_transport_failed(client, tokens, detail),
            Event::Decoded(envelope) => self.on_decoded(client, tokens, envelope),
            Event::Malformed { detail } => self.on_malformed(client, tokens, detail),
        }
    }
}

fn draft_of(
    title: &str,
    description: &str,
    price: u64,
    server: &str,
    rank: &str,
    champions_count: i32,
    skins_count: i32,
    softpin_content: &str,
    screenshot_url: Option<&str>,
) -> (draft: ListingDraft)
    ensures
        is_draft_of(
            draft,
            title@,
            description@,
            price,
            server@,
            rank@,
            champions_count,
            skins_count,
            softpin_content@,
            match screenshot_url {
                Some(url) => Some(url@),
                None => None,
            },
        ),
{
    ListingDraft {
        title: title.to_owned(),
        description: description.to_owned(),
        unit_price: price,
        server: server.to_owned(),
        rank: rank.to_owned(),
        champions_count,
        skins_count,
        credential_payload: softpin_content.to_owned(),
        screenshot_url: match screenshot_url {
            Some(url) => Some(url.to_owned()),
            None => None,
        },
    }
}

/// Whether `draft` holds the given values.
pub open spec fn is_draft_of(
    draft: ListingDraft,
    title: Seq<char>,
    description: Seq<char>,
    price: u64,
    server: Seq<char>,
    rank: Seq<char>,
    champions_count: i32,
    skins_count: i32,
    softpin_content: Seq<char>,
    screenshot_url: Option<Seq<char>>,
) -> bool {
    &&& draft.title@ == title
    &&& draft.description@ == description
    &&& draft.unit_price == price
    &&& draft.server@ == server
    &&& draft.rank@ == rank
    &&& draft.champions_count == champions_count
    &&& draft.skins_count == skins_count
    &&& draft.credential_payload@ == softpin_content
    &&& text_of(draft.screenshot_url) == screenshot_url
}

/// Whether `run` is a workflow of the given kind that has not started.
pub open spec fn is_fresh(run: Run, flow: Flow) -> bool {
    &&& run.wf()
    &&& run.flow == flow
    &&& run.stage == Stage::Idle
    &&& run.pending@.len() == 0
}

impl G2GApiClient {
    /// The workflow that makes sure the session holds a token: it refreshes
    /// only where the session holds none, and ends with the token held. It
    /// searches for nothing and publishes nothing: it carries no term, a
    /// blank draft and no identifier, so that a failure reports none.
    pub fn ensure_token(&self) -> (run: Run)
        ensures
            is_fresh(run, Flow::EnsureToken),
            run.term@.len() == 0,
            run.server@.len() == 0,
            is_blank_draft(run.draft),
            run.offer_id is None,
            run.relation_id is None,
    {
        Run::new(Flow::EnsureToken, String::new(), String::new(), empty_draft(), None, None)
    }

    /// The workflow that acquires a fresh token: the pause that precedes a
    /// refresh, then the refresh request. It ends with the new token, which
    /// the session then holds.
    pub fn refresh_token(&self) -> (run: Run)
        ensures
            is_fresh(run, Flow::Refresh),
            run.term@.len() == 0,
            run.server@.len() == 0,
            is_blank_draft(run.draft),
            run.offer_id is None,
            run.relation_id is None,
    {
        Run::new(Flow::Refresh, String::new(), String::new(), empty_draft(), None, None)
    }

    /// The workflow that searches the catalog for `skin_name` on `server`
    /// and ends with the quote.
    pub fn fetch_skin_price(&self, skin_name: &str, server: &str) -> (run: Run)
        ensures
            is_fresh(run, Flow::Search),
            run.term@ == skin_name@,
            run.server@ == server@,
            is_blank_draft(run.draft),
            run.offer_id is None,
            run.relation_id is None,
    {
        Run::new(
            Flow::Search,
            skin_name.to_owned(),
            server.to_owned(),
            empty_draft(),
            None,
            None,
        )
    }

    /// The workflow that creates a placeholder listing under a fresh token
    /// and ends with the identifier of the listing.
    pub fn create_offer_id(&self) -> (run: Run)
        ensures
            is_fresh(run, Flow::CreateOffer),
            run.term@.len() == 0,
            run.server@.len() == 0,
            is_blank_draft(run.draft),
            run.offer_id is None,
            run.relation_id is None,
    {
        Run::new(Flow::CreateOffer, String::new(), String::new(), empty_draft(), None, None)
    }

    /// The workflow that populates the listing `offer_id` and ends with its
    /// relation identifier. The price is in hundredths of a dollar.
    pub fn update_offer(
        &self,
        offer_id: &str,
        title: &str,
        description: &str,
        price: u64,
        server: &str,
        rank: &str,
        champions_count: i32,
        skins_count: i32,
        screenshot_url: Option<&str>,
    ) -> (run: Run)
        ensures
            is_fresh(run, Flow::UpdateOffer),
            text_of(run.offer_id) == Some(offer_id@),
            run.relation_id is None,
            is_draft_of(
                run.draft,
                title@,
                description@,
                price,
                server@,
                rank@,
                champions_count,
                skins_count,
                Seq::empty(),
                match screenshot_url {
                    Some(url) => Some(url@),
                    None => None,
                },
            ),
    {
        let draft = draft_of(
            title,
            description,
            price,
            server,
            rank,
            champions_count,
            skins_count,
            "",
            screenshot_url,
        );
        proof {
            reveal_strlit("");
            assert(""@ =~= Seq::<char>::empty());
        }
        Run::new(
            Flow::UpdateOffer,
            String::new(),
            String::new(),
            draft,
            Some(offer_id.to_owned()),
            None,
        )
    }

    /// The workflow that uploads the credential payload of a listing.
    pub fn upload_softpin_data(&self, offer_id: &str, relation_id: &str, softpin_content: &str) -> (run:
        Run)
        ensures
            is_fresh(run, Flow::Softpin),
            text_of(run.offer_id) == Some(offer_id@),
            text_of(run.relation_id) == Some(relation_id@),
            run.draft.credential_payload@ == softpin_content@,
    {
        let mut draft = empty_draft();
        draft.credential_payload = softpin_content.to_owned();
        Run::new(
            Flow::Softpin,
            String::new(),
            String::new(),
            draft,
            Some(offer_id.to_owned()),
            Some(relation_id.to_owned()),
        )
    }

    /// The workflow that uploads the credential payload of a listing and
    /// then, after a pause, submits its processing job.
    pub fn upload_account_data(&self, offer_id: &str, relation_id: &str, softpin_content: &str) -> (run:
        Run)
        ensures
            is_fresh(run, Flow::Upload),
            text_of(run.offer_id) == Some(offer_id@),
            text_of(run.relation_id) == Some(relation_id@),
            run.draft.credential_payload@ == softpin_content@,
    {
        let mut draft = empty_draft();
        draft.credential_payload = softpin_content.to_owned();
        Run::new(
            Flow::Upload,
            String::new(),
            String::new(),
            draft,
            Some(offer_id.to_owned()),
            Some(relation_id.to_owned()),
        )
    }

    /// The workflow that publishes a listing: create the placeholder,
    /// populate it, upload the credentials, submit the job. It ends with the
    /// identifier of the listing, and only when all four steps succeeded. The
    /// price is in hundredths of a dollar.
    pub fn create_full_offer_with_data(
        &self,
        title: &str,
        description: &str,
        price: u64,
        server: &str,
        rank: &str,
        champions_count: i32,
        skins_count: i32,
        softpin_content: &str,
        screenshot_url: Option<&str>,
    ) -> (run: Run)
        ensures
            is_fresh(run, Flow::Publish),
            run.offer_id is None,
            run.relation_id is None,
            is_draft_of(
                run.draft,
                title@,
                description@,
                price,
                server@,
                rank@,
                champions_count,
                skins_count,
                softpin_content@,
                match screenshot_url {
                    Some(url) => Some(url@),
                    None => None,
                },
            ),
    {
        let draft = draft_of(
            title,
            description,
            price,
            server,
            rank,
            champions_count,
            skins_count,
            softpin_content,
            screenshot_url,
        );
        Run::new(Flow::Publish, String::new(), String::new(), draft, None, None)
    }
}

} // verus!
