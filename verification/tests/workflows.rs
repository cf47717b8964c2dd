use g2g_client::client::{G2GApiClient, G2GAuthTokens};
use g2g_client::flow::{Endpoint, PauseKind, Stage};
use g2g_client::search::{CatalogOffer, PriceQuote};
use g2g_client::transport::{ApiError, HttpRequest, Method, Payload, RemoteFault};
use g2g_client::workflow::{
    Action, CreateOfferResponse, Envelope, Event, Failure, Outcome, RefreshResponse, Run,
    SearchResponse, Shape, StatusResponse, UpdateOfferResponse,
};

fn tokens() -> G2GAuthTokens {
    G2GAuthTokens {
        user_id: "seller-1".to_string(),
        refresh_token: "refresh".to_string(),
        long_lived_token: "long".to_string(),
        active_device_token: "device".to_string(),
    }
}

fn client_with_token(token: &str) -> G2GApiClient {
    let mut client = G2GApiClient::new();
    client.store_token(token.to_string());
    client
}

fn expect_pause(action: Action, kind: PauseKind, low: u64, high: u64) {
    match action {
        Action::Pause { kind: asked, millis } => {
            assert_eq!(asked, kind);
            assert!(low <= millis && millis < high, "{} not in {}..{}", millis, low, high);
        }
        other => panic!("expected a pause, got {:?}", other),
    }
}

fn expect_send(action: Action, endpoint: Endpoint) -> HttpRequest {
    match action {
        Action::Send(request) => {
            assert_eq!(request.endpoint, endpoint);
            request
        }
        other => panic!("expected a request, got {:?}", other),
    }
}

fn expect_decode(action: Action, shape: Shape, payload: &[u8]) {
    match action {
        Action::Decode { shape: asked, payload: bytes } => {
            assert_eq!(asked, shape);
            assert_eq!(bytes, payload);
        }
        other => panic!("expected a decoding, got {:?}", other),
    }
}

fn expect_failure(action: Action) -> (ApiError, Option<String>, Option<String>) {
    match action {
        Action::Finish(Outcome::Failed(failure)) => {
            (failure.error, failure.offer_id, failure.relation_id)
        }
        other => panic!("expected a failure, got {:?}", other),
    }
}

fn authorization(request: &HttpRequest) -> Option<String> {
    request.headers.iter().find(|h| h.name == "Authorization").map(|h| h.value.clone())
}

fn reply(status: u16, body: &str) -> Event {
    Event::Reply { status, body: body.as_bytes().to_vec() }
}

fn refreshed(token: &str) -> Event {
    Event::Decoded(Envelope::Refresh(RefreshResponse { access_token: token.to_string() }))
}

fn created(code: i32, offer_id: &str) -> Event {
    Event::Decoded(Envelope::CreateOffer(CreateOfferResponse {
        code,
        offer_id: offer_id.to_string(),
    }))
}

fn updated(code: i32, relation_id: Option<&str>) -> Event {
    Event::Decoded(Envelope::UpdateOffer(UpdateOfferResponse {
        code,
        relation_id: relation_id.map(|r| r.to_string()),
    }))
}

fn status(code: Option<i64>) -> Event {
    Event::Decoded(Envelope::Status(StatusResponse { code }))
}

fn found(offers: Vec<CatalogOffer>) -> Event {
    Event::Decoded(Envelope::Search(SearchResponse { code: 2000, results: offers }))
}

/// Runs the refresh part of a workflow to its end: pause, request, reply,
/// decoding. Returns the action that follows the accepted reply.
fn refresh(run: &mut Run, client: &mut G2GApiClient, first: Action, token: &str) -> Action {
    expect_pause(first, PauseKind::PreRefresh, 1500, 2500);
    let request = expect_send(run.advance(client, &tokens(), Event::Woke), Endpoint::RefreshAccess);
    assert_eq!(authorization(&request).as_deref(), Some("null"));
    expect_decode(run.advance(client, &tokens(), reply(200, "{}")), Shape::Refresh, b"{}");
    run.advance(client, &tokens(), refreshed(token))
}

#[test]
fn ensure_token_refreshes_once_and_then_not_at_all() {
    let mut client = G2GApiClient::new();
    assert!(!client.has_token());

    let mut run = client.ensure_token();
    let first = run.advance(&mut client, &tokens(), Event::Start);
    let last = refresh(&mut run, &mut client, first, "token-1");
    assert!(matches!(last, Action::Finish(Outcome::Token(ref t)) if t == "token-1"));
    assert!(run.is_done());
    assert_eq!(client.current_token(), Some("token-1"));

    let mut again = client.ensure_token();
    let only = again.advance(&mut client, &tokens(), Event::Start);
    assert!(matches!(only, Action::Finish(Outcome::Token(ref t)) if t == "token-1"));
    assert!(again.is_done());
    assert_eq!(client.current_token(), Some("token-1"));
}

#[test]
fn refresh_token_refreshes_even_where_a_token_is_held() {
    let mut client = client_with_token("old");
    let mut run = client.refresh_token();
    let first = run.advance(&mut client, &tokens(), Event::Start);
    let last = refresh(&mut run, &mut client, first, "new");
    assert!(matches!(last, Action::Finish(Outcome::Token(ref t)) if t == "new"));
    assert_eq!(client.current_token(), Some("new"));
}

#[test]
fn refresh_request_posts_the_credentials_unauthenticated() {
    let mut client = client_with_token("held");
    let mut run = client.refresh_token();
    run.advance(&mut client, &tokens(), Event::Start);
    let request = expect_send(run.advance(&mut client, &tokens(), Event::Woke), Endpoint::RefreshAccess);
    assert_eq!(request.method, Method::Post);
    assert_eq!(request.url, "https://sls.g2g.com/user/refresh_access");
    assert_eq!(authorization(&request).as_deref(), Some("null"));
    match request.payload {
        Payload::Refresh(body) => {
            assert_eq!(body.user_id, "seller-1");
            assert_eq!(body.refresh_token, "refresh");
            assert_eq!(body.active_device_token, "device");
            assert_eq!(body.long_lived_token, "long");
        }
        other => panic!("unexpected payload {:?}", other),
    }
}

#[test]
fn refused_refresh_is_an_auth_error_with_status_and_body() {
    let mut client = G2GApiClient::new();
    let mut run = client.refresh_token();
    run.advance(&mut client, &tokens(), Event::Start);
    run.advance(&mut client, &tokens(), Event::Woke);
    let (error, _, _) = expect_failure(run.advance(&mut client, &tokens(), reply(403, "denied")));
    assert!(matches!(error, ApiError::Auth { status: 403, ref body } if body == "denied"));
    assert!(!client.has_token());
    assert!(run.is_done());
}

#[test]
fn search_with_a_token_pauses_sends_and_quotes() {
    let mut client = client_with_token("bearer");
    let mut run = client.fetch_skin_price("Star Guardian Ahri", "EUW");
    expect_pause(run.advance(&mut client, &tokens(), Event::Start), PauseKind::PreSearch, 1000, 2000);
    let request = expect_send(run.advance(&mut client, &tokens(), Event::Woke), Endpoint::Search);
    assert_eq!(request.method, Method::Get);
    assert_eq!(
        request.url,
        "https://sls.g2g.com/offer/search?seo_term=league-of-legends-account&q=Star%20Guardian%20Ahri&sort=lowest_price&filter_attr=e80c30d1:304244a1%7C319340f0:65ec9642&page_size=48&currency=USD&country=RU&include_localization=0"
    );
    assert_eq!(authorization(&request).as_deref(), Some("bearer"));
    assert!(matches!(request.payload, Payload::Empty));
    expect_decode(run.advance(&mut client, &tokens(), reply(200, "{\"a\":1}")), Shape::Search, b"{\"a\":1}");
    let offers = vec![
        CatalogOffer { unit_price: 500, title: Some("Ahri".to_string()), description: None },
        CatalogOffer { unit_price: 300, title: Some("Zed".to_string()), description: None },
        CatalogOffer {
            unit_price: 900,
            title: None,
            description: Some("star guardian ahri skin".to_string()),
        },
    ];
    let last = run.advance(&mut client, &tokens(), found(offers));
    assert!(matches!(last, Action::Finish(Outcome::Quote(PriceQuote::Exact(900)))));
    assert!(run.is_done());
}

#[test]
fn search_without_a_token_refreshes_first() {
    let mut client = G2GApiClient::new();
    let mut run = client.fetch_skin_price("Zed", "nowhere");
    let first = run.advance(&mut client, &tokens(), Event::Start);
    let next = refresh(&mut run, &mut client, first, "fresh");
    expect_pause(next, PauseKind::PreSearch, 1000, 2000);
    let request = expect_send(run.advance(&mut client, &tokens(), Event::Woke), Endpoint::Search);
    assert_eq!(authorization(&request).as_deref(), Some("fresh"));
    assert!(request.url.contains("filter_attr=e80c30d1:1a87dd85%7C319340f0:65ec9642&"));
    run.advance(&mut client, &tokens(), reply(200, "{}"));
    let last = run.advance(&mut client, &tokens(), found(Vec::new()));
    assert!(matches!(last, Action::Finish(Outcome::Quote(PriceQuote::NoOffers))));
}

#[test]
fn one_unauthorized_reply_refreshes_and_replays_once() {
    let mut client = client_with_token("stale");
    let mut run = client.fetch_skin_price("Zed", "EUW");
    run.advance(&mut client, &tokens(), Event::Start);
    let first = expect_send(run.advance(&mut client, &tokens(), Event::Woke), Endpoint::Search);

    let after_401 = run.advance(&mut client, &tokens(), reply(401, "expired"));
    assert!(!client.has_token());
    let next = refresh(&mut run, &mut client, after_401, "fresh");
    expect_pause(next, PauseKind::PreSearch, 1000, 2000);
    let replay = expect_send(run.advance(&mut client, &tokens(), Event::Woke), Endpoint::Search);
    assert_eq!(replay.url, first.url);
    assert_eq!(authorization(&first).as_deref(), Some("stale"));
    assert_eq!(authorization(&replay).as_deref(), Some("fresh"));

    run.advance(&mut client, &tokens(), reply(200, "{}"));
    let last = run.advance(
        &mut client,
        &tokens(),
        found(vec![CatalogOffer { unit_price: 250, title: Some("zed".to_string()), description: None }]),
    );
    assert!(matches!(last, Action::Finish(Outcome::Quote(PriceQuote::Exact(250)))));
    assert_eq!(client.current_token(), Some("fresh"));
}

#[test]
fn second_unauthorized_reply_is_a_terminal_auth_error() {
    let mut client = client_with_token("stale");
    let mut run = client.fetch_skin_price("Zed", "EUW");
    run.advance(&mut client, &tokens(), Event::Start);
    run.advance(&mut client, &tokens(), Event::Woke);
    let after_401 = run.advance(&mut client, &tokens(), reply(401, "expired"));
    let next = refresh(&mut run, &mut client, after_401, "fresh");
    expect_pause(next, PauseKind::PreSearch, 1000, 2000);
    expect_send(run.advance(&mut client, &tokens(), Event::Woke), Endpoint::Search);

    let (error, _, _) = expect_failure(run.advance(&mut client, &tokens(), reply(401, "still no")));
    assert!(matches!(error, ApiError::Auth { status: 401, ref body } if body == "still no"));
    assert!(run.is_done());
    assert_eq!(client.current_token(), Some("fresh"));

    // Nothing is attempted after the end.
    let (error, _, _) = expect_failure(run.advance(&mut client, &tokens(), Event::Woke));
    assert!(matches!(error, ApiError::OutOfTurn));
    let (error, _, _) = expect_failure(run.advance(&mut client, &tokens(), Event::Start));
    assert!(matches!(error, ApiError::OutOfTurn));
}

#[test]
fn failure_status_on_search_is_a_remote_error() {
    let mut client = client_with_token("bearer");
    let mut run = client.fetch_skin_price("Zed", "EUW");
    run.advance(&mut client, &tokens(), Event::Start);
    run.advance(&mut client, &tokens(), Event::Woke);
    let (error, _, _) = expect_failure(run.advance(&mut client, &tokens(), reply(503, "busy")));
    assert!(matches!(
        error,
        ApiError::Remote(RemoteFault::Status { status: 503, ref body }) if body == "busy"
    ));
    assert_eq!(client.current_token(), Some("bearer"));
}

#[test]
fn transport_failure_ends_the_workflow() {
    let mut client = client_with_token("bearer");
    let mut run = client.fetch_skin_price("Zed", "EUW");
    run.advance(&mut client, &tokens(), Event::Start);
    run.advance(&mut client, &tokens(), Event::Woke);
    let event = Event::TransportFailed { detail: "connection reset".to_string() };
    let (error, _, _) = expect_failure(run.advance(&mut client, &tokens(), event));
    assert!(matches!(error, ApiError::Transport { ref detail } if detail == "connection reset"));
    assert!(run.is_done());
}

#[test]
fn malformed_payload_is_a_parse_error_with_a_bounded_preview() {
    let mut client = client_with_token("bearer");
    let mut run = client.fetch_skin_price("Zed", "EUW");
    run.advance(&mut client, &tokens(), Event::Start);
    run.advance(&mut client, &tokens(), Event::Woke);
    let body = "x".repeat(500);
    run.advance(&mut client, &tokens(), reply(200, &body));
    let event = Event::Malformed { detail: "expected value at line 1".to_string() };
    let (error, _, _) = expect_failure(run.advance(&mut client, &tokens(), event));
    match error {
        ApiError::Parse { detail, preview } => {
            assert_eq!(detail, "expected value at line 1");
            assert_eq!(preview, "x".repeat(200));
        }
        other => panic!("unexpected error {:?}", other),
    }
}

#[test]
fn corrupt_gzip_reply_is_a_decode_error() {
    let mut client = client_with_token("bearer");
    let mut run = client.fetch_skin_price("Zed", "EUW");
    run.advance(&mut client, &tokens(), Event::Start);
    run.advance(&mut client, &tokens(), Event::Woke);
    let event = Event::Reply { status: 200, body: vec![0x1f, 0x8b, 0x00, 0x01, 0x02] };
    let (error, _, _) = expect_failure(run.advance(&mut client, &tokens(), event));
    assert!(matches!(error, ApiError::Decode { .. }));
    assert!(run.is_done());
}

#[test]
fn events_out_of_turn_end_the_workflow() {
    let mut client = client_with_token("bearer");
    let mut run = client.fetch_skin_price("Zed", "EUW");
    let (error, _, _) = expect_failure(run.advance(&mut client, &tokens(), Event::Woke));
    assert!(matches!(error, ApiError::OutOfTurn));
    assert!(run.is_done());

    let mut run = client.fetch_skin_price("Zed", "EUW");
    run.advance(&mut client, &tokens(), Event::Start);
    run.advance(&mut client, &tokens(), Event::Woke);
    run.advance(&mut client, &tokens(), reply(200, "{}"));
    // A reply of the wrong shape is not what the workflow was waiting for.
    let (error, _, _) = expect_failure(run.advance(&mut client, &tokens(), status(Some(2000))));
    assert!(matches!(error, ApiError::OutOfTurn));
}

fn publication(client: &G2GApiClient) -> Run {
    client.create_full_offer_with_data(
        "Gold account",
        "120 champions",
        1999,
        "EUW",
        "Gold",
        120,
        45,
        "login,password\r\n",
        Some("https://imgur.com/abc"),
    )
}

/// Drives a publication up to the point where the request that populates the
/// listing has been sent.
fn publish_up_to_update(run: &mut Run, client: &mut G2GApiClient) -> HttpRequest {
    let first = run.advance(client, &tokens(), Event::Start);
    let next = refresh(run, client, first, "fresh");
    let create = expect_send(next, Endpoint::CreateOffer);
    assert_eq!(create.method, Method::Post);
    assert_eq!(create.url, "https://sls.g2g.com/offer");
    assert_eq!(authorization(&create).as_deref(), Some("fresh"));
    match create.payload {
        Payload::CreateOffer(body) => {
            assert_eq!(body.service_id, "f6a1aba5-473a-4044-836a-8968bbab16d7");
            assert_eq!(body.brand_id, "lgc_game_22666");
            assert_eq!(body.offer_type, "public");
            assert_eq!(body.seller_id, "seller-1");
        }
        other => panic!("unexpected payload {:?}", other),
    }
    expect_decode(run.advance(client, &tokens(), reply(200, "{}")), Shape::CreateOffer, b"{}");
    let pause = run.advance(client, &tokens(), created(2000, "G1700000001"));
    expect_pause(pause, PauseKind::InterOfferStep, 1500, 2500);
    expect_send(run.advance(client, &tokens(), Event::Woke), Endpoint::UpdateOffer)
}

#[test]
fn publish_runs_its_steps_in_order() {
    let mut client = client_with_token("whatever");
    let mut run = publication(&client);
    let update = publish_up_to_update(&mut run, &mut client);
    assert_eq!(update.method, Method::Put);
    assert_eq!(update.url, "https://sls.g2g.com/offer/G1700000001");
    match update.payload {
        Payload::UpdateOffer(body) => {
            assert_eq!(body.seller_id, "seller-1");
            assert_eq!(body.offer_id, "G1700000001");
            assert!(body.delivery_method_ids.is_empty());
            assert_eq!(body.delivery_speed, "instant");
            assert!(body.delivery_speed_details.is_empty());
            assert_eq!(body.qty, 1);
            assert_eq!(body.currency, "USD");
            assert_eq!(body.min_qty, 1);
            assert_eq!(body.low_stock_alert_qty, 0);
            assert_eq!(body.sales_territory_settings.settings_type, "global");
            assert!(body.sales_territory_settings.countries.is_empty());
            assert_eq!(body.title, "Gold account");
            assert_eq!(body.description, "120 champions");
            assert_eq!(body.unit_price, 1999);
            let entries: Vec<&str> =
                body.offer_attributes.iter().map(|a| a.dataset_id.as_str()).collect();
            assert_eq!(entries, vec!["304244a1", "65ec9642", "55077770", "2ea03f75", "4be5718c"]);
            assert_eq!(body.external_images_mapping.len(), 1);
            assert_eq!(body.external_images_mapping[0].image_name, "1");
            assert_eq!(body.external_images_mapping[0].image_url, "https://imgur.com/abc");
            assert!(body.other_pricing.is_empty());
            assert!(body.wholesale_details.is_empty());
            assert!(body.other_wholesale_details.is_empty());
        }
        other => panic!("unexpected payload {:?}", other),
    }
    expect_decode(run.advance(&mut client, &tokens(), reply(200, "{}")), Shape::UpdateOffer, b"{}");
    let pause = run.advance(&mut client, &tokens(), updated(2000, Some("rel-9")));
    expect_pause(pause, PauseKind::InterOfferStep, 1500, 2500);

    let softpin = expect_send(run.advance(&mut client, &tokens(), Event::Woke), Endpoint::Softpin);
    assert_eq!(softpin.method, Method::Post);
    assert_eq!(softpin.url, "https://sls.g2g.com/inventory/softpin");
    match softpin.payload {
        Payload::Softpin(body) => {
            assert_eq!(body.offer_id, "G1700000001");
            assert_eq!(body.relation_id, "rel-9");
            assert_eq!(body.softpin, "login,password\r\n");
            assert_eq!(body.seller_id, "seller-1");
        }
        other => panic!("unexpected payload {:?}", other),
    }
    expect_decode(run.advance(&mut client, &tokens(), reply(200, "{}")), Shape::Status, b"{}");
    let pause = run.advance(&mut client, &tokens(), status(Some(2000)));
    expect_pause(pause, PauseKind::InterUploadStep, 500, 1000);

    let job = expect_send(run.advance(&mut client, &tokens(), Event::Woke), Endpoint::Job);
    assert_eq!(job.method, Method::Post);
    assert_eq!(job.url, "https://sls.g2g.com/inventory/job");
    match job.payload {
        Payload::Job(body) => {
            assert_eq!(body.offer_id, "G1700000001");
            assert_eq!(body.relation_id, "rel-9");
            assert_eq!(body.seller_id, "seller-1");
            assert_eq!(body.file_type, "csv");
            assert_eq!(body.files, vec!["G1700000001/G1700000001.csv".to_string()]);
            assert_eq!(body.brand_id, "lgc_game_22666");
            assert_eq!(body.service_id, "f6a1aba5-473a-4044-836a-8968bbab16d7");
        }
        other => panic!("unexpected payload {:?}", other),
    }
    expect_decode(run.advance(&mut client, &tokens(), reply(200, "{}")), Shape::Status, b"{}");
    let last = run.advance(&mut client, &tokens(), status(Some(2000)));
    assert!(matches!(last, Action::Finish(Outcome::OfferId(ref id)) if id == "G1700000001"));
    assert!(run.is_done());
}

#[test]
fn publish_failing_at_details_keeps_the_offer_id_and_stops() {
    let mut client = G2GApiClient::new();
    let mut run = publication(&client);
    publish_up_to_update(&mut run, &mut client);
    run.advance(&mut client, &tokens(), reply(200, "{}"));
    let (error, offer_id, relation_id) =
        expect_failure(run.advance(&mut client, &tokens(), updated(4001, None)));
    assert!(matches!(error, ApiError::Remote(RemoteFault::Code { code: Some(4001) })));
    assert_eq!(offer_id.as_deref(), Some("G1700000001"));
    assert_eq!(relation_id, None);
    assert!(run.is_done());
    assert_eq!(run.stage, Stage::Done);
    assert_eq!(run.endpoint, Endpoint::UpdateOffer);

    // The credential upload is never attempted.
    let (error, offer_id, _) = expect_failure(run.advance(&mut client, &tokens(), Event::Woke));
    assert!(matches!(error, ApiError::OutOfTurn));
    assert_eq!(offer_id.as_deref(), Some("G1700000001"));
}

#[test]
fn publish_without_a_payload_in_the_details_reply_fails() {
    let mut client = G2GApiClient::new();
    let mut run = publication(&client);
    publish_up_to_update(&mut run, &mut client);
    run.advance(&mut client, &tokens(), reply(200, "{}"));
    let (error, offer_id, _) =
        expect_failure(run.advance(&mut client, &tokens(), updated(2000, None)));
    assert!(matches!(error, ApiError::Remote(RemoteFault::MissingPayload)));
    assert_eq!(offer_id.as_deref(), Some("G1700000001"));
}

#[test]
fn publish_failing_at_the_job_keeps_both_identifiers() {
    let mut client = G2GApiClient::new();
    let mut run = publication(&client);
    publish_up_to_update(&mut run, &mut client);
    run.advance(&mut client, &tokens(), reply(200, "{}"));
    run.advance(&mut client, &tokens(), updated(2000, Some("rel-9")));
    run.advance(&mut client, &tokens(), Event::Woke);
    run.advance(&mut client, &tokens(), reply(200, "{}"));
    run.advance(&mut client, &tokens(), status(Some(2000)));
    expect_send(run.advance(&mut client, &tokens(), Event::Woke), Endpoint::Job);
    run.advance(&mut client, &tokens(), reply(200, "{}"));
    let (error, offer_id, relation_id) =
        expect_failure(run.advance(&mut client, &tokens(), status(None)));
    assert!(matches!(error, ApiError::Remote(RemoteFault::Code { code: None })));
    assert_eq!(offer_id.as_deref(), Some("G1700000001"));
    assert_eq!(relation_id.as_deref(), Some("rel-9"));
}

#[test]
fn create_offer_is_refused_by_a_code_other_than_success() {
    let mut client = G2GApiClient::new();
    let mut run = client.create_offer_id();
    let first = run.advance(&mut client, &tokens(), Event::Start);
    let next = refresh(&mut run, &mut client, first, "fresh");
    expect_send(next, Endpoint::CreateOffer);
    run.advance(&mut client, &tokens(), reply(200, "{}"));
    let (error, offer_id, _) =
        expect_failure(run.advance(&mut client, &tokens(), created(5000, "G1799")));
    assert!(matches!(error, ApiError::Remote(RemoteFault::Code { code: Some(5000) })));
    assert_eq!(offer_id, None);
}

#[test]
fn create_offer_replays_once_after_an_unauthorized_reply() {
    let mut client = G2GApiClient::new();
    let mut run = client.create_offer_id();
    let first = run.advance(&mut client, &tokens(), Event::Start);
    let next = refresh(&mut run, &mut client, first, "one");
    expect_send(next, Endpoint::CreateOffer);
    let after_401 = run.advance(&mut client, &tokens(), reply(401, ""));
    assert!(!client.has_token());
    let replay = refresh(&mut run, &mut client, after_401, "two");
    let request = expect_send(replay, Endpoint::CreateOffer);
    assert_eq!(authorization(&request).as_deref(), Some("two"));
    run.advance(&mut client, &tokens(), reply(200, "{}"));
    let last = run.advance(&mut client, &tokens(), created(2000, "G1755"));
    assert!(matches!(last, Action::Finish(Outcome::OfferId(ref id)) if id == "G1755"));
}

#[test]
fn update_offer_alone_ends_with_the_relation_id() {
    let mut client = client_with_token("bearer");
    let mut run = client.update_offer("G1766", "t", "d", 100, "KR", "Iron", 5, 5, None);
    let request = expect_send(run.advance(&mut client, &tokens(), Event::Start), Endpoint::UpdateOffer);
    assert_eq!(request.url, "https://sls.g2g.com/offer/G1766");
    match request.payload {
        Payload::UpdateOffer(body) => assert!(body.external_images_mapping.is_empty()),
        other => panic!("unexpected payload {:?}", other),
    }
    run.advance(&mut client, &tokens(), reply(200, "{}"));
    let last = run.advance(&mut client, &tokens(), updated(2000, Some("rel-1")));
    assert!(matches!(last, Action::Finish(Outcome::RelationId(ref id)) if id == "rel-1"));
}

#[test]
fn uploads_are_never_replayed_after_an_unauthorized_reply() {
    let mut client = client_with_token("bearer");
    let mut run = client.upload_softpin_data("G1766", "rel-1", "payload");
    expect_send(run.advance(&mut client, &tokens(), Event::Start), Endpoint::Softpin);
    let (error, offer_id, relation_id) =
        expect_failure(run.advance(&mut client, &tokens(), reply(401, "no")));
    assert!(matches!(error, ApiError::Auth { status: 401, .. }));
    assert_eq!(offer_id.as_deref(), Some("G1766"));
    assert_eq!(relation_id.as_deref(), Some("rel-1"));
    assert_eq!(client.current_token(), Some("bearer"));
}

#[test]
fn upload_account_data_uploads_then_submits_the_job() {
    let mut client = client_with_token("bearer");
    let mut run = client.upload_account_data("G1766", "rel-1", "payload");
    expect_send(run.advance(&mut client, &tokens(), Event::Start), Endpoint::Softpin);
    run.advance(&mut client, &tokens(), reply(200, "{}"));
    let pause = run.advance(&mut client, &tokens(), status(Some(2000)));
    expect_pause(pause, PauseKind::InterUploadStep, 500, 1000);
    expect_send(run.advance(&mut client, &tokens(), Event::Woke), Endpoint::Job);
    run.advance(&mut client, &tokens(), reply(200, "{}"));
    let last = run.advance(&mut client, &tokens(), status(Some(2000)));
    assert!(matches!(last, Action::Finish(Outcome::Uploaded)));
}

#[test]
fn upload_softpin_data_alone_ends_after_the_upload() {
    let mut client = client_with_token("bearer");
    let mut run = client.upload_softpin_data("G1766", "rel-1", "payload");
    run.advance(&mut client, &tokens(), Event::Start);
    run.advance(&mut client, &tokens(), reply(200, "{}"));
    let last = run.advance(&mut client, &tokens(), status(Some(2000)));
    assert!(matches!(last, Action::Finish(Outcome::Uploaded)));
    assert!(run.is_done());
}

#[test]
fn errors_are_described_with_what_they_carry() {
    let text = |error: ApiError| error.describe();
    assert_eq!(text(ApiError::Transport { detail: "timed out".to_string() }), "Request failed: timed out");
    assert_eq!(
        text(ApiError::Decode { detail: "corrupt".to_string() }),
        "Failed to decompress gzip: corrupt"
    );
    assert_eq!(
        text(ApiError::Parse { detail: "EOF".to_string(), preview: "{\"co".to_string() }),
        "Failed to parse JSON: EOF | Preview: {\"co"
    );
    assert_eq!(
        text(ApiError::Auth { status: 401, body: "no".to_string() }),
        "Authentication failed: 401 - no"
    );
    assert_eq!(
        text(ApiError::Remote(RemoteFault::Status { status: 500, body: "oops".to_string() })),
        "Request rejected: 500 - oops"
    );
    assert_eq!(
        text(ApiError::Remote(RemoteFault::Code { code: Some(4001) })),
        "Remote returned code: 4001"
    );
    assert_eq!(
        text(ApiError::Remote(RemoteFault::Code { code: Some(-7) })),
        "Remote returned code: -7"
    );
    assert_eq!(
        text(ApiError::Remote(RemoteFault::Code { code: Some(i64::MIN) })),
        "Remote returned code: -9223372036854775808"
    );
    assert_eq!(
        text(ApiError::Remote(RemoteFault::Code { code: None })),
        "Remote returned code: null"
    );
    assert_eq!(text(ApiError::Remote(RemoteFault::MissingPayload)), "No payload in response");
    assert_eq!(text(ApiError::OutOfTurn), "Unexpected event for this workflow");
}

#[test]
fn failures_are_described_with_the_identifiers_obtained() {
    let failure = |offer_id: Option<&str>, relation_id: Option<&str>| Failure {
        error: ApiError::OutOfTurn,
        offer_id: offer_id.map(|s| s.to_string()),
        relation_id: relation_id.map(|s| s.to_string()),
    };
    assert_eq!(failure(None, None).describe(), "Unexpected event for this workflow");
    assert_eq!(
        failure(Some("G17"), None).describe(),
        "Unexpected event for this workflow | offer_id: G17"
    );
    assert_eq!(
        failure(Some("G17"), Some("rel")).describe(),
        "Unexpected event for this workflow | offer_id: G17 | relation_id: rel"
    );
}

#[test]
fn workflows_made_by_the_client_are_well_formed_throughout() {
    let mut client = G2GApiClient::new();
    let mut run = publication(&client);
    assert!(run.is_well_formed());
    let mut event = Event::Start;
    let mut steps = 0;
    loop {
        let action = run.advance(&mut client, &tokens(), event);
        assert!(run.is_well_formed());
        steps += 1;
        event = match action {
            Action::Pause { .. } => Event::Woke,
            Action::Send(request) => match request.endpoint {
                Endpoint::CreateOffer if steps < 8 => reply(401, ""),
                _ => reply(200, "{}"),
            },
            Action::Decode { shape, .. } => match shape {
                Shape::Refresh => refreshed("t"),
                Shape::Search => found(Vec::new()),
                Shape::CreateOffer => created(2000, "G17"),
                Shape::UpdateOffer => updated(2000, Some("rel")),
                Shape::Status => status(Some(2000)),
            },
            Action::Finish(outcome) => {
                assert!(matches!(outcome, Outcome::OfferId(ref id) if id == "G17"));
                break;
            }
        };
    }
    // Four steps up to the first creation request, four more for the refresh
    // and the replay after the 401, two to have the listing created, and three
    // for each of the three steps that follow.
    assert_eq!(steps, 19);

    let mut broken = client.update_offer("G17", "t", "d", 1, "EUW", "Gold", 1, 1, None);
    broken.offer_id = None;
    assert!(!broken.is_well_formed());
}

#[test]
fn no_call_is_sent_a_third_time() {
    let mut client = G2GApiClient::new();
    let mut run = client.fetch_skin_price("Zed", "EUW");
    let mut event = Event::Start;
    let mut searches = 0;
    let mut refreshes = 0;
    let last = loop {
        event = match run.advance(&mut client, &tokens(), event) {
            Action::Pause { .. } => Event::Woke,
            Action::Send(request) => match request.endpoint {
                Endpoint::RefreshAccess => {
                    refreshes += 1;
                    reply(200, "{}")
                }
                _ => {
                    searches += 1;
                    reply(401, "")
                }
            },
            Action::Decode { .. } => refreshed("t"),
            Action::Finish(outcome) => break outcome,
        };
    };
    assert_eq!(searches, 2);
    assert_eq!(refreshes, 2);
    assert!(matches!(last, Outcome::Failed(Failure { error: ApiError::Auth { status: 401, .. }, .. })));
}

#[test]
fn ensuring_a_token_carries_nothing_to_search_or_publish() {
    let client = G2GApiClient::new();
    let run = client.ensure_token();
    assert!(run.is_well_formed());
    assert!(!run.is_done());
    assert_eq!(run.stage, Stage::Idle);
    assert_eq!(run.term, "");
    assert_eq!(run.server, "");
    assert_eq!(run.offer_id, None);
    assert_eq!(run.relation_id, None);
    assert!(run.pending.is_empty());
    assert_eq!(run.draft.title, "");
    assert_eq!(run.draft.description, "");
    assert_eq!(run.draft.unit_price, 0);
    assert_eq!(run.draft.server, "");
    assert_eq!(run.draft.rank, "");
    assert_eq!(run.draft.champions_count, 0);
    assert_eq!(run.draft.skins_count, 0);
    assert_eq!(run.draft.credential_payload, "");
    assert_eq!(run.draft.screenshot_url, None);
}

#[test]
fn search_looks_the_server_up_whatever_its_case() {
    let mut client = client_with_token("bearer");
    let mut run = client.fetch_skin_price("ahri", "euw");
    assert_eq!(run.offer_id, None);
    assert_eq!(run.relation_id, None);
    run.advance(&mut client, &tokens(), Event::Start);
    let request = expect_send(run.advance(&mut client, &tokens(), Event::Woke), Endpoint::Search);
    assert!(
        request.url.contains("&filter_attr=e80c30d1:304244a1%7C319340f0:65ec9642&"),
        "{}",
        request.url
    );
    let aliased = client.search_request("ahri", "Europe West").url;
    assert_eq!(aliased, request.url);
    let unknown = client.search_request("ahri", "moon").url;
    assert!(unknown.contains("&filter_attr=e80c30d1:1a87dd85%7C319340f0:65ec9642&"));
}

#[test]
fn workflows_start_without_identifiers_they_were_not_given() {
    let client = G2GApiClient::new();
    let refresh = client.refresh_token();
    assert_eq!((refresh.offer_id, refresh.relation_id), (None, None));
    let create = client.create_offer_id();
    assert_eq!((create.offer_id, create.relation_id), (None, None));
    let update = client.update_offer("G17", "t", "d", 1, "EUW", "Gold", 1, 1, None);
    assert_eq!(update.offer_id.as_deref(), Some("G17"));
    assert_eq!(update.relation_id, None);
}

#[test]
fn compressed_and_plain_replies_are_handled_alike() {
    let json = br#"{"code":2000,"payload":{"relation_id":"rel-1"}}"#;
    let mut encoder = flate2::write::GzEncoder::new(Vec::new(), flate2::Compression::default());
    std::io::Write::write_all(&mut encoder, json).expect("write");
    let packed = encoder.finish().expect("finish");
    let mut outcomes = Vec::new();
    for body in [json.to_vec(), packed] {
        let mut client = client_with_token("bearer");
        let mut run = client.update_offer("G1766", "t", "d", 100, "KR", "Iron", 5, 5, None);
        run.advance(&mut client, &tokens(), Event::Start);
        let action = run.advance(&mut client, &tokens(), Event::Reply { status: 200, body });
        expect_decode(action, Shape::UpdateOffer, json);
        let last = run.advance(&mut client, &tokens(), updated(2000, Some("rel-1")));
        outcomes.push(format!("{:?}", last));
    }
    assert_eq!(outcomes[0], outcomes[1]);
    assert!(outcomes[0].contains("rel-1"));
}
