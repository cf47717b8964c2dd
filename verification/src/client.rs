//! The session of a client and the requests that it sends.
//!
//! A client owns the bearer token, which is absent until the first refresh
//! and may be discarded and acquired again any number of times, and the
//! session identifier, which is drawn once and then fixed.

use vstd::prelude::*;
use vstd::string::*;
use vstd::utf8::encode_utf8;
use crate::codes::{
    are_offer_attributes, create_offer_attributes, server_filter, server_filter_of, server_id_of,
};
use crate::flow::Endpoint;
use crate::pacing::random_between;
use crate::text::{push_char, uppercase_text};
use crate::transport::{
    are_browser_headers, browser_headers, percent_encode, percent_encoded, CreateJobRequest,
    CreateOfferRequest, ExternalImage, Header, HttpRequest, Method, Payload, RefreshRequest,
    SalesTerritory, SoftpinRequest, UpdateOfferRequest,
};

verus! {

/// The credentials of a seller, as supplied from outside. The client never
/// changes them.
#[derive(Debug, Clone)]
pub struct G2GAuthTokens {
    pub user_id: String,
    pub refresh_token: String,
    pub long_lived_token: String,
    pub active_device_token: String,
}

/// A listing as its seller drafted it. The unit price is in hundredths of a
/// dollar; the credential payload is an opaque text that is uploaded as it
/// is.
#[derive(Debug, Clone)]
pub struct ListingDraft {
    pub title: String,
    pub description: String,
    pub unit_price: u64,
    pub server: String,
    pub rank: String,
    pub champions_count: i32,
    pub skins_count: i32,
    pub credential_payload: String,
    pub screenshot_url: Option<String>,
}

/// The session of one client.
pub struct G2GApiClient {
    current_token: Option<String>,
    session_id: String,
}

/// The host that every request goes to.
pub open spec fn base_url() -> Seq<char> {
    "https://sls.g2g.com"@
}

/// The service that every listing of this client belongs to.
pub open spec fn service_id() -> Seq<char> {
    "f6a1aba5-473a-4044-836a-8968bbab16d7"@
}

/// The brand that every listing of this client belongs to.
pub open spec fn brand_id() -> Seq<char> {
    "lgc_game_22666"@
}

/// Whether `c` is a lower-case hexadecimal digit.
pub open spec fn is_lower_hex(c: char) -> bool {
    ||| c == '0'
    ||| c == '1'
    ||| c == '2'
    ||| c == '3'
    ||| c == '4'
    ||| c == '5'
    ||| c == '6'
    ||| c == '7'
    ||| c == '8'
    ||| c == '9'
    ||| c == 'a'
    ||| c == 'b'
    ||| c == 'c'
    ||| c == 'd'
    ||| c == 'e'
    ||| c == 'f'
}

/// Whether `id` has the form of a session identifier: 32 lower-case
/// hexadecimal digits.
pub open spec fn is_session_id(id: Seq<char>) -> bool {
    &&& id.len() == 32
    &&& forall|i: int| 0 <= i < id.len() ==> is_lower_hex(#[trigger] id[i])
}

/// The lower-case hexadecimal digit of a value below sixteen.
pub(crate) fn lower_hex(value: u64) -> (c: char)
    requires
        value < 16,
    ensures
        is_lower_hex(c),
{
    if value == 0 {
        '0'
    } else if value == 1 {
        '1'
    } else if value == 2 {
        '2'
    } else if value == 3 {
        '3'
    } else if value == 4 {
        '4'
    } else if value == 5 {
        '5'
    } else if value == 6 {
        '6'
    } else if value == 7 {
        '7'
    } else if value == 8 {
        '8'
    } else if value == 9 {
        '9'
    } else if value == 10 {
        'a'
    } else if value == 11 {
        'b'
    } else if value == 12 {
        'c'
    } else if value == 13 {
        'd'
    } else if value == 14 {
        'e'
    } else {
        'f'
    }
}

/// Draws a session identifier: 32 random lower-case hexadecimal digits.
pub fn generate_session_id() -> (id: String)
    ensures
        is_session_id(id@),
{
    let mut id = String::new();
    let mut i: usize = 0;
    while i < 32
        invariant
            i <= 32,
            id@.len() == i,
            forall|k: int| 0 <= k < id@.len() ==> is_lower_hex(#[trigger] id@[k]),
        decreases 32 - i,
    {
        push_char(&mut id, lower_hex(random_between(0, 16)));
        i = i + 1;
    }
    id
}

/// Whether `request` is the request that populates a listing body-wise: the
/// draft's texts and price, a single unit delivered instantly with no
/// low-stock alert and a global sales territory, the five categorical
/// attributes, and the screenshot as the only image where the draft has one.
pub open spec fn is_update_body(
    body: UpdateOfferRequest,
    seller: Seq<char>,
    offer_id: Seq<char>,
    draft: ListingDraft,
) -> bool {
    &&& body.seller_id@ == seller
    &&& body.offer_id@ == offer_id
    &&& body.delivery_method_ids@.len() == 0
    &&& body.delivery_speed@ == "instant"@
    &&& body.delivery_speed_details@.len() == 0
    &&& body.qty == 1
    &&& body.currency@ == "USD"@
    &&& body.min_qty == 1
    &&& body.low_stock_alert_qty == 0
    &&& body.sales_territory_settings.settings_type@ == "global"@
    &&& body.sales_territory_settings.countries@.len() == 0
    &&& body.title@ == draft.title@
    &&& body.description@ == draft.description@
    &&& are_offer_attributes(
        body.offer_attributes@,
        server_id_of(uppercase_text(draft.server@)),
        draft.rank@,
        draft.champions_count as int,
        draft.skins_count as int,
    )
    &&& match draft.screenshot_url {
        Some(url) => body.external_images_mapping@.len() == 1
            && body.external_images_mapping@[0].image_name@ == "1"@
            && body.external_images_mapping@[0].image_url@ == url@,
        None => body.external_images_mapping@.len() == 0,
    }
    &&& body.unit_price == draft.unit_price
    &&& body.other_pricing@.len() == 0
    &&& body.wholesale_details@.len() == 0
    &&& body.other_wholesale_details@.len() == 0
}

/// The address of a catalog search for `term` on `server`: the term
/// percent-encoded, the composite filter of the server, looked up by its name
/// in upper case, 48 results a page, lowest price first.
pub open spec fn search_url_of(term: Seq<char>, server: Seq<char>) -> Seq<char> {
    base_url() + "/offer/search?seo_term=league-of-legends-account&q="@ + percent_encoded(
        encode_utf8(term),
    ) + "&sort=lowest_price&filter_attr="@ + server_filter_of(uppercase_text(server))
        + "&page_size=48&currency=USD&country=RU&include_localization=0"@
}

/// The name of the file that the processing job of a listing refers to.
pub open spec fn job_file_of(offer_id: Seq<char>) -> Seq<char> {
    offer_id + "/"@ + offer_id + ".csv"@
}

/// Whether `request` is the token refresh request of a session: a POST of
/// the four credentials, with `null` as its authorization.
pub open spec fn is_refresh_request(
    request: HttpRequest,
    session: Seq<char>,
    tokens: G2GAuthTokens,
) -> bool {
    &&& request.endpoint == Endpoint::RefreshAccess
    &&& request.method == Method::Post
    &&& request.url@ == base_url() + "/user/refresh_access"@
    &&& are_browser_headers(request.headers@, session, Some("null"@))
    &&& request.payload matches Payload::Refresh(body)
    &&& body.user_id@ == tokens.user_id@
    &&& body.refresh_token@ == tokens.refresh_token@
    &&& body.active_device_token@ == tokens.active_device_token@
    &&& body.long_lived_token@ == tokens.long_lived_token@
}

/// Whether `request` is the catalog search for `term` on `server`.
pub open spec fn is_search_request(
    request: HttpRequest,
    session: Seq<char>,
    token: Option<Seq<char>>,
    term: Seq<char>,
    server: Seq<char>,
) -> bool {
    &&& request.endpoint == Endpoint::Search
    &&& request.method == Method::Get
    &&& request.url@ == search_url_of(term, server)
    &&& are_browser_headers(request.headers@, session, token)
    &&& request.payload is Empty
}

/// Whether `request` is the request that creates a placeholder listing for
/// the seller.
pub open spec fn is_create_offer_request(
    request: HttpRequest,
    session: Seq<char>,
    token: Option<Seq<char>>,
    seller: Seq<char>,
) -> bool {
    &&& request.endpoint == Endpoint::CreateOffer
    &&& request.method == Method::Post
    &&& request.url@ == base_url() + "/offer"@
    &&& are_browser_headers(request.headers@, session, token)
    &&& request.payload matches Payload::CreateOffer(body)
    &&& body.service_id@ == service_id()
    &&& body.brand_id@ == brand_id()
    &&& body.offer_type@ == "public"@
    &&& body.seller_id@ == seller
}

/// Whether `request` is the request that populates the listing `offer_id`
/// from `draft`.
pub open spec fn is_update_offer_request(
    request: HttpRequest,
    session: Seq<char>,
    token: Option<Seq<char>>,
    seller: Seq<char>,
    offer_id: Seq<char>,
    draft: ListingDraft,
) -> bool {
    &&& request.endpoint == Endpoint::UpdateOffer
    &&& request.method == Method::Put
    &&& request.url@ == base_url() + "/offer/"@ + offer_id
    &&& are_browser_headers(request.headers@, session, token)
    &&& request.payload matches Payload::UpdateOffer(body)
    &&& is_update_body(body, seller, offer_id, draft)
}

/// Whether `request` is the request that uploads the credential payload
/// `softpin` for a listing.
pub open spec fn is_softpin_request(
    request: HttpRequest,
    session: Seq<char>,
    token: Option<Seq<char>>,
    seller: Seq<char>,
    offer_id: Seq<char>,
    relation_id: Seq<char>,
    softpin: Seq<char>,
) -> bool {
    &&& request.endpoint == Endpoint::Softpin
    &&& request.method == Method::Post
    &&& request.url@ == base_url() + "/inventory/softpin"@
    &&& are_browser_headers(request.headers@, session, token)
    &&& request.payload matches Payload::Softpin(body)
    &&& body.offer_id@ == offer_id
    &&& body.relation_id@ == relation_id
    &&& body.softpin@ == softpin
    &&& body.seller_id@ == seller
}

/// Whether `request` is the request that submits the processing job of a
/// listing.
pub open spec fn is_job_request(
    request: HttpRequest,
    session: Seq<char>,
    token: Option<Seq<char>>,
    seller: Seq<char>,
    offer_id: Seq<char>,
    relation_id: Seq<char>,
) -> bool {
    &&& request.endpoint == Endpoint::Job
    &&& request.method == Method::Post
    &&& request.url@ == base_url() + "/inventory/job"@
    &&& are_browser_headers(request.headers@, session, token)
    &&& request.payload matches Payload::Job(body)
    &&& body.offer_id@ == offer_id
    &&& body.relation_id@ == relation_id
    &&& body.seller_id@ == seller
    &&& body.file_type@ == "csv"@
    &&& body.files@.len() == 1
    &&& body.files@[0]@ == job_file_of(offer_id)
    &&& body.brand_id@ == brand_id()
    &&& body.service_id@ == service_id()
}

impl G2GApiClient {
    /// The bearer token that the session holds, if any.
    pub closed spec fn token(&self) -> Option<Seq<char>> {
        match self.current_token {
            Some(token) => Some(token@),
            None => None,
        }
    }

    /// The session identifier.
    pub closed spec fn session(&self) -> Seq<char> {
        self.session_id@
    }

    /// The invariant of a client: its session identifier is well formed.
    pub open spec fn wf(&self) -> bool {
        is_session_id(self.session())
    }

    /// A new client: no token yet, and a freshly drawn session identifier.
    pub fn new() -> (client: G2GApiClient)
        ensures
            client.token() is None,
            client.wf(),
    {
        G2GApiClient { current_token: None, session_id: generate_session_id() }
    }

    /// Whether the session holds a bearer token.
    pub fn has_token(&self) -> (held: bool)
        ensures
            held == self.token() is Some,
    {
        self.current_token.is_some()
    }

    /// The bearer token that the session holds, if any.
    pub fn current_token(&self) -> (token: Option<&str>)
        ensures
            match token {
                Some(t) => self.token() == Some(t@),
                None => self.token() is None,
            },
    {
        match &self.current_token {
            Some(token) => Some(token.as_str()),
            None => None,
        }
    }

    /// The session identifier.
    pub fn session_id(&self) -> (id: &str)
        ensures
            id@ == self.session(),
    {
        self.session_id.as_str()
    }

    /// Stores `token` as the bearer token of the session.
    pub fn store_token(&mut self, token: String)
        ensures
            final(self).token() == Some(token@),
            final(self).session() == old(self).session(),
    {
        self.current_token = Some(token);
    }

    /// Discards the bearer token of the session.
    pub fn invalidate_token(&mut self)
        ensures
            final(self).token() is None,
            final(self).session() == old(self).session(),
    {
        self.current_token = None;
    }

    /// The header set of a request of this session. With `with_auth` the
    /// authorization is the bearer token, and there is no authorization
    /// header where the session holds none; without it the authorization is
    /// the literal `null`.
    pub fn get_browser_headers(&self, with_auth: bool) -> (headers: Vec<Header>)
        ensures
            are_browser_headers(
                headers@,
                self.session(),
                if with_auth {
                    self.token()
                } else {
                    Some("null"@)
                },
            ),
    {
        if with_auth {
            browser_headers(self.session_id.as_str(), self.current_token())
        } else {
            browser_headers(self.session_id.as_str(), Some("null"))
        }
    }

    /// The token refresh request.
    pub fn refresh_request(&self, tokens: &G2GAuthTokens) -> (request: HttpRequest)
        ensures
            is_refresh_request(request, self.session(), *tokens),
    {
        let mut url = "https://sls.g2g.com".to_owned();
        url.append("/user/refresh_access");
        HttpRequest {
            endpoint: Endpoint::RefreshAccess,
            method: Method::Post,
            url,
            headers: self.get_browser_headers(false),
            payload: Payload::Refresh(
                RefreshRequest {
                    user_id: tokens.user_id.clone(),
                    refresh_token: tokens.refresh_token.clone(),
                    active_device_token: tokens.active_device_token.clone(),
                    long_lived_token: tokens.long_lived_token.clone(),
                },
            ),
        }
    }

    /// The catalog search for `term` on `server`.
    pub fn search_request(&self, term: &str, server: &str) -> (request: HttpRequest)
        ensures
            is_search_request(request, self.session(), self.token(), term@, server@),
    {
        let mut url = "https://sls.g2g.com".to_owned();
        url.append("/offer/search?seo_term=league-of-legends-account&q=");
        let encoded = percent_encode(term);
        url.append(encoded.as_str());
        url.append("&sort=lowest_price&filter_attr=");
        url.append(server_filter(server));
        url.append("&page_size=48&currency=USD&country=RU&include_localization=0");
        HttpRequest {
            endpoint: Endpoint::Search,
            method: Method::Get,
            url,
            headers: self.get_browser_headers(true),
            payload: Payload::Empty,
        }
    }

    /// The request that creates a placeholder listing.
    pub fn create_offer_request(&self, tokens: &G2GAuthTokens) -> (request: HttpRequest)
        ensures
            is_create_offer_request(request, self.session(), self.token(), tokens.user_id@),
    {
        let mut url = "https://sls.g2g.com".to_owned();
        url.append("/offer");
        HttpRequest {
            endpoint: Endpoint::CreateOffer,
            method: Method::Post,
            url,
            headers: self.get_browser_headers(true),
            payload: Payload::CreateOffer(
                CreateOfferRequest {
                    service_id: "f6a1aba5-473a-4044-836a-8968bbab16d7".to_owned(),
                    brand_id: "lgc_game_22666".to_owned(),
                    offer_type: "public".to_owned(),
                    seller_id: tokens.user_id.clone(),
                },
            ),
        }
    }

    /// The request that populates the listing `offer_id` from `draft`.
    pub fn update_offer_request(
        &self,
        offer_id: &str,
        draft: &ListingDraft,
        tokens: &G2GAuthTokens,
    ) -> (request: HttpRequest)
        ensures
            is_update_offer_request(
                request,
                self.session(),
                self.token(),
                tokens.user_id@,
                offer_id@,
                *draft,
            ),
    {
        let mut url = "https://sls.g2g.com".to_owned();
        url.append("/offer/");
        url.append(offer_id);
        let mut images: Vec<ExternalImage> = Vec::new();
        match &draft.screenshot_url {
            Some(shot) => {
                images.push(ExternalImage { image_name: "1".to_owned(), image_url: shot.clone() });
            },
            None => {},
        }
        let body = UpdateOfferRequest {
            seller_id: tokens.user_id.clone(),
            offer_id: offer_id.to_owned(),
            delivery_method_ids: Vec::new(),
            delivery_speed: "instant".to_owned(),
            delivery_speed_details: Vec::new(),
            qty: 1,
            currency: "USD".to_owned(),
            min_qty: 1,
            low_stock_alert_qty: 0,
            sales_territory_settings: SalesTerritory {
                settings_type: "global".to_owned(),
                countries: Vec::new(),
            },
            title: draft.title.clone(),
            description: draft.description.clone(),
            offer_attributes: create_offer_attributes(
                draft.server.as_str(),
                draft.rank.as_str(),
                draft.champions_count,
                draft.skins_count,
            ),
            external_images_mapping: images,
            unit_price: draft.unit_price,
            other_pricing: Vec::new(),
            wholesale_details: Vec::new(),
            other_wholesale_details: Vec::new(),
        };
        HttpRequest {
            endpoint: Endpoint::UpdateOffer,
            method: Method::Put,
            url,
            headers: self.get_browser_headers(true),
            payload: Payload::UpdateOffer(body),
        }
    }

    /// The request that uploads the credential payload `softpin` of a
    /// listing.
    pub fn softpin_request(
        &self,
        offer_id: &str,
        relation_id: &str,
        softpin: &str,
        tokens: &G2GAuthTokens,
    ) -> (request: HttpRequest)
        ensures
            is_softpin_request(
                request,
                self.session(),
                self.token(),
                tokens.user_id@,
                offer_id@,
                relation_id@,
                softpin@,
            ),
    {
        let mut url = "https://sls.g2g.com".to_owned();
        url.append("/inventory/softpin");
        HttpRequest {
            endpoint: Endpoint::Softpin,
            method: Method::Post,
            url,
            headers: self.get_browser_headers(true),
            payload: Payload::Softpin(
                SoftpinRequest {
                    offer_id: offer_id.to_owned(),
                    relation_id: relation_id.to_owned(),
                    softpin: softpin.to_owned(),
                    seller_id: tokens.user_id.clone(),
                },
            ),
        }
    }

    /// The request that submits the processing job of a listing. The job
    /// refers to one file, whose name derives from the listing's identifier.
    pub fn job_request(&self, offer_id: &str, relation_id: &str, tokens: &G2GAuthTokens) -> (request:
        HttpRequest)
        ensures
            is_job_request(
                request,
                self.session(),
                self.token(),
                tokens.user_id@,
                offer_id@,
                relation_id@,
            ),
    {
        let mut url = "https://sls.g2g.com".to_owned();
        url.append("/inventory/job");
        let mut file = offer_id.to_owned();
        file.append("/");
        file.append(offer_id);
        file.append(".csv");
        let mut files: Vec<String> = Vec::new();
        files.push(file);
        HttpRequest {
            endpoint: Endpoint::Job,
            method: Method::Post,
            url,
            headers: self.get_browser_headers(true),
            payload: Payload::Job(
                CreateJobRequest {
                    offer_id: offer_id.to_owned(),
                    relation_id: relation_id.to_owned(),
                    seller_id: tokens.user_id.clone(),
                    file_type: "csv".to_owned(),
                    files,
                    brand_id: "lgc_game_22666".to_owned(),
                    service_id: "f6a1aba5-473a-4044-836a-8968bbab16d7".to_owned(),
                },
            ),
        }
    }
}

} // verus!
