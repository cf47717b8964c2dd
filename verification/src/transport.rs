//! Transport and decoding: the shape of an outbound request, the fixed
//! browser-like header set, the decompression of reply bodies and the error
//! taxonomy.
//!
//! Nothing here sends anything. A request is a plain value that the driver
//! turns into a real one; a reply comes back as a status and raw bytes.

use vstd::prelude::*;
use vstd::string::*;
use crate::codes::OfferAttribute;
use crate::flow::{Endpoint, StatusClass};
use crate::text::{decimal_of, push_decimal, push_signed_decimal, signed_decimal_of};

verus! {

/// The HTTP methods that the client uses.
#[derive(Debug, Clone, Copy, PartialEq, Eq, Structural)]
pub enum Method {
    Get,
    Post,
    Put,
}

/// One request header.
#[derive(Debug, Clone)]
pub struct Header {
    pub name: String,
    pub value: String,
}

/// The body of the token refresh request.
#[derive(Debug, Clone)]
pub struct RefreshRequest {
    pub user_id: String,
    pub refresh_token: String,
    pub active_device_token: String,
    pub long_lived_token: String,
}

/// The body of the request that creates a placeholder listing.
#[derive(Debug, Clone)]
pub struct CreateOfferRequest {
    pub service_id: String,
    pub brand_id: String,
    pub offer_type: String,
    pub seller_id: String,
}

/// A delivery speed bracket. Listings of this client are delivered instantly
/// and carry none.
#[derive(Debug, Clone)]
pub struct DeliverySpeed {
    pub min: i32,
    pub max: i32,
    pub delivery_time: i32,
}

/// Where a listing is sold.
#[derive(Debug, Clone)]
pub struct SalesTerritory {
    pub settings_type: String,
    pub countries: Vec<String>,
}

/// A reference to an image that is hosted elsewhere.
#[derive(Debug, Clone)]
pub struct ExternalImage {
    pub image_name: String,
    pub image_url: String,
}

/// The body of the request that populates a listing. The unit price is in
/// hundredths of a dollar.
#[derive(Debug, Clone)]
pub struct UpdateOfferRequest {
    pub seller_id: String,
    pub offer_id: String,
    pub delivery_method_ids: Vec<String>,
    pub delivery_speed: String,
    pub delivery_speed_details: Vec<DeliverySpeed>,
    pub qty: i32,
    pub currency: String,
    pub min_qty: i32,
    pub low_stock_alert_qty: i32,
    pub sales_territory_settings: SalesTerritory,
    pub title: String,
    pub description: String,
    pub offer_attributes: Vec<OfferAttribute>,
    pub external_images_mapping: Vec<ExternalImage>,
    pub unit_price: u64,
    pub other_pricing: Vec<String>,
    pub wholesale_details: Vec<String>,
    pub other_wholesale_details: Vec<String>,
}

/// The body of the request that uploads the credential payload of a listing.
#[derive(Debug, Clone)]
pub struct SoftpinRequest {
    pub offer_id: String,
    pub relation_id: String,
    pub softpin: String,
    pub seller_id: String,
}

/// The body of the request that submits the processing job of a listing.
#[derive(Debug, Clone)]
pub struct CreateJobRequest {
    pub offer_id: String,
    pub relation_id: String,
    pub seller_id: String,
    pub file_type: String,
    pub files: Vec<String>,
    pub brand_id: String,
    pub service_id: String,
}

/// The body of a request, still as a value: the driver serialises it as JSON.
#[derive(Debug, Clone)]
pub enum Payload {
    Empty,
    Refresh(RefreshRequest),
    CreateOffer(CreateOfferRequest),
    UpdateOffer(UpdateOfferRequest),
    Softpin(SoftpinRequest),
    Job(CreateJobRequest),
}

/// An outbound request.
#[derive(Debug, Clone)]
pub struct HttpRequest {
    pub endpoint: Endpoint,
    pub method: Method,
    pub url: String,
    pub headers: Vec<Header>,
    pub payload: Payload,
}

/// What the remote side can be blamed for in an otherwise well-formed
/// exchange.
#[derive(Debug, Clone)]
pub enum RemoteFault {
    /// A failure status other than 401, with the text of the reply.
    Status { status: u16, body: String },
    /// An application code other than the success code, or none at all.
    Code { code: Option<i64> },
    /// The success code, but without the payload that should come with it.
    MissingPayload,
}

/// Why a workflow failed.
#[derive(Debug, Clone)]
pub enum ApiError {
    /// The request could not be carried out: network failure or timeout.
    Transport { detail: String },
    /// The reply claimed to be gzip but could not be decompressed.
    Decode { detail: String },
    /// The reply was not JSON of the expected shape. `preview` holds the
    /// beginning of the payload that failed to parse.
    Parse { detail: String, preview: String },
    /// The token refresh was turned down, or a call was answered with 401 and
    /// no replay was left.
    Auth { status: u16, body: String },
    /// The remote side rejected the request.
    Remote(RemoteFault),
    /// The driver reported something that the workflow was not waiting for.
    OutOfTurn,
}

/// The text that describes a fault of the remote side.
pub open spec fn fault_description(fault: RemoteFault) -> Seq<char> {
    match fault {
        RemoteFault::Status { status, body } => "Request rejected: "@ + decimal_of(status as nat)
            + " - "@ + body@,
        RemoteFault::Code { code: Some(code) } => "Remote returned code: "@ + signed_decimal_of(
            code as int,
        ),
        RemoteFault::Code { code: None } => "Remote returned code: null"@,
        RemoteFault::MissingPayload => "No payload in response"@,
    }
}

/// The text that describes an error.
pub open spec fn error_description(error: ApiError) -> Seq<char> {
    match error {
        ApiError::Transport { detail } => "Request failed: "@ + detail@,
        ApiError::Decode { detail } => "Failed to decompress gzip: "@ + detail@,
        ApiError::Parse { detail, preview } => "Failed to parse JSON: "@ + detail@
            + " | Preview: "@ + preview@,
        ApiError::Auth { status, body } => "Authentication failed: "@ + decimal_of(status as nat)
            + " - "@ + body@,
        ApiError::Remote(fault) => fault_description(fault),
        ApiError::OutOfTurn => "Unexpected event for this workflow"@,
    }
}

impl RemoteFault {
    /// Describes the fault in words.
    pub fn describe(&self) -> (text: String)
        ensures
            text@ == fault_description(*self),
    {
        match self {
            RemoteFault::Status { status, body } => {
                let mut text = "Request rejected: ".to_owned();
                push_decimal(&mut text, *status as u128);
                text.append(" - ");
                text.append(body.as_str());
                text
            },
            RemoteFault::Code { code: Some(code) } => {
                let mut text = "Remote returned code: ".to_owned();
                push_signed_decimal(&mut text, *code);
                text
            },
            RemoteFault::Code { code: None } => "Remote returned code: null".to_owned(),
            RemoteFault::MissingPayload => "No payload in response".to_owned(),
        }
    }
}

impl ApiError {
    /// Describes the error in words: its class, and the status, text or code
    /// that it carries.
    pub fn describe(&self) -> (text: String)
        ensures
            text@ == error_description(*self),
    {
        match self {
            ApiError::Transport { detail } => {
                let mut text = "Request failed: ".to_owned();
                text.append(detail.as_str());
                text
            },
            ApiError::Decode { detail } => {
                let mut text = "Failed to decompress gzip: ".to_owned();
                text.append(detail.as_str());
                text
            },
            ApiError::Parse { detail, preview } => {
                let mut text = "Failed to parse JSON: ".to_owned();
                text.append(detail.as_str());
                text.append(" | Preview: ");
                text.append(preview.as_str());
                text
            },
            ApiError::Auth { status, body } => {
                let mut text = "Authentication failed: ".to_owned();
                push_decimal(&mut text, *status as u128);
                text.append(" - ");
                text.append(body.as_str());
                text
            },
            ApiError::Remote(fault) => fault.describe(),
            ApiError::OutOfTurn => "Unexpected event for this workflow".to_owned(),
        }
    }
}

/// The application code that denotes success.
pub const SUCCESS_CODE: i64 = 2000;

/// The number of payload bytes that the preview of a parse failure is made of
/// at most.
pub const PREVIEW_BYTES: usize = 200;

/// The class of an HTTP status.
pub open spec fn status_class_of(status: u16) -> StatusClass {
    if 200 <= status <= 299 {
        StatusClass::Success
    } else if status == 401 {
        StatusClass::Unauthorized
    } else {
        StatusClass::OtherFailure
    }
}

/// The class of an HTTP status: success for 200 to 299, unauthorized for 401,
/// failure for everything else.
pub fn classify_status(status: u16) -> (class: StatusClass)
    ensures
        class == status_class_of(status),
{
    if 200 <= status && status <= 299 {
        StatusClass::Success
    } else if status == 401 {
        StatusClass::Unauthorized
    } else {
        StatusClass::OtherFailure
    }
}

/// Whether `bytes` begin with the two magic bytes of gzip.
pub open spec fn has_gzip_magic(bytes: Seq<u8>) -> bool {
    bytes.len() >= 2 && bytes[0] == 0x1f && bytes[1] == 0x8b
}

/// Whether `bytes` begin with the two magic bytes of gzip, `0x1F 0x8B`.
pub fn is_gzip(bytes: &Vec<u8>) -> (gzip: bool)
    ensures
        gzip == has_gzip_magic(bytes@),
{
    bytes.len() >= 2 && bytes[0] == 0x1f && bytes[1] == 0x8b
}

/// What decompressing `bytes` as one gzip member gives: the uncompressed
/// bytes, or nothing where `bytes` are not a sound gzip member.
pub uninterp spec fn gunzip_of(bytes: Seq<u8>) -> Option<Seq<u8>>;

/// Decompresses one gzip member.
///
/// Trusted: stands for reading a `flate2::read::GzDecoder` over `bytes` to its
/// end. The contract names the outcome, which depends on `bytes` alone, and
/// says nothing of the text that describes a failure.
#[verifier::external_body]
fn gunzip(bytes: &Vec<u8>) -> (r: Result<Vec<u8>, String>)
    ensures
        match r {
            Ok(plain) => gunzip_of(bytes@) == Some(plain@),
            Err(_) => gunzip_of(bytes@) is None,
        },
{
    let mut decoder = flate2::read::GzDecoder::new(bytes.as_slice());
    let mut plain = Vec::new();
    match std::io::Read::read_to_end(&mut decoder, &mut plain) {
        Ok(_) => Ok(plain),
        Err(e) => Err(e.to_string()),
    }
}

/// The payload that a reply body stands for: the body itself, or what it
/// decompresses to where it begins with the gzip magic.
pub open spec fn decoded_body(body: Seq<u8>) -> Option<Seq<u8>> {
    if has_gzip_magic(body) {
        gunzip_of(body)
    } else {
        Some(body)
    }
}

/// Takes a reply body out of its compression. A body that begins with the
/// gzip magic is decompressed, and a failure to do so is a decode error; any
/// other body is handed back as it is.
pub fn decode_body(body: Vec<u8>) -> (r: Result<Vec<u8>, ApiError>)
    ensures
        match r {
            Ok(plain) => decoded_body(body@) == Some(plain@),
            Err(e) => decoded_body(body@) is None && e is Decode,
        },
        !has_gzip_magic(body@) ==> r is Ok && r->Ok_0@ == body@,
        has_gzip_magic(body@) ==> (r is Ok <==> gunzip_of(body@) is Some),
{
    if is_gzip(&body) {
        match gunzip(&body) {
            Ok(plain) => Ok(plain),
            Err(detail) => Err(ApiError::Decode { detail }),
        }
    } else {
        Ok(body)
    }
}

/// The text that `bytes` stand for when read as UTF-8, with every malformed
/// sequence replaced by U+FFFD.
pub uninterp spec fn lossy_text_of(bytes: Seq<u8>) -> Seq<char>;

/// Reads bytes as UTF-8 text, replacing what is malformed.
///
/// Trusted: stands for `String::from_utf8_lossy`. The contract names the
/// result, which depends on the bytes alone.
#[verifier::external_body]
pub(crate) fn lossy_text(bytes: &Vec<u8>) -> (text: String)
    ensures
        text@ == lossy_text_of(bytes@),
{
    String::from_utf8_lossy(bytes.as_slice()).into_owned()
}

/// The bytes that a preview is made of: the first [`PREVIEW_BYTES`] of the
/// payload, or all of it where it is shorter.
pub open spec fn preview_bytes_of(payload: Seq<u8>) -> Seq<u8> {
    if payload.len() <= PREVIEW_BYTES {
        payload
    } else {
        payload.take(PREVIEW_BYTES as int)
    }
}

/// A bounded preview of a payload that failed to parse: its first
/// [`PREVIEW_BYTES`] bytes, read as text.
pub fn preview(payload: &Vec<u8>) -> (text: String)
    ensures
        text@ == lossy_text_of(preview_bytes_of(payload@)),
{
    let mut head: Vec<u8> = Vec::new();
    let mut i: usize = 0;
    while i < payload.len() && i < PREVIEW_BYTES
        invariant
            i <= payload.len(),
            i <= PREVIEW_BYTES,
            head@ == payload@.take(i as int),
        decreases payload.len() - i,
    {
        head.push(payload[i]);
        assert(payload@.take(i + 1) == payload@.take(i as int).push(payload@[i as int]));
        i = i + 1;
    }
    assert(payload@.len() <= PREVIEW_BYTES ==> payload@.take(i as int) == payload@);
    lossy_text(&head)
}

/// Whether a byte is one that percent-encoding leaves as it is: an ASCII
/// letter or digit, or one of `-`, `.`, `_`, `~`.
pub open spec fn is_unreserved(byte: u8) -> bool {
    ||| 0x30 <= byte <= 0x39
    ||| 0x41 <= byte <= 0x5a
    ||| 0x61 <= byte <= 0x7a
    ||| byte == 0x2d
    ||| byte == 0x2e
    ||| byte == 0x5f
    ||| byte == 0x7e
}

/// The upper-case hexadecimal digit of a value below sixteen.
pub open spec fn hex_upper(value: int) -> char {
    if value < 10 {
        (0x30 + value) as u8 as char
    } else {
        (0x41 + value - 10) as u8 as char
    }
}

/// The percent-encoding of a byte string: every byte that is not unreserved
/// becomes `%` and its two upper-case hexadecimal digits.
pub open spec fn percent_encoded(bytes: Seq<u8>) -> Seq<char>
    decreases bytes.len(),
{
    if bytes.len() == 0 {
        Seq::empty()
    } else {
        let byte = bytes[0];
        let head = if is_unreserved(byte) {
            seq![byte as char]
        } else {
            seq!['%', hex_upper(byte as int / 16), hex_upper(byte as int % 16)]
        };
        head + percent_encoded(bytes.drop_first())
    }
}

/// Percent-encodes a text for use in a query string.
///
/// Trusted: stands for `urlencoding::encode`, which works on the UTF-8 bytes
/// of the text and encodes every byte except ASCII letters and digits and
/// `-`, `.`, `_`, `~`, writing the hexadecimal digits in upper case.
#[verifier::external_body]
pub(crate) fn percent_encode(text: &str) -> (encoded: String)
    ensures
        encoded@ == percent_encoded(vstd::utf8::encode_utf8(text@)),
{
    urlencoding::encode(text).into_owned()
}

/// Whether `header` has the given name and value.
pub open spec fn is_header(header: Header, name: Seq<char>, value: Seq<char>) -> bool {
    header.name@ == name && header.value@ == value
}

/// The referer that goes with a session identifier.
pub open spec fn referer_of(session_id: Seq<char>) -> Seq<char> {
    "https://www.g2g.com/sellerhub?session_id="@ + session_id
}

/// Whether `headers` are the browser-like header set for the given session,
/// in its fixed order, followed by the authorization header where there is
/// one.
pub open spec fn are_browser_headers(
    headers: Seq<Header>,
    session_id: Seq<char>,
    authorization: Option<Seq<char>>,
) -> bool {
    &&& headers.len() == (if authorization is Some {
        16int
    } else {
        15int
    })
    &&& is_header(headers[0], "Accept"@, "application/json, text/plain, */*"@)
    &&& is_header(headers[1], "Accept-Language"@, "en-US,en;q=0.9"@)
    &&& is_header(headers[2], "Accept-Encoding"@, "gzip, deflate, br"@)
    &&& is_header(headers[3], "Connection"@, "keep-alive"@)
    &&& is_header(headers[4], "Content-Type"@, "application/json"@)
    &&& is_header(headers[5], "Cache-Control"@, "no-cache"@)
    &&& is_header(headers[6], "Pragma"@, "no-cache"@)
    &&& is_header(headers[7], "Origin"@, "https://www.g2g.com"@)
    &&& is_header(headers[8], "Referer"@, referer_of(session_id))
    &&& is_header(
        headers[9],
        "Sec-Ch-Ua"@,
        "\"Not A(Brand\";v=\"99\", \"Google Chrome\";v=\"123\", \"Chromium\";v=\"123\""@,
    )
    &&& is_header(headers[10], "Sec-Ch-Ua-Mobile"@, "?0"@)
    &&& is_header(headers[11], "Sec-Ch-Ua-Platform"@, "\"Windows\""@)
    &&& is_header(headers[12], "Sec-Fetch-Dest"@, "empty"@)
    &&& is_header(headers[13], "Sec-Fetch-Mode"@, "cors"@)
    &&& is_header(headers[14], "Sec-Fetch-Site"@, "same-site"@)
    &&& authorization matches Some(value) ==> is_header(headers[15], "Authorization"@, value)
}

fn header(name: &str, value: &str) -> (h: Header)
    ensures
        is_header(h, name@, value@),
{
    Header { name: name.to_owned(), value: value.to_owned() }
}

/// The browser-like header set for a session: content negotiation, cache
/// directives, origin and referer, client hints and fetch metadata, followed
/// by `authorization` as the authorization header where one is given.
pub fn browser_headers(session_id: &str, authorization: Option<&str>) -> (headers: Vec<Header>)
    ensures
        are_browser_headers(
            headers@,
            session_id@,
            match authorization {
                Some(value) => Some(value@),
                None => None,
            },
        ),
{
    let mut headers: Vec<Header> = Vec::new();
    headers.push(header("Accept", "application/json, text/plain, */*"));
    headers.push(header("Accept-Language", "en-US,en;q=0.9"));
    headers.push(header("Accept-Encoding", "gzip, deflate, br"));
    headers.push(header("Connection", "keep-alive"));
    headers.push(header("Content-Type", "application/json"));
    headers.push(header("Cache-Control", "no-cache"));
    headers.push(header("Pragma", "no-cache"));
    headers.push(header("Origin", "https://www.g2g.com"));
    let mut referer = "https://www.g2g.com/sellerhub?session_id=".to_owned();
    referer.append(session_id);
    headers.push(header("Referer", referer.as_str()));
    headers.push(
        header(
            "Sec-Ch-Ua",
            "\"Not A(Brand\";v=\"99\", \"Google Chrome\";v=\"123\", \"Chromium\";v=\"123\"",
        ),
    );
    headers.push(header("Sec-Ch-Ua-Mobile", "?0"));
    headers.push(header("Sec-Ch-Ua-Platform", "\"Windows\""));
    headers.push(header("Sec-Fetch-Dest", "empty"));
    headers.push(header("Sec-Fetch-Mode", "cors"));
    headers.push(header("Sec-Fetch-Site", "same-site"));
    match authorization {
        Some(value) => {
            headers.push(header("Authorization", value));
        },
        None => {},
    }
    headers
}

} // verus!
