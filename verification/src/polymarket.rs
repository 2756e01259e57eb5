//! The requests the Polymarket CLOB API is sent: which method and URL each
//! endpoint uses, its headers and body, and how a response status is judged.

use vstd::prelude::*;
use crate::prepared_orders::{
    order_type_name, payload_error, side_name, OrderPayload, PayloadError, PreparedOrder,
};

verus! {

/// The lower-case hexadecimal digit of `d` (`0 <= d < 16`).
pub open spec fn hex_digit(d: u8) -> char {
    if d < 10 {
        ('0' as u8 + d) as char
    } else {
        ('a' as u8 + (d - 10)) as char
    }
}

/// Lower-case hexadecimal, two digits per byte, high nibble first.
pub open spec fn hex_lower(bytes: Seq<u8>) -> Seq<char>
    decreases bytes.len(),
{
    if bytes.len() == 0 {
        Seq::empty()
    } else {
        seq![hex_digit(bytes[0] >> 4u8), hex_digit(bytes[0] & 0x0fu8)] + hex_lower(bytes.drop_first())
    }
}

/// Calls `hex::encode`: each byte becomes two characters of the table
/// `0123456789abcdef`, the high nibble first.
#[verifier::external_body]
fn hex_encode(data: &[u8]) -> (r: String)
    ensures
        r@ == hex_lower(data@),
{
    hex::encode(data)
}

#[derive(Debug, Clone, Copy, PartialEq, Eq, Structural)]
pub enum HttpMethod {
    Get,
    Post,
}

/// What a request carries in its body.
pub enum RequestBody {
    Empty,
    /// A JSON order payload, written out by the transport.
    Order(OrderPayload),
    /// Bytes sent as they are.
    Raw(Vec<u8>),
}

/// One API request, ready for a transport to send. [`with_auth`] adds the
/// `Authorization: Bearer` header when an API key is held.
pub struct ApiRequest {
    pub method: HttpMethod,
    pub url: String,
    /// `(name, value)` pairs, in the order they are set.
    pub headers: Vec<(String, String)>,
    pub body: RequestBody,
    /// What a failure of this request is reported as.
    pub error_context: String,
}

/// The header that marks a JSON body.
pub open spec fn json_content_type() -> (Seq<char>, Seq<char>) {
    ("Content-Type"@, "application/json"@)
}

/// Builds the requests of the Polymarket CLOB API under one base URL.
pub struct PolymarketClient {
    base_url: String,
}

impl PolymarketClient {
    pub closed spec fn base(&self) -> Seq<char> {
        self.base_url@
    }

    /// `base/api/v1/path`.
    pub open spec fn endpoint(&self, path: Seq<char>) -> Seq<char> {
        self.base() + "/api/v1/"@ + path
    }

    pub fn new(base_url: String) -> (r: Self)
        ensures
            r.base() == base_url@,
    {
        PolymarketClient { base_url }
    }

    /// The URL of an API path.
    pub fn url(&self, path: &str) -> (r: String)
        ensures
            r@ == self.endpoint(path@),
    {
        proof {
            reveal_strlit("/api/v1/");
        }
        let mut s = self.base_url.clone();
        s.append("/api/v1/");
        s.append(path);
        s
    }

    fn json_headers() -> (r: Vec<(String, String)>)
        ensures
            r@.len() == 1,
            (r@[0].0@, r@[0].1@) == json_content_type(),
    {
        proof {
            reveal_strlit("Content-Type");
            reveal_strlit("application/json");
        }
        let mut h = Vec::new();
        h.push((String::from_str("Content-Type"), String::from_str("application/json")));
        h
    }

    /// `POST /api/v1/orders` with the order's JSON payload (stamped now);
    /// fails as `PreparedOrder::build_payload` does.
    pub fn submit_order(&self, order: &PreparedOrder) -> (r: Result<ApiRequest, PayloadError>)
        ensures
            payload_error(*order) matches Some(e) ==> r == Err::<ApiRequest, PayloadError>(e),
            payload_error(*order) is None ==> (r matches Ok(q) && {
                &&& q.method == HttpMethod::Post
                &&& q.url@ == self.endpoint("orders"@)
                &&& q.headers@.len() == 1
                &&& (q.headers@[0].0@, q.headers@[0].1@) == json_content_type()
                &&& q.body matches RequestBody::Order(p) && p.market_id@ == order.market_id@
                    && p.order_type@ == order_type_name(order.order_type) && p.side@ == side_name(
                    order.side,
                ) && p.size == order.size && p.price == order.price
                &&& q.error_context@ == "Order submission failed"@
            }),
    {
        proof {
            reveal_strlit("orders");
            reveal_strlit("Order submission failed");
        }
        let payload = match order.build_payload() {
            Ok(p) => p,
            Err(e) => return Err(e),
        };
        Ok(
            ApiRequest {
                method: HttpMethod::Post,
                url: self.url("orders"),
                headers: Self::json_headers(),
                body: RequestBody::Order(payload),
                error_context: String::from_str("Order submission failed"),
            },
        )
    }

    /// `POST /api/v1/orders/submit` with `payload` as the body and, when a
    /// signature is given, an `X-Signature` header holding it in hex.
    pub fn submit_prepared_order(&self, payload: &[u8], signature: Option<&[u8]>) -> (r: ApiRequest)
        ensures
            r.method == HttpMethod::Post,
            r.url@ == self.endpoint("orders/submit"@),
            (r.headers@[0].0@, r.headers@[0].1@) == json_content_type(),
            signature is None ==> r.headers@.len() == 1,
            signature matches Some(sig) ==> {
                &&& r.headers@.len() == 2
                &&& r.headers@[1].0@ == "X-Signature"@
                &&& r.headers@[1].1@ == hex_lower(sig@)
            },
            r.body matches RequestBody::Raw(b) && b@ == payload@,
            r.error_context@ == "Prepared order submission failed"@,
    {
        proof {
            reveal_strlit("orders/submit");
            reveal_strlit("X-Signature");
            reveal_strlit("Prepared order submission failed");
        }
        let mut headers = Self::json_headers();
        if let Some(sig) = signature {
            headers.push((String::from_str("X-Signature"), hex_encode(sig)));
        }
        ApiRequest {
            method: HttpMethod::Post,
            url: self.url("orders/submit"),
            headers,
            body: RequestBody::Raw(copy_bytes(payload)),
            error_context: String::from_str("Prepared order submission failed"),
        }
    }

    /// `GET /api/v1/markets`.
    pub fn get_markets(&self) -> (r: ApiRequest)
        ensures
            r.method == HttpMethod::Get,
            r.url@ == self.endpoint("markets"@),
            r.headers@.len() == 0,
            r.body is Empty,
            r.error_context@ == "Failed to get markets"@,
    {
        proof {
            reveal_strlit("markets");
            reveal_strlit("Failed to get markets");
        }
        ApiRequest {
            method: HttpMethod::Get,
            url: self.url("markets"),
            headers: Vec::new(),
            body: RequestBody::Empty,
            error_context: String::from_str("Failed to get markets"),
        }
    }

    /// `GET /api/v1/markets/{market_id}/orderbook`.
    pub fn get_orderbook(&self, market_id: &str) -> (r: ApiRequest)
        ensures
            r.method == HttpMethod::Get,
            r.url@ == self.endpoint("markets/"@ + market_id@ + "/orderbook"@),
            r.headers@.len() == 0,
            r.body is Empty,
            r.error_context@ == "Failed to get orderbook"@,
    {
        proof {
            reveal_strlit("markets/");
            reveal_strlit("/orderbook");
            reveal_strlit("Failed to get orderbook");
        }
        let mut path = String::from_str("markets/");
        path.append(market_id);
        path.append("/orderbook");
        ApiRequest {
            method: HttpMethod::Get,
            url: self.url(path.as_str()),
            headers: Vec::new(),
            body: RequestBody::Empty,
            error_context: String::from_str("Failed to get orderbook"),
        }
    }

    /// `GET /api/v1/account/balance`.
    pub fn get_balance(&self) -> (r: ApiRequest)
        ensures
            r.method == HttpMethod::Get,
            r.url@ == self.endpoint("account/balance"@),
            r.headers@.len() == 0,
            r.body is Empty,
            r.error_context@ == "Failed to get balance"@,
    {
        proof {
            reveal_strlit("account/balance");
            reveal_strlit("Failed to get balance");
        }
        ApiRequest {
            method: HttpMethod::Get,
            url: self.url("account/balance"),
            headers: Vec::new(),
            body: RequestBody::Empty,
            error_context: String::from_str("Failed to get balance"),
        }
    }

    /// `POST /api/v1/orders/{order_id}/cancel`.
    pub fn cancel_order(&self, order_id: &str) -> (r: ApiRequest)
        ensures
            r.method == HttpMethod::Post,
            r.url@ == self.endpoint("orders/"@ + order_id@ + "/cancel"@),
            r.headers@.len() == 0,
            r.body is Empty,
            r.error_context@ == "Failed to cancel order"@,
    {
        proof {
            reveal_strlit("orders/");
            reveal_strlit("/cancel");
            reveal_strlit("Failed to cancel order");
        }
        let mut path = String::from_str("orders/");
        path.append(order_id);
        path.append("/cancel");
        ApiRequest {
            method: HttpMethod::Post,
            url: self.url(path.as_str()),
            headers: Vec::new(),
            body: RequestBody::Empty,
            error_context: String::from_str("Failed to cancel order"),
        }
    }
}

/// The header that carries the API key `key`.
pub open spec fn auth_header(key: Seq<char>) -> (Seq<char>, Seq<char>) {
    ("Authorization"@, "Bearer "@ + key)
}

/// `request` as it is sent: when an API key is held, the
/// `Authorization: Bearer <key>` header goes after the request's own
/// headers; without a key the request is sent as it is.
pub fn with_auth(request: ApiRequest, api_key: Option<&str>) -> (r: ApiRequest)
    ensures
        r.method == request.method,
        r.url == request.url,
        r.body == request.body,
        r.error_context == request.error_context,
        api_key is None ==> r.headers@ == request.headers@,
        api_key matches Some(k) ==> {
            &&& r.headers@.len() == request.headers@.len() + 1
            &&& r.headers@.drop_last() == request.headers@
            &&& (r.headers@.last().0@, r.headers@.last().1@) == auth_header(k@)
        },
{
    proof {
        reveal_strlit("Authorization");
        reveal_strlit("Bearer ");
    }
    let mut r = request;
    if let Some(k) = api_key {
        let value = String::from_str("Bearer ").concat(k);
        let ghost before = r.headers@;
        r.headers.push((String::from_str("Authorization"), value));
        assert(r.headers@.drop_last() == before);
    }
    r
}

/// The message of a request that failed with a status outside `2xx`: the
/// request's error context, the status as the transport writes it, and the
/// response body.
pub open spec fn failure_text(context: Seq<char>, status: Seq<char>, body: Seq<char>) -> Seq<char> {
    context + " (HTTP "@ + status + "): "@ + body
}

/// Writes the message of a request that failed with a status outside `2xx`.
pub fn error_text(context: &str, status: &str, body: &str) -> (r: String)
    ensures
        r@ == failure_text(context@, status@, body@),
{
    proof {
        reveal_strlit(" (HTTP ");
        reveal_strlit("): ");
    }
    let mut s = String::from_str(context);
    s.append(" (HTTP ");
    s.append(status);
    s.append("): ");
    s.append(body);
    s
}

/// A response status counts as success when it is in `200..=299`.
pub open spec fn status_is_success(status: u16) -> bool {
    200 <= status <= 299
}

/// Whether a response with this status is a success.
pub fn check_response(status: u16) -> (r: bool)
    ensures
        r == status_is_success(status),
{
    200 <= status && status <= 299
}

fn copy_bytes(data: &[u8]) -> (r: Vec<u8>)
    ensures
        r@ == data@,
{
    let mut out: Vec<u8> = Vec::new();
    let n = data.len();
    let mut i: usize = 0;
    while i < n
        invariant
            n == data@.len(),
            i <= n,
            out@ == data@.subrange(0, i as int),
        decreases n - i,
    {
        out.push(data[i]);
        proof {
            assert(data@.subrange(0, i + 1) == data@.subrange(0, i as int).push(data@[i as int]));
        }
        i = i + 1;
    }
    proof {
        assert(data@.subrange(0, n as int) == data@);
    }
    out
}

} // verus!
