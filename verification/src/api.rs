//! The signed API client core: canonical parameter lists for each operation,
//! the signature attached to them, and decoding rules for the order fields
//! the exchange returns. The HTTP transport is a collaborator outside this
//! library; it receives a fully signed request description and hands raw
//! response values back.

use vstd::prelude::*;
use crate::signing::params_view;
use crate::signing::signature_of;
use crate::signing::compute_signature;
use crate::text::dec_str_of;
use crate::text::strip_trailing;
use crate::text::trim_end_char;
use crate::text::u128_to_decimal;

verus! {

/// An open order as the exchange reports it. `price` and `orig_qty` arrive
/// as variable-precision decimal text and are held here in normalized form
/// (see `fix_numbers`).
#[derive(Clone, Debug)]
pub struct Order {
    pub order_id: u128,
    pub symbol: String,
    pub status: String,
    pub price: String,
    pub orig_qty: String,
    pub orig_type: String,
    pub side: String,
}

/// The decoded body of the server-time endpoint: milliseconds since the
/// epoch, by the exchange's own clock.
#[derive(Clone, Copy, Debug)]
pub struct ServerTimeResponse {
    pub server_time: u128,
}

/// A fully prepared signed request: the endpoint path, the query parameters
/// in the exact order they must be transmitted (the signature, when present,
/// last), and the API key for the authentication header.
#[derive(Clone, Debug)]
pub struct SignedRequest {
    pub path: String,
    pub query: Vec<(String, String)>,
    pub api_key: String,
}

/// The session state of the client: the decrypted key pair and the fixed
/// base URL. The HTTP transport is injected by the caller, not owned here.
pub struct BinanceAPI {
    key: String,
    secret_key: String,
    domain: String,
}

impl BinanceAPI {
    /// The API key sent in the authentication header.
    pub closed spec fn spec_key(&self) -> Seq<char> {
        self.key@
    }

    /// The API secret used as the HMAC key.
    pub closed spec fn spec_secret(&self) -> Seq<char> {
        self.secret_key@
    }

    /// The base URL that every request path is appended to.
    pub closed spec fn spec_domain(&self) -> Seq<char> {
        self.domain@
    }

    /// The base URL as a value, for the transport.
    pub fn domain(&self) -> (r: &str)
        ensures
            r@ == self.spec_domain(),
    {
        self.domain.as_str()
    }

    /// The signature over the exact serialization of `query_params`: the
    /// byte-for-byte payload that will also be transmitted, so signing and
    /// transmission cannot drift apart.
    pub fn get_signature(&self, query_params: &Vec<(&str, &str)>) -> (r: String)
        ensures
            r@ == signature_of(self.spec_secret(), params_view(query_params@)),
    {
        compute_signature(self.secret_key.as_str(), query_params)
    }
}

/// The ordered parameters signed for a listing of open orders.
pub open spec fn open_orders_params(ts: nat) -> Seq<(Seq<char>, Seq<char>)> {
    seq![("timestamp"@, dec_str_of(ts)), ("recvWindow"@, "10000"@)]
}

/// The ordered parameters signed for cancelling all orders of one symbol.
pub open spec fn cancel_params(ts: nat, symbol: Seq<char>) -> Seq<(Seq<char>, Seq<char>)> {
    seq![("timestamp"@, dec_str_of(ts)), ("recvWindow"@, "10000"@), ("symbol"@, symbol)]
}

impl BinanceAPI {
    /// The signed GET that lists open orders: `timestamp` (the server's own
    /// clock, fetched beforehand) and `recvWindow` first, the signature over
    /// exactly those two parameters appended last.
    pub fn open_orders_request(&self, timestamp: u128) -> (r: SignedRequest)
        ensures
            r.path@ == "/fapi/v1/openOrders"@,
            r.api_key@ == self.spec_key(),
            r.query@.len() == 3,
            r.query@[0].0@ == "timestamp"@,
            r.query@[0].1@ == dec_str_of(timestamp as nat),
            r.query@[1].0@ == "recvWindow"@,
            r.query@[1].1@ == "10000"@,
            r.query@[2].0@ == "signature"@,
            r.query@[2].1@ == signature_of(self.spec_secret(), open_orders_params(timestamp as nat)),
    {
        let ts_str = u128_to_decimal(timestamp);
        let mut params: Vec<(&str, &str)> = Vec::new();
        params.push(("timestamp", ts_str.as_str()));
        params.push(("recvWindow", "10000"));
        proof {
            assert(params_view(params@) =~= open_orders_params(timestamp as nat));
        }
        let signature = self.get_signature(&params);
        let mut query: Vec<(String, String)> = Vec::new();
        query.push(("timestamp".to_owned(), ts_str));
        query.push(("recvWindow".to_owned(), "10000".to_owned()));
        query.push(("signature".to_owned(), signature));
        SignedRequest {
            path: "/fapi/v1/openOrders".to_owned(),
            query,
            api_key: self.key.clone(),
        }
    }

    /// The signed DELETE that cancels every open order of `symbol`:
    /// `timestamp`, `recvWindow` and `symbol`, the signature over exactly
    /// those three parameters appended last.
    pub fn close_all_orders_request(&self, symbol: &str, timestamp: u128) -> (r: SignedRequest)
        ensures
            r.path@ == "/fapi/v1/allOpenOrders"@,
            r.api_key@ == self.spec_key(),
            r.query@.len() == 4,
            r.query@[0].0@ == "timestamp"@,
            r.query@[0].1@ == dec_str_of(timestamp as nat),
            r.query@[1].0@ == "recvWindow"@,
            r.query@[1].1@ == "10000"@,
            r.query@[2].0@ == "symbol"@,
            r.query@[2].1@ == symbol@,
            r.query@[3].0@ == "signature"@,
            r.query@[3].1@ == signature_of(
                self.spec_secret(),
                cancel_params(timestamp as nat, symbol@),
            ),
    {
        let ts_str = u128_to_decimal(timestamp);
        let mut params: Vec<(&str, &str)> = Vec::new();
        params.push(("timestamp", ts_str.as_str()));
        params.push(("recvWindow", "10000"));
        params.push(("symbol", symbol));
        proof {
            assert(params_view(params@) =~= cancel_params(timestamp as nat, symbol@));
        }
        let signature = self.get_signature(&params);
        let mut query: Vec<(String, String)> = Vec::new();
        query.push(("timestamp".to_owned(), ts_str));
        query.push(("recvWindow".to_owned(), "10000".to_owned()));
        query.push(("symbol".to_owned(), symbol.to_owned()));
        query.push(("signature".to_owned(), signature));
        SignedRequest {
            path: "/fapi/v1/allOpenOrders".to_owned(),
            query,
            api_key: self.key.clone(),
        }
    }

    /// The unauthenticated GET for the exchange's clock, used as the time
    /// source of every signed call in place of the local clock.
    pub fn server_time_request(&self) -> (r: SignedRequest)
        ensures
            r.path@ == "/fapi/v1/time"@,
            r.api_key@ == self.spec_key(),
            r.query@.len() == 0,
    {
        SignedRequest {
            path: "/fapi/v1/time".to_owned(),
            query: Vec::new(),
            api_key: self.key.clone(),
        }
    }
}

/// A client for one session, bound to the production base URL.
pub fn new(key: String, secret_key: String) -> (r: BinanceAPI)
    ensures
        r.spec_key() == key@,
        r.spec_secret() == secret_key@,
        r.spec_domain() == "https://fapi.binance.com"@,
{
    BinanceAPI { key, secret_key, domain: "https://fapi.binance.com".to_owned() }
}

/// Every parameter either operation transmits is free of serialization
/// metacharacters (the timestamp is all digits, the other names and values
/// are fixed words, and a market symbol is assumed well-formed), so by
/// `lemma_distinct_params_distinct_payload` two different parameter lists —
/// a changed value, a changed symbol, a reordering — are never signed over
/// the same payload.
pub proof fn lemma_request_params_separator_free(ts: nat, symbol: Seq<char>)
    requires
        crate::signing::separator_free(symbol),
    ensures
        crate::signing::params_separator_free(open_orders_params(ts)),
        crate::signing::params_separator_free(cancel_params(ts, symbol)),
{
    reveal_strlit("timestamp");
    reveal_strlit("recvWindow");
    reveal_strlit("10000");
    reveal_strlit("symbol");
    crate::text::lemma_dec_str_digits(ts);
    assert(crate::signing::separator_free(dec_str_of(ts)));
    assert(crate::signing::separator_free("timestamp"@));
    assert(crate::signing::separator_free("recvWindow"@));
    assert(crate::signing::separator_free("10000"@));
    assert(crate::signing::separator_free("symbol"@));
}

/// A changed timestamp, a changed symbol, or one operation's parameters in
/// place of the other's is never signed over the same payload: the signed
/// bytes pin down the operation and its parameters exactly.
pub proof fn lemma_operation_payloads_distinct(
    ts1: nat,
    sym1: Seq<char>,
    ts2: nat,
    sym2: Seq<char>,
)
    requires
        crate::signing::separator_free(sym1),
        crate::signing::separator_free(sym2),
    ensures
        ts1 != ts2 ==> crate::signing::signed_payload(open_orders_params(ts1))
            != crate::signing::signed_payload(open_orders_params(ts2)),
        ts1 != ts2 || sym1 != sym2 ==> crate::signing::signed_payload(cancel_params(ts1, sym1))
            != crate::signing::signed_payload(cancel_params(ts2, sym2)),
        crate::signing::signed_payload(open_orders_params(ts1))
            != crate::signing::signed_payload(cancel_params(ts2, sym2)),
{
    lemma_request_params_separator_free(ts1, sym1);
    lemma_request_params_separator_free(ts2, sym2);
    if dec_str_of(ts1) == dec_str_of(ts2) {
        crate::text::lemma_dec_str_injective(ts1, ts2);
    }
    if ts1 != ts2 {
        assert(open_orders_params(ts1)[0].1 != open_orders_params(ts2)[0].1);
        crate::signing::lemma_distinct_params_distinct_payload(
            open_orders_params(ts1),
            open_orders_params(ts2),
        );
        assert(cancel_params(ts1, sym1)[0].1 != cancel_params(ts2, sym2)[0].1);
        crate::signing::lemma_distinct_params_distinct_payload(
            cancel_params(ts1, sym1),
            cancel_params(ts2, sym2),
        );
    } else if sym1 != sym2 {
        assert(cancel_params(ts1, sym1)[2].1 != cancel_params(ts2, sym2)[2].1);
        crate::signing::lemma_distinct_params_distinct_payload(
            cancel_params(ts1, sym1),
            cancel_params(ts2, sym2),
        );
    }
    assert(open_orders_params(ts1).len() != cancel_params(ts2, sym2).len());
    crate::signing::lemma_distinct_params_distinct_payload(
        open_orders_params(ts1),
        cancel_params(ts2, sym2),
    );
}

/// The normalized form of a variable-precision decimal: trailing `0`
/// characters removed, then one trailing `.` removed, and `0` substituted
/// for an empty remainder.
pub open spec fn normalize_decimal(s: Seq<char>) -> Seq<char> {
    let stripped = strip_trailing(s, '0');
    let undotted = if stripped.len() > 0 && stripped.last() == '.' {
        stripped.drop_last()
    } else {
        stripped
    };
    if undotted.len() == 0 {
        seq!['0']
    } else {
        undotted
    }
}

/// Normalizes the exchange's variable-precision decimal text before numeric
/// parsing: `1.50000000` becomes `1.5`, `2.00000000` becomes `2`,
/// `0.00000000` becomes `0`.
pub fn fix_numbers(s: &str) -> (r: String)
    ensures
        r@ == normalize_decimal(s@),
        r@.len() > 0,
{
    let stripped = trim_end_char(s, '0');
    let n = stripped.as_str().unicode_len();
    let undotted = if n > 0 && stripped.as_str().get_char(n - 1) == '.' {
        let u = stripped.as_str().substring_char(0, n - 1);
        proof {
            assert(u@ =~= strip_trailing(s@, '0').drop_last());
        }
        u.to_owned()
    } else {
        stripped
    };
    if undotted.as_str().unicode_len() == 0 {
        proof {
            reveal_strlit("0");
            assert("0"@ =~= seq!['0']);
        }
        "0".to_owned()
    } else {
        undotted
    }
}

impl Order {
    /// Decodes one order from the raw field values of the exchange's
    /// response, normalizing the two decimal fields.
    pub fn from_raw(
        order_id: u128,
        symbol: String,
        status: String,
        price: &str,
        orig_qty: &str,
        orig_type: String,
        side: String,
    ) -> (r: Order)
        ensures
            r.order_id == order_id,
            r.symbol@ == symbol@,
            r.status@ == status@,
            r.price@ == normalize_decimal(price@),
            r.orig_qty@ == normalize_decimal(orig_qty@),
            r.orig_type@ == orig_type@,
            r.side@ == side@,
    {
        Order {
            order_id,
            symbol,
            status,
            price: fix_numbers(price),
            orig_qty: fix_numbers(orig_qty),
            orig_type,
            side,
        }
    }
}

/// Exact status required by the exchange for a successful cancellation:
/// success is reported only for HTTP 200, every other status (or a transport
/// failure, reported by the caller as a non-200 placeholder) is a per-symbol
/// failure that leaves the rest of a batch to proceed.
pub fn cancel_success(status: u16) -> (r: bool)
    ensures
        r == (status == 200),
{
    status == 200
}

/// Folds the statuses of a whole cancellation batch into per-symbol success
/// flags: every entry is reported, one failure never hides the rest.
pub fn cancel_report(statuses: &Vec<u16>) -> (r: Vec<bool>)
    ensures
        r@.len() == statuses@.len(),
        forall|i: int| 0 <= i < r@.len() ==> r@[i] == (statuses@[i] == 200),
{
    let mut out: Vec<bool> = Vec::new();
    let mut i: usize = 0;
    while i < statuses.len()
        invariant
            i <= statuses@.len(),
            out@.len() == i,
            forall|j: int| 0 <= j < i ==> out@[j] == (statuses@[j] == 200),
        decreases statuses@.len() - i,
    {
        out.push(cancel_success(statuses[i]));
        i = i + 1;
    }
    out
}

/// Relies on `std::time::SystemTime::now` and `duration_since`: the local
/// wall clock in milliseconds since the epoch, or 0 if the clock reads
/// before the epoch. Nothing can be promised of a clock reading.
#[verifier::external_body]
fn os_clock_millis() -> u128 {
    match std::time::SystemTime::now().duration_since(std::time::UNIX_EPOCH) {
        Ok(since_the_epoch) => since_the_epoch.as_millis(),
        Err(_) => 0,
    }
}

/// The local wall clock in milliseconds. Unused by the signing flow, which
/// takes the exchange's clock instead precisely to sidestep local skew.
pub fn _get_os_timestamp() -> u128 {
    os_clock_millis()
}

} // verus!
