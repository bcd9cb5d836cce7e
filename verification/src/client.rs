use vstd::prelude::*;
use vstd::string::StringExecFns;

use crate::crypto::{is_lower_hex_char, spec_signature, signature_hex};
use crate::endpoints::{
    base_url_of, spec_base_url, spec_stream_url, stream_url_of, AccountMode, HttpMethod,
};
use crate::numfmt::{i64_to_string, spec_i64_string};
use crate::params::{spec_insert, spec_query, Params};
use crate::session::SessionState;

verus! {

/// A client instance: credentials, the account mode, and the two base
/// URLs the mode fixes at construction, plus the listen-key session.
pub struct BinanceAPI {
    pub api_key: String,
    pub secret_key: String,
    pub account_type: AccountMode,
    pub base_url: String,
    pub wss_url: String,
    pub session: SessionState,
}

/// The full URL of an operation: the mode's base URL, then the spot or
/// the swap path as the mode selects.
pub open spec fn spec_resolved_url(
    mode: AccountMode,
    spot_path: Seq<char>,
    swap_path: Seq<char>,
) -> Seq<char> {
    spec_base_url(mode) + (match mode {
        AccountMode::Spot => spot_path,
        AccountMode::Swap => swap_path,
    })
}

/// A fully described HTTP call: everything the transport needs, and
/// nothing it may change. The query pairs are sent in this exact order.
pub struct PreparedRequest {
    pub method: HttpMethod,
    pub url: String,
    pub query: Params,
    pub api_key: String,
}

/// The final query of a signed request: a `timestamp` parameter is
/// inserted into the parameter set, and the signature over the resulting
/// canonical query text is appended as one more pair, kept outside the
/// signed set.
pub open spec fn spec_signed_query(
    ps: Seq<(Seq<char>, Seq<char>)>,
    secret: Seq<char>,
    now_ms: int,
) -> Seq<(Seq<char>, Seq<char>)> {
    let stamped = spec_insert(ps, "timestamp"@, spec_i64_string(now_ms));
    stamped.push(("signature"@, spec_signature(secret, spec_query(stamped))))
}

/// Relies on `chrono::Utc::now` and `timestamp_millis`: reads the system
/// clock; nothing is promised of the value.
#[verifier::external_body]
pub(crate) fn now_millis() -> (r: i64) {
    chrono::Utc::now().timestamp_millis()
}

impl BinanceAPI {
    /// The base URLs are the pure functions of the account mode fixed at
    /// construction.
    pub open spec fn wf(&self) -> bool {
        &&& self.base_url@ == spec_base_url(self.account_type)
        &&& self.wss_url@ == spec_stream_url(self.account_type)
    }

    /// Builds a client for the given mode. The session starts absent;
    /// whether a listen key must be generated is read off
    /// `bootstrap_request`.
    pub fn new(api_key: String, secret_key: String, account_type: AccountMode) -> (c: Self)
        ensures
            c.wf(),
            c.api_key@ == api_key@,
            c.secret_key@ == secret_key@,
            c.account_type == account_type,
            c.session is Absent,
    {
        BinanceAPI {
            api_key,
            secret_key,
            account_type,
            base_url: base_url_of(account_type),
            wss_url: stream_url_of(account_type),
            session: SessionState::Absent,
        }
    }

    /// Fallback for a tag outside a closed domain — a misconfiguration,
    /// fatal at the boundary that still deals in string tags: that code
    /// checks its tags and fails fast before calling into the library.
    /// The library's own domains (account mode, HTTP method, session
    /// operation, stream kind) are closed enumerations, so no verified
    /// caller can reach an undefined tag. A verified function cannot
    /// fail fatally, so this fallback hands the fallback value back
    /// unchanged instead.
    #[allow(unused_variables)]
    pub fn panic_not_define<T>(domain: &str, tag: &str, res: T) -> (r: T)
        ensures
            r == res,
    {
        res
    }

    /// Concatenates the mode's base URL with the path the mode selects
    /// from the `(spot, swap)` pair.
    pub fn generate_exchange_url(&self, spot_swap_url: (&str, &str)) -> (r: String)
        requires
            self.wf(),
        ensures
            r@ == spec_resolved_url(self.account_type, spot_swap_url.0@, spot_swap_url.1@),
    {
        let url = match self.account_type {
            AccountMode::Spot => spot_swap_url.0,
            AccountMode::Swap => spot_swap_url.1,
        };
        self.base_url.clone().concat(url)
    }

    /// Signs a parameter set: serializes it as the canonical query text
    /// and computes the lowercase hex HMAC-SHA256 tag under the secret
    /// key. The result is a 64-character lowercase hex string, and a
    /// function of the secret key and the parameters alone.
    pub fn generate_signature(&self, param_map: &Params) -> (r: String)
        ensures
            r@ == spec_signature(self.secret_key@, spec_query(param_map@)),
            r@.len() == 64,
            forall|i: int| 0 <= i < r@.len() ==> is_lower_hex_char(#[trigger] r@[i]),
    {
        let query = param_map.to_query();
        signature_hex(self.secret_key.as_str(), query.as_str())
    }

    /// Assembles the request the transport is to send. For a signed
    /// request, `now_ms` is stamped in as the `timestamp` parameter and
    /// the signature pair is appended after the signed set.
    pub fn prepare_request(
        &self,
        url: String,
        method: HttpMethod,
        param_map: Params,
        signature: bool,
        now_ms: i64,
    ) -> (r: PreparedRequest)
        ensures
            r.method == method,
            r.url@ == url@,
            r.api_key@ == self.api_key@,
            signature ==> r.query@ == spec_signed_query(
                param_map@,
                self.secret_key@,
                now_ms as int,
            ),
            !signature ==> r.query@ == param_map@,
    {
        let mut q = param_map;
        if signature {
            q.insert("timestamp".to_owned(), i64_to_string(now_ms));
            let sig = self.generate_signature(&q);
            q.append_pair("signature".to_owned(), sig);
        }
        PreparedRequest { method, url, query: q, api_key: self.api_key.clone() }
    }

    /// As `prepare_request`, stamping in the clock's current reading.
    /// The clock is outside the library, so only this much holds: some
    /// timestamp was used.
    pub fn prepare_request_now(
        &self,
        url: String,
        method: HttpMethod,
        param_map: Params,
        signature: bool,
    ) -> (r: PreparedRequest)
        ensures
            r.method == method,
            r.url@ == url@,
            r.api_key@ == self.api_key@,
            !signature ==> r.query@ == param_map@,
            signature ==> exists|ts: int|
                r.query@ == spec_signed_query(param_map@, self.secret_key@, ts),
    {
        let now = now_millis();
        let ghost ps = param_map@;
        let r = self.prepare_request(url, method, param_map, signature, now);
        proof {
            if signature {
                assert(r.query@ == spec_signed_query(ps, self.secret_key@, now as int));
            }
        }
        r
    }
}

/// The query of an operation that takes an optional symbol: empty means
/// every symbol, and sends no parameter at all.
pub open spec fn spec_symbol_params(sym: Seq<char>) -> Seq<(Seq<char>, Seq<char>)> {
    if sym.len() == 0 {
        Seq::empty()
    } else {
        seq![("symbol"@, sym)]
    }
}

/// The parameter set of a new order: `price` and `timeInForce` are sent
/// exactly for limit orders.
pub open spec fn spec_order_params(
    symbol: Seq<char>,
    side: Seq<char>,
    trade_type: Seq<char>,
    quantity: Seq<char>,
    price: Seq<char>,
    time_inforce: Seq<char>,
) -> Seq<(Seq<char>, Seq<char>)> {
    let base = seq![
        ("symbol"@, symbol),
        ("side"@, side),
        ("type"@, trade_type),
        ("quantity"@, quantity),
    ];
    if trade_type == "LIMIT"@ {
        base + seq![("price"@, price), ("timeInForce"@, time_inforce)]
    } else {
        base
    }
}

/// The parameter set of a cancel: one order by id, or every open order
/// of the symbol.
pub open spec fn spec_cancel_params(
    symbol: Seq<char>,
    order_id: Seq<char>,
    all: bool,
) -> Seq<(Seq<char>, Seq<char>)> {
    if all {
        seq![("symbol"@, symbol)]
    } else {
        seq![("symbol"@, symbol), ("orderId"@, order_id)]
    }
}

impl BinanceAPI {
    /// Builds the exchange-information request (public, unsigned).
    pub fn get_exchange_info(&self) -> (r: PreparedRequest)
        requires
            self.wf(),
        ensures
            r.method is Get,
            r.url@ == spec_resolved_url(
                self.account_type,
                "/api/v3/exchangeInfo"@,
                "/fapi/v1/exchangeInfo"@,
            ),
            r.query@ == Seq::<(Seq<char>, Seq<char>)>::empty(),
            r.api_key@ == self.api_key@,
    {
        let url = self.generate_exchange_url(("/api/v3/exchangeInfo", "/fapi/v1/exchangeInfo"));
        PreparedRequest {
            method: HttpMethod::Get,
            url,
            query: Params::new(),
            api_key: self.api_key.clone(),
        }
    }

    /// Builds the latest-price request (public, unsigned); an empty
    /// symbol asks for every symbol.
    pub fn get_price(&self, symbol: &str) -> (r: PreparedRequest)
        requires
            self.wf(),
        ensures
            r.method is Get,
            r.url@ == spec_resolved_url(
                self.account_type,
                "/api/v3/ticker/price"@,
                "/fapi/v1/ticker/price"@,
            ),
            r.query@ == spec_symbol_params(symbol@),
            r.api_key@ == self.api_key@,
    {
        let url = self.generate_exchange_url(("/api/v3/ticker/price", "/fapi/v1/ticker/price"));
        let mut p = Params::new();
        if !symbol.is_empty() {
            p.append_pair("symbol".to_owned(), symbol.to_owned());
        }
        proof {
            assert(p@ =~= spec_symbol_params(symbol@));
        }
        PreparedRequest { method: HttpMethod::Get, url, query: p, api_key: self.api_key.clone() }
    }

    /// Builds the 24-hour ticker request (public, unsigned); an empty
    /// symbol asks for every symbol.
    pub fn get_ticker(&self, symbol: &str) -> (r: PreparedRequest)
        requires
            self.wf(),
        ensures
            r.method is Get,
            r.url@ == spec_resolved_url(
                self.account_type,
                "/api/v3/ticker/24hr"@,
                "/fapi/v1/ticker/24hr"@,
            ),
            r.query@ == spec_symbol_params(symbol@),
            r.api_key@ == self.api_key@,
    {
        let url = self.generate_exchange_url(("/api/v3/ticker/24hr", "/fapi/v1/ticker/24hr"));
        let mut p = Params::new();
        if !symbol.is_empty() {
            p.append_pair("symbol".to_owned(), symbol.to_owned());
        }
        proof {
            assert(p@ =~= spec_symbol_params(symbol@));
        }
        PreparedRequest { method: HttpMethod::Get, url, query: p, api_key: self.api_key.clone() }
    }

    /// Builds a signed order placement, stamped with `now_ms`.
    pub fn new_order(
        &self,
        symbol: &str,
        side: &str,
        trade_type: &str,
        quantity: &str,
        price: &str,
        time_inforce: &str,
        now_ms: i64,
    ) -> (r: PreparedRequest)
        requires
            self.wf(),
        ensures
            r.method is Post,
            r.url@ == spec_resolved_url(self.account_type, "/api/v3/order"@, "/fapi/v1/order"@),
            r.query@ == spec_signed_query(
                spec_order_params(symbol@, side@, trade_type@, quantity@, price@, time_inforce@),
                self.secret_key@,
                now_ms as int,
            ),
            r.api_key@ == self.api_key@,
    {
        let url = self.generate_exchange_url(("/api/v3/order", "/fapi/v1/order"));
        let mut p = Params::new();
        p.append_pair("symbol".to_owned(), symbol.to_owned());
        p.append_pair("side".to_owned(), side.to_owned());
        p.append_pair("type".to_owned(), trade_type.to_owned());
        p.append_pair("quantity".to_owned(), quantity.to_owned());
        let trade_type_own = trade_type.to_owned();
        let limit_tag = "LIMIT".to_owned();
        if trade_type_own == limit_tag {
            p.append_pair("price".to_owned(), price.to_owned());
            p.append_pair("timeInForce".to_owned(), time_inforce.to_owned());
        }
        proof {
            assert(p@ =~= spec_order_params(
                symbol@,
                side@,
                trade_type@,
                quantity@,
                price@,
                time_inforce@,
            ));
        }
        self.prepare_request(url, HttpMethod::Post, p, true, now_ms)
    }

    /// Builds a signed cancel: one order by id, or — with `all` — every
    /// open order of the symbol.
    pub fn cancel_order(&self, symbol: &str, order_id: &str, all: bool, now_ms: i64) -> (r:
        PreparedRequest)
        requires
            self.wf(),
        ensures
            r.method is Delete,
            all ==> r.url@ == spec_resolved_url(
                self.account_type,
                "/api/v3/openOrders"@,
                "/fapi/v1/allOpenOrders"@,
            ),
            !all ==> r.url@ == spec_resolved_url(
                self.account_type,
                "/api/v3/order"@,
                "/fapi/v1/order"@,
            ),
            r.query@ == spec_signed_query(
                spec_cancel_params(symbol@, order_id@, all),
                self.secret_key@,
                now_ms as int,
            ),
            r.api_key@ == self.api_key@,
    {
        let url = if all {
            self.generate_exchange_url(("/api/v3/openOrders", "/fapi/v1/allOpenOrders"))
        } else {
            self.generate_exchange_url(("/api/v3/order", "/fapi/v1/order"))
        };
        let mut p = Params::new();
        p.append_pair("symbol".to_owned(), symbol.to_owned());
        if !all {
            p.append_pair("orderId".to_owned(), order_id.to_owned());
        }
        proof {
            assert(p@ =~= spec_cancel_params(symbol@, order_id@, all));
        }
        self.prepare_request(url, HttpMethod::Delete, p, true, now_ms)
    }

    /// Builds the signed account-information request.
    pub fn pull_account(&self, now_ms: i64) -> (r: PreparedRequest)
        requires
            self.wf(),
        ensures
            r.method is Get,
            r.url@ == spec_resolved_url(
                self.account_type,
                "/api/v3/account"@,
                "/fapi/v2/account"@,
            ),
            r.query@ == spec_signed_query(
                Seq::<(Seq<char>, Seq<char>)>::empty(),
                self.secret_key@,
                now_ms as int,
            ),
            r.api_key@ == self.api_key@,
    {
        let url = self.generate_exchange_url(("/api/v3/account", "/fapi/v2/account"));
        self.prepare_request(url, HttpMethod::Get, Params::new(), true, now_ms)
    }

    /// Builds the signed position-risk request; positions exist only
    /// under the swap mode.
    pub fn get_position(&self, now_ms: i64) -> (r: PreparedRequest)
        requires
            self.wf(),
            self.account_type is Swap,
        ensures
            r.method is Get,
            r.url@ == spec_base_url(self.account_type) + "/fapi/v2/positionRisk"@,
            r.query@ == spec_signed_query(
                Seq::<(Seq<char>, Seq<char>)>::empty(),
                self.secret_key@,
                now_ms as int,
            ),
            r.api_key@ == self.api_key@,
    {
        let url = self.generate_exchange_url(("", "/fapi/v2/positionRisk"));
        self.prepare_request(url, HttpMethod::Get, Params::new(), true, now_ms)
    }

    /// Builds the signed futures-balance request; balances exist only
    /// under the swap mode.
    pub fn get_balance(&self, now_ms: i64) -> (r: PreparedRequest)
        requires
            self.wf(),
            self.account_type is Swap,
        ensures
            r.method is Get,
            r.url@ == spec_base_url(self.account_type) + "/fapi/v2/balance"@,
            r.query@ == spec_signed_query(
                Seq::<(Seq<char>, Seq<char>)>::empty(),
                self.secret_key@,
                now_ms as int,
            ),
            r.api_key@ == self.api_key@,
    {
        let url = self.base_url.clone().concat("/fapi/v2/balance");
        self.prepare_request(url, HttpMethod::Get, Params::new(), true, now_ms)
    }
}

} // verus!
