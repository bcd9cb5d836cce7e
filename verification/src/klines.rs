use vstd::prelude::*;

use crate::client::{spec_resolved_url, BinanceAPI, PreparedRequest};
use crate::endpoints::HttpMethod;
use crate::errors::ApiError;
use crate::json::{json_as_array, json_first_i64};
use crate::numfmt::{i64_to_string, spec_i64_string};
use crate::params::Params;
use crate::utctime::{parse_utc_datetime, spec_datetime_ok, spec_epoch_seconds, spec_fields_of};

verus! {

/// One candlestick record as the exchange returned it. The paginator
/// reads nothing of a record but its open time, so only that field is a
/// plain value; the record itself rides along verbatim.
#[derive(Debug)]
pub struct Kline {
    pub open_time: i64,
    pub record: serde_json::Value,
}

/// The abstract state of a running historical fetch.
pub ghost struct PageState {
    pub url: Seq<char>,
    pub symbol: Seq<char>,
    pub interval: Seq<char>,
    pub next_start: int,
    pub end_time: Option<int>,
    pub acc: Seq<Kline>,
    pub done: bool,
}

/// The pagination loop of a historical fetch, one page at a time: the
/// caller sends the current request, hands the returned page back in, and
/// repeats until the fetch reports itself done.
pub struct KlinePaginator {
    pub url: String,
    pub symbol: String,
    pub interval: String,
    pub next_start: i64,
    pub end_time: Option<i64>,
    pub acc: Vec<Kline>,
    pub done: bool,
}

impl View for KlinePaginator {
    type V = PageState;

    open spec fn view(&self) -> PageState {
        PageState {
            url: self.url@,
            symbol: self.symbol@,
            interval: self.interval@,
            next_start: self.next_start as int,
            end_time: match self.end_time {
                Some(t) => Some(t as int),
                None => None,
            },
            acc: self.acc@,
            done: self.done,
        }
    }
}

/// One pagination step. An empty page ends the fetch. A nonempty page is
/// appended whole, and the next request starts one millisecond past the
/// page's last open time, so the boundary record is not fetched twice;
/// at the greatest representable open time no later start exists and the
/// fetch ends instead.
pub open spec fn spec_feed(s: PageState, page: Seq<Kline>) -> PageState {
    if page.len() == 0 {
        PageState { done: true, ..s }
    } else if page.last().open_time == i64::MAX {
        PageState { acc: s.acc + page, done: true, ..s }
    } else {
        PageState { acc: s.acc + page, next_start: page.last().open_time + 1, ..s }
    }
}

/// What a finished fetch returns: the accumulated series without its
/// final record, or the empty series where nothing was accumulated.
/// Dropping the tail record is a deliberate policy: the last record of
/// the final page may be a still-open, in-progress candle, and callers
/// get only settled records.
pub open spec fn spec_finish(acc: Seq<Kline>) -> Seq<Kline> {
    if acc.len() == 0 {
        Seq::empty()
    } else {
        acc.drop_last()
    }
}

/// The query of the next page request.
pub open spec fn spec_kline_params(s: PageState) -> Seq<(Seq<char>, Seq<char>)> {
    let base = seq![
        ("symbol"@, s.symbol),
        ("interval"@, s.interval),
        ("startTime"@, spec_i64_string(s.next_start)),
    ];
    match s.end_time {
        Some(e) => base.push(("endTime"@, spec_i64_string(e))),
        None => base,
    }
}

impl KlinePaginator {
    /// The parameters of the next page request: symbol, interval, the
    /// current start cursor, and the fixed end bound where one was given.
    pub fn request_params(&self) -> (r: Params)
        ensures
            r@ == spec_kline_params(self@),
    {
        let mut p = Params::new();
        p.append_pair("symbol".to_owned(), self.symbol.clone());
        p.append_pair("interval".to_owned(), self.interval.clone());
        p.append_pair("startTime".to_owned(), i64_to_string(self.next_start));
        match self.end_time {
            Some(e) => {
                p.append_pair("endTime".to_owned(), i64_to_string(e));
            },
            None => {},
        }
        proof {
            assert(p@ =~= spec_kline_params(self@));
        }
        p
    }

    /// Consumes the page the exchange returned for the current request.
    pub fn feed_page(&mut self, page: Vec<Kline>)
        requires
            !old(self)@.done,
        ensures
            final(self)@ == spec_feed(old(self)@, page@),
    {
        if page.len() == 0 {
            self.done = true;
        } else {
            let last_open = page[page.len() - 1].open_time;
            let mut page = page;
            self.acc.append(&mut page);
            if last_open == i64::MAX {
                self.done = true;
            } else {
                self.next_start = last_open + 1;
            }
        }
    }

    /// Hands the accumulated series out, without its final record.
    pub fn finish(self) -> (r: Vec<Kline>)
        ensures
            r@ == spec_finish(self@.acc),
    {
        let mut acc = self.acc;
        if acc.len() > 0 {
            acc.pop();
        }
        acc
    }
}

impl BinanceAPI {
    /// Starts a historical fetch: parses the two UTC bounds — the end
    /// bound only where one is given — and yields the paginator whose
    /// first request starts at the start bound. Either time string is
    /// rejected exactly when it names no UTC instant.
    pub fn history_klines(
        &self,
        symbol: &str,
        interval: &str,
        start_time_utc: &str,
        end_time_utc: &str,
    ) -> (r: Result<KlinePaginator, ApiError>)
        requires
            self.wf(),
        ensures
            (r is Ok) == (spec_datetime_ok(start_time_utc@) && (end_time_utc@.len() == 0
                || spec_datetime_ok(end_time_utc@))),
            r matches Err(e) ==> e is InvalidTime,
            r matches Ok(p) ==> {
                &&& !p@.done
                &&& p@.acc == Seq::<Kline>::empty()
                &&& p@.symbol == symbol@
                &&& p@.interval == interval@
                &&& p@.url == spec_resolved_url(
                    self.account_type,
                    "/api/v3/klines"@,
                    "/fapi/v1/klines"@,
                )
                &&& p@.next_start == 1000 * spec_epoch_seconds(spec_fields_of(start_time_utc@))
                &&& p@.end_time == (if end_time_utc@.len() == 0 {
                    Option::<int>::None
                } else {
                    Option::<int>::Some(1000 * spec_epoch_seconds(spec_fields_of(end_time_utc@)))
                })
            },
    {
        let url = self.generate_exchange_url(("/api/v3/klines", "/fapi/v1/klines"));
        let start = match parse_utc_datetime(start_time_utc) {
            Ok(t) => t,
            Err(_) => {
                return Err(ApiError::InvalidTime);
            },
        };
        let end_time = if end_time_utc.is_empty() {
            None
        } else {
            match parse_utc_datetime(end_time_utc) {
                Ok(t) => Some(t.timestamp_millis()),
                Err(_) => {
                    return Err(ApiError::InvalidTime);
                },
            }
        };
        Ok(
            KlinePaginator {
                url,
                symbol: symbol.to_owned(),
                interval: interval.to_owned(),
                next_start: start.timestamp_millis(),
                end_time,
                acc: Vec::new(),
                done: false,
            },
        )
    }

    /// The full request of a fetch's next page: unsigned GET on the
    /// klines endpoint resolved at the start of the fetch.
    pub fn kline_request(&self, paginator: &KlinePaginator) -> (r: PreparedRequest)
        ensures
            r.method is Get,
            r.url@ == paginator@.url,
            r.query@ == spec_kline_params(paginator@),
            r.api_key@ == self.api_key@,
    {
        PreparedRequest {
            method: HttpMethod::Get,
            url: paginator.url.clone(),
            query: paginator.request_params(),
            api_key: self.api_key.clone(),
        }
    }
}

/// Reads one record out of a page element once its open time was looked
/// up: the record rides along verbatim; an element without an integral
/// first field is a malformed response.
pub fn kline_from_parts(record: serde_json::Value, open_time_field: Option<i64>) -> (r: Result<
    Kline,
    ApiError,
>)
    ensures
        open_time_field matches Some(t) ==> (r matches Ok(k) && k.open_time == t && k.record
            == record),
        open_time_field is None ==> (r matches Err(e) && e is MalformedResponse),
{
    match open_time_field {
        Some(t) => Ok(Kline { open_time: t, record }),
        None => Err(ApiError::MalformedResponse),
    }
}

/// Converts one page element; whatever the lookup of the first field
/// yielded, a failure is surfaced only as a malformed response.
pub fn kline_from_value(v: serde_json::Value) -> (r: Result<Kline, ApiError>)
    ensures
        r matches Ok(k) ==> k.record == v,
        r matches Err(e) ==> e is MalformedResponse,
{
    let open_time_field = json_first_i64(&v);
    kline_from_parts(v, open_time_field)
}

/// Converts a whole page of elements, in order: the records of the
/// result are the elements, verbatim; any element without an integral
/// first field makes the page a malformed response. The empty page — the
/// page that ends a fetch — always converts.
#[verifier::loop_isolation(false)]
pub fn klines_from_array(elements: Vec<serde_json::Value>) -> (r: Result<Vec<Kline>, ApiError>)
    ensures
        elements@.len() == 0 ==> r is Ok,
        r matches Ok(ks) ==> ks@.len() == elements@.len() && (forall|i: int|
            0 <= i < ks@.len() ==> ks@[i].record == elements@[i]),
        r matches Err(e) ==> e is MalformedResponse,
{
    let ghost orig = elements@;
    let mut elements = elements;
    let mut out: Vec<Kline> = Vec::new();
    while elements.len() > 0
        invariant
            out@.len() + elements@.len() == orig.len(),
            elements@ == orig.skip(out@.len() as int),
            forall|i: int| 0 <= i < out@.len() ==> out@[i].record == orig[i],
        decreases elements.len(),
    {
        let ghost consumed = out@.len() as int;
        let v = elements.remove(0);
        proof {
            assert(v == orig[consumed]);
            assert(elements@ =~= orig.skip(consumed + 1));
        }
        match kline_from_value(v) {
            Ok(k) => out.push(k),
            Err(e) => {
                return Err(e);
            },
        }
    }
    Ok(out)
}

/// Converts a page the exchange returned: the page must be a JSON array;
/// anything else is a malformed response.
pub fn klines_from_json(page: &serde_json::Value) -> (r: Result<Vec<Kline>, ApiError>)
    ensures
        r matches Err(e) ==> e is MalformedResponse,
{
    match json_as_array(page) {
        Some(elements) => klines_from_array(elements),
        None => Err(ApiError::MalformedResponse),
    }
}

/// Two nonempty pages and then an empty one: the fetch makes exactly
/// three requests — after the empty page it is done and requests nothing
/// further — every later request's start cursor is one millisecond past
/// the previous page's last open time, the symbol, interval, end bound
/// and URL stay fixed across all requests, and the finished fetch
/// returns the two pages concatenated, without the final record.
pub proof fn lemma_pagination_two_pages(s0: PageState, p1: Seq<Kline>, p2: Seq<Kline>)
    requires
        !s0.done,
        s0.acc == Seq::<Kline>::empty(),
        p1.len() > 0,
        p2.len() > 0,
        p1.last().open_time < i64::MAX,
        p2.last().open_time < i64::MAX,
    ensures
        ({
            let s1 = spec_feed(s0, p1);
            let s2 = spec_feed(s1, p2);
            let s3 = spec_feed(s2, Seq::<Kline>::empty());
            &&& !s1.done && s1.next_start == p1.last().open_time + 1
            &&& !s2.done && s2.next_start == p2.last().open_time + 1
            &&& s3.done
            &&& s1.symbol == s0.symbol && s2.symbol == s0.symbol
            &&& s1.interval == s0.interval && s2.interval == s0.interval
            &&& s1.end_time == s0.end_time && s2.end_time == s0.end_time
            &&& s1.url == s0.url && s2.url == s0.url
            &&& s3.acc == p1 + p2
            &&& spec_finish(s3.acc) == (p1 + p2).drop_last()
        }),
{
    let s1 = spec_feed(s0, p1);
    assert(s1.acc =~= p1);
    let s2 = spec_feed(s1, p2);
    assert(s2.acc =~= p1 + p2);
    assert((p1 + p2).len() > 0);
}

/// An empty first page: the fetch is done after one request and returns
/// the empty series.
pub proof fn lemma_empty_first_page(s0: PageState)
    requires
        !s0.done,
        s0.acc == Seq::<Kline>::empty(),
    ensures
        spec_feed(s0, Seq::<Kline>::empty()).done,
        spec_finish(spec_feed(s0, Seq::<Kline>::empty()).acc) == Seq::<Kline>::empty(),
{
}

} // verus!
