//! Decoding of the vendor's quote text, and the policy by which a quote is
//! fetched: which request to send, when to wait and try again, and when to
//! give up.

use crate::config::AppConfig;
use crate::decimal::Decimal;
use crate::numeral::numeral_micros;
use crate::error::{ErrorKind, StockCalcError};
use crate::models::{StockInfo, StockInfoView};
use crate::text::{
    all_alphanumeric, is_all_alphanumeric, parse_u64, split, split_fields, unsigned_value,
};
use vstd::prelude::*;
use vstd::string::StringExecFns;

verus! {

/// Whether `s` holds an assignment of the vendor's form that starts at `i`,
/// has its equals sign at `j` and its closing quote at `k`: the letters `v_`,
/// a key of one or more characters other than `=`, then `="`, a value of one
/// or more characters other than `"`, and `"`.
pub open spec fn assignment_at(s: Seq<char>, i: int, j: int, k: int) -> bool {
    &&& 0 <= i
    &&& i + 2 < j
    &&& j + 2 < k < s.len()
    &&& s[i] == 'v'
    &&& s[i + 1] == '_'
    &&& forall|t: int| i + 2 <= t < j ==> s[t] != '='
    &&& s[j] == '='
    &&& s[j + 1] == '"'
    &&& forall|t: int| j + 2 <= t < k ==> s[t] != '"'
    &&& s[k] == '"'
}

/// Whether `s` holds an assignment anywhere.
pub open spec fn has_assignment(s: Seq<char>) -> bool {
    exists|i: int, j: int, k: int| assignment_at(s, i, j, k)
}

/// Whether `p` is the value of the assignment that starts first in `s`.
pub open spec fn is_payload_of(s: Seq<char>, p: Seq<char>) -> bool {
    exists|i: int, j: int, k: int|
        {
            &&& #[trigger] assignment_at(s, i, j, k)
            &&& p == s.subrange(j + 2, k)
            &&& forall|i2: int, j2: int, k2: int| #[trigger]
                assignment_at(s, i2, j2, k2) ==> i <= i2
        }
}

/// The value of the first assignment in `s`, if `s` holds one.
pub open spec fn payload_of(s: Seq<char>) -> Option<Seq<char>> {
    if has_assignment(s) {
        Some(choose|p: Seq<char>| is_payload_of(s, p))
    } else {
        None
    }
}

/// From a given start, an assignment can end in one way only.
proof fn lemma_assignment_determined(s: Seq<char>, i: int, j1: int, k1: int, j2: int, k2: int)
    requires
        assignment_at(s, i, j1, k1),
        assignment_at(s, i, j2, k2),
    ensures
        j1 == j2,
        k1 == k2,
{
}

/// A text has at most one first assignment, so `payload_of` is its value.
pub proof fn lemma_payload_unique(s: Seq<char>, p: Seq<char>)
    requires
        is_payload_of(s, p),
    ensures
        payload_of(s) == Some(p),
{
    let q = choose|q: Seq<char>| is_payload_of(s, q);
    let (i1, j1, k1) = choose|i: int, j: int, k: int|
        {
            &&& #[trigger] assignment_at(s, i, j, k)
            &&& p == s.subrange(j + 2, k)
            &&& forall|i2: int, j2: int, k2: int| #[trigger]
                assignment_at(s, i2, j2, k2) ==> i <= i2
        };
    let (i2, j2, k2) = choose|i: int, j: int, k: int|
        {
            &&& #[trigger] assignment_at(s, i, j, k)
            &&& q == s.subrange(j + 2, k)
            &&& forall|i2: int, j2: int, k2: int| #[trigger]
                assignment_at(s, i2, j2, k2) ==> i <= i2
        };
    lemma_assignment_determined(s, i1, j1, k1, j2, k2);
}

/// A text that holds no `v_` before its first assignment has the value of
/// that assignment as its payload, whatever follows the assignment. The key
/// of the assignment has to be one or more characters other than `=`, its
/// value one or more characters other than `"`.
pub proof fn lemma_payload_of_assignment(
    before: Seq<char>,
    key: Seq<char>,
    value: Seq<char>,
    after: Seq<char>,
)
    requires
        forall|t: int|
            0 <= t < before.len() - 1 ==> !(#[trigger] before[t] == 'v' && before[t + 1] == '_'),
        key.len() > 0,
        forall|t: int| 0 <= t < key.len() ==> key[t] != '=',
        value.len() > 0,
        forall|t: int| 0 <= t < value.len() ==> value[t] != '"',
    ensures
        payload_of(before + seq!['v', '_'] + key + seq!['=', '"'] + value + seq!['"'] + after)
            == Some(value),
{
    let s = before + seq!['v', '_'] + key + seq!['=', '"'] + value + seq!['"'] + after;
    let i = before.len() as int;
    let j = i + 2 + key.len();
    let k = j + 2 + value.len();
    assert(assignment_at(s, i, j, k));
    assert(s.subrange(j + 2, k) =~= value);
    lemma_payload_unique(s, value);
}

/// The view of an optional text.
pub open spec fn optional_text(t: Option<&str>) -> Option<Seq<char>> {
    match t {
        Some(s) => Some(s@),
        None => None,
    }
}

/// The price that a payload reports: its fourth field, read as a decimal
/// numeral, if that is a positive number.
pub open spec fn price_in(payload: Option<Seq<char>>) -> Option<int> {
    match payload {
        Some(p) => {
            let fields = split(p, '~');
            if fields.len() >= 4 {
                match numeral_micros(fields[3]) {
                    Some(v) => if v > 0 {
                        Some(v)
                    } else {
                        None
                    },
                    None => None,
                }
            } else {
                None
            }
        },
        None => None,
    }
}

/// What a numeric field of a full quote counts for: its value as a decimal
/// numeral, or zero if it is none.
pub open spec fn numeral_or_zero(field: Seq<char>) -> int {
    match numeral_micros(field) {
        Some(v) => v,
        None => 0,
    }
}

/// What the volume field of a full quote counts for: its value as an unsigned
/// numeral, or zero if it is none.
pub open spec fn unsigned_or_zero(field: Seq<char>) -> int {
    match unsigned_value(field) {
        Some(v) => v,
        None => 0,
    }
}

/// Number of fields that a full quote needs.
pub open spec fn full_quote_fields() -> int {
    38
}

/// The full quote that a payload reports, if it has enough fields. Name and
/// code are taken as they stand; a numeric field that is no numeral counts as
/// zero.
pub open spec fn info_in(payload: Option<Seq<char>>) -> Option<StockInfoView> {
    match payload {
        Some(p) => {
            let fields = split(p, '~');
            if fields.len() >= full_quote_fields() {
                Some(
                    StockInfoView {
                        name: fields[1],
                        code: fields[2],
                        current_price: numeral_or_zero(fields[3]),
                        yesterday_close: numeral_or_zero(fields[4]),
                        open_price: numeral_or_zero(fields[5]),
                        volume: unsigned_or_zero(fields[6]),
                        turnover: numeral_or_zero(fields[37]),
                        high_price: numeral_or_zero(fields[33]),
                        low_price: numeral_or_zero(fields[34]),
                        change_amount: numeral_or_zero(fields[31]),
                        change_percent: numeral_or_zero(fields[32]),
                    },
                )
            } else {
                None
            }
        },
        None => None,
    }
}

/// The detail of the error for a text without a usable price.
pub open spec fn price_failure_text(response_text: Seq<char>) -> Seq<char> {
    "无法解析股票价格，响应: "@ + response_text
}

/// The detail of the error for a text without a full quote.
pub open spec fn info_failure_text(response_text: Seq<char>) -> Seq<char> {
    "无法解析股票信息，响应: "@ + response_text
}

/// The error for a pattern that the regex crate refuses; it never arises.
fn pattern_failure(reason: String) -> StockCalcError {
    StockCalcError::ParseError(String::from_str("正则表达式错误: ").concat(reason.as_str()))
}

/// Searches `text` with the regular expression `v_[^=]+="([^"]+)"` of the
/// regex crate (`Regex::new`, `Regex::captures`, `Captures::get(1)`,
/// `Match::as_str`) and hands out what the first group captured.
///
/// Assumed of the crate: it compiles this pattern, as it refuses only a
/// pattern that is invalid or too large, so the result is never `Err`; the
/// search reports the match that starts first in the text; `[^=]+` and
/// `[^"]+` each take one or more characters, of any kind but the one
/// excluded; the group holds the characters between the two quotes.
#[verifier::external_body]
fn find_payload<'a>(text: &'a str) -> (r: Result<Option<&'a str>, String>)
    ensures
        match r {
            Ok(Some(p)) => is_payload_of(text@, p@),
            Ok(None) => !has_assignment(text@),
            Err(_) => false,
        },
{
    match regex::Regex::new(r#"v_[^=]+="([^"]+)""#) {
        Ok(re) => match re.captures(text) {
            Some(captures) => match captures.get(1) {
                Some(data) => Ok(Some(data.as_str())),
                None => Ok(None),
            },
            None => Ok(None),
        },
        Err(e) => Err(e.to_string()),
    }
}

/// Reads a numeric field of a full quote.
fn decimal_or_zero(field: &str) -> (d: Decimal)
    ensures
        d@ == numeral_or_zero(field@),
{
    match Decimal::parse(field) {
        Some(d) => d,
        None => Decimal::zero(),
    }
}

/// Reads the volume field of a full quote.
fn volume_or_zero(field: &str) -> (v: u64)
    ensures
        v == unsigned_or_zero(field@),
{
    match parse_u64(field) {
        Some(v) => v,
        None => 0,
    }
}

/// The price that `payload` reports. `response_text` is the text that the
/// payload was found in; it is quoted in the error.
pub fn price_from_payload(payload: Option<&str>, response_text: &str) -> (r: Result<
    Decimal,
    StockCalcError,
>)
    ensures
        match r {
            Ok(price) => price_in(optional_text(payload)) == Some(price@) && price@ > 0,
            Err(StockCalcError::ApiResponseError(detail)) => {
                &&& price_in(optional_text(payload)) is None
                &&& detail@ == price_failure_text(response_text@)
            },
            Err(_) => false,
        },
{
    if let Some(data) = payload {
        let fields = split_fields(data, '~');
        if fields.len() >= 4 {
            if let Some(price) = Decimal::parse(fields[3]) {
                if price.micros > 0 {
                    return Ok(price);
                }
            }
        }
    }
    Err(
        StockCalcError::ApiResponseError(
            String::from_str("无法解析股票价格，响应: ").concat(response_text),
        ),
    )
}

/// The full quote that `payload` reports. `response_text` is the text that
/// the payload was found in; it is quoted in the error.
pub fn info_from_payload(payload: Option<&str>, response_text: &str) -> (r: Result<
    StockInfo,
    StockCalcError,
>)
    ensures
        match r {
            Ok(info) => info_in(optional_text(payload)) == Some(info@),
            Err(StockCalcError::ApiResponseError(detail)) => {
                &&& info_in(optional_text(payload)) is None
                &&& detail@ == info_failure_text(response_text@)
            },
            Err(_) => false,
        },
{
    if let Some(data) = payload {
        let fields = split_fields(data, '~');
        if fields.len() >= 38 {
            let name = String::from_str(fields[1]);
            let code = String::from_str(fields[2]);
            let current_price = decimal_or_zero(fields[3]);
            let yesterday_close = decimal_or_zero(fields[4]);
            let open_price = decimal_or_zero(fields[5]);
            let volume = volume_or_zero(fields[6]);
            let turnover = decimal_or_zero(fields[37]);
            let high_price = decimal_or_zero(fields[33]);
            let low_price = decimal_or_zero(fields[34]);
            let change_amount = decimal_or_zero(fields[31]);
            let change_percent = decimal_or_zero(fields[32]);
            return Ok(
                StockInfo {
                    name,
                    code,
                    current_price,
                    yesterday_close,
                    open_price,
                    volume,
                    turnover,
                    high_price,
                    low_price,
                    change_amount,
                    change_percent,
                },
            );
        }
    }
    Err(
        StockCalcError::ApiResponseError(
            String::from_str("无法解析股票信息，响应: ").concat(response_text),
        ),
    )
}

/// What the caller reports of the request it was asked to make.
#[derive(Clone, Debug)]
pub enum FetchEvent {
    /// Nothing has been asked yet: the fetch begins.
    Begin,
    /// The request could not be sent, or no answer came.
    SendFailed(String),
    /// An answer came. `status` is its status code, `status_text` the way the
    /// status is shown to a reader.
    Responded { status: u16, status_text: String },
    /// The body of the answer could not be read.
    BodyFailed(String),
    /// The body of the answer.
    Body(String),
}

/// What the caller is asked to do next.
#[derive(Debug)]
pub enum FetchStep<T> {
    /// Send a GET request to `url` and report what came of it. This is
    /// attempt number `attempt`.
    Send { url: String, attempt: u32 },
    /// Read the body of the answer and report it.
    ReadBody { attempt: u32 },
    /// Attempt `attempt - 1` failed with `cause`. Warn of it, wait
    /// `delay_secs` seconds, then send a GET request to `url` as attempt
    /// number `attempt`.
    Retry { delay_secs: u64, url: String, attempt: u32, cause: StockCalcError },
    /// The fetch is over, with this result.
    Done(Result<T, StockCalcError>),
}

/// Seconds to wait between two attempts.
pub open spec fn retry_delay_secs() -> int {
    1
}

/// The address that the quote of `stock_code` is requested from.
pub open spec fn request_url(stock_code: Seq<char>) -> Seq<char> {
    "http://sqt.gtimg.cn/utf8/q="@ + stock_code
}

/// Whether a status code reports success.
pub open spec fn is_success_status(status: u16) -> bool {
    200 <= status < 300
}

/// The error of a fetch that was allowed no attempt.
pub open spec fn exhausted_error() -> (ErrorKind, Seq<char>) {
    (ErrorKind::RetriesExhausted, "所有重试都失败了"@)
}

/// The error for an answer whose status does not report success: a failure
/// of the network, with the status in its detail.
pub open spec fn status_error(status_text: Seq<char>) -> (ErrorKind, Seq<char>) {
    (ErrorKind::Network, "HTTP错误: "@ + status_text)
}

/// What follows an attempt that ended with `outcome`, when `retry_count`
/// attempts are allowed and this was attempt number `attempt`.
pub enum Verdict<V> {
    /// The fetch is over, with this result.
    Finish(Result<V, (ErrorKind, Seq<char>)>),
    /// Another attempt is made after a wait.
    TryAgain,
}

/// A success ends the fetch. A failure ends it if it was the last attempt
/// allowed; before that, another attempt follows.
pub open spec fn verdict<V>(
    retry_count: int,
    attempt: int,
    outcome: Result<V, (ErrorKind, Seq<char>)>,
) -> Verdict<V> {
    match outcome {
        Ok(v) => Verdict::Finish(Ok(v)),
        Err(e) => if attempt >= retry_count {
            Verdict::Finish(Err(e))
        } else {
            Verdict::TryAgain
        },
    }
}

/// Whether `step` is what follows the failure `cause` of attempt number
/// `attempt`: the end of the fetch with that error if no attempt is left,
/// else a wait of one second and the next attempt.
pub open spec fn follows_failure<T>(
    step: FetchStep<T>,
    retry_count: u32,
    stock_code: Seq<char>,
    attempt: u32,
    cause: (ErrorKind, Seq<char>),
) -> bool {
    match verdict::<T>(retry_count as int, attempt as int, Err(cause)) {
        Verdict::Finish(_) => step matches FetchStep::Done(Err(e)) && e@ == cause,
        Verdict::TryAgain => step matches FetchStep::Retry { delay_secs, url, attempt: next, cause: c }
            && delay_secs == retry_delay_secs() && url@ == request_url(stock_code) && next
            == attempt + 1 && c@ == cause,
    }
}

/// Whether `step` is the right answer to an event that comes before the body
/// of an answer. A fetch begins with the first request unless no attempt is
/// allowed; a failed request, an answer without a success status and a body
/// that cannot be read each fail the attempt; the body of any other answer
/// is asked for.
pub open spec fn answers_early_event<T>(
    step: FetchStep<T>,
    retry_count: u32,
    stock_code: Seq<char>,
    attempt: u32,
    event: FetchEvent,
) -> bool {
    match event {
        FetchEvent::Begin => if retry_count == 0 {
            step matches FetchStep::Done(Err(e)) && e@ == exhausted_error()
        } else {
            step matches FetchStep::Send { url, attempt: first } && url@ == request_url(stock_code)
                && first == 1
        },
        FetchEvent::SendFailed(reason) => follows_failure(
            step,
            retry_count,
            stock_code,
            attempt,
            (ErrorKind::Network, reason@),
        ),
        FetchEvent::Responded { status, status_text } => if is_success_status(status) {
            step matches FetchStep::ReadBody { attempt: same } && same == attempt
        } else {
            follows_failure(step, retry_count, stock_code, attempt, status_error(status_text@))
        },
        FetchEvent::BodyFailed(reason) => follows_failure(
            step,
            retry_count,
            stock_code,
            attempt,
            (ErrorKind::Network, reason@),
        ),
        FetchEvent::Body(_) => false,
    }
}

/// Whether `step` is the right answer to the body `text` when a price is
/// fetched: the end of the fetch with the price that the body reports, or
/// what follows a failed attempt if it reports none.
pub open spec fn answers_price_body(
    step: FetchStep<Decimal>,
    retry_count: u32,
    stock_code: Seq<char>,
    attempt: u32,
    text: Seq<char>,
) -> bool {
    match price_in(payload_of(text)) {
        Some(v) => step matches FetchStep::Done(Ok(price)) && price@ == v,
        None => follows_failure(
            step,
            retry_count,
            stock_code,
            attempt,
            (ErrorKind::ApiResponse, price_failure_text(text)),
        ),
    }
}

/// Whether `step` is the right answer to the body `text` when a full quote
/// is fetched: the end of the fetch with the quote that the body reports, or
/// what follows a failed attempt if it reports none.
pub open spec fn answers_info_body(
    step: FetchStep<StockInfo>,
    retry_count: u32,
    stock_code: Seq<char>,
    attempt: u32,
    text: Seq<char>,
) -> bool {
    match info_in(payload_of(text)) {
        Some(v) => step matches FetchStep::Done(Ok(info)) && info@ == v,
        None => follows_failure(
            step,
            retry_count,
            stock_code,
            attempt,
            (ErrorKind::ApiResponse, info_failure_text(text)),
        ),
    }
}

/// How a whole fetch went: how many attempts were made, how many waits lay
/// between them, and what came of it.
pub struct FetchRun<V> {
    pub attempts: int,
    pub waits: int,
    pub result: Result<V, (ErrorKind, Seq<char>)>,
}

/// The course of a fetch from attempt number `attempt` on, when the attempts
/// end as `outcomes` lists them, the first attempt first.
pub open spec fn run_from<V>(
    retry_count: int,
    outcomes: Seq<Result<V, (ErrorKind, Seq<char>)>>,
    attempt: int,
) -> FetchRun<V>
    decreases outcomes.len() + 1 - attempt,
{
    if 1 <= attempt <= outcomes.len() {
        match verdict(retry_count, attempt, outcomes[attempt - 1]) {
            Verdict::Finish(r) => FetchRun { attempts: attempt, waits: 0, result: r },
            Verdict::TryAgain => {
                let rest = run_from(retry_count, outcomes, attempt + 1);
                FetchRun { attempts: rest.attempts, waits: rest.waits + 1, result: rest.result }
            },
        }
    } else {
        FetchRun { attempts: attempt - 1, waits: 0, result: Err(exhausted_error()) }
    }
}

/// The course of a whole fetch, when the attempts end as `outcomes` lists
/// them. With no attempt allowed it fails at once.
pub open spec fn run<V>(
    retry_count: int,
    outcomes: Seq<Result<V, (ErrorKind, Seq<char>)>>,
) -> FetchRun<V> {
    if retry_count <= 0 {
        FetchRun { attempts: 0, waits: 0, result: Err(exhausted_error()) }
    } else {
        run_from(retry_count, outcomes, 1)
    }
}

/// What the caller is told after it has checked a stock code as far as asked.
#[derive(Clone, Copy, Debug, PartialEq, Eq, Structural)]
pub enum CodeCheck {
    /// Fetch the price of the code and report whether that worked.
    Fetch,
    /// The check is over: the code is valid or it is not.
    Done(bool),
}

/// What the check of a stock code comes to: a code that is not alphanumeric
/// is invalid; any other code is valid exactly if the fetch of its price
/// succeeds, and before that fetch has been made, it is asked for.
pub open spec fn code_check(
    alphanumeric: bool,
    fetched: Option<&Result<Decimal, StockCalcError>>,
) -> CodeCheck {
    if !alphanumeric {
        CodeCheck::Done(false)
    } else {
        match fetched {
            None => CodeCheck::Fetch,
            Some(result) => CodeCheck::Done(result is Ok),
        }
    }
}

/// The client for the vendor's quotes: it decodes answers and decides how a
/// fetch proceeds. The requests themselves are sent by the caller.
pub struct StockApi {
    pub config: AppConfig,
}

impl StockApi {
    /// A client that follows `config`.
    pub fn new(config: AppConfig) -> (r: Result<StockApi, StockCalcError>)
        ensures
            r matches Ok(api) && api.config == config,
    {
        Ok(StockApi { config })
    }

    /// The address that the quote of `stock_code` is requested from.
    pub fn quote_url(stock_code: &str) -> (url: String)
        ensures
            url@ == request_url(stock_code@),
    {
        String::from_str("http://sqt.gtimg.cn/utf8/q=").concat(stock_code)
    }

    /// What follows an attempt that has ended with `outcome`: a success ends
    /// the fetch, a failure ends it if no attempt is left, and else asks for
    /// a wait and another attempt.
    pub fn conclude_attempt<T>(
        &self,
        stock_code: &str,
        attempt: u32,
        outcome: Result<T, StockCalcError>,
    ) -> (step: FetchStep<T>)
        ensures
            match outcome {
                Ok(v) => step == FetchStep::Done(Ok::<T, StockCalcError>(v)),
                Err(e) => follows_failure(
                    step,
                    self.config.api.retry_count,
                    stock_code@,
                    attempt,
                    e@,
                ),
            },
    {
        match outcome {
            Ok(v) => FetchStep::Done(Ok(v)),
            Err(e) => {
                if attempt >= self.config.api.retry_count {
                    FetchStep::Done(Err(e))
                } else {
                    FetchStep::Retry {
                        delay_secs: 1,
                        url: Self::quote_url(stock_code),
                        attempt: attempt + 1,
                        cause: e,
                    }
                }
            },
        }
    }

    /// Answers an event that comes before the body of an answer. `None` for
    /// a body, which the caller decodes.
    fn before_body<T>(&self, stock_code: &str, attempt: u32, event: &FetchEvent) -> (r: Option<
        FetchStep<T>,
    >)
        ensures
            r is None <==> *event is Body,
            r is Some ==> answers_early_event(
                r->0,
                self.config.api.retry_count,
                stock_code@,
                attempt,
                *event,
            ),
    {
        match event {
            FetchEvent::Begin => {
                if self.config.api.retry_count == 0 {
                    Some(
                        FetchStep::Done(
                            Err(
                                StockCalcError::RetriesExhausted(
                                    String::from_str("所有重试都失败了"),
                                ),
                            ),
                        ),
                    )
                } else {
                    Some(FetchStep::Send { url: Self::quote_url(stock_code), attempt: 1 })
                }
            },
            FetchEvent::SendFailed(reason) => Some(
                self.conclude_attempt(
                    stock_code,
                    attempt,
                    Err(StockCalcError::NetworkError(reason.clone())),
                ),
            ),
            FetchEvent::Responded { status, status_text } => {
                if 200 <= *status && *status < 300 {
                    Some(FetchStep::ReadBody { attempt })
                } else {
                    Some(
                        self.conclude_attempt(
                            stock_code,
                            attempt,
                            Err(
                                StockCalcError::NetworkError(
                                    String::from_str("HTTP错误: ").concat(status_text.as_str()),
                                ),
                            ),
                        ),
                    )
                }
            },
            FetchEvent::BodyFailed(reason) => Some(
                self.conclude_attempt(
                    stock_code,
                    attempt,
                    Err(StockCalcError::NetworkError(reason.clone())),
                ),
            ),
            FetchEvent::Body(_) => None,
        }
    }

    /// One decision of a price fetch for `stock_code`. The caller begins
    /// with `FetchEvent::Begin`, does what the returned step asks, and comes
    /// back with what happened and the number of the attempt it was asked to
    /// make, until the step is `Done`.
    ///
    /// Up to `retry_count` attempts are made. An attempt fails if the request
    /// fails, if the answer's status is no success, if the body cannot be
    /// read or if it reports no price. After a failed attempt that was not
    /// the last, the caller is asked to wait one second and send again; the
    /// error of the last attempt is the result of the fetch. With no attempt
    /// allowed the fetch fails at once.
    pub fn fetch_stock_price(&self, stock_code: &str, attempt: u32, event: &FetchEvent) -> (step:
        FetchStep<Decimal>)
        ensures
            match *event {
                FetchEvent::Body(text) => answers_price_body(
                    step,
                    self.config.api.retry_count,
                    stock_code@,
                    attempt,
                    text@,
                ),
                _ => answers_early_event(
                    step,
                    self.config.api.retry_count,
                    stock_code@,
                    attempt,
                    *event,
                ),
            },
    {
        match event {
            FetchEvent::Body(text) => {
                let outcome = self.parse_stock_price(text.as_str());
                self.conclude_attempt(stock_code, attempt, outcome)
            },
            _ => {
                let early = self.before_body(stock_code, attempt, event);
                early.unwrap()
            },
        }
    }

    /// One decision of the fetch of a full quote for `stock_code`. It
    /// proceeds as `fetch_stock_price` does; an attempt whose body reports
    /// no full quote fails.
    pub fn fetch_stock_info(&self, stock_code: &str, attempt: u32, event: &FetchEvent) -> (step:
        FetchStep<StockInfo>)
        ensures
            match *event {
                FetchEvent::Body(text) => answers_info_body(
                    step,
                    self.config.api.retry_count,
                    stock_code@,
                    attempt,
                    text@,
                ),
                _ => answers_early_event(
                    step,
                    self.config.api.retry_count,
                    stock_code@,
                    attempt,
                    *event,
                ),
            },
    {
        match event {
            FetchEvent::Body(text) => {
                let outcome = self.parse_stock_info(text.as_str());
                self.conclude_attempt(stock_code, attempt, outcome)
            },
            _ => {
                let early = self.before_body(stock_code, attempt, event);
                early.unwrap()
            },
        }
    }

    /// One decision of the check of a stock code. A code with a character
    /// that is neither a letter nor a digit is invalid, and nothing is
    /// fetched for it. For any other code the caller is asked to fetch its
    /// price, and the code is valid exactly if that fetch has succeeded:
    /// `fetched` is `None` before the fetch and its result after it.
    ///
    /// A fetch may fail for reasons that have nothing to do with the code,
    /// so `Done(false)` does not tell an unknown code from a network that is
    /// down.
    pub fn validate_stock_code(
        &self,
        stock_code: &str,
        fetched: Option<&Result<Decimal, StockCalcError>>,
    ) -> (check: CodeCheck)
        ensures
            check == code_check(all_alphanumeric(stock_code@), fetched),
    {
        Self::check_code(is_all_alphanumeric(stock_code), fetched)
    }

    /// One decision of the check of a stock code, given whether the code is
    /// alphanumeric.
    pub fn check_code(
        alphanumeric: bool,
        fetched: Option<&Result<Decimal, StockCalcError>>,
    ) -> (check: CodeCheck)
        ensures
            check == code_check(alphanumeric, fetched),
    {
        if !alphanumeric {
            return CodeCheck::Done(false);
        }
        match fetched {
            None => CodeCheck::Fetch,
            Some(result) => CodeCheck::Done(result.is_ok()),
        }
    }

    /// The price that the vendor's answer `response_text` reports: the
    /// positive number in the fourth field of its first assignment.
    pub fn parse_stock_price(&self, response_text: &str) -> (r: Result<Decimal, StockCalcError>)
        ensures
            match r {
                Ok(price) => price_in(payload_of(response_text@)) == Some(price@) && price@ > 0,
                Err(StockCalcError::ApiResponseError(detail)) => {
                    &&& price_in(payload_of(response_text@)) is None
                    &&& detail@ == price_failure_text(response_text@)
                },
                Err(_) => false,
            },
    {
        match find_payload(response_text) {
            Ok(payload) => {
                proof {
                    if let Some(p) = payload {
                        lemma_payload_unique(response_text@, p@);
                    }
                }
                price_from_payload(payload, response_text)
            },
            Err(reason) => Err(pattern_failure(reason)),
        }
    }

    /// The full quote that the vendor's answer `response_text` reports, read
    /// from the first assignment if it has at least 38 fields.
    pub fn parse_stock_info(&self, response_text: &str) -> (r: Result<StockInfo, StockCalcError>)
        ensures
            match r {
                Ok(info) => info_in(payload_of(response_text@)) == Some(info@),
                Err(StockCalcError::ApiResponseError(detail)) => {
                    &&& info_in(payload_of(response_text@)) is None
                    &&& detail@ == info_failure_text(response_text@)
                },
                Err(_) => false,
            },
    {
        match find_payload(response_text) {
            Ok(payload) => {
                proof {
                    if let Some(p) = payload {
                        lemma_payload_unique(response_text@, p@);
                    }
                }
                info_from_payload(payload, response_text)
            },
            Err(reason) => Err(pattern_failure(reason)),
        }
    }
}

/// The schedule of a fetch. When at least one attempt is allowed, the fetch
/// makes at least one and at most `retry_count` attempts, waits once between
/// any two of them and never after the last, and ends with the outcome of its
/// last attempt. Every attempt before the last has failed, and a fetch that
/// ends in failure has used all its attempts.
pub proof fn lemma_fetch_schedule<V>(
    retry_count: int,
    outcomes: Seq<Result<V, (ErrorKind, Seq<char>)>>,
)
    requires
        1 <= retry_count <= outcomes.len(),
    ensures
        ({
            let r = run(retry_count, outcomes);
            &&& 1 <= r.attempts <= retry_count
            &&& r.waits == r.attempts - 1
            &&& r.result == outcomes[r.attempts - 1]
            &&& forall|k: int| 0 <= k < r.attempts - 1 ==> (#[trigger] outcomes[k]) is Err
            &&& r.result is Err ==> r.attempts == retry_count
        }),
{
    lemma_run_from(retry_count, outcomes, 1);
}

/// The schedule of the rest of a fetch, from attempt number `attempt` on.
proof fn lemma_run_from<V>(
    retry_count: int,
    outcomes: Seq<Result<V, (ErrorKind, Seq<char>)>>,
    attempt: int,
)
    requires
        1 <= attempt <= retry_count <= outcomes.len(),
    ensures
        ({
            let r = run_from(retry_count, outcomes, attempt);
            &&& attempt <= r.attempts <= retry_count
            &&& r.waits == r.attempts - attempt
            &&& r.result == outcomes[r.attempts - 1]
            &&& forall|k: int| attempt - 1 <= k < r.attempts - 1 ==> (#[trigger] outcomes[k]) is Err
            &&& r.result is Err ==> r.attempts == retry_count
        }),
    decreases retry_count - attempt,
{
    if outcomes[attempt - 1] is Err && attempt < retry_count {
        lemma_run_from(retry_count, outcomes, attempt + 1);
    }
}

/// A fetch that is allowed no attempt makes none, waits for nothing and
/// fails.
pub proof fn lemma_fetch_without_attempts<V>(outcomes: Seq<Result<V, (ErrorKind, Seq<char>)>>)
    ensures
        run(0, outcomes) == (FetchRun::<V> {
            attempts: 0,
            waits: 0,
            result: Err(exhausted_error()),
        }),
{
}

} // verus!
