use stock_calc::api::{
    info_from_payload, price_from_payload, CodeCheck, FetchEvent, FetchStep, StockApi,
};
use stock_calc::config::AppConfig;
use stock_calc::decimal::Decimal;
use stock_calc::error::StockCalcError;
use stock_calc::models::StockInfo;

const SAMPLE: &str = r#"v_sh513500="1~标普 500ETF~513500~2.172~2.202~2.170~1791382~833022~958360~2.171~3820~2.170~3471~2.169~15568~2.168~5066~2.167~2027~2.172~606~2.173~2669~2.174~1992~2.175~3548~2.176~2355~~20250801161450~-0.030~-1.36~2.183~2.169~2.172/1791382/389956010~1791382~38996~1.83~~~2.183~2.169~0.64~212.70~212.70~0.00~2.422~1.982~1.24~18782~2.177~~~~~~38995.6010~0.0000~0~ ~ETF~0.46~0.37~~~~2.501~1.695~1.35~2.21~11.96~9792638600~9792638600~45.67~7.05~9792638600~1.41~2.1418~10.14~0.00~2.1416~CNY~0~**\_D**F\_\_Y~2.181~-16971""#;

fn dec(text: &str) -> Decimal {
    Decimal::parse(text).unwrap()
}

fn as_f64(d: Decimal) -> f64 {
    d.micros as f64 / 1_000_000.0
}

fn api() -> StockApi {
    StockApi::new(AppConfig::default()).unwrap()
}

fn api_with_retries(retry_count: u32) -> StockApi {
    let mut config = AppConfig::default();
    config.api.retry_count = retry_count;
    StockApi::new(config).unwrap()
}

fn fields(count: usize) -> String {
    let parts: Vec<String> = (0..count).map(|i| i.to_string()).collect();
    parts.join("~")
}

fn body(payload: &str) -> String {
    format!("v_x=\"{}\";\n", payload)
}

/// What a transport that answers as scripted makes of a fetch: the result,
/// the number of requests sent and the number of waits.
fn run_price_fetch(
    api: &StockApi,
    script: &[FetchEvent],
) -> (Result<Decimal, StockCalcError>, u32, u32, Vec<u64>) {
    let mut sends = 0;
    let mut waits = 0;
    let mut delays = Vec::new();
    let mut next = 0;
    let mut step = api.fetch_stock_price("000001", 0, &FetchEvent::Begin);
    loop {
        let attempt = match step {
            FetchStep::Done(result) => return (result, sends, waits, delays),
            FetchStep::Send { url, attempt } => {
                assert_eq!(url, "http://sqt.gtimg.cn/utf8/q=000001");
                sends += 1;
                assert_eq!(attempt, sends);
                attempt
            }
            FetchStep::Retry { delay_secs, url, attempt, cause: _ } => {
                assert_eq!(url, "http://sqt.gtimg.cn/utf8/q=000001");
                waits += 1;
                delays.push(delay_secs);
                sends += 1;
                assert_eq!(attempt, sends);
                attempt
            }
            FetchStep::ReadBody { attempt } => attempt,
        };
        let event = &script[next];
        next += 1;
        step = api.fetch_stock_price("000001", attempt, event);
    }
}

fn ok_status() -> FetchEvent {
    FetchEvent::Responded { status: 200, status_text: "200 OK".to_string() }
}

#[test]
fn test_parse_stock_price() {
    let config = AppConfig::default();
    let api = StockApi::new(config).unwrap();

    let test_response = SAMPLE;

    let price = api.parse_stock_price(test_response).unwrap();
    assert_eq!(as_f64(price), 2.172);
}

#[test]
fn price_is_the_fourth_field() {
    let api = api();
    let text = r#"v_x="1~Name~000001~2.172~2.202~2.170~1791382""#;
    assert_eq!(api.parse_stock_price(text).unwrap(), dec("2.172"));
    assert_eq!(api.parse_stock_price(r#"v_x="1~Name~000001~2.172""#).unwrap(), dec("2.172"));
    assert_eq!(api.parse_stock_price(r#"v_x="~~~7""#).unwrap(), dec("7"));
    assert_eq!(api.parse_stock_price(r#"v_x="a~b~c~1e2~d""#).unwrap(), dec("100"));
    assert_eq!(
        api.parse_stock_price("noise before v_sz000001=\"0~n~c~0.000001~x\" and after").unwrap(),
        dec("0.000001")
    );
}

#[test]
fn price_must_be_a_positive_number() {
    let api = api();
    for payload in [
        "1~Name~000001~-1~2.202",
        "1~Name~000001~abc~2.202",
        "1~Name~000001~~2.202",
        "1~Name~000001~0~2.202",
        "1~Name~000001~0.0~2.202",
        "1~Name~000001~ 2.172~2.202",
        "1~Name~000001~0.0000001~2.202",
        "1~Name~000001~inf~2.202",
        "1~Name~000001~NaN~2.202",
        "1~Name~000001",
        "2.172",
        "~~",
    ] {
        let text = body(payload);
        match api.parse_stock_price(&text) {
            Err(StockCalcError::ApiResponseError(detail)) => {
                assert_eq!(detail, format!("无法解析股票价格，响应: {}", text), "{:?}", payload)
            }
            other => panic!("unexpected result {:?} for {:?}", other, payload),
        }
    }
}

#[test]
fn text_without_assignment_has_no_price() {
    let api = api();
    for text in [
        "",
        "pv_none_match",
        "v_=\"1~2~3~4\"",
        "v_x=\"\"",
        "v_x='1~2~3~4'",
        "v_x=1~2~3~4",
        "v_x=\"1~2~3~4",
        "x=\"1~2~3~4\"",
        "V_x=\"1~2~3~4\"",
        "v_x= \"1~2~3~4\"",
    ] {
        match api.parse_stock_price(text) {
            Err(StockCalcError::ApiResponseError(detail)) => {
                assert_eq!(detail, format!("无法解析股票价格，响应: {}", text))
            }
            other => panic!("unexpected result {:?} for {:?}", other, text),
        }
    }
}

#[test]
fn first_assignment_decides() {
    let api = api();
    let price = |text: &str| api.parse_stock_price(text).map(|d| d.micros).ok();
    assert_eq!(price("v_a=\"1~2~3~4\";v_b=\"1~2~3~5\";"), Some(4_000_000));
    assert_eq!(price("v_a=\"1~2~3~x\";v_b=\"1~2~3~5\";"), None);
    assert_eq!(price("v_a=\"\";v_b=\"1~2~3~5\";"), Some(5_000_000));
    assert_eq!(price("v_=\"1~2~3~4\";v_b=\"1~2~3~5\";"), Some(5_000_000));
    assert_eq!(price("v_v_x=\"1~2~3~4\""), Some(4_000_000));
    assert_eq!(price("v_a\"b\nc=\"1~2~3~6\""), Some(6_000_000));
    assert_eq!(price("v_键=\"1~名~3~8\""), Some(8_000_000));
    assert_eq!(price("v_a=b=\"1~2~3~4\";v_c=\"1~2~3~9\""), Some(9_000_000));
    assert_eq!(price("v_a=\"1~2~3~4\n~5\""), None);
    assert_eq!(price("v_a=\"1~2~3~4~=v_b=\"9~9~9~9\""), Some(4_000_000));
    assert_eq!(price("v_x =\"1~2~3~4\"="), Some(4_000_000));
}

#[test]
fn price_from_a_given_payload() {
    assert_eq!(price_from_payload(Some("1~N~C~2.5"), "raw").unwrap(), dec("2.5"));
    match price_from_payload(None, "raw") {
        Err(StockCalcError::ApiResponseError(detail)) => assert_eq!(detail, "无法解析股票价格，响应: raw"),
        other => panic!("unexpected result {:?}", other),
    }
    match price_from_payload(Some("1~N~C"), "raw text") {
        Err(StockCalcError::ApiResponseError(detail)) => {
            assert_eq!(detail, "无法解析股票价格，响应: raw text")
        }
        other => panic!("unexpected result {:?}", other),
    }
    assert!(price_from_payload(Some("1~N~C~-2.5"), "raw").is_err());
    assert!(price_from_payload(Some(""), "raw").is_err());
}

fn assert_sample_info(info: &StockInfo) {
    assert_eq!(info.name, "标普 500ETF");
    assert_eq!(info.code, "513500");
    assert_eq!(info.current_price, dec("2.172"));
    assert_eq!(info.yesterday_close, dec("2.202"));
    assert_eq!(info.open_price, dec("2.170"));
    assert_eq!(info.volume, 1791382);
    assert_eq!(info.turnover, dec("38996"));
    assert_eq!(info.high_price, dec("2.183"));
    assert_eq!(info.low_price, dec("2.169"));
    assert_eq!(info.change_amount, dec("-0.030"));
    assert_eq!(info.change_percent, dec("-1.36"));
}

#[test]
fn full_quote_of_the_sample() {
    let info = api().parse_stock_info(SAMPLE).unwrap();
    assert_sample_info(&info);
}

#[test]
fn full_quote_needs_38_fields() {
    let api = api();
    let enough = body(&fields(38));
    let info = api.parse_stock_info(&enough).unwrap();
    assert_eq!(info.name, "1");
    assert_eq!(info.code, "2");
    assert_eq!(info.current_price, dec("3"));
    assert_eq!(info.yesterday_close, dec("4"));
    assert_eq!(info.open_price, dec("5"));
    assert_eq!(info.volume, 6);
    assert_eq!(info.turnover, dec("37"));
    assert_eq!(info.high_price, dec("33"));
    assert_eq!(info.low_price, dec("34"));
    assert_eq!(info.change_amount, dec("31"));
    assert_eq!(info.change_percent, dec("32"));

    for count in [1, 4, 32, 37] {
        let short = body(&fields(count));
        match api.parse_stock_info(&short) {
            Err(StockCalcError::ApiResponseError(detail)) => {
                assert_eq!(detail, format!("无法解析股票信息，响应: {}", short))
            }
            other => panic!("unexpected result {:?}", other),
        }
    }
    match api.parse_stock_info("nothing here") {
        Err(StockCalcError::ApiResponseError(detail)) => {
            assert_eq!(detail, "无法解析股票信息，响应: nothing here")
        }
        other => panic!("unexpected result {:?}", other),
    }
}

#[test]
fn full_quote_counts_bad_numbers_as_zero() {
    let mut parts: Vec<String> = (0..40).map(|i| i.to_string()).collect();
    parts[1] = "".to_string();
    parts[3] = "abc".to_string();
    parts[4] = "".to_string();
    parts[5] = "-1.5".to_string();
    parts[6] = "-7".to_string();
    parts[31] = "1e400".to_string();
    parts[32] = " ".to_string();
    parts[33] = "inf".to_string();
    parts[37] = "+2.5".to_string();
    let text = body(&parts.join("~"));
    let info = api().parse_stock_info(&text).unwrap();
    assert_eq!(info.name, "");
    assert_eq!(info.code, "2");
    assert_eq!(info.current_price, Decimal::zero());
    assert_eq!(info.yesterday_close, Decimal::zero());
    assert_eq!(info.open_price, dec("-1.5"));
    assert_eq!(info.volume, 0);
    assert_eq!(info.change_amount, Decimal::zero());
    assert_eq!(info.change_percent, Decimal::zero());
    assert_eq!(info.high_price, Decimal::zero());
    assert_eq!(info.low_price, dec("34"));
    assert_eq!(info.turnover, dec("2.5"));
    // The same text has no price.
    assert!(api().parse_stock_price(&text).is_err());
}

#[test]
fn full_quote_volume_is_an_unsigned_numeral() {
    let volume = |field: &str| {
        let mut parts: Vec<String> = (0..38).map(|i| i.to_string()).collect();
        parts[6] = field.to_string();
        info_from_payload(Some(&parts.join("~")), "raw").unwrap().volume
    };
    assert_eq!(volume("1791382"), 1791382);
    assert_eq!(volume("+5"), 5);
    assert_eq!(volume("007"), 7);
    assert_eq!(volume("18446744073709551615"), u64::MAX);
    assert_eq!(volume("18446744073709551616"), 0);
    assert_eq!(volume("99999999999999999999999999"), 0);
    assert_eq!(volume("1.5"), 0);
    assert_eq!(volume("1e3"), 0);
    assert_eq!(volume("-0"), 0);
    assert_eq!(volume("+"), 0);
    assert_eq!(volume(""), 0);
    assert_eq!(volume(" 1"), 0);
}

#[test]
fn request_address() {
    assert_eq!(StockApi::quote_url("000001"), "http://sqt.gtimg.cn/utf8/q=000001");
    assert_eq!(StockApi::quote_url("sh513500"), "http://sqt.gtimg.cn/utf8/q=sh513500");
    assert_eq!(StockApi::quote_url(""), "http://sqt.gtimg.cn/utf8/q=");
    assert_eq!(StockApi::quote_url("a b&c"), "http://sqt.gtimg.cn/utf8/q=a b&c");
}

#[test]
fn fetch_succeeds_at_once() {
    let api = api();
    let script = [ok_status(), FetchEvent::Body(SAMPLE.to_string())];
    let (result, sends, waits, _) = run_price_fetch(&api, &script);
    assert_eq!(result.unwrap(), dec("2.172"));
    assert_eq!(sends, 1);
    assert_eq!(waits, 0);
}

#[test]
fn fetch_retries_after_two_failures() {
    let api = api_with_retries(3);
    let script = [
        FetchEvent::SendFailed("connection refused".to_string()),
        FetchEvent::SendFailed("timed out".to_string()),
        ok_status(),
        FetchEvent::Body(SAMPLE.to_string()),
    ];
    let (result, sends, waits, delays) = run_price_fetch(&api, &script);
    assert_eq!(result.unwrap(), dec("2.172"));
    assert_eq!(sends, 3);
    assert_eq!(waits, 2);
    assert_eq!(delays, vec![1, 1]);
}

#[test]
fn fetch_gives_up_after_three_failures() {
    let api = api_with_retries(3);
    let script = [
        FetchEvent::SendFailed("first".to_string()),
        FetchEvent::SendFailed("second".to_string()),
        FetchEvent::SendFailed("third".to_string()),
    ];
    let (result, sends, waits, delays) = run_price_fetch(&api, &script);
    match result {
        Err(StockCalcError::NetworkError(detail)) => assert_eq!(detail, "third"),
        other => panic!("unexpected result {:?}", other),
    }
    assert_eq!(sends, 3);
    assert_eq!(waits, 2);
    assert_eq!(delays, vec![1, 1]);
}

#[test]
fn fetch_counts_every_kind_of_failure() {
    let api = api_with_retries(4);
    let script = [
        FetchEvent::Responded { status: 503, status_text: "503 Service Unavailable".to_string() },
        ok_status(),
        FetchEvent::BodyFailed("broken pipe".to_string()),
        ok_status(),
        FetchEvent::Body("v_x=\"1~2~3~-4\"".to_string()),
        FetchEvent::Responded { status: 404, status_text: "404 Not Found".to_string() },
    ];
    let (result, sends, waits, _) = run_price_fetch(&api, &script);
    match result {
        Err(StockCalcError::NetworkError(detail)) => assert_eq!(detail, "HTTP错误: 404 Not Found"),
        other => panic!("unexpected result {:?}", other),
    }
    assert_eq!(sends, 4);
    assert_eq!(waits, 3);
}

#[test]
fn fetch_ends_with_the_last_error() {
    let api = api_with_retries(2);
    let script = [
        FetchEvent::SendFailed("first".to_string()),
        ok_status(),
        FetchEvent::Body("garbage".to_string()),
    ];
    let (result, sends, waits, _) = run_price_fetch(&api, &script);
    match result {
        Err(StockCalcError::ApiResponseError(detail)) => {
            assert_eq!(detail, "无法解析股票价格，响应: garbage")
        }
        other => panic!("unexpected result {:?}", other),
    }
    assert_eq!(sends, 2);
    assert_eq!(waits, 1);
}

#[test]
fn fetch_with_one_attempt_never_waits() {
    let api = api_with_retries(1);
    let (result, sends, waits, _) =
        run_price_fetch(&api, &[FetchEvent::SendFailed("down".to_string())]);
    assert!(matches!(result, Err(StockCalcError::NetworkError(_))));
    assert_eq!(sends, 1);
    assert_eq!(waits, 0);
}

#[test]
fn fetch_without_attempts_fails_at_once() {
    let api = api_with_retries(0);
    let (result, sends, waits, _) = run_price_fetch(&api, &[]);
    match result {
        Err(StockCalcError::RetriesExhausted(detail)) => assert_eq!(detail, "所有重试都失败了"),
        other => panic!("unexpected result {:?}", other),
    }
    assert_eq!(sends, 0);
    assert_eq!(waits, 0);
    match api.fetch_stock_info("000001", 0, &FetchEvent::Begin) {
        FetchStep::Done(Err(StockCalcError::RetriesExhausted(detail))) => {
            assert_eq!(detail, "所有重试都失败了")
        }
        other => panic!("unexpected step {:?}", other),
    }
}

#[test]
fn fetch_steps_one_by_one() {
    let api = api_with_retries(3);
    match api.fetch_stock_price("sh513500", 0, &FetchEvent::Begin) {
        FetchStep::Send { url, attempt } => {
            assert_eq!(url, "http://sqt.gtimg.cn/utf8/q=sh513500");
            assert_eq!(attempt, 1);
        }
        other => panic!("unexpected step {:?}", other),
    }
    for status in [200u16, 204, 299] {
        let event = FetchEvent::Responded { status, status_text: status.to_string() };
        match api.fetch_stock_price("sh513500", 2, &event) {
            FetchStep::ReadBody { attempt } => assert_eq!(attempt, 2),
            other => panic!("unexpected step {:?}", other),
        }
    }
    for status in [0u16, 100, 199, 300, 301, 404, 500, u16::MAX] {
        let event = FetchEvent::Responded { status, status_text: format!("{} X", status) };
        match api.fetch_stock_price("sh513500", 2, &event) {
            FetchStep::Retry { delay_secs, url, attempt, cause } => {
                assert_eq!(delay_secs, 1);
                assert_eq!(url, "http://sqt.gtimg.cn/utf8/q=sh513500");
                assert_eq!(attempt, 3);
                match cause {
                    StockCalcError::NetworkError(detail) => {
                        assert_eq!(detail, format!("HTTP错误: {} X", status))
                    }
                    other => panic!("unexpected cause {:?}", other),
                }
            }
            other => panic!("unexpected step {:?}", other),
        }
        match api.fetch_stock_price("sh513500", 3, &event) {
            FetchStep::Done(Err(StockCalcError::NetworkError(detail))) => {
                assert_eq!(detail, format!("HTTP错误: {} X", status))
            }
            other => panic!("unexpected step {:?}", other),
        }
        assert!(matches!(
            api.fetch_stock_price("sh513500", u32::MAX, &event),
            FetchStep::Done(Err(_))
        ));
    }
}

#[test]
fn fetch_of_a_full_quote() {
    let api = api_with_retries(2);
    match api.fetch_stock_info("sh513500", 0, &FetchEvent::Begin) {
        FetchStep::Send { url, attempt } => {
            assert_eq!(url, "http://sqt.gtimg.cn/utf8/q=sh513500");
            assert_eq!(attempt, 1);
        }
        other => panic!("unexpected step {:?}", other),
    }
    match api.fetch_stock_info("sh513500", 1, &ok_status()) {
        FetchStep::ReadBody { attempt } => assert_eq!(attempt, 1),
        other => panic!("unexpected step {:?}", other),
    }
    match api.fetch_stock_info("sh513500", 1, &FetchEvent::Body(SAMPLE.to_string())) {
        FetchStep::Done(Ok(info)) => assert_sample_info(&info),
        other => panic!("unexpected step {:?}", other),
    }
    let short = FetchEvent::Body("v_x=\"1~2~3~4\"".to_string());
    match api.fetch_stock_info("sh513500", 1, &short) {
        FetchStep::Retry { delay_secs, url, attempt, cause } => {
            assert_eq!(delay_secs, 1);
            assert_eq!(url, "http://sqt.gtimg.cn/utf8/q=sh513500");
            assert_eq!(attempt, 2);
            assert!(matches!(cause, StockCalcError::ApiResponseError(_)));
        }
        other => panic!("unexpected step {:?}", other),
    }
    assert!(matches!(
        api.fetch_stock_info("sh513500", 2, &short),
        FetchStep::Done(Err(StockCalcError::ApiResponseError(_)))
    ));
    assert!(matches!(
        api.fetch_stock_info("sh513500", 2, &FetchEvent::BodyFailed("x".to_string())),
        FetchStep::Done(Err(StockCalcError::NetworkError(_)))
    ));
}

#[test]
fn attempts_are_concluded_by_their_outcome() {
    let api = api_with_retries(3);
    assert!(matches!(api.conclude_attempt("c", 1, Ok(7u8)), FetchStep::Done(Ok(7))));
    assert!(matches!(api.conclude_attempt("c", 9, Ok(7u8)), FetchStep::Done(Ok(7))));
    let failed = || Err::<u8, StockCalcError>(StockCalcError::NetworkError("n".to_string()));
    assert!(matches!(
        api.conclude_attempt("c", 1, failed()),
        FetchStep::Retry { delay_secs: 1, attempt: 2, .. }
    ));
    assert!(matches!(
        api.conclude_attempt("c", 2, failed()),
        FetchStep::Retry { delay_secs: 1, attempt: 3, .. }
    ));
    assert!(matches!(api.conclude_attempt("c", 3, failed()), FetchStep::Done(Err(_))));
    assert!(matches!(api.conclude_attempt("c", 4, failed()), FetchStep::Done(Err(_))));
}

#[test]
fn stock_code_check() {
    let api = api();
    let ok: Result<Decimal, StockCalcError> = Ok(dec("2.172"));
    let failed: Result<Decimal, StockCalcError> =
        Err(StockCalcError::NetworkError("down".to_string()));
    assert_eq!(api.validate_stock_code("000-1", None), CodeCheck::Done(false));
    assert_eq!(api.validate_stock_code("000-1", Some(&ok)), CodeCheck::Done(false));
    assert_eq!(api.validate_stock_code("sh 1", None), CodeCheck::Done(false));
    assert_eq!(api.validate_stock_code("000001", None), CodeCheck::Fetch);
    assert_eq!(api.validate_stock_code("000001", Some(&ok)), CodeCheck::Done(true));
    assert_eq!(api.validate_stock_code("000001", Some(&failed)), CodeCheck::Done(false));
    assert_eq!(api.validate_stock_code("sh513500", None), CodeCheck::Fetch);
    assert_eq!(api.validate_stock_code("股票７", None), CodeCheck::Fetch);
    assert_eq!(api.validate_stock_code("", None), CodeCheck::Fetch);
}

#[test]
fn stock_code_check_by_parts() {
    let ok: Result<Decimal, StockCalcError> = Ok(dec("2.172"));
    let failed: Result<Decimal, StockCalcError> =
        Err(StockCalcError::ApiResponseError("no price".to_string()));
    assert_eq!(StockApi::check_code(false, None), CodeCheck::Done(false));
    assert_eq!(StockApi::check_code(false, Some(&ok)), CodeCheck::Done(false));
    assert_eq!(StockApi::check_code(false, Some(&failed)), CodeCheck::Done(false));
    assert_eq!(StockApi::check_code(true, None), CodeCheck::Fetch);
    assert_eq!(StockApi::check_code(true, Some(&ok)), CodeCheck::Done(true));
    assert_eq!(StockApi::check_code(true, Some(&failed)), CodeCheck::Done(false));
}

#[test]
fn client_keeps_its_settings() {
    let mut config = AppConfig::default();
    config.api.timeout = 21;
    config.api.retry_count = 5;
    config.api.user_agent = "Probe/2".to_string();
    let api = StockApi::new(config).unwrap();
    assert_eq!(api.config.api.timeout, 21);
    assert_eq!(api.config.api.retry_count, 5);
    assert_eq!(api.config.api.user_agent, "Probe/2");
}

/// The payload of the first assignment in `text`, found by trying every
/// start in turn.
fn first_payload(text: &str) -> Option<String> {
    let chars: Vec<char> = text.chars().collect();
    let n = chars.len();
    for i in 0..n {
        if chars[i] != 'v' || i + 1 >= n || chars[i + 1] != '_' {
            continue;
        }
        let j = match (i + 2..n).find(|&t| chars[t] == '=') {
            Some(j) => j,
            None => continue,
        };
        if j < i + 3 || j + 1 >= n || chars[j + 1] != '"' {
            continue;
        }
        let k = match (j + 2..n).find(|&t| chars[t] == '"') {
            Some(k) => k,
            None => continue,
        };
        if k < j + 3 {
            continue;
        }
        return Some(chars[j + 2..k].iter().collect());
    }
    None
}

fn expected_price(text: &str) -> Option<i64> {
    let payload = first_payload(text)?;
    let fields: Vec<&str> = payload.split('~').collect();
    if fields.len() < 4 {
        return None;
    }
    match fields[3] {
        "7" => Some(7_000_000),
        "8" => Some(8_000_000),
        _ => None,
    }
}

fn assert_price_as_expected(api: &StockApi, text: &str) {
    let found = api.parse_stock_price(text).map(|d| d.micros).ok();
    assert_eq!(found, expected_price(text), "{:?}", text);
}

#[test]
fn assignments_are_found_as_described() {
    let api = api();
    let tokens = ["v_", "v", "k", "=", "\"", "~~~7", "é\n"];
    let count = tokens.len();
    for length in 0..=4u32 {
        for mut code in 0..count.pow(length) {
            let mut text = String::new();
            for _ in 0..length {
                text.push_str(tokens[code % count]);
                code /= count;
            }
            assert_price_as_expected(&api, &text);
        }
    }
}

#[test]
fn assignments_are_found_among_others() {
    let api = api();
    let parts = ["", "k", "=", "\"", "v_", "~~~7"];
    for before in parts {
        for key in parts {
            for value in parts {
                for after in parts {
                    for tail in ["", "v_z=\"~~~8\""] {
                        let text = format!("{}v_{}=\"{}\"{}{}", before, key, value, after, tail);
                        assert_price_as_expected(&api, &text);
                    }
                }
            }
        }
    }
}
