use burz::api::client::{is_header_value, Reply, APP_USER_AGENT, BASE_URL};
use burz::api::{Client, Error};
use burz::json::{JsonError, JsonRead, JsonValue};
use burz::bot::{next_refetch_delay, Bot, BotAction, BotEvent};
use burz::filter::{all, filter_all, none, Filter, FilterExt};
use burz::api::types::GatewayResumeArguments;
use burz::ws::client::{
    ClientAction, EventStreamError, EventStreamErrorKind, RunError, WaitHelloError,
};
use burz::ws::event::Event;

fn reply(status: u16, body: &str) -> Reply {
    Reply { status, body: body.as_bytes().to_vec() }
}

fn client() -> Client {
    Client::new_from_bot_token("secret").unwrap()
}

#[test]
fn tokens_make_the_authorization_header() {
    assert_eq!(client().authorization(), "Bot secret");
    assert_eq!(Client::new_from_oauth2_token("abc").unwrap().authorization(), "Bearer abc");
    assert_eq!(Client::new_from_bot_token("").unwrap().authorization(), "Bot ");
    assert_eq!(Client::new_from_bot_token("tab\tis fine é").unwrap().authorization(), "Bot tab\tis fine é");
    for bad in ["line\nbreak", "nul\0", "del\x7f", "cr\r"] {
        match Client::new_from_bot_token(bad) {
            Err(Error::TokenInvalid { token }) => assert_eq!(token, bad),
            other => panic!("unexpected: {:?}", other),
        }
    }
}

#[test]
fn header_check_agrees_with_the_http_client() {
    let cases = [
        "", "Bot abc", "tab\there", "line\nbreak", "cr\r", "nul\0", "del\x7f", "esc\x1b",
        "unit\x1f", "space only ", "é ü 漢字", "~!@#$%^&*()_+", "\u{80}", "a\u{7f}b",
    ];
    for case in cases {
        assert_eq!(
            is_header_value(case),
            reqwest::header::HeaderValue::from_str(case).is_ok(),
            "{:?}",
            case
        );
    }
}

#[test]
fn request_for_the_gateway() {
    let request = client().request();
    assert_eq!(request.url, "https://www.kaiheila.cn/api/v3/gateway/index?compress=1");
    assert_eq!(request.authorization, "Bot secret");
    assert_eq!(request.user_agent, "burz/0.1.0");
    assert_eq!(BASE_URL, "https://www.kaiheila.cn/api/v3");
    assert_eq!(APP_USER_AGENT, "burz/0.1.0");
}

#[test]
fn gateway_url_is_read_from_the_answer() {
    let ok = reply(200, "{\"code\":0,\"message\":\"ok\",\"data\":{\"url\":\"wss://h/g?token=t\"}}");
    assert_eq!(client().gateway_url(ok).unwrap(), "wss://h/g?token=t");
}

#[test]
fn each_answer_failure() {
    match client().gateway_url(reply(503, "{\"code\":0,\"message\":\"\",\"data\":{\"url\":\"u\"}}")) {
        Err(Error::HTTPStatusNotOK { method, url, status_code }) => {
            assert_eq!(method, "GET");
            assert_eq!(url, "https://www.kaiheila.cn/api/v3/gateway/index?compress=1");
            assert_eq!(status_code, 503);
        }
        other => panic!("unexpected: {:?}", other),
    }
    match client().gateway_url(reply(200, "{\"code\":401,\"message\":\"no\",\"data\":{\"url\":\"\"}}")) {
        Err(Error::CodeNotZero { code, message }) => {
            assert_eq!(code, 401);
            assert_eq!(message, "no");
        }
        other => panic!("unexpected: {:?}", other),
    }
    let broken = [
        ("<html>", None),
        ("[1]", Some("not an object")),
        ("{\"message\":\"m\",\"data\":{\"url\":\"u\"}}", Some("code")),
        ("{\"code\":\"0\",\"message\":\"m\",\"data\":{\"url\":\"u\"}}", Some("code")),
        ("{\"code\":0,\"data\":{\"url\":\"u\"}}", Some("message")),
        ("{\"code\":0,\"message\":\"m\",\"data\":{}}", Some("data.url")),
        ("{\"code\":0,\"message\":\"m\",\"data\":[\"u\"]}", Some("data.url")),
        ("{\"code\":1,\"message\":\"m\"}", Some("data.url")),
    ];
    for (body, why) in broken {
        match client().gateway_url(reply(200, body)) {
            Err(Error::ParseBodyFailed { body: kept, reason }) => {
                assert_eq!(kept, body.as_bytes().to_vec());
                match why {
                    Some(why) => assert_eq!(reason, why),
                    None => assert!(!reason.is_empty()),
                }
            }
            other => panic!("unexpected for {}: {:?}", body, other),
        }
    }
}

fn place(int: Option<i64>, text: Option<&str>) -> Option<JsonValue> {
    Some(JsonValue {
        null: false,
        object: false,
        int,
        uint: None,
        text: text.map(String::from),
        raw: Vec::new(),
    })
}

#[test]
fn read_response_takes_the_three_places() {
    let read = JsonRead::Object(vec![place(Some(0), None), place(None, Some("ok")), place(None, Some("u"))]);
    let response = Client::read_response(b"body".to_vec(), read).unwrap();
    assert_eq!((response.code, response.message.as_str(), response.data.url.as_str()), (0, "ok", "u"));
    let cases = vec![
        (JsonRead::Other, "not an object"),
        (JsonRead::Invalid(JsonError { reason: "EOF".to_string() }), "EOF"),
        (JsonRead::Object(vec![]), "not an object"),
        (JsonRead::Object(vec![None, place(None, Some("m")), place(None, Some("u"))]), "code"),
        (JsonRead::Object(vec![place(Some(1), None), None, None]), "message"),
        (JsonRead::Object(vec![place(Some(1), None), place(None, Some("m")), place(Some(1), None)]), "data.url"),
    ];
    for (read, why) in cases {
        match Client::read_response(b"body".to_vec(), read) {
            Err(Error::ParseBodyFailed { body, reason }) => {
                assert_eq!(body, b"body".to_vec());
                assert_eq!(reason, why);
            }
            other => panic!("unexpected: {:?}", other),
        }
    }
}

#[test]
fn response_keeps_code_and_message() {
    let response =
        Client::response(reply(200, "{\"code\":7,\"message\":\"m\",\"data\":{\"url\":\"u\"}}")).unwrap();
    assert_eq!(response.code, 7);
    assert_eq!(response.message, "m");
    assert_eq!(response.data.url, "u");
}

#[test]
fn refetch_delay_doubles_up_to_a_minute() {
    let mut delay = 1;
    let mut seen = Vec::new();
    for _ in 0..8 {
        seen.push(delay);
        delay = next_refetch_delay(delay);
    }
    assert_eq!(seen, vec![1, 2, 4, 8, 16, 32, 60, 60]);
    assert_eq!(next_refetch_delay(0), 1);
    assert_eq!(next_refetch_delay(u64::MAX), 60);
}

fn run_failed() -> BotEvent {
    BotEvent::RunFailed(RunError::WaitHelloFailed { source: WaitHelloError::Timeout })
}

#[test]
fn bot_supervises_the_client() {
    assert!(matches!(
        Bot::new("bad\ntoken"),
        Err(burz::Error::CallAPIFailed { source: Error::TokenInvalid { .. } })
    ));
    let mut bot = Bot::new("secret").unwrap();
    assert_eq!(bot.api_client().authorization(), "Bot secret");
    assert!(matches!(bot.run(BotEvent::Started), BotAction::FetchGateway));
    match bot.run(BotEvent::Fetched(Ok("ws://h/p?token=t".to_string()))) {
        BotAction::Run { mut client, gateway } => {
            assert_eq!(gateway.token, "t");
            match client.run(gateway) {
                ClientAction::Connect { url } => assert_eq!(url, "ws://h/p?compress=0&token=t"),
                other => panic!("unexpected: {:?}", other),
            }
        }
        _ => panic!("the bot does not run"),
    }
    // Each failure doubles the pause; an established stream resets it.
    assert!(matches!(bot.run(run_failed()), BotAction::Sleep { seconds: 1 }));
    assert!(matches!(bot.run(BotEvent::Slept), BotAction::FetchGateway));
    assert!(matches!(bot.run(run_failed()), BotAction::Sleep { seconds: 2 }));
    assert!(matches!(bot.run(run_failed()), BotAction::Sleep { seconds: 4 }));
    assert!(matches!(bot.run(BotEvent::Established), BotAction::Receive));
    assert!(matches!(bot.run(run_failed()), BotAction::Sleep { seconds: 1 }));

    match bot.run(BotEvent::Item(Ok(Event { payload: b"{}".to_vec() }))) {
        BotAction::Dispatch(event) => assert_eq!(event.payload, b"{}".to_vec()),
        _ => panic!("the bot does not dispatch"),
    }
    // The error that ends the stream leaves its resume arguments to the next client.
    let broken = EventStreamError {
        resume: GatewayResumeArguments { sn: 9, session_id: "s".to_string() },
        source: EventStreamErrorKind::Reconnect { code: 41008, message: "Missing params".to_string() },
    };
    assert!(matches!(bot.run(BotEvent::Item(Err(broken))), BotAction::FetchGateway));
    match bot.run(BotEvent::Fetched(Ok("ws://h/p?token=t".to_string()))) {
        BotAction::Run { mut client, gateway } => match client.run(gateway) {
            ClientAction::Connect { url } => {
                assert_eq!(url, "ws://h/p?compress=0&token=t&resume=1&sn=9&session_id=s")
            }
            other => panic!("unexpected: {:?}", other),
        },
        _ => panic!("the bot does not run"),
    }
    // They are used once.
    match bot.run(BotEvent::Fetched(Ok("ws://h/p?token=t".to_string()))) {
        BotAction::Run { mut client, gateway } => match client.run(gateway) {
            ClientAction::Connect { url } => assert_eq!(url, "ws://h/p?compress=0&token=t"),
            other => panic!("unexpected: {:?}", other),
        },
        _ => panic!("the bot does not run"),
    }
}

#[test]
fn bot_gives_up_on_api_errors_and_bad_urls() {
    let mut bot = Bot::new("secret").unwrap();
    match bot.run(BotEvent::Fetched(Err(Error::CodeNotZero { code: 401, message: "no".to_string() }))) {
        BotAction::Exit(burz::Error::CallAPIFailed { source: Error::CodeNotZero { code: 401, .. } }) => {}
        _ => panic!("the bot goes on"),
    }
    match bot.run(BotEvent::Fetched(Ok("http://h/p?token=t".to_string()))) {
        BotAction::Exit(burz::Error::InvalidGatewayURL { url, .. }) => {
            assert_eq!(url, "http://h/p?token=t")
        }
        _ => panic!("the bot goes on"),
    }
    match Bot::fetch_new_gateway(Ok("wss://h/p?token=t&compress=1".to_string())) {
        Ok(gateway) => assert!(gateway.compress),
        Err(error) => panic!("unexpected: {:?}", error),
    }
}

/// Passes the events whose payload is longer than the number.
struct Longer(usize);

impl Filter for Longer {
    fn filter_event(&self, event: &Event) -> bool {
        event.payload.len() > self.0
    }
}

#[test]
fn filter_all_lists_the_filters_that_accept() {
    let event = Event { payload: b"{}".to_vec() };
    let filters = vec![Longer(5), Longer(1), Longer(2), Longer(0), Longer(1)];
    assert_eq!(filter_all(&filters, &event), vec![1, 3, 4]);
    assert!(Longer(1).and(Longer(2).not()).filter_event(&event));
    let boxed: Vec<Box<dyn Filter>> = vec![Box::new(none()), Box::new(Longer(1)), Box::new(all())];
    assert_eq!(filter_all(&boxed, &event), vec![1, 2]);
    assert!(filter_all(&Vec::<burz::filter::All>::new(), &event).is_empty());
    assert_eq!(filter_all(&vec![all(), all()], &event), vec![0, 1]);
    assert!(filter_all(&vec![none()], &event).is_empty());
    assert!(all().or(none()).and(none().not()).filter_event(&event));
}
