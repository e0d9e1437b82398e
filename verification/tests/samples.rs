use mediator::request::EventHandler;
use mediator::samples::events::{ReverseTextEvent, UpperTextEvent};
use mediator::request::{Interceptor, RequestHandler};
use mediator::samples::ext::ObjectExt;
use mediator::samples::hello_world::{HelloRequest, HelloRequestHandler};
use mediator::samples::interceptors::{ColoredInterceptor, MonochromeInterceptor, UpperCaseInterceptor};
use mediator::samples::key_press::{
    KeyCode, KeyPressRequest, KeyPressRequestHandler, KeyPressResult, TextColor, TextStyle,
};

fn printed(r: KeyPressResult) -> (TextStyle, String) {
    match r {
        KeyPressResult::Print(s) => (s.style, s.content),
        KeyPressResult::Exit => panic!("exit"),
        KeyPressResult::Continue => panic!("continue"),
    }
}

#[test]
fn hello_world_greetings() {
    let mut h = HelloRequestHandler;
    assert_eq!(h.handle(HelloRequest(Some("Rust"))), "Hello, Rust!");
    assert_eq!(h.handle(HelloRequest(None)), "Hello World!");
}

#[test]
fn key_press_edits_the_line() {
    let mut h = KeyPressRequestHandler::default();
    assert!(matches!(h.handle(KeyPressRequest(KeyCode::Backspace)), KeyPressResult::Continue));
    assert_eq!(printed(h.handle(KeyPressRequest(KeyCode::Char('e')))).1, "e");
    for c in "xix".chars() {
        h.handle(KeyPressRequest(KeyCode::Char(c)));
    }
    assert_eq!(h.line(), "exix");
    assert_eq!(printed(h.handle(KeyPressRequest(KeyCode::Backspace))).1, "\x1b[1D \x1b[1D");
    h.handle(KeyPressRequest(KeyCode::Char('t')));
    assert_eq!(h.line(), "exit");
    assert!(matches!(h.handle(KeyPressRequest(KeyCode::Other)), KeyPressResult::Continue));
    assert!(matches!(h.handle(KeyPressRequest(KeyCode::Enter)), KeyPressResult::Exit));
    assert_eq!(h.line(), "exit");
    h.handle(KeyPressRequest(KeyCode::Char('s')));
    let (style, text) = printed(h.handle(KeyPressRequest(KeyCode::Enter)));
    assert_eq!(text, "\n");
    assert_eq!(style, TextStyle::new());
    assert_eq!(h.line(), "");
}

#[test]
fn upper_case_interceptor() {
    let mut i = UpperCaseInterceptor;
    let mut h = KeyPressRequestHandler::new();
    let r = i.handle(KeyPressRequest(KeyCode::Char('q')), |req| h.handle(req));
    assert_eq!(printed(r).1, "Q");
    let r = i.handle(KeyPressRequest(KeyCode::Other), |req| h.handle(req));
    assert!(matches!(r, KeyPressResult::Continue));
}

#[test]
fn colored_interceptor_cycles() {
    let mut i = ColoredInterceptor::new();
    let mut colors = vec![];
    for _ in 0..7 {
        let r = i.handle(KeyPressRequest(KeyCode::Char('a')), |_| KeyPressResult::print("a".to_string()));
        let (style, text) = printed(r);
        assert_eq!(text, "a");
        assert!(!style.bold);
        colors.push(style.color.unwrap());
    }
    assert_eq!(
        colors,
        vec![
            TextColor::Red,
            TextColor::Green,
            TextColor::Blue,
            TextColor::Yellow,
            TextColor::Magenta,
            TextColor::Cyan,
            TextColor::Red
        ]
    );
    let r = i.handle(KeyPressRequest(KeyCode::Other), |_| KeyPressResult::Exit);
    assert!(matches!(r, KeyPressResult::Exit));
}

#[test]
fn monochrome_interceptor_alternates() {
    let mut i = MonochromeInterceptor::new();
    let first = printed(i.handle(KeyPressRequest(KeyCode::Enter), |_| KeyPressResult::print("x".to_string()))).0;
    let second = printed(i.handle(KeyPressRequest(KeyCode::Enter), |_| KeyPressResult::print("y".to_string()))).0;
    let third = printed(i.handle(KeyPressRequest(KeyCode::Enter), |_| KeyPressResult::print("z".to_string()))).0;
    assert_eq!(first, TextStyle { color: Some(TextColor::DarkGrey), bold: false });
    assert_eq!(second, TextStyle { color: Some(TextColor::White), bold: true });
    assert_eq!(third, first);
}

#[test]
fn key_press_result_map() {
    let r = KeyPressResult::print("ab".to_string()).map(|s| format!("{}{}", s, s));
    assert_eq!(printed(r).1, "abab");
    assert!(matches!(KeyPressResult::Exit.map(|s| s.clone()), KeyPressResult::Exit));
}

#[test]
fn object_ext_also() {
    assert_eq!(3.also(|x| x + 1), 4);
    assert_eq!(3.also_if(true, |x| x * 10), 30);
    assert_eq!(3.also_if(false, |x| x * 10), 3);
}

#[test]
fn redis_keys_of_a_service() {
    let keys = mediator::samples::redis_service::RedisKeys::new("products");
    assert_eq!(keys.key("42"), "products:42");
    assert_eq!(keys.pattern(), "products:*");
    assert!(keys.key("x").starts_with(keys.pattern().trim_end_matches('*')));
}

#[test]
fn text_events_print_trimmed_text() {
    assert_eq!(UpperTextEvent("  hello world \n".to_string()).text(), "HELLO WORLD");
    assert_eq!(ReverseTextEvent("  abc déf\n".to_string()).text(), "féd cba");
    let once = ReverseTextEvent("xyz".to_string()).text();
    assert_eq!(ReverseTextEvent(once).text(), "xyz");
    assert_eq!(ReverseTextEvent("   ".to_string()).text(), "");
}

#[test]
fn unicode_white_space_is_trimmed() {
    assert_eq!(UpperTextEvent("\u{3000}\u{85}ab\u{2009}c\u{a0}\t".to_string()).text(), "AB\u{2009}C");
    assert_eq!(ReverseTextEvent("\u{1680}xy\u{202f}".to_string()).text(), "yx");
}

#[test]
fn closures_handle_requests_and_events() {
    let mut greet = |r: HelloRequest| -> String { r.0.unwrap_or("nobody").to_string() };
    assert_eq!(RequestHandler::handle(&mut greet, HelloRequest(Some("Ann"))), "Ann");
    let mut seen = vec![];
    let mut on_event = |e: UpperTextEvent| seen.push(e.0);
    EventHandler::handle(&mut on_event, UpperTextEvent("a".to_string()));
    EventHandler::handle(&mut on_event, UpperTextEvent("b".to_string()));
    assert_eq!(seen, vec!["a", "b"]);
}
