//! Dispatch scenarios run through the table, with stand-in handlers kept in
//! a list here: they test the routing, not the handlers.
use mediator::futures::stream::channel::StreamPoll;
use mediator::futures::stream::generate_stream;
use mediator::futures::stream::Yielder;
use mediator::registry::{Registry, RequestRoute, Route};
use mediator::{Error, ErrorKind};

const WAIT_AND_GET_I32: u64 = 1;
const WAIT_AND_GET_STRING: u64 = 2;
const I32: u64 = 3;
const STRING: u64 = 4;
const INC_EVENT: u64 = 5;
const DEC_EVENT: u64 = 6;
const COUNTER_REQUEST: u64 = 7;
const COUNT_REQUEST: u64 = 8;
const UNIT: u64 = 9;
const I64: u64 = 10;

#[test]
fn routes_requests_by_type() {
    let mut registry = Registry::new();
    registry.add_handler(WAIT_AND_GET_I32, RequestRoute { handler: 0, response: I32, deferred: false });
    registry.add_handler(
        WAIT_AND_GET_STRING,
        RequestRoute { handler: 1, response: STRING, deferred: false },
    );
    let int_handlers: Vec<fn(i32) -> i32> = vec![|x| x];
    let string_handlers: Vec<fn(String) -> String> = vec![|s| s, |s| s];

    let r = registry.send(WAIT_AND_GET_I32, I32).unwrap();
    let res1 = int_handlers[r.handler as usize](1);
    assert_eq!(res1, 1);

    let r = registry.send(WAIT_AND_GET_STRING, STRING).unwrap();
    let res2 = string_handlers[r.handler as usize]("hello".to_owned());
    assert_eq!(res2, "hello".to_owned());
}

#[test]
fn routes_events_by_type() {
    let mut registry = Registry::new();
    registry.subscribe(INC_EVENT, Route { handler: 0, deferred: false });
    registry.subscribe(DEC_EVENT, Route { handler: 1, deferred: false });
    let mut value: i64 = 0;
    let mut publish = |event: u64, amount: u32| {
        for r in registry.subscribers(event) {
            if r.handler == 0 {
                value += amount as i64;
            } else {
                value -= amount as i64;
            }
        }
    };
    publish(INC_EVENT, 1);
    publish(INC_EVENT, 2);
    publish(INC_EVENT, 3);
    publish(DEC_EVENT, 2);
    assert_eq!(value, 4);
}

fn counter_stream(n: u64) -> Vec<u64> {
    let mut s = generate_stream(move |yx: Yielder<u64>| {
        for i in 0..n {
            yx.yield_one(i).unwrap();
        }
    });
    let (builder, yielder) = s.take_builder().unwrap();
    builder(yielder);
    let mut out = vec![];
    let mut p = s.after_poll(true);
    loop {
        match p {
            StreamPoll::Item(v) => out.push(v),
            _ => break,
        }
        p = s.poll_finished();
    }
    out
}

#[test]
fn routes_stream_request_to_counter() {
    let mut registry = Registry::new();
    registry.add_stream_handler(COUNTER_REQUEST, Route { handler: 0, deferred: false });
    let route = registry.stream(COUNTER_REQUEST).unwrap();
    assert_eq!(route.handler, 0);
    assert_eq!(counter_stream(4), vec![0, 1, 2, 3]);
}

#[test]
fn stream_lookup_and_counter_to_five() {
    let mut registry = Registry::new();
    registry.add_stream_handler(COUNTER_REQUEST, Route { handler: 0, deferred: false });
    assert!(registry.stream(COUNTER_REQUEST).is_ok());
    assert_eq!(counter_stream(5), vec![0, 1, 2, 3, 4]);
    assert_eq!(registry.stream(COUNT_REQUEST), Err(Error::from(ErrorKind::NotFound)));
}

#[test]
fn repeated_sends_reach_same_handler() {
    let mut registry = Registry::new();
    registry.add_handler(COUNT_REQUEST, RequestRoute { handler: 0, response: UNIT, deferred: false });
    let mut counter = 0u32;
    for n in [1u32, 2, 3] {
        let r = registry.send(COUNT_REQUEST, UNIT).unwrap();
        assert_eq!(r.handler, 0);
        counter += n;
    }
    assert_eq!(counter, 6);
}

#[test]
fn each_send_reaches_registered_handler() {
    let mut registry = Registry::new();
    registry.add_handler(COUNTER_REQUEST, RequestRoute { handler: 0, response: I64, deferred: false });
    let handlers: Vec<fn(i64) -> i64> = vec![|x| x];
    let r = registry.send(COUNTER_REQUEST, I64).unwrap();
    assert_eq!(1, handlers[r.handler as usize](1));
    let r = registry.send(COUNTER_REQUEST, I64).unwrap();
    assert_eq!(2, handlers[r.handler as usize](2));
}

#[test]
fn deferred_routes_are_kept() {
    let mut registry = Registry::new();
    registry.add_handler(COUNT_REQUEST, RequestRoute { handler: 2, response: UNIT, deferred: true });
    registry.subscribe(INC_EVENT, Route { handler: 4, deferred: true });
    assert!(registry.send(COUNT_REQUEST, UNIT).unwrap().deferred);
    assert!(registry.send_plan(COUNT_REQUEST, UNIT).unwrap().route.deferred);
    assert!(registry.subscribers(INC_EVENT)[0].deferred);
}
