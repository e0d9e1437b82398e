use mediator::registry::{
    InterceptorEntry, InterceptorKey, InterceptorKind, Registry, RequestRoute, Route,
};
use mediator::{Error, ErrorKind};

const TWO_TIMES: u64 = 1;
const INCREMENT: u64 = 2;
const I64: u64 = 10;
const STRING: u64 = 11;
const UNIT: u64 = 12;

fn route(handler: u64, response: u64) -> RequestRoute {
    RequestRoute { handler, response, deferred: false }
}

#[test]
fn send_finds_doubling_handler() {
    // The handler that doubles its request is handler 0.
    let handlers: Vec<fn(i64) -> i64> = vec![|x| x * 2];
    let mut registry = Registry::new();
    registry.add_handler(TWO_TIMES, route(0, I64));

    let r = registry.send(TWO_TIMES, I64).unwrap();
    assert_eq!(4, handlers[r.handler as usize](2));
    let r = registry.send(TWO_TIMES, I64).unwrap();
    assert_eq!(-6, handlers[r.handler as usize](-3));
}

#[test]
fn publish_reaches_subscriber_each_time() {
    let mut counter = 0usize;
    let mut registry = Registry::new();
    registry.subscribe(INCREMENT, Route { handler: 0, deferred: false });

    for _ in 0..2 {
        for r in registry.publish(INCREMENT).unwrap() {
            assert_eq!(r.handler, 0);
            counter += 1;
        }
    }
    assert_eq!(2, counter);

    for _ in registry.publish(INCREMENT).unwrap() {
        counter += 1;
    }
    assert_eq!(3, counter);
}

#[test]
fn send_without_handler_is_not_found() {
    let registry = Registry::new();
    assert_eq!(registry.send(TWO_TIMES, I64), Err(Error::from(ErrorKind::NotFound)));
}

#[test]
fn send_with_other_response_type_is_not_found() {
    let mut registry = Registry::new();
    registry.add_handler(TWO_TIMES, route(3, I64));
    assert_eq!(registry.send(TWO_TIMES, STRING), Err(Error::from(ErrorKind::NotFound)));
    assert_eq!(registry.send(TWO_TIMES, I64), Ok(route(3, I64)));
}

#[test]
fn later_handler_replaces_earlier() {
    let mut registry = Registry::new();
    registry.add_handler(TWO_TIMES, route(0, I64));
    registry.add_handler(TWO_TIMES, route(1, I64));
    registry.add_handler(INCREMENT, route(2, UNIT));
    assert_eq!(registry.send(TWO_TIMES, I64), Ok(route(1, I64)));
    assert_eq!(registry.send(INCREMENT, UNIT), Ok(route(2, UNIT)));
}

#[test]
fn subscribers_in_subscription_order() {
    let mut registry = Registry::new();
    for h in [4u64, 2, 7] {
        registry.subscribe(INCREMENT, Route { handler: h, deferred: h == 2 });
    }
    registry.subscribe(TWO_TIMES, Route { handler: 9, deferred: false });
    let got: Vec<u64> = registry.publish(INCREMENT).unwrap().iter().map(|r| r.handler).collect();
    assert_eq!(got, vec![4, 2, 7]);
    assert!(registry.publish(INCREMENT).unwrap()[1].deferred);
    assert_eq!(registry.subscribers(TWO_TIMES).len(), 1);
}

#[test]
fn publish_without_subscribers() {
    let registry = Registry::new();
    assert_eq!(registry.publish(INCREMENT).unwrap_err(), Error::from(ErrorKind::NotFound));
    assert!(registry.subscribers(INCREMENT).is_empty());
}

#[test]
fn stream_handlers_by_type() {
    let mut registry = Registry::new();
    assert_eq!(registry.stream(TWO_TIMES).unwrap_err().kind(), ErrorKind::NotFound);
    registry.add_stream_handler(TWO_TIMES, Route { handler: 5, deferred: true });
    registry.add_stream_handler(TWO_TIMES, Route { handler: 6, deferred: false });
    assert_eq!(registry.stream(TWO_TIMES), Ok(Route { handler: 6, deferred: false }));
}

#[test]
fn interceptors_run_last_added_first() {
    let mut registry = Registry::new();
    registry.add_handler(TWO_TIMES, route(0, I64));
    let key = InterceptorKey::of(TWO_TIMES, I64);
    assert_eq!(key, InterceptorKey { req_ty: TWO_TIMES, res_ty: I64 });
    for id in [1u64, 2, 3] {
        registry.add_interceptor(key, InterceptorEntry { id, kind: InterceptorKind::Handler });
    }
    let plan = registry.send_plan(TWO_TIMES, I64).unwrap();
    assert_eq!(plan.route, route(0, I64));
    let ids: Vec<u64> = plan.layers.iter().map(|e| e.id).collect();
    assert_eq!(ids, vec![1, 2, 3]);

    // Running the plan: each layer wraps those before it, so the last added
    // runs first; each interceptor appends its id, the handler doubles.
    let mut next: Box<dyn FnOnce(i64) -> i64> = Box::new(|x| x * 2);
    for e in &plan.layers {
        let id = e.id as i64;
        let inner = next;
        next = Box::new(move |x| inner(x * 10 + id));
    }
    assert_eq!(next(1), 2642);
}

#[test]
fn send_plan_without_interceptors() {
    let mut registry = Registry::new();
    assert_eq!(registry.send_plan(TWO_TIMES, I64).unwrap_err().kind(), ErrorKind::NotFound);
    registry.add_handler(TWO_TIMES, route(0, I64));
    let plan = registry.send_plan(TWO_TIMES, I64).unwrap();
    assert!(plan.layers.is_empty());
    assert!(registry.send_plan(TWO_TIMES, STRING).is_err());
    // Interceptors of another pair do not apply.
    registry.add_interceptor(
        InterceptorKey::of(TWO_TIMES, STRING),
        InterceptorEntry { id: 8, kind: InterceptorKind::Stream },
    );
    assert!(registry.send_plan(TWO_TIMES, I64).unwrap().layers.is_empty());
    // With interceptors for the pair, the plan holds the handler even where
    // it answers with another type.
    assert_eq!(registry.send_plan(TWO_TIMES, STRING).unwrap().layers.len(), 1);
}

#[test]
fn interceptors_without_handler_are_not_run() {
    let mut registry = Registry::new();
    registry.add_interceptor(
        InterceptorKey::of(TWO_TIMES, I64),
        InterceptorEntry { id: 1, kind: InterceptorKind::Handler },
    );
    assert!(registry.send_plan(TWO_TIMES, I64).is_err());
}

#[test]
fn registry_is_send_and_sync() {
    fn assert_send_sync<T: Send + Sync>(_: T) {}
    assert_send_sync(Registry::new());
}
