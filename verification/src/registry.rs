//! The dispatch table of a mediator.
//!
//! A mediator keeps, for every request type, the handler that answers it;
//! for every event type, the subscribers in the order they subscribed; for
//! every stream request type, the handler that builds the stream; and for
//! every pair of a request type and a response type, its interceptors.
//! Types are known here by their keys, handlers by their ids: what a handler
//! does is up to its owner, where it goes is decided here.
use vstd::prelude::*;

use std::collections::HashMap;

use crate::error::{Error, ErrorKind, ErrorModel};

verus! {

broadcast use {vstd::std_specs::hash::group_hash_axioms, crate::error::lemma_error_from_kind};

/// Where a request goes: the handler, the key of the response type that the
/// handler returns, and whether the handler is given a copy of the mediator.
#[derive(Clone, Copy, Debug, PartialEq, Eq, Structural)]
pub struct RequestRoute {
    pub handler: u64,
    pub response: u64,
    pub deferred: bool,
}

/// Where an event or a stream request goes: the handler, and whether it is
/// given a copy of the mediator.
#[derive(Clone, Copy, Debug, PartialEq, Eq, Structural)]
pub struct Route {
    pub handler: u64,
    pub deferred: bool,
}

/// The two kinds of interceptors: of requests and of stream requests.
#[derive(Clone, Copy, Debug, PartialEq, Eq, Structural)]
pub enum InterceptorKind {
    Handler,
    Stream,
}

/// An interceptor: its id and its kind.
#[derive(Clone, Copy, Debug, PartialEq, Eq, Structural)]
pub struct InterceptorEntry {
    pub id: u64,
    pub kind: InterceptorKind,
}

/// The key of a list of interceptors: a request type and a response type.
#[derive(Clone, Copy, Debug, PartialEq, Eq, Hash, Structural)]
pub struct InterceptorKey {
    pub req_ty: u64,
    pub res_ty: u64,
}

/// The number that stands for an interceptor key in the table.
pub open spec fn packed_key(key: InterceptorKey) -> u128 {
    packed_value(key) as u128
}

/// The request type's key in the high half, the response type's in the low.
pub open spec fn packed_value(key: InterceptorKey) -> int {
    (key.req_ty as int) * 0x1_0000_0000_0000_0000 + (key.res_ty as int)
}

/// The packed value of a key fits in 128 bits.
proof fn lemma_packed_value_fits(key: InterceptorKey)
    ensures
        0 <= packed_value(key) <= u128::MAX,
        packed_key(key) as int == packed_value(key),
{
    let h = key.req_ty as int;
    let l = key.res_ty as int;
    assert(0 <= h * 0x1_0000_0000_0000_0000 + l <= u128::MAX) by (nonlinear_arith)
        requires
            0 <= h <= u64::MAX,
            0 <= l <= u64::MAX,
    ;
}

impl InterceptorKey {
    /// The key of the interceptors of requests of type `req_ty` answered
    /// with `res_ty`.
    pub fn of(req_ty: u64, res_ty: u64) -> (key: InterceptorKey)
        ensures
            key.req_ty == req_ty,
            key.res_ty == res_ty,
    {
        InterceptorKey { req_ty, res_ty }
    }

    /// The number that stands for this key in the table.
    fn packed(&self) -> (p: u128)
        ensures
            p == packed_key(*self),
    {
        let hi = self.req_ty as u128;
        let lo = self.res_ty as u128;
        proof {
            lemma_packed_value_fits(*self);
        }
        assert(hi * 0x1_0000_0000_0000_0000u128 + lo <= u128::MAX) by (nonlinear_arith)
            requires
                hi <= u64::MAX,
                lo <= u64::MAX,
        ;
        hi * 0x1_0000_0000_0000_0000u128 + lo
    }
}

/// Two keys that stand for the same number are the same key.
proof fn lemma_packed_key_injective(a: InterceptorKey, b: InterceptorKey)
    requires
        packed_key(a) == packed_key(b),
    ensures
        a == b,
{
    lemma_packed_value_fits(a);
    lemma_packed_value_fits(b);
    let ha = a.req_ty as int;
    let la = a.res_ty as int;
    let hb = b.req_ty as int;
    let lb = b.res_ty as int;
    assert(ha == hb && la == lb) by (nonlinear_arith)
        requires
            ha * 0x1_0000_0000_0000_0000 + la == hb * 0x1_0000_0000_0000_0000 + lb,
            0 <= la < 0x1_0000_0000_0000_0000,
            0 <= lb < 0x1_0000_0000_0000_0000,
            0 <= ha,
            0 <= hb,
    ;
}

/// What a dispatch table holds.
#[verifier::ext_equal]
pub struct RegistryView {
    /// The route of each request type.
    pub requests: Map<u64, RequestRoute>,
    /// The subscribers of each event type, in the order they subscribed.
    pub events: Map<u64, Seq<Route>>,
    /// The route of each stream request type.
    pub streams: Map<u64, Route>,
    /// The interceptors of each key, in the order they were added.
    pub interceptors: Map<InterceptorKey, Seq<InterceptorEntry>>,
}

/// What a request is answered with: the error that says that no handler
/// was found.
pub open spec fn not_found(e: Error) -> bool {
    e@ == ErrorModel::Kind(ErrorKind::NotFound)
}

impl RegistryView {
    /// The table with no handler, subscriber or interceptor.
    pub open spec fn empty() -> RegistryView {
        RegistryView {
            requests: Map::empty(),
            events: Map::empty(),
            streams: Map::empty(),
            interceptors: Map::empty(),
        }
    }

    /// The table after `route` answers the requests of type `req` (in place
    /// of any earlier handler).
    pub open spec fn with_handler(self, req: u64, route: RequestRoute) -> RegistryView {
        RegistryView { requests: self.requests.insert(req, route), ..self }
    }

    /// The subscribers of an event type (none where nobody subscribed).
    pub open spec fn subscribers(self, event: u64) -> Seq<Route> {
        if self.events.contains_key(event) {
            self.events[event]
        } else {
            Seq::empty()
        }
    }

    /// The table after `route` subscribes, last, to the events of type `event`.
    pub open spec fn with_subscriber(self, event: u64, route: Route) -> RegistryView {
        RegistryView {
            events: self.events.insert(event, self.subscribers(event).push(route)),
            ..self
        }
    }

    /// The table after `route` builds the streams of requests of type `req`
    /// (in place of any earlier handler).
    pub open spec fn with_stream_handler(self, req: u64, route: Route) -> RegistryView {
        RegistryView { streams: self.streams.insert(req, route), ..self }
    }

    /// The interceptors of a key, in the order they were added (none where
    /// none was added).
    pub open spec fn interceptors_of(self, key: InterceptorKey) -> Seq<InterceptorEntry> {
        if self.interceptors.contains_key(key) {
            self.interceptors[key]
        } else {
            Seq::empty()
        }
    }

    /// The table after `entry` is added, last, to the interceptors of `key`.
    pub open spec fn with_interceptor(
        self,
        key: InterceptorKey,
        entry: InterceptorEntry,
    ) -> RegistryView {
        RegistryView {
            interceptors: self.interceptors.insert(key, self.interceptors_of(key).push(entry)),
            ..self
        }
    }

    /// The handler of a request of type `req` answered with `res`: the one
    /// registered for `req`, where it returns `res`.
    pub open spec fn request_route(self, req: u64, res: u64) -> Option<RequestRoute> {
        if self.requests.contains_key(req) && self.requests[req].response == res {
            Some(self.requests[req])
        } else {
            None
        }
    }

    /// What an intercepted send does: nothing where no handler is registered
    /// for `req`; where the key has interceptors, the handler (whatever the
    /// type it returns) wrapped in them; otherwise the handler where it
    /// returns `res`.
    pub open spec fn send_plan(self, req: u64, res: u64) -> Option<SendPlanView> {
        let key = InterceptorKey { req_ty: req, res_ty: res };
        if !self.requests.contains_key(req) {
            None
        } else if self.interceptors.contains_key(key) {
            Some(SendPlanView { route: self.requests[req], layers: self.interceptors[key] })
        } else if self.requests[req].response == res {
            Some(SendPlanView { route: self.requests[req], layers: Seq::empty() })
        } else {
            None
        }
    }
}

/// What an intercepted send runs: the handler, wrapped in the interceptors
/// one after another, in the order they were added: each wraps those before
/// it, so the one added last runs first.
pub struct SendPlanView {
    pub route: RequestRoute,
    pub layers: Seq<InterceptorEntry>,
}

impl SendPlanView {
    /// The order the interceptors run in: outermost, the one added last,
    /// first.
    pub open spec fn run_order(self) -> Seq<InterceptorEntry> {
        self.layers.reverse()
    }
}

/// What an intercepted send runs: the handler, wrapped in the interceptors
/// one after another, in the order they were added.
#[derive(Debug)]
pub struct SendPlan {
    pub route: RequestRoute,
    pub layers: Vec<InterceptorEntry>,
}

impl View for SendPlan {
    type V = SendPlanView;

    open spec fn view(&self) -> SendPlanView {
        SendPlanView { route: self.route, layers: self.layers@ }
    }
}

/// The dispatch table of a mediator.
pub struct Registry {
    request_handlers: HashMap<u64, RequestRoute>,
    event_handlers: HashMap<u64, Vec<Route>>,
    stream_handlers: HashMap<u64, Route>,
    interceptors: HashMap<u128, Vec<InterceptorEntry>>,
}

/// Copies a list of plain values.
fn copy_all<T: Copy>(v: &Vec<T>) -> (r: Vec<T>)
    ensures
        r@ == v@,
{
    let mut r: Vec<T> = Vec::new();
    let mut i: usize = 0;
    while i < v.len()
        invariant
            i <= v.len(),
            r@ == v@.subrange(0, i as int),
        decreases v.len() - i,
    {
        r.push(v[i]);
        i = i + 1;
    }
    assert(v@.subrange(0, v.len() as int) =~= v@);
    r
}

impl View for Registry {
    type V = RegistryView;

    closed spec fn view(&self) -> RegistryView {
        RegistryView {
            requests: self.request_handlers@,
            events: self.event_handlers@.map_values(|v: Vec<Route>| v@),
            streams: self.stream_handlers@,
            interceptors: Map::new(
                |k: InterceptorKey| self.interceptors@.contains_key(packed_key(k)),
                |k: InterceptorKey| self.interceptors@[packed_key(k)]@,
            ),
        }
    }
}

impl Registry {
    /// An empty table.
    pub fn new() -> (r: Registry)
        ensures
            r@ == RegistryView::empty(),
    {
        let r = Registry {
            request_handlers: HashMap::new(),
            event_handlers: HashMap::new(),
            stream_handlers: HashMap::new(),
            interceptors: HashMap::new(),
        };
        assert(r@.events =~= Map::empty());
        assert(r@.interceptors =~= Map::empty());
        r
    }

    /// Registers the handler of the requests of type `req`, in place of any
    /// earlier one.
    pub fn add_handler(&mut self, req: u64, route: RequestRoute)
        ensures
            final(self)@ == old(self)@.with_handler(req, route),
    {
        self.request_handlers.insert(req, route);
        assert(self@ =~= old(self)@.with_handler(req, route));
    }

    /// Registers a subscriber of the events of type `event`, after those
    /// already there.
    pub fn subscribe(&mut self, event: u64, route: Route)
        ensures
            final(self)@ == old(self)@.with_subscriber(event, route),
    {
        let mut list = match self.event_handlers.remove(&event) {
            Some(v) => v,
            None => Vec::new(),
        };
        assert(list@ == old(self)@.subscribers(event));
        list.push(route);
        self.event_handlers.insert(event, list);
        assert(self@.events =~= old(self)@.with_subscriber(event, route).events);
        assert(self@.interceptors =~= old(self)@.interceptors);
        assert(self@ =~= old(self)@.with_subscriber(event, route));
    }

    /// Registers the handler of the stream requests of type `req`, in place
    /// of any earlier one.
    pub fn add_stream_handler(&mut self, req: u64, route: Route)
        ensures
            final(self)@ == old(self)@.with_stream_handler(req, route),
    {
        self.stream_handlers.insert(req, route);
        assert(self@ =~= old(self)@.with_stream_handler(req, route));
    }

    /// Adds an interceptor of `key`, after those already there.
    pub fn add_interceptor(&mut self, key: InterceptorKey, entry: InterceptorEntry)
        ensures
            final(self)@ == old(self)@.with_interceptor(key, entry),
    {
        let p = key.packed();
        let mut list = match self.interceptors.remove(&p) {
            Some(v) => v,
            None => Vec::new(),
        };
        assert(list@ == old(self)@.interceptors_of(key));
        list.push(entry);
        self.interceptors.insert(p, list);
        assert forall|k: InterceptorKey| #[trigger]
            self@.interceptors.contains_key(k) == old(self)@.with_interceptor(
                key,
                entry,
            ).interceptors.contains_key(k) by {
            if packed_key(k) == p {
                lemma_packed_key_injective(k, key);
            }
        }
        assert forall|k: InterceptorKey| #[trigger] self@.interceptors.contains_key(k) implies
            self@.interceptors[k] == old(self)@.with_interceptor(key, entry).interceptors[k] by {
            if packed_key(k) == p {
                lemma_packed_key_injective(k, key);
            }
        }
        assert(self@.interceptors =~= old(self)@.with_interceptor(key, entry).interceptors);
        assert(self@.events =~= old(self)@.events);
        assert(self@ =~= old(self)@.with_interceptor(key, entry));
    }

    /// The handler of a request of type `req` answered with `res`, or the
    /// error that says that none was found.
    pub fn send(&self, req: u64, res: u64) -> (r: Result<RequestRoute, Error>)
        ensures
            match self@.request_route(req, res) {
                Some(route) => r == Ok::<RequestRoute, Error>(route),
                None => r is Err && not_found(r->Err_0),
            },
    {
        match self.request_handlers.get(&req) {
            Some(route) => {
                if route.response == res {
                    return Ok(*route);
                }
            },
            None => {},
        }
        Err(Error::from(ErrorKind::NotFound))
    }

    /// The subscribers that an event of type `event` is handed to, in the
    /// order they subscribed, or the error that says that there is none.
    pub fn publish(&self, event: u64) -> (r: Result<Vec<Route>, Error>)
        ensures
            self@.events.contains_key(event) ==> r is Ok && r->Ok_0@ == self@.events[event],
            !self@.events.contains_key(event) ==> r is Err && not_found(r->Err_0),
    {
        match self.event_handlers.get(&event) {
            Some(list) => Ok(copy_all(list)),
            None => Err(Error::from(ErrorKind::NotFound)),
        }
    }

    /// The subscribers that an event of type `event` is handed to, in the
    /// order they subscribed (none where nobody subscribed).
    pub fn subscribers(&self, event: u64) -> (r: Vec<Route>)
        ensures
            r@ == self@.subscribers(event),
    {
        match self.event_handlers.get(&event) {
            Some(list) => copy_all(list),
            None => Vec::new(),
        }
    }

    /// The handler of the stream requests of type `req`, or the error that
    /// says that none was found.
    pub fn stream(&self, req: u64) -> (r: Result<Route, Error>)
        ensures
            self@.streams.contains_key(req) ==> r == Ok::<Route, Error>(self@.streams[req]),
            !self@.streams.contains_key(req) ==> r is Err && not_found(r->Err_0),
    {
        match self.stream_handlers.get(&req) {
            Some(route) => Ok(*route),
            None => Err(Error::from(ErrorKind::NotFound)),
        }
    }

    /// What a send of a request of type `req` answered with `res` runs: the
    /// handler wrapped in the interceptors of the pair, in the order they
    /// were added; or the error that says that no handler was found.
    pub fn send_plan(&self, req: u64, res: u64) -> (r: Result<SendPlan, Error>)
        ensures
            match self@.send_plan(req, res) {
                Some(plan) => r is Ok && r->Ok_0@ == plan,
                None => r is Err && not_found(r->Err_0),
            },
    {
        let route = match self.request_handlers.get(&req) {
            Some(route) => *route,
            None => {
                return Err(Error::from(ErrorKind::NotFound));
            },
        };
        let key = InterceptorKey::of(req, res);
        let p = key.packed();
        match self.interceptors.get(&p) {
            Some(list) => Ok(SendPlan { route, layers: copy_all(list) }),
            None => {
                if route.response == res {
                    Ok(SendPlan { route, layers: Vec::new() })
                } else {
                    Err(Error::from(ErrorKind::NotFound))
                }
            },
        }
    }
}

/// The table after each route of `routes` subscribes, in order, to `event`.
pub open spec fn with_subscribers(v: RegistryView, event: u64, routes: Seq<Route>) -> RegistryView
    decreases routes.len(),
{
    if routes.len() == 0 {
        v
    } else {
        with_subscribers(v, event, routes.drop_last()).with_subscriber(event, routes.last())
    }
}

/// The table after each entry of `entries` is added, in order, to the
/// interceptors of `key`.
pub open spec fn with_interceptors(
    v: RegistryView,
    key: InterceptorKey,
    entries: Seq<InterceptorEntry>,
) -> RegistryView
    decreases entries.len(),
{
    if entries.len() == 0 {
        v
    } else {
        with_interceptors(v, key, entries.drop_last()).with_interceptor(key, entries.last())
    }
}

/// A request sent after a handler was registered for its type goes to that
/// handler, where the handler returns the response type asked for; requests
/// of other types go where they went before.
pub proof fn law_send_reads_last_handler(
    v: RegistryView,
    req: u64,
    route: RequestRoute,
    other: u64,
    res: u64,
)
    ensures
        v.with_handler(req, route).request_route(req, res) == (if route.response == res {
            Some(route)
        } else {
            None
        }),
        other != req ==> v.with_handler(req, route).request_route(other, res)
            == v.request_route(other, res),
{
}

/// Registering a request handler, a stream handler, a subscriber or an
/// interceptor changes nothing else in the table.
pub proof fn law_registrations_are_independent(
    v: RegistryView,
    req: u64,
    route: RequestRoute,
    event: u64,
    sub: Route,
    key: InterceptorKey,
    entry: InterceptorEntry,
)
    ensures
        v.with_handler(req, route).events == v.events,
        v.with_handler(req, route).streams == v.streams,
        v.with_handler(req, route).interceptors == v.interceptors,
        v.with_subscriber(event, sub).requests == v.requests,
        v.with_subscriber(event, sub).streams == v.streams,
        v.with_subscriber(event, sub).interceptors == v.interceptors,
        v.with_stream_handler(req, sub).requests == v.requests,
        v.with_stream_handler(req, sub).events == v.events,
        v.with_interceptor(key, entry).requests == v.requests,
        v.with_interceptor(key, entry).events == v.events,
        v.with_interceptor(key, entry).streams == v.streams,
{
}

/// A subscriber is added after those already there, and only to its own
/// event type.
pub proof fn law_subscribe_appends(v: RegistryView, event: u64, route: Route, other: u64)
    ensures
        v.with_subscriber(event, route).subscribers(event) == v.subscribers(event).push(route),
        other != event ==> v.with_subscriber(event, route).subscribers(other) == v.subscribers(
            other,
        ),
{
}

/// An event is handed to its subscribers in the order they subscribed, each
/// once.
pub proof fn law_publish_in_subscription_order(v: RegistryView, event: u64, routes: Seq<Route>)
    requires
        !v.events.contains_key(event),
    ensures
        with_subscribers(v, event, routes).subscribers(event) == routes,
        routes.len() > 0 ==> with_subscribers(v, event, routes).events.contains_key(event),
    decreases routes.len(),
{
    if routes.len() > 0 {
        law_publish_in_subscription_order(v, event, routes.drop_last());
        assert(routes.drop_last().push(routes.last()) =~= routes);
    } else {
        assert(v.subscribers(event) =~= Seq::<Route>::empty());
    }
}

/// The interceptors of a request wrap its handler in the order they were
/// added, so they run last added first, and the handler runs inside all of
/// them.
pub proof fn law_interceptors_run_last_added_first(
    v: RegistryView,
    key: InterceptorKey,
    entries: Seq<InterceptorEntry>,
)
    requires
        !v.interceptors.contains_key(key),
        entries.len() > 0,
        v.requests.contains_key(key.req_ty),
    ensures
        with_interceptors(v, key, entries).send_plan(key.req_ty, key.res_ty) == Some(
            SendPlanView { route: v.requests[key.req_ty], layers: entries },
        ),
        with_interceptors(v, key, entries).send_plan(key.req_ty, key.res_ty).unwrap().run_order()
            == entries.reverse(),
        with_interceptors(v, key, entries).send_plan(key.req_ty, key.res_ty).unwrap().run_order()[0]
            == entries.last(),
{
    lemma_with_interceptors_frame(v, key, entries);
    let w = with_interceptors(v, key, entries);
    assert(w.interceptors.contains_key(key));
    assert(w.interceptors_of(key) == entries);
    let k2 = InterceptorKey { req_ty: key.req_ty, res_ty: key.res_ty };
    assert(k2 == key);
}

/// Adding interceptors leaves the request handlers as they were, and the
/// interceptors of the key are those added.
proof fn lemma_with_interceptors_frame(
    v: RegistryView,
    key: InterceptorKey,
    entries: Seq<InterceptorEntry>,
)
    requires
        !v.interceptors.contains_key(key),
    ensures
        with_interceptors(v, key, entries).requests == v.requests,
        with_interceptors(v, key, entries).interceptors_of(key) == entries,
        entries.len() > 0 ==> with_interceptors(v, key, entries).interceptors.contains_key(key),
    decreases entries.len(),
{
    if entries.len() > 0 {
        lemma_with_interceptors_frame(v, key, entries.drop_last());
        assert(entries.drop_last().push(entries.last()) =~= entries);
    } else {
        assert(v.interceptors_of(key) =~= entries);
    }
}

/// Without a handler for its type, a request is not answered, whatever
/// interceptors it has.
pub proof fn law_no_handler_no_send(v: RegistryView, req: u64, res: u64)
    requires
        !v.requests.contains_key(req),
    ensures
        v.request_route(req, res) is None,
        v.send_plan(req, res) is None,
{
}

/// Without interceptors for the pair, an intercepted send goes where a plain
/// send goes, with nothing around the handler; with them, it goes to the
/// handler of the request type.
pub proof fn law_plan_agrees_with_send(v: RegistryView, req: u64, res: u64)
    ensures
        !v.interceptors.contains_key(InterceptorKey { req_ty: req, res_ty: res }) ==> match v.request_route(req, res) {
            Some(route) => v.send_plan(req, res) == Some(
                SendPlanView { route, layers: Seq::<InterceptorEntry>::empty() },
            ),
            None => v.send_plan(req, res) is None,
        },
        v.request_route(req, res) matches Some(route) ==> v.send_plan(req, res) matches Some(
            plan,
        ) && plan.route == route,
{
}

/// A stream request goes to the stream handler registered last for its type.
pub proof fn law_stream_reads_last_handler(v: RegistryView, req: u64, route: Route, other: u64)
    ensures
        v.with_stream_handler(req, route).streams[req] == route,
        other != req ==> v.with_stream_handler(req, route).streams.contains_key(other)
            == v.streams.contains_key(other),
        other != req && v.streams.contains_key(other) ==> v.with_stream_handler(
            req,
            route,
        ).streams[other] == v.streams[other],
{
}

/// An empty table answers no request, has no subscriber and no stream
/// handler.
pub proof fn law_empty_table(req: u64, res: u64, event: u64)
    ensures
        RegistryView::empty().request_route(req, res) is None,
        RegistryView::empty().subscribers(event) == Seq::<Route>::empty(),
        !RegistryView::empty().events.contains_key(event),
        !RegistryView::empty().streams.contains_key(req),
{
}

} // verus!
