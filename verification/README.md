# mediator

A mediator: a central hub that routes requests to their handlers, publishes
events to their subscribers, runs interceptors around requests and builds
streams of responses.

## Layout

- `src/` — the verified library (Verus).
  - `error.rs`: error kinds, errors and the text they display.
  - `registry.rs`: the dispatch table. Types are known by keys, handlers by
    ids; the table decides which handler a request goes to, which
    subscribers an event goes to and in what order, and which interceptors
    wrap a request. Its laws (read after write, subscription order,
    interceptor order, independence of registrations) are proof functions.
  - `request.rs`: the traits that handlers, events and interceptors implement.
  - `futures/stream/`: the stream builder, the yielder, and the generated
    streams, as state machines over what their channel gives.
  - `samples/`: the handlers and interceptors of the sample programs
    (greeting, line editor, upper case, colors).
  - `text.rs`: the string operations of std that the library relies on.
- `app/` — the mediator over handlers of any type: it keeps the closures and
  trait objects, calls them as the table says, and offers the async mediator
  and the `Stream` implementations.
- `tests/` — tests of the library.
