# mio_st

A low-level library to build event driven applications: event sources are
polled for readiness events, which go to an event sink. The library is written
in Verus; its decisions are stated in `requires` / `ensures` contracts and
proved.

## Layout

- `src/` is the verified library.
  - `lib.rs`: `poll` over several event sources, and the timeout it blocks for.
  - `event.rs`: ids, readiness, events, the `Sink` and `Source` traits.
  - `user_space.rs`: `Queue`, a first in, first out queue of user events.
  - `timers.rs`, `deadlines.rs`, `clock.rs`, `time.rs`: deadlines, kept in
    order, and the spans of time they are computed with.
  - `os/`: interests, registration options, signals, and the conversions
    to and from the flags of epoll.
  - `poll/`, `registration.rs`, `timer.rs`: the `Poller` of user space events
    and deadlines, user space registrations and timers.
  - `readiness.rs`, `atomic_state.rs`, `selector_id.rs`: the packed
    readiness state of a readiness node and its transitions.
- `tests/` exercises the library on concrete values.
- `app/` holds what makes system calls: the epoll selector, `OsQueue`,
  awakeners, signals, pipes and sockets, and the registration handles that
  share state through `Rc`. Every decision they take is a call into the
  library.
