# smpsc

Wrappers for tokio's channels whose sending halves can be used as asynchronous sinks, and whose
receiving halves are streams. The library is written in Verus; its contracts are proved.

- `src/mpsc.rs`: senders of bounded and of unbounded channels.
- `src/oneshot/`: the channel for a single value.
- `src/readiness.rs`: when a bounded channel is ready for one more item.
- `src/reservation.rs`: the wait for a free place that a bounded sender keeps between polls.
- `src/laws.rs`: what holds of several calls together.
- `src/external/`: what is taken on trust of std, tokio and tokio-stream.
- `app/`: the senders as sinks of the `async-sink` crate, the send that blocks its thread, and the
  receiver of one value as a future.
- `tests/`: the library at work on real channels.

A bounded sender that is found ready also wakes the task that polled it. A sender whose messages
may go from thread to thread may do so too, and may be shared between threads, as the test
`sender_goes_from_thread_to_thread` shows; only such a sender can be polled for readiness.
