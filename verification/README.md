# local_async

Single-threaded async building blocks with machine-checked contracts:

- `src/ring.rs` — the fixed-capacity ring buffer behind a bounded channel
  (FIFO contents as a `Seq`).
- `src/counter.rs`, `src/channel.rs` — the bounded channel: handle counts,
  `try_send`/`try_recv`, the poll steps of waiting sends and receives, and
  release of each side.
- `src/event.rs` — event notification: an ordered list of listeners, where
  `notify(n)` makes sure `n` listeners are notified and
  `notify_additional(n)` notifies `n` more.
- `src/scheduler.rs`, `src/local_set.rs`, `src/join.rs`,
  `src/cached_waker.rs` — a local task set: task slots (kept in a
  `slab::Slab`), the choice of the next woken task, the steps of one poll of
  the set's main future, and join handles.
- `src/shared_rc.rs` — reference counts of an allocation whose weak handles
  upgrade only on the creating thread.
- `src/local_cell.rs` — per-thread sets of woken ids.
- `src/waker.rs`, `src/slab_spec.rs` — the trusted boundary: the standard
  `Waker` and the `slab` crate as the logic sees them.

The core takes the shared state explicitly (`&mut Channel`, `&mut Event`,
`&mut LocalSet`); `app/` wraps it in reference-counted handles with `Future`
and `Drop` impls, thread ids, and the executor loop that polls the task
futures the core picks.
