# rust_chanpool

A pool of async workers fed through bounded channels, with backpressure.

- `src/` is the library, verified with Verus: the pool configuration
  (`config`), its errors (`error`), the worker queues and the semaphore that
  bounds the jobs in flight, with the decisions a submission takes
  (`dispatch`), and the answer that waiting on a job gives (`handle`).
- `app/` is the tokio runtime around it: it spawns the workers, awaits on the
  queues and the response channels, and gives the errors their `Display`.
- `tests/` exercises the library, including the pool's scenarios run end to
  end on a tokio runtime.
