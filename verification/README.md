# atask

A flexible task model for building async executors, verified with Verus.

- `src/` is the library. A task is one value; every operation on it is one step with an exact
  contract. `src/laws.rs` states what holds over any order of steps that several threads make: no
  wakeup is lost, an output reaches its join handle, a cancelled task is not polled again, and the
  reference count counts the handles.
- `app/` keeps each task of the library in a mutex and offers it to threads: it polls futures, wakes
  wakers and calls schedulers while no lock is held.
- `tests/` runs the steps, and futures on a small executor.

Cancelling a task does not consume its handle, and dropping the join handle detaches the task.
