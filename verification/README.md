# resource_metering

Records the CPU time that the threads of a process spend under each tag, and
hands the records of each collection period to registered collectors.

- `src/` is the verified library (Verus): the scheduler of the recorder's
  worker, the attaching of tags to a thread's local storage, the recorder's
  decisions at each tick (registration of threads and collectors, pausing and
  resuming, collection, clean-up, and which hooks each sub-recorder receives),
  the CPU recorder's bookkeeping of thread CPU times and its delta arithmetic,
  and the parsing of a thread's stat line. How the record map changes per tag
  is stated only under the model of a hash-map key, which tags (compared by a
  mutable name) do not obey, so that part is not proved for callers.
- `app/` is the runtime around it: the thread-local storage, the worker's
  threads, loop and timer, and what is read of the process's threads from
  `/proc`, which the recorder receives at each tick as a `ThreadSample`.
- `tests/` exercises the library.
