# r3

The configuration-time and synchronization logic of the R3 real-time
operating system, written in Verus and verified against its contracts.

- `src/` is the verified library:
  - `kernel/`: the static configuration (`Cfg`, hunks, startup hooks, tasks,
    event groups, mutexes, semaphores, timers, interrupt lines and handlers),
    the error and result codes, and wait queues;
  - `bind/`: bindings, and the sorter that determines their initialization
    order and enforces the borrow rules;
  - `sync/`: mutexes and recursive mutexes on top of kernel mutexes;
  - `hunk.rs`: typed hunks;
  - `time/`: `Duration` and `Time`;
  - `utils/`: a growable vector, a sort, and a vector-like interface.
- `app/` holds what stays outside the verifier: the heterogeneous property
  bag and the conversions to and from `chrono`'s date-time type.
- `tests/` exercises the library with concrete values.

Where the library needs the outcome of a kernel operation, it takes that
outcome as an argument and states what it does for each possible value.

The vector-like interface (`utils::VecLike`) is implemented for `Vec`. It is
not implemented for `arrayvec::ArrayVec<T, N>`, neither by declaring that type
nor by holding it in a struct whose body the verifier does not read: either
way, the trait's `elements` must be given by a name for the collection's
contents, and such a name must be a function without generic parameters,
while the implementation has to be generic over the element type `T` and the
capacity `N`. The `arrayvec` line in `Cargo.toml` is unused for that reason.
