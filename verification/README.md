# rperf

The verified core of a network throughput tester, written in Verus.

A client and a server agree over a control channel on a test, in which streams
carry data between them. The library under `src/` makes the decisions on both
sides: it frames and reads the control channel's messages, keeps how far the
streams have come, admits clients, hands out CPU cores and prepares the report.
Its contracts say exactly what each function returns or changes, but for the
machine's and the clock's part: which cores there are and whether one can be
pinned to (`CpuAffinityManager::new`, `set_affinity`), and how much time has
passed (`ClientRunState::start_kill_timer`, `is_alive`). Beside each of these
stands a function that takes that part as an argument and is exact. Where an
error carries one of an outside crate or of `std`, contracts say when it comes
and leave open what the carried one says. The `law_` functions state what holds
of whole sessions and of the channel between them.

The program under `app/` owns the sockets, the threads and the command line. It
tells the library what came in and does what the library answers. What moves and
measures the test data is an `Engine`, supplied by whoever embeds the program.

What is taken on trust stands in `external_body` functions, each with a comment
that says what is claimed of which outside function: JSON values and texts of
`serde_json`, CPU cores of `core_affinity`, and numbers and clock of `std`.
