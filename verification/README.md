# tunnel

A file transfer library built around the TUS resumable upload protocol,
verified with Verus.

`src/` is the library. Nearly every function there carries a contract that
Verus proves; a few plain constructors and builders promise nothing beyond
their type. The few calls into other crates (random identifiers, base64, URL
joining, HTTP reason phrases) sit behind small trusted wrappers whose
contracts are stated in their doc comments.

- `transfer/` – transfer identifiers, states and their allowed moves, the task
  store, the scheduler that hands out a bounded number of permits, and the
  queue's reaction to what running transfers report.
- `tus/` – the upload manager's state machine (`manager_worker`) and the
  worker's answer to each command (`commands`), the TUS
  client's requests and how answers are read (`client`, `exchange`, `tus`,
  `upload`), upload metadata, the progress counters and the aggregator's
  state.
- `protocol/` – the TUS upload protocol with its settings and builder, and
  the streaming download builder.
- `uploaders/` – chunk planning and the chunk and simple upload requests.
- `http.rs` – header checks, header text, decimal parsing, status lines.
- `utils/` – byte and duration formatting, speed windows, retry decisions.

`app/` is the program around it: the tokio runtime, the HTTP client, the
command channels, the state file, floating-point rates and the keyboard
loop. It hands the library plain values and performs the requests and
actions the library returns.

`tests/` runs the library on concrete values.
