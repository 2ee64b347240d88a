# smartthings_tools_rs

Tools through which a language model controls the devices of a Samsung SmartThings
home, and a command-line survey of the SmartThings REST API, with their logic verified
by Verus.

## Layout

- `src/` — the verified library.
  - `catalog.rs`, `common_tools.rs`, `my_devices/`, `extended_devices/`, `schemas/`:
    the 38 tools, their arguments, the requests each sends and the result it makes of
    the replies.
  - `run.rs`: the run of one tool call, a machine that names each request to send and
    takes its reply; `lib.rs`: the toolkit that offers the tools.
  - `tool.rs`: tool results and the envelopes that describe a tool to a model.
  - `client.rs`, `plan.rs`: requests and replies of the REST API.
  - `json.rs`, `text.rs`: JSON values (read and written as text through `serde_json`),
    text and decimal numerals, with their models.
  - `explorer/`: the survey — its endpoint tests (`api/`), what each one requests and
    keeps (`endpoint.rs`), the run of one endpoint (`runner.rs`), the report
    (`reporter.rs`), the log and its times (`logger.rs`, `calendar.rs`), and the order
    of its time stamps (`stamp_order.rs`).
  - `laws.rs`, `explorer/laws.rs`: properties that hold across functions, proved.
- `tests/` — tests of the library on concrete values.
- `app/` — the program: command line, HTTP with `ureq`, JSON with `serde_json`,
  argument schemas with `schemars`, printing and log files.
