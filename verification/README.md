# wiremix

A mixer for PipeWire with a self-documenting, machine-readable noun-verb
command line (`wiremix node list --json`, `wiremix node mute 42 --on`, ...).

The decisions of the command line are a library verified with Verus:

- `src/cli/`: exit codes and structured errors, the response envelope,
  output-mode detection and `--fields` projection, node and device
  resolution by id or name, the plans of `--dry-run`, the checks each write
  makes, the decisions of a one-shot connection, and the `schema` /
  `describe` documents.
- `src/cli/dto.rs`: the stable output records built from the session view.
- `src/view.rs`, `src/wirehose/`: the session view and object graph as plain
  values, media classes, and the rules for reading the graph (titles,
  stream routing, device routes).
- `src/tabs.rs`, `src/capture.rs`: what each tab of the graphical frontend
  shows, and when a node's peak-metering stream starts and stops.
- `src/json.rs`, `src/keyed.rs`, `src/text.rs`: a JSON document model,
  keyed lists, and text helpers.

`app/` is the command itself: argument parsing, reading the session with
`pw-dump`, writing with `pw-cli` and `pw-metadata`, the floating-point volume
arithmetic, and printing.
