# sip_trunk

Call control for a SIP trunk built on the Telnyx Call Control API, written
in Verus.

- `src/` is the verified library: the call store (`store`), what each Telnyx
  webhook does to it and how management commands change a call (`server`),
  Telnyx webhook signature checking (`signature`), the public gateway's
  admission and authentication decisions (`gateway`), request construction
  for the Telnyx and voice/text services (`telnyx`), the admin command-line
  grammar and its requests (`cli`), logger configuration (`logging`), error
  rendering (`error`), text rendering helpers (`text`), and properties that
  span several operations (`laws`).
- `app/` runs the HTTP servers, the gateway proxy and the command-line
  client around the library, and holds the JSON encodings of its types.
- `tests/` exercises the library on concrete inputs.

## Running

The four programs (internal server, public gateway, command-line client and
the orchestrator that starts the two servers) are one executable, `app/`,
that picks its part by the name it is started under: `sip-trunk-server`,
`sip-trunk-api`, `sip-trunk-cli`, or anything else for the orchestrator.
Link or copy the built binary under those names; there are no separate
`cargo run --bin` targets.

## Defaults

- The internal server listens on port 3301 and the public gateway on 3302.
- The command-line client's `--api-url` defaults to `http://localhost:8081`.
  The gateway listens on 3302 by default, so set `MANAGEMENT_API_URL` or
  pass `--api-url http://localhost:3302` to reach a locally started gateway.
- The command line's help, version and refusals follow what clap does for
  the equivalent clap definition; `tests/cli_reference.rs` builds that
  definition and compares the two on each case.
