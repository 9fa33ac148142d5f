# nexuflux

The verified core of a proxy-rotation client that drives a Mihomo (Clash.Meta)
core: it switches the outbound proxy at a fixed interval, quarantines failing
nodes and revives them after re-testing.

- `src/` — the library, verified with Verus:
  - `domain/` — proxy nodes and their health, metrics, errors;
  - `app/quarantine.rs` — the node pool with quarantine and round-robin selection;
  - `app/rotator.rs` — the rotation engine as a state machine (countdown, switch);
  - `app/sub_parser.rs` — subscription parsing (plain or Base64 lists of URIs);
  - `app/launch.rs` — launch-time decisions;
  - `infra/mihomo/` — the core's configuration document and REST request logic;
  - `codec.rs`, `clock.rs`, `text.rs` — codecs, the clock and text utilities.
- `tests/` — tests of the library against concrete values.
- `app/` — the desktop runtime (Tauri commands, HTTP, processes, async loops).
