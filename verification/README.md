# leddy_rasp_pi

Device agent for Raspberry Pi driven Leddy LED matrices.

- `src/` is the verified core: display configuration and its supported range
  (`config`), start-up settings decoding (`settings`), device-frame scaling and
  frame statistics (`frame`), the `LEDDYF01` HUB75 helper packet (`packet`),
  what the snapshot and HUB75 sinks emit (`sink`), reconnect backoff
  (`backoff`), the per-command session decisions (`session`) and the
  temporary name under which the configuration file is replaced (`storage`).
- `app/` is the program around it: environment, files, the helper process,
  the WebSocket session, and the shared `leddy-interfaces` / `leddy-lib`
  protocol and rendering crates.
- `tests/` exercise the library on concrete values.
