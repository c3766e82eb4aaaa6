# lemoncuc

The request, command and message logic of the LemonCUC desktop-control
backend, verified with Verus.

- `src/api/` – the REST endpoints: which program a request runs (dmenu,
  i3-msg, xdotool, scrot) and how its outcome is answered; the properties
  document and its fallback.
- `src/handlers/` – the WebSocket endpoints: the `dbus-monitor` notification
  parser, the decisions of the proxy loops (VNC, SSH, audio, DevTools), and the
  start-up probing of Chrome.
- `src/tcpulse.rs` – the GStreamer audio pipeline.
- `src/text.rs`, `src/json.rs`, `src/command.rs` – text search, joining and
  splitting lines, JSON string literals, command descriptions.
- `app/` – the axum server, the child processes and the sockets, which hand
  plain values to the library and act on its answers.
