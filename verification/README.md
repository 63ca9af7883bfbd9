# clip_mesh

A node of a peer-to-peer clipboard mesh: what is copied on one machine can be
pasted on every other machine of the mesh. Nodes find each other by mDNS, talk
over WebSockets, and seal every text with AES-256-GCM under a key that all of
them share.

- `src/` is the library: the rules of a node, each with a contract that Verus
  proves. `src/outside.rs` holds what is taken on trust of other crates.
- `tests/` runs the library on concrete values.
- `app/` is the desktop program around it: sockets, the mDNS daemon, the system's
  clipboard, the configuration file, the window and the tray. It uses Tauri 1.
