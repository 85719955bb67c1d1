# openvmm

A verified library for an application virtual-machine manager: each app runs
in its own VM, configured by a YAML file, with a guest agent that relays mouse,
window and clipboard events over vsock.

`src/` holds the logic, verified with Verus:

- `config` — the host and app configuration types, where the configuration
  files lie, the guest location of a mounted host file, tap interface names.
- `params` — the `$ARGS[a:b]` / `$MOUNTS[a:b]` placeholder grammar and the
  expansion of an app's mount and parameter lists.
- `path` — `PathBuf::push` and `Path::file_name` on Unix paths held as strings.
- `text` — decimal formatting and parsing, and the Unicode classes the
  placeholder grammar uses.
- `vmm` — what loading an app configuration makes of the VM monitor's settings
  and which host actions (environment, taps, shared directory, hard links) it
  queues; the taps deleted on cleanup.
- `netutil` — the commands of the network helper and how it reads its command
  line.
- `xvsock` — the event type, message framing, and the sender's connection
  decisions.
- `guest` — what the guest agent does with each event, the mouse follower, and
  the main window's id.

`app/` is the programs around it (host manager, network helper, guest agent):
file, process, socket and X11 access, serde and clap, and crosvm.

`tests/` runs the library on concrete values, and checks the placeholder
grammar and its character classes against the `regex` crate, and the path
functions against `std::path`.
