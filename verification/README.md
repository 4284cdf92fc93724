# ioscpy host library (verified)

The host side of ioscpy, the mirror and remote control for a jailbroken
iPhone, with its logic specified and proved in Verus.

- `src/` – the verified library:
  - `wire` – big-endian integers.
  - `protocol` – the 32-byte frame header, message types, writing and reading
    frames (with the read-back-what-was-written law).
  - `payload` – input-event payloads and the video sub-header.
  - `handshake` – the JSON control messages as plain types and the decisions
    of the handshake.
  - `nonce` – the hex nonce from OS randomness.
  - `text` – characters, white space, trimming, splitting, decimal numbers and
    the order of strings.
  - `device` – the `idevice_id -l` listing and the choice of device.
  - `update` – version comparison, notices, the update cache file and the
    release tag.
  - `platform`, `wayland_compat` – per-OS and compositor decisions.
- `app/` – sockets, processes, files, environment, Wayland registry, and the
  serde forms of the JSON messages, around the library.
- `tests/` – tests of the library.
