# flowsight_agent

The decision logic of the FlowSight desktop agent, verified with Verus.

- `src/` is the library: screen-capture planning (`capture`, `capture_tools`,
  `image_codec`), the silent GNOME screencast session (`screencast`), parsing of GNOME
  Shell's screenshot replies (`portal_reply`, with `pathkey`, `lexorder` and `order`),
  POSIX shell quoting (`shell`), the `llama-server` runtime download (`llama`) and the
  agent's file layout (`paths`). Each function states its behaviour in `requires` /
  `ensures`; where the result comes from an outside crate (image decoding, resizing and
  PNG encoding, a path's `Debug` text), the contract names that result as a function of
  the inputs rather than spelling it out. The properties that span several calls are
  proved as `law_*` proof functions.
- `app/` does the input and output around it: processes, files, HTTP downloads and
  archive unpacking, the desktop portal session.
- `tests/` runs the library on concrete values.
