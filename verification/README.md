# sophia_x_authority

The verified core of an X11 server frontend for the Sophia compositor: the
resource, property and identity state the authority keeps for each admitted
client namespace, and the wire records it answers clients with. Every
function in `src/` carries a Verus contract and is proved against it.

## Layout

- `src/resource.rs`, `src/resource_slots.rs`, `src/runtime.rs`: which
  namespace owns each resource, and the per-resource state (pixmap sizes,
  XFIXES regions, DRI3 fences, SYNC counters, colormaps), the keymap and the
  output layout the replies describe, with their access rules.
- `src/property.rs`, `src/window_hints.rs`, `src/metadata.rs`: the window
  property table, the window-manager hints decoded from it, and the reduction
  of window titles and classes to the label a disclosure rule permits.
- `src/wire.rs`, `src/reply_bytes.rs`, `src/reply_records.rs`,
  `src/client_output.rs`, `src/client_reply.rs`: byte-exact encodings of the
  errors, events and replies the server writes, with the length laws a client
  relies on to frame them.
- `src/keyboard.rs`, `src/pointer.rs`: evdev input mapped to core X key codes,
  buttons and modifier state.
- `src/request_dispatch.rs`: answering decoded font, cursor, pixmap, color,
  XFIXES region, SYNC fence, keyboard and XKB map, RandR output and CRTC, and
  version requests against the runtime's state, with the answer and the new
  state fixed by `dispatch_outcome`.
- `src/atom_names.rs`: the atom names the decoders read, resolved from the
  interned names.
- `src/dispatch.rs`: value conversions the request handlers share (RandR
  resources and monitors, error mapping, image region copies).
- `src/extensions.rs`, `src/glx.rs`, `src/render_picture.rs`,
  `src/clipboard.rs`, `src/routing_types.rs` and the rest: extension tables,
  GLX configurations, picture attributes, clipboard and routing records.
- `app/`: the unverified edge — compiling XKB keymaps with `xkbcommon`,
  reading shared-memory segments, and `Display` implementations for errors.

Laws that span several functions are public proof functions named `law_*`.
