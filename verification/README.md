# vibe_extract_core

The verified core of a desktop UI-extraction tool: pick an element of a
running application, recover its structure (DevTools for Electron apps, the
accessibility tree and bundle resources for native macOS apps, a screenshot
as the last resort) and emit it as TOON text and an HTML replica.

## Layout

- `src/` — the library, verified with Verus:
  - `text` — escaping, decimal/hex rendering, trimming, searching;
  - `capture`, `dispatch` — capture results, the strategy ladder as a state
    machine, the multi-element merge;
  - `cdp` — page-target choice, script injection, reply matching, export;
  - `native_format` — palette, TOON document and HTML replica of an
    accessibility tree;
  - `framework`, `pe`, `bundle`, `asar`, `xaml` — what an application's files
    say (goblin, plist, serde_json behind trusted wrappers);
  - `electron`, `relaunch`, `settings`, `paths`, `lsappinfo` — relaunching an
    Electron app with a DevTools port, and the preferences that govern it;
  - `session`, `tap`, `overlay` — the pick session and the mouse tap;
  - `image_diff` — the integer parts of screenshot comparison.
- `tests/` — tests of the library.
- `app/` — I/O around the library: processes, files, HTTP/WebSocket,
  the loops that drive the state machines, and the floating-point parts.
