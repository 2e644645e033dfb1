# melt_desktop

The policy core of the Melt Desktop Wayland compositor, written in Verus
and verified: every public function carries a contract, and the laws the
compositor relies on are proved as proof functions.

Layout:

- `src/` — the verified library
  - `stacking.rs`, `workspaces.rs`, `focus.rs` — window z-order, virtual
    workspaces and focus policy (windows are identified by `WindowId`)
  - `mnemonics.rs`, `input.rs` — the mnemonic key mode and the decisions
    taken on key presses and pointer clicks
  - `decorations/` — geometry and colours of title bars, borders and
    buttons, and the button hit test
  - `theme.rs` — the palette and the hex colour parser
  - `config.rs` — configuration defaults, keybindings, configuration file
    locations
  - `animations.rs` — animation bookkeeping (timing, which animation
    drives a property)
  - `geometry.rs`, `text.rs` — shared helpers
- `tests/` — tests of the library
- `app/` — the compositor side: TOML loading, floating-point colour and
  easing arithmetic, smithay render elements and input glue
