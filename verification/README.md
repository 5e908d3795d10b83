# alacritty_terminal

Parts of a terminal emulator, verified with Verus:

- `grid`: the grid of cells with its scrollback. Old scrollback is compressed and thawed on demand.
- `graphics::kitty`: decoding of images that come with the kitty graphics protocol, inline or in
  files and shared memory.
- `term`: snapshots of the terminal state.

`src/` is the library. Each type has a mathematical model (`GridView` for grids, `GraphicView` for
images), and the contracts say how each function changes or reads the model. What holds of several
functions together is stated in `grid/laws.rs`, `graphics/kitty/laws.rs` and `term/serialize.rs`.
Calls of the crates for base64, zlib and PNG are gathered in `graphics/kitty/codecs.rs`; what their
contracts claim is believed without proof.

The library does no I/O. Reading a file or a shared memory object is a machine that is told what
happened and says what to do next; `app/` performs the actions. `app/` also holds logging and the
forms of the types that can be serialized.
