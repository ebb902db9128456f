# spout-transparent

A transparent desktop window for Windows that shows the Direct3D 11 texture of a Spout sender. The
mouse passes through the window until interaction is switched on; then the window can be dragged
and zoomed, and clicks on transparent pixels go to the window below.

The decisions of the program are a library, verified with [Verus](https://github.com/verus-lang/verus).
The program around it talks to Windows and does what the library decides.

## Layout

- `src/`: the verified library.
  - `session/turn.rs`: a whole turn of the event loop, step by step; it always comes to an end.
  - `session/mod.rs`: the state of a running program, and what commands, senders and frames do to it.
  - `config.rs`, `time.rs`: frame rates and the pacing of frames.
  - `spout/`: names and descriptions in shared memory, the list of senders, the receiver that
    follows one of them.
  - `spout_util.rs`: waiting for a sender, listing senders slot by slot.
  - `interaction/`: hotkeys, dragging, zooming, clicks through transparent pixels.
  - `tray.rs`: the menu of the tray icon and the commands chosen there.
  - `dx/`: pixel formats, the ring of staging textures, diagnostic bitmaps.
  - `window_style.rs`, `text.rs`, `bytes.rs`: window styles, text and bytes.
- `tests/`: tests of the library.
- `app/`: the Windows program.

## What is trusted

Three functions of the standard library are called through declarations that Verus believes:
`String::from_utf8_lossy`, `str::to_uppercase` and the `Debug` output of `str`, all in
`src/text.rs`. Their doc comments say what is claimed of them. Everything else in `src/` is proved.

The scale of the window is a floating-point number and lives in `app/zoom.rs`.

## Behaviour

At startup the program waits up to five seconds for a sender and ends if there is none. It connects
the first valid sender by name, follows it when it restarts or replaces its texture, and hides the
window while there is nothing to show. `hotkeys.json` in the working directory, or else beside the
program, replaces the built-in hotkeys as a whole:

| Hotkey | Function |
| --- | --- |
| `Ctrl+Shift+M` | switch between passing the mouse through and interaction |
| `Ctrl+Shift+F` | next frame rate: unlimited, 120, 60, 30 |
| `Ctrl+Shift+T` | keep the window on top or not |
| `Ctrl+Shift+Q` | quit |
| `Esc` | quit, while the window has the keyboard focus |
