# btpair

A small controller-navigable Bluetooth manager for Steam Big Picture on Linux,
with its logic verified in Verus.

Add it as a non-Steam game, open it with a gamepad, pair or connect a Bluetooth
device, and exit back to Big Picture. It draws its own screen with SDL2 and talks
to BlueZ over D-Bus.

## Controls

- D-pad up/down: move selection
- A: pair (if needed), trust, then connect the selected device
- Y: disconnect (device stays paired)
- Back/Select: remove/unpair the device, at once and without a prompt
- B or Start: exit
- Keyboard fallback: arrows, Enter, D, Delete, Esc

`BTPAIR_FONT` names a font file to use in place of the usual system fonts.

## Layout

- `src/`: the verified library
  - `model`: devices, the snapshot that is drawn, commands
  - `order`: the order of the device list and what holds of it
  - `listing`: from what the adapter reports to the snapshot
  - `job`: a command as a step-by-step job, from its first operation to its
    status line and refresh
  - `worker`: the life of the Bluetooth worker
  - `input`: what buttons and keys do
  - `screen`: what a frame shows, as drawing operations
  - `font`: which font file is used
  - `text`: small string operations
- `app/`: the program around it: SDL2 window, tokio runtime, BlueZ calls
- `tests/`: tests of the library

Three outside functions stand behind trusted items: the notation of a
`bluer::Address` and `str::to_lowercase`, each with a contract, and the `Debug`
output of a `bluer::Address`, of which nothing is claimed.
