# asr-lso-bridge

Bridges an auto splitter with LiveSplit One. The program listens for websocket
connections and runs the auto splitter, a WebAssembly module, for each of them.
What the auto splitter asks of the timer goes out as commands; what LiveSplit
One answers tells the auto splitter the state of the timer.

## Usage

    asr-lso-bridge [--settings SETTINGS.toml] path/to/autosplitter.wasm

If the auto splitter has settings, put them into a TOML file as top-level
key-value pairs, and pass its path with `--settings`.

## Layout

- `src/` is the library, verified with Verus: the commands and their wire text,
  the meaning of the timer's messages, the state machines of the websocket
  thread and of the splitter thread, and the settings. Public proof functions
  named `law_..` state what holds across functions.
- `tests/` runs the library.
- `app/` is the program around it: arguments, sockets, files, threads, clocks,
  the JSON form of the timer's messages, and the auto splitter runtime. The
  runtime's settings store takes booleans only, so other settings are reported
  as an error when an auto splitter is started.
