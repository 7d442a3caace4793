# baz_launcher

One hub that keeps every Baz Studios game, and itself, up to date and runs them.

`src/` is the launcher's logic, verified with Verus. It does no input or output
of its own: it says what is to be done next, is told what came of it, and the
contracts say what follows from what.

| Module | What it decides |
| --- | --- |
| `catalog` | the games and tools, their assets, ports and payloads |
| `folders` | where things lie on disk, and what counts as installed |
| `release`, `lookup`, `memory` | which release of a game is the newest, and how long that is remembered |
| `payload` | the fetching of a large companion file, only when it is missing and never by halves |
| `install` | the steps from an archive's address to a stamped folder |
| `play`, `serve` | how a game is run, and what its local server answers |
| `pads` | the controllers' state as the games read it |
| `update` | the launcher's own update, and its keys |
| `text`, `json`, `http`, `platform`, `search` | what the rest is written with |

`app/` is the program around it: windows, processes, requests and files.
`tests/` runs the library.
