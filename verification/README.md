# capshift (verified core)

capshift turns Caps Lock into a chord modifier on Apple Silicon Macs. This
crate holds the parts of its `doctor` command and menu-bar companion that
decide things, proved with Verus:

- `src/quoting.rs`: single-quoting paths for `/bin/sh` and escaping text for
  AppleScript string literals, with proofs that the shell and AppleScript read
  the quoted text back exactly.
- `src/commands.rs`: service names and paths, the repair commands, the
  administrator-prompt script, and what each outside command's result means.
- `src/doctor.rs`: `capshift doctor` as a machine from state and event to the
  next step, with proofs about whole runs (a run without `--fix` changes
  nothing, only system-level repairs ask for administrator rights, the summary
  is healthy exactly when no check failed, every run ends).
- `src/menubar.rs`: reading `ps` output to tell whether the root daemon runs,
  the status item's title, and the scripts its menu items launch.
- `src/text.rs`: white space, trimming and UTF-8 decoding.

`app/` is the `capshift` program: it parses arguments, runs the processes the
library asks for, and drives AppKit for the menu bar on macOS.
