# lpmbox

Firmware tooling for MediaTek-based Lenovo tablets: identifying a firmware
folder, refusing firmware versions that must not be installed, driving SP
Flash Tool V6, putting the tablet on boot slot A, switching its OTA updates,
and preparing the Windows runtimes and drivers the tools need.

- `src/` is the library, written in Verus: every function states its result
  in `requires`/`ensures` and is proved. The flows that talk to the tablet
  (`slot_stage`, `probe`, `ota`, `runtimes`) are state machines: each step
  takes the stage and the outcome of the last request and gives the actions
  to perform and what to do next; the public proof functions state the laws
  they keep (retries are bounded, failures propagate, success needs the
  final check).
- `tests/` exercise the library on concrete values.
- `app/` is the program side: environment, files, USB (ADB and Fastboot),
  processes and the network, which performs what the library asks for.
