# yuki

A helper library injected into a Source-engine game process, split in two:

- `src/` is the verified core (Verus): the library's error kinds, the input
  button codes and the set of command buttons, the virtual-table slot numbers
  of the game interfaces, the checks and copies behind virtual-table calls and
  hooks, the scan for byte patterns with wildcards in a loaded image (and the
  reading of the image size from its PE headers), the names handed to the
  Windows loader, and the entry point's decision on loader notifications.
- `app/` is the unverified shell: the Windows entry point, logging, raw memory
  access, the calls through the game's virtual tables, and the floating-point
  vector type. The Windows-only parts build for 32-bit Windows only.
