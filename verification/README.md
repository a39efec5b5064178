# fidget_vk

Verified core of Fidget-VK, a desktop fidget toy: a ball hanging from a
spring (or a handful of glass marbles) drawn with Vulkan in an
always-on-top transparent overlay.

The library in `src/` holds the integer and decision logic of the program,
each function with a Verus contract:

- `words`, `wide` — packed Win32 message parameters and NUL-terminated
  UTF-16 strings;
- `input`, `shell`, `pointer`, `platform`, `actions` — key, hotkey, menu and
  tray bindings, window-message routing, the tray menu and its captions,
  the routing of pointer input between the fidget and marble worlds, the
  steps each action takes, and the choice of shell;
- `vulkan`, `shader`, `pixels`, `bitmap` — Vulkan device, memory, format,
  present-mode, extent and barrier selection, SPIR-V word packing, the
  desktop-capture and icon buffers, and the decoded ball texture and tray
  icon (decoded by the `image` crate);
- `monitors` — the overlay covering every monitor and the primary/active
  monitor indices;
- `broadphase`, `ring`, `pool`, `rng`, `spring`, `particles`, `config` —
  marble collision candidates over a hashed cell grid, the trail's bounded
  queue, the particle pool, the pseudo-random generators, the spring toggle
  and plain settings.

`app/` is the program around it: the winit shell, the Vulkan renderer and
the floating-point ball physics. The winit shell, the renderer and the
physics call the library for the decisions of the modules above that they
make.

`app/` is incomplete where the program it follows is: its application core
drives a marble world and reads settings fields (play mode, toy size,
spring visual, marble configuration) that the simulation and configuration
sources it was written against do not define, so `app/` does not
type-check. The marble world's integer broad phase is `broadphase` here.
The Win32 overlay shell is not part of `app/` (no Windows bindings are
available to build it), so its decisions in `src/` (message routing, the
tray menu, typed characters, the word and wide-string helpers, the desktop
capture and the tray icon) have no caller there; the tests exercise them.
The ball texture is read from `assets/` at run time.
