# KeySlop core

The verified logic of KeySlop, a keyboard soundboard: every key press
anywhere on the system can play a sound, either one assigned to that key or a
global sound for all keys.

- `src/` is the library, verified with Verus:
  - `keys`: the keyboard keys and their stable names (`key_to_string`);
    `key_names` proves that distinct keys get distinct names.
  - `key_sounds`: the per-key sound table. The original keeps it in a
    `HashMap<String, String>`; vstd's specified `StringHashMap` was
    considered, but it offers no way to list the keys, which the key list in
    the window needs, so the table is a vector of pairs in which no key
    occurs twice.
  - `config`: the persisted configuration, its defaults and the sound lookup
    (`sound_for_key`).
  - `polyphony`: the queue of playing sounds and the polyphony limit.
  - `session`: the application state and what each user action or outside
    event does to it.
  - `autostart`: the plans that enable, disable or check start on boot.
  - `devices`, `tray`, `text`: output device names, the tray menu and icon,
    and text operations (ordering, search, prefixes).
- `app/` is the program around it: the egui window, audio through rodio,
  the rdev keyboard hook, file dialogs, the tray icon, and config files.
- `tests/` exercises the library on concrete values.
