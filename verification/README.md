# linux_settings

The decisions of a small desktop-settings service, verified with Verus.

- `src/` — the verified library: the settings (desktop-settings keys, kernel
  modules, system services, shell commands), what applying each asks of the
  system and how the system's answer is read, the registry of settings by id,
  and the steps of the web front end's requests.
- `app/` — the service around it: reading the settings file, running
  commands, reading and writing the desktop settings, and the web server.
- `tests/` — tests of the library.
