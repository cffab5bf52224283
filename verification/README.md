# tenwa

Logic of a headless WhatsApp Web engine for Tauri applications, verified with Verus.

- `src/engine.rs`: the engine's status (offline, starting, reported by the page) and the
  window decision taken when the engine is opened.
- `src/script.rs`: message escaping and the scripts run in the web view (sending text and
  media, spoofing the navigator, the user agent).
- `src/config.rs`: reading and updating the JSON configuration file, through `serde_json`,
  and the startup options it gives.
- `app/`: the Tauri plugin itself (commands, windows, file access), which calls the library.
