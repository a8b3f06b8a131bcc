# buzz_policy

Verified decisions of Buzz: which status event of a NIP-34 root is in force and how it is
reported, which documents may use the microphone and the camera in the Linux webview, and when a
crashed renderer is reloaded.

* `src/` is the library. Verus proves every function against its contract. What it takes on trust
  about `serde_json` stands in `src/json.rs`.
* `tests/` runs the library with the real `serde_json`.
* `app/` is the code around the library: calls to the relay, and the WebKitGTK signal handlers.
