//! Decisions of Buzz, apart from the relay and the webview that carry them out.
//!
//! * [`git_status`]: which status event of a NIP-34 root is in force.
//! * [`status_report`]: the author of a root, and the JSON report of its status.
//! * [`status_flow`]: the commands around both, as steps between calls to the relay.
//! * [`linux_media`]: which documents may use the microphone and the camera on Linux.
//! * [`renderer`]: when a crashed renderer is reloaded.
//! * [`json`]: what the crate relies on about `serde_json`.
//! * [`text`]: equality, order and numerals of text.
pub mod git_status;
pub mod json;
pub mod linux_media;
pub mod renderer;
pub mod status_flow;
pub mod status_report;
pub mod text;
