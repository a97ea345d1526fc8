//! The session lifecycle and traffic-bridging substrate of a
//! browser-automation gateway: a session registry with admission
//! control and background reaping, launch planning for headless
//! browsers and X11/VNC desktops, a bidirectional tunnel machine, the
//! readiness protocol that runs against a page before extraction, the
//! render-parameter mapping, and the SSRF guard that gates every URL.
//!
//! The surrounding process — the HTTP router, the browser-control
//! calls, the subprocesses and their I/O — lives outside and drives
//! these verified pieces.
pub mod error;
pub mod numstr;
pub mod strutil;
pub mod devices;
pub mod session;
pub mod ssrf;
pub mod ports;
pub mod readiness;
pub mod render;
pub mod headless;
pub mod remote;
pub mod bridge;
