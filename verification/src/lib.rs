//! Supervisor for a single long-lived browser-automation driver subprocess.
//!
//! The library models the subprocess lifecycle (spawn with a privilege drop
//! before the program image is replaced, liveness polling, kill, guaranteed
//! teardown), the per-request automation-session workflow, and the HTTP-level
//! error mapping. The surrounding process — the actual OS spawn, the HTTP
//! server and the WebDriver client calls — lives outside the library and
//! drives these verified state machines.

use vstd::prelude::*;

pub mod cli;
pub mod decimal;
pub mod error;
pub mod http;
pub mod session;
pub mod webdriver;

verus! {

/// The state the control service shares across requests: one supervised
/// driver. Requests only read the handle's immutable part (its port); the
/// kill and teardown paths belong to the supervisor's own lifecycle.
pub struct State {
    /// The supervised driver process.
    pub driver: webdriver::ChromeDriver,
}

} // verus!
