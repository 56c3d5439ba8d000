//! What the desktop bridge decides before it talks to its backend: where
//! the backend is, whether it may be started, and what to do while it
//! cannot be reached.

use vstd::prelude::*;
use crate::text::{chars_of, lower, same_chars, same_text, to_lower};

verus! {

/// How the bridge reaches its backend.
#[derive(Clone, Copy, Debug, PartialEq, Eq, Structural)]
pub enum BackendMode {
    HttpDev,
    StdioMcp,
}

/// What the bridge does before a request.
#[derive(Clone, Copy, Debug, PartialEq, Eq, Structural)]
pub enum BridgeStep {
    /// The backend answers: send the request.
    Ready,
    /// A backend was started and does not answer yet: wait for it.
    Wait,
    /// No backend runs: start one, then wait for it.
    Spawn,
    /// No backend runs and none may be started.
    Refuse,
    /// The mode is not served.
    Unsupported,
}

/// The address of the backend where none is configured.
pub open spec fn default_addr() -> Seq<char> {
    "127.0.0.1:7777"@
}

/// The address of the backend: the configured one, or the default.
pub fn backend_addr(configured: Option<&str>) -> (out: String)
    ensures
        out@ == (match configured {
            Some(addr) => addr@,
            None => default_addr(),
        }),
{
    match configured {
        Some(addr) => addr.to_string(),
        None => "127.0.0.1:7777".to_string(),
    }
}

/// Whether the bridge may start a backend: it may unless the setting is
/// `0` or, in any case, `false`.
pub open spec fn autospawn(setting: Option<Seq<char>>) -> bool {
    match setting {
        Some(v) => v != "0"@ && lower(v) != "false"@,
        None => true,
    }
}

/// Whether the bridge may start a backend.
pub fn autospawn_enabled(setting: Option<&str>) -> (r: bool)
    ensures
        r == autospawn(match setting {
            Some(v) => Some(v@),
            None => None,
        }),
{
    match setting {
        Some(v) => !same_text(v, "0") && !same_chars(&to_lower(&chars_of(v)), &chars_of("false")),
        None => true,
    }
}

/// What the bridge does before a request, given whether the backend
/// answers and whether the bridge has started one.
pub open spec fn step_for(mode: BackendMode, reachable: bool, started: bool, may_spawn: bool) -> BridgeStep {
    if mode != BackendMode::HttpDev {
        BridgeStep::Unsupported
    } else if reachable {
        BridgeStep::Ready
    } else if started {
        BridgeStep::Wait
    } else if may_spawn {
        BridgeStep::Spawn
    } else {
        BridgeStep::Refuse
    }
}

/// Decides what the bridge does before a request.
pub fn bridge_step(mode: BackendMode, reachable: bool, started: bool, may_spawn: bool) -> (step: BridgeStep)
    ensures
        step == step_for(mode, reachable, started, may_spawn),
{
    match mode {
        BackendMode::StdioMcp => BridgeStep::Unsupported,
        BackendMode::HttpDev => {
            if reachable {
                BridgeStep::Ready
            } else if started {
                BridgeStep::Wait
            } else if may_spawn {
                BridgeStep::Spawn
            } else {
                BridgeStep::Refuse
            }
        },
    }
}

/// A backend is started only where none answers, none was started before,
/// and starting one is allowed.
pub proof fn lemma_spawn_is_the_last_resort(mode: BackendMode, reachable: bool, started: bool, may_spawn: bool)
    ensures
        step_for(mode, reachable, started, may_spawn) == BridgeStep::Spawn <==> (mode
            == BackendMode::HttpDev && !reachable && !started && may_spawn),
{
}

} // verus!
