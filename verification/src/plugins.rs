//! Plugin hosts: a client for out-of-process plugins that speak framed
//! JSON-RPC, and the switch for in-process modules.

use vstd::prelude::*;
use crate::mcp::{encode_stdio_frame, framed};
use crate::model::clone_texts;
use crate::text::{join3, texts};

verus! {

/// How to start a plugin process.
#[derive(Debug, PartialEq, Eq)]
pub struct ProcessPluginConfig {
    pub command: String,
    pub args: Vec<String>,
}

/// What contracts see of a [`ProcessPluginConfig`].
pub struct ProcessPluginConfigView {
    pub command: Seq<char>,
    pub args: Seq<Seq<char>>,
}

impl View for ProcessPluginConfig {
    type V = ProcessPluginConfigView;

    open spec fn view(&self) -> ProcessPluginConfigView {
        ProcessPluginConfigView { command: self.command@, args: texts(self.args@) }
    }
}

impl Clone for ProcessPluginConfig {
    fn clone(&self) -> (r: Self)
        ensures
            r@ == self@,
    {
        ProcessPluginConfig { command: self.command.clone(), args: clone_texts(&self.args) }
    }
}

/// A client of one plugin process.
#[derive(Debug, PartialEq, Eq)]
pub struct ProcessPluginClient {
    pub config: ProcessPluginConfig,
}

impl Clone for ProcessPluginClient {
    fn clone(&self) -> (r: Self)
        ensures
            r.config@ == self.config@,
    {
        ProcessPluginClient { config: self.config.clone() }
    }
}

/// The request that opens a plugin session.
pub open spec fn initialize_payload() -> Seq<char> {
    "{\"jsonrpc\":\"2.0\",\"id\":1,\"method\":\"initialize\",\"params\":{\"protocol\":\"jsonrpc-stdio\",\"mcp_envelope\":true}}"@
}

impl ProcessPluginClient {
    /// A client of the plugin started by `command` with `args`.
    pub fn new(command: &str, args: Vec<String>) -> (r: Self)
        ensures
            r.config@ == (ProcessPluginConfigView { command: command@, args: texts(args@) }),
    {
        ProcessPluginClient { config: ProcessPluginConfig { command: command.to_string(), args } }
    }

    /// The frame that opens a session: an `initialize` request, framed.
    pub fn build_initialize_frame(&self) -> (frame: String)
        ensures
            frame@ == framed(initialize_payload()),
    {
        let payload =
            "{\"jsonrpc\":\"2.0\",\"id\":1,\"method\":\"initialize\",\"params\":{\"protocol\":\"jsonrpc-stdio\",\"mcp_envelope\":true}}";
        proof {
            reveal_strlit(
                "{\"jsonrpc\":\"2.0\",\"id\":1,\"method\":\"initialize\",\"params\":{\"protocol\":\"jsonrpc-stdio\",\"mcp_envelope\":true}}",
            );
        }
        encode_stdio_frame(payload)
    }
}

/// The host for in-process modules. No module runtime is built in: loading
/// fails whether the host is enabled or not, and says which of the two.
#[derive(Clone, Copy, Debug)]
pub struct WasmPluginHostStub {
    enabled: bool,
}

impl Default for WasmPluginHostStub {
    fn default() -> (r: Self)
        ensures
            !r.enabled(),
    {
        WasmPluginHostStub { enabled: false }
    }
}

/// Why the module `module_name` was not loaded.
pub open spec fn load_failure(enabled: bool, module_name: Seq<char>) -> Seq<char> {
    if enabled {
        "Wasm plugin host stub enabled but not implemented for module '"@ + module_name + "'"@
    } else {
        "Wasm plugin host disabled; cannot load module '"@ + module_name
            + "'. TODO: integrate runtime sandbox"@
    }
}

impl WasmPluginHostStub {
    /// Whether the host is switched on.
    pub closed spec fn enabled(&self) -> bool {
        self.enabled
    }

    /// A host that is switched on or off.
    pub fn new(enabled: bool) -> (r: Self)
        ensures
            r.enabled() == enabled,
    {
        WasmPluginHostStub { enabled }
    }

    /// Whether the host is switched on.
    pub fn is_enabled(&self) -> (r: bool)
        ensures
            r == self.enabled(),
    {
        self.enabled
    }

    /// Fails to load a module, and says why.
    pub fn load_module(&self, module_name: &str) -> (out: Result<(), String>)
        ensures
            out is Err,
            out->Err_0@ == load_failure(self.enabled(), module_name@),
    {
        if !self.enabled {
            return Err(
                join3(
                    "Wasm plugin host disabled; cannot load module '",
                    module_name,
                    "'. TODO: integrate runtime sandbox",
                ),
            );
        }
        Err(
            join3(
                "Wasm plugin host stub enabled but not implemented for module '",
                module_name,
                "'",
            ),
        )
    }
}

} // verus!
