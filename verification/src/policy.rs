//! The capability policy: which tier a tool call falls under, and whether it
//! may run, must wait for consent, or is refused.

use vstd::prelude::*;
use crate::ipc::{ChatMode, ToolCall};
use crate::text::{join3, same_text, starts_with, str_starts_with};

verus! {

/// How much a tool can do to the user's machine.
#[derive(Clone, Copy, Debug, PartialEq, Eq, Structural)]
pub enum CapabilityTier {
    ReadOnly,
    LocalActions,
    SystemActions,
}

/// The policy's answer for one tool call.
#[derive(Debug, PartialEq, Eq)]
pub enum Authorization {
    Allow,
    RequireConfirmation { reason: String },
    Deny { reason: String },
}

/// What contracts see of an [`Authorization`].
pub enum AuthorizationView {
    Allow,
    RequireConfirmation { reason: Seq<char> },
    Deny { reason: Seq<char> },
}

impl View for Authorization {
    type V = AuthorizationView;

    open spec fn view(&self) -> AuthorizationView {
        match self {
            Authorization::Allow => AuthorizationView::Allow,
            Authorization::RequireConfirmation { reason } => AuthorizationView::RequireConfirmation {
                reason: reason@,
            },
            Authorization::Deny { reason } => AuthorizationView::Deny { reason: reason@ },
        }
    }
}

/// The circumstances of a tool call: the caller's mode, and whether the user
/// has approved this exact request.
#[derive(Clone, Copy, Debug)]
pub struct PolicyContext {
    pub mode: ChatMode,
    pub user_confirmed: bool,
}

/// The policy engine. With `default_require_confirmation` set, read-only
/// tools wait for consent in every mode.
#[derive(Clone, Copy, Debug)]
pub struct Policy {
    pub default_require_confirmation: bool,
}

impl Default for Policy {
    fn default() -> (r: Self)
        ensures
            !r.default_require_confirmation,
    {
        Policy { default_require_confirmation: false }
    }
}

/// The tier of the tool named `name`. The rules are tried in order and the
/// first that applies decides; a name that no rule knows is a system action.
pub open spec fn tier_of(name: Seq<char>) -> CapabilityTier {
    if name == "desktop.app.activate"@ {
        CapabilityTier::SystemActions
    } else if name == "desktop.app.list"@ {
        CapabilityTier::LocalActions
    } else if name == "file.write_text"@ || name == "file.append_text"@ || name == "file.mkdir"@ {
        CapabilityTier::LocalActions
    } else if starts_with(name, "time."@) || starts_with(name, "math."@) || starts_with(
        name,
        "text."@,
    ) || starts_with(name, "file."@) || name == "echo"@ {
        CapabilityTier::ReadOnly
    } else if starts_with(name, "desktop."@) || starts_with(name, "android."@) || starts_with(
        name,
        "ios."@,
    ) {
        CapabilityTier::LocalActions
    } else {
        CapabilityTier::SystemActions
    }
}

/// Names under `internal.` are reserved and always refused.
pub open spec fn is_reserved(name: Seq<char>) -> bool {
    starts_with(name, "internal."@)
}

/// Whether a call of tier `tier` has to be approved before it runs.
pub open spec fn needs_consent(tier: CapabilityTier, mode: ChatMode, always_ask: bool) -> bool {
    match tier {
        CapabilityTier::ReadOnly => always_ask || mode == ChatMode::RequireConfirmation,
        _ => true,
    }
}

/// Why a call has to wait for consent.
pub open spec fn consent_reason(name: Seq<char>) -> Seq<char> {
    "Tool '"@ + name + "' requires explicit user consent"@
}

/// The policy's answer for the tool named `name`.
pub open spec fn decision(
    name: Seq<char>,
    mode: ChatMode,
    user_confirmed: bool,
    always_ask: bool,
) -> AuthorizationView {
    if is_reserved(name) {
        AuthorizationView::Deny { reason: "internal.* tools are reserved"@ }
    } else if needs_consent(tier_of(name), mode, always_ask) && !user_confirmed {
        AuthorizationView::RequireConfirmation { reason: consent_reason(name) }
    } else {
        AuthorizationView::Allow
    }
}

/// The capability tier of the tool named `name`.
pub fn tier_of_name(name: &str) -> (tier: CapabilityTier)
    ensures
        tier == tier_of(name@),
{
    if same_text(name, "desktop.app.activate") {
        return CapabilityTier::SystemActions;
    }
    if same_text(name, "desktop.app.list") {
        return CapabilityTier::LocalActions;
    }
    if same_text(name, "file.write_text") || same_text(name, "file.append_text") || same_text(
        name,
        "file.mkdir",
    ) {
        return CapabilityTier::LocalActions;
    }
    if str_starts_with(name, "time.") || str_starts_with(name, "math.") || str_starts_with(
        name,
        "text.",
    ) || str_starts_with(name, "file.") || same_text(name, "echo") {
        CapabilityTier::ReadOnly
    } else if str_starts_with(name, "desktop.") || str_starts_with(name, "android.")
        || str_starts_with(name, "ios.") {
        CapabilityTier::LocalActions
    } else {
        CapabilityTier::SystemActions
    }
}

impl Policy {
    /// The capability tier of a tool call, decided by its name alone.
    pub fn capability_tier(&self, tool_call: &ToolCall) -> (tier: CapabilityTier)
        ensures
            tier == tier_of(tool_call.name@),
    {
        tier_of_name(tool_call.name.as_str())
    }

    /// Whether a tool call may run. Reserved names are refused in every
    /// mode; a call that needs consent waits unless the user has confirmed
    /// this request; everything else is allowed.
    pub fn authorize(&self, tool_call: &ToolCall, context: &PolicyContext) -> (auth: Authorization)
        ensures
            auth@ == decision(
                tool_call.name@,
                context.mode,
                context.user_confirmed,
                self.default_require_confirmation,
            ),
    {
        let name = tool_call.name.as_str();
        if str_starts_with(name, "internal.") {
            return Authorization::Deny { reason: "internal.* tools are reserved".to_string() };
        }
        let require_confirmation = match self.capability_tier(tool_call) {
            CapabilityTier::ReadOnly => self.default_require_confirmation || match context.mode {
                ChatMode::RequireConfirmation => true,
                ChatMode::BestEffort => false,
            },
            _ => true,
        };
        if require_confirmation && !context.user_confirmed {
            Authorization::RequireConfirmation {
                reason: join3("Tool '", name, "' requires explicit user consent"),
            }
        } else {
            Authorization::Allow
        }
    }
}

/// A call that is allowed without the user's confirmation is read-only.
pub proof fn lemma_unconfirmed_allow_is_read_only(name: Seq<char>, mode: ChatMode, always_ask: bool)
    requires
        decision(name, mode, false, always_ask) is Allow,
    ensures
        tier_of(name) == CapabilityTier::ReadOnly,
        mode == ChatMode::BestEffort,
        !always_ask,
{
}

} // verus!
