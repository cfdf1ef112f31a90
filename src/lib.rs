//! Core of a user-session authentication agent for a system policy
//! authority: the line protocol spoken with the privileged helper, identity
//! name resolution, and the per-cookie session state machine.

pub mod config;
pub mod events;
pub mod identity;
pub mod laws;
pub mod prompt;
pub mod protocol;
pub mod secret;
pub mod session;

pub use config::SystemConfig;
pub use events::{AuthenticationAgentEvent, AuthenticationUserEvent};
pub use identity::{names_from_lookups, resolve, resolve_names, Identity, IdentityKind};
pub use prompt::{App, AppMsg};
pub use protocol::{
    ends_attempt, handshake, has_prefix, is_lockout_notice, parse_helper_line, password_reply, str_contains, str_equals,
    trim, HelperDirective, HelperEndpoint,
};
pub use secret::scrub;
pub use session::{Action, AgentError, Coordinator, SessionPhase};
