//! Events exchanged between the agent and the consumer that prompts the user.
use vstd::prelude::*;
use vstd::string::StringExecFns;

verus! {

/// An event from the consumer to the agent.
pub enum AuthenticationUserEvent {
    /// The user canceled the authentication.
    Canceled { cookie: String },
    /// The user provided their password.
    ProvidedPassword { cookie: String, username: String, password: String },
}

/// An event from the agent to the consumer.
pub enum AuthenticationAgentEvent {
    /// Agent has begun authentication.
    Started { cookie: String, message: String, names: Vec<String> },
    /// The authentication ended without success.
    Canceled { cookie: String },
    /// The user has successfully authenticated.
    AuthorizationSucceeded { cookie: String },
    /// The user provided a password, but it was incorrect, or the helper
    /// announced a lockout.
    AuthorizationRetry { cookie: String, retry_message: Option<String> },
}

pub enum UserEventModel {
    Canceled { cookie: Seq<char> },
    ProvidedPassword { cookie: Seq<char>, username: Seq<char>, password: Seq<char> },
}

pub enum AgentEventModel {
    Started { cookie: Seq<char>, message: Seq<char>, names: Seq<Seq<char>> },
    Canceled { cookie: Seq<char> },
    AuthorizationSucceeded { cookie: Seq<char> },
    AuthorizationRetry { cookie: Seq<char>, retry_message: Option<Seq<char>> },
}

pub open spec fn strings_view(v: Seq<String>) -> Seq<Seq<char>> {
    v.map_values(|s: String| s@)
}

pub open spec fn opt_string_view(o: Option<String>) -> Option<Seq<char>> {
    match o {
        Some(s) => Some(s@),
        None => None,
    }
}

impl View for AuthenticationUserEvent {
    type V = UserEventModel;

    open spec fn view(&self) -> UserEventModel {
        match self {
            AuthenticationUserEvent::Canceled { cookie } => UserEventModel::Canceled {
                cookie: cookie@,
            },
            AuthenticationUserEvent::ProvidedPassword {
                cookie,
                username,
                password,
            } => UserEventModel::ProvidedPassword {
                cookie: cookie@,
                username: username@,
                password: password@,
            },
        }
    }
}

impl View for AuthenticationAgentEvent {
    type V = AgentEventModel;

    open spec fn view(&self) -> AgentEventModel {
        match self {
            AuthenticationAgentEvent::Started { cookie, message, names } => AgentEventModel::Started {
                cookie: cookie@,
                message: message@,
                names: strings_view(names@),
            },
            AuthenticationAgentEvent::Canceled { cookie } => AgentEventModel::Canceled {
                cookie: cookie@,
            },
            AuthenticationAgentEvent::AuthorizationSucceeded { cookie } =>
                AgentEventModel::AuthorizationSucceeded { cookie: cookie@ },
            AuthenticationAgentEvent::AuthorizationRetry {
                cookie,
                retry_message,
            } => AgentEventModel::AuthorizationRetry {
                cookie: cookie@,
                retry_message: opt_string_view(*retry_message),
            },
        }
    }
}

impl UserEventModel {
    pub open spec fn cookie(self) -> Seq<char> {
        match self {
            UserEventModel::Canceled { cookie } => cookie,
            UserEventModel::ProvidedPassword { cookie, .. } => cookie,
        }
    }
}

impl AgentEventModel {
    pub open spec fn cookie(self) -> Seq<char> {
        match self {
            AgentEventModel::Started { cookie, .. } => cookie,
            AgentEventModel::Canceled { cookie } => cookie,
            AgentEventModel::AuthorizationSucceeded { cookie } => cookie,
            AgentEventModel::AuthorizationRetry { cookie, .. } => cookie,
        }
    }

    /// After such an event nothing more is said about its cookie.
    pub open spec fn is_terminal(self) -> bool {
        self is Canceled || self is AuthorizationSucceeded
    }
}

impl AuthenticationUserEvent {
    /// The cookie of the session the event is meant for.
    pub fn cookie(&self) -> (r: &String)
        ensures
            r@ == self@.cookie(),
    {
        match self {
            AuthenticationUserEvent::Canceled { cookie } => cookie,
            AuthenticationUserEvent::ProvidedPassword { cookie, .. } => cookie,
        }
    }
}

impl AuthenticationAgentEvent {
    /// The cookie of the session the event is about.
    pub fn cookie(&self) -> (r: &String)
        ensures
            r@ == self@.cookie(),
    {
        match self {
            AuthenticationAgentEvent::Started { cookie, .. } => cookie,
            AuthenticationAgentEvent::Canceled { cookie } => cookie,
            AuthenticationAgentEvent::AuthorizationSucceeded { cookie } => cookie,
            AuthenticationAgentEvent::AuthorizationRetry { cookie, .. } => cookie,
        }
    }

    /// Whether the event closes its session.
    pub fn is_terminal(&self) -> (r: bool)
        ensures
            r == self@.is_terminal(),
    {
        match self {
            AuthenticationAgentEvent::Canceled { .. } => true,
            AuthenticationAgentEvent::AuthorizationSucceeded { .. } => true,
            _ => false,
        }
    }
}

/// A string as `Debug` shows it: between double quotes, with quotes,
/// backslashes and control characters escaped.
pub uninterp spec fn debug_text_of(s: Seq<char>) -> Seq<char>;

/// Relies on `str`'s `Debug` impl, through `format!("{:?}", s)`: the text
/// depends on the characters of `s` alone.
#[verifier::external_body]
fn debug_text(s: &str) -> (r: String)
    ensures
        r@ == debug_text_of(s@),
{
    format!("{:?}", s)
}

/// The items as `Debug` shows them, separated by `, `.
pub open spec fn joined(items: Seq<Seq<char>>) -> Seq<char>
    decreases items.len(),
{
    if items.len() == 0 {
        seq![]
    } else if items.len() == 1 {
        debug_text_of(items[0])
    } else {
        joined(items.drop_last()) + ", "@ + debug_text_of(items.last())
    }
}

pub open spec fn user_event_text(ev: UserEventModel) -> Seq<char> {
    match ev {
        UserEventModel::Canceled { cookie } => "Canceled { cookie: "@ + debug_text_of(cookie) + " }"@,
        UserEventModel::ProvidedPassword { cookie, username, .. } => "ProvidedPassword { cookie: "@
            + debug_text_of(cookie) + ", username: "@ + debug_text_of(username) + " }"@,
    }
}

pub open spec fn agent_event_text(ev: AgentEventModel) -> Seq<char> {
    match ev {
        AgentEventModel::Started { cookie, message, names } => "Started { cookie: "@ + debug_text_of(
            cookie,
        ) + ", message: "@ + debug_text_of(message) + ", names: ["@ + joined(names) + "] }"@,
        AgentEventModel::Canceled { cookie } => "Canceled { cookie: "@ + debug_text_of(cookie) + " }"@,
        AgentEventModel::AuthorizationSucceeded { cookie } => "AuthorizationSucceeded { cookie: "@
            + debug_text_of(cookie) + " }"@,
        AgentEventModel::AuthorizationRetry { cookie, retry_message } => "AuthorizationRetry { cookie: "@
            + debug_text_of(cookie) + ", retry_message: "@ + match retry_message {
            Some(t) => "Some("@ + debug_text_of(t) + ")"@,
            None => "None"@,
        } + " }"@,
    }
}

fn push_debug_text(out: &mut String, s: &str)
    ensures
        final(out)@ == old(out)@ + debug_text_of(s@),
{
    let text = debug_text(s);
    out.append(text.as_str());
}

fn push_joined(out: &mut String, items: &Vec<String>)
    ensures
        final(out)@ == old(out)@ + joined(strings_view(items@)),
{
    let ghost start = out@;
    let mut i: usize = 0;
    while i < items.len()
        invariant
            i <= items.len(),
            out@ == start + joined(strings_view(items@).subrange(0, i as int)),
        decreases items.len() - i,
    {
        let ghost sub = strings_view(items@).subrange(0, i as int + 1);
        assert(sub.drop_last() =~= strings_view(items@).subrange(0, i as int));
        if i > 0 {
            out.append(", ");
        }
        push_debug_text(out, items[i].as_str());
        assert(out@ =~= start + joined(sub));
        i = i + 1;
    }
    assert(strings_view(items@).subrange(0, items@.len() as int) =~= strings_view(items@));
}

impl AuthenticationUserEvent {
    /// The event as `Debug` would show it, but with the password left out.
    pub fn describe(&self) -> (r: String)
        ensures
            r@ == user_event_text(self@),
    {
        let mut out = String::new();
        match self {
            AuthenticationUserEvent::Canceled { cookie } => {
                out.append("Canceled { cookie: ");
                push_debug_text(&mut out, cookie.as_str());
                out.append(" }");
            },
            AuthenticationUserEvent::ProvidedPassword { cookie, username, .. } => {
                out.append("ProvidedPassword { cookie: ");
                push_debug_text(&mut out, cookie.as_str());
                out.append(", username: ");
                push_debug_text(&mut out, username.as_str());
                out.append(" }");
            },
        }
        assert(out@ =~= user_event_text(self@));
        out
    }
}

impl AuthenticationAgentEvent {
    /// The event as `Debug` shows it.
    pub fn describe(&self) -> (r: String)
        ensures
            r@ == agent_event_text(self@),
    {
        let mut out = String::new();
        match self {
            AuthenticationAgentEvent::Started { cookie, message, names } => {
                out.append("Started { cookie: ");
                push_debug_text(&mut out, cookie.as_str());
                out.append(", message: ");
                push_debug_text(&mut out, message.as_str());
                out.append(", names: [");
                push_joined(&mut out, names);
                out.append("] }");
            },
            AuthenticationAgentEvent::Canceled { cookie } => {
                out.append("Canceled { cookie: ");
                push_debug_text(&mut out, cookie.as_str());
                out.append(" }");
            },
            AuthenticationAgentEvent::AuthorizationSucceeded { cookie } => {
                out.append("AuthorizationSucceeded { cookie: ");
                push_debug_text(&mut out, cookie.as_str());
                out.append(" }");
            },
            AuthenticationAgentEvent::AuthorizationRetry { cookie, retry_message } => {
                out.append("AuthorizationRetry { cookie: ");
                push_debug_text(&mut out, cookie.as_str());
                out.append(", retry_message: ");
                match retry_message {
                    Some(t) => {
                        out.append("Some(");
                        push_debug_text(&mut out, t.as_str());
                        out.append(")");
                    },
                    None => {
                        out.append("None");
                    },
                }
                out.append(" }");
            },
        }
        assert(out@ =~= agent_event_text(self@));
        out
    }
}

} // verus!
