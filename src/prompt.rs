//! The state of the consumer's prompt: which request it shows and what it
//! tells the user, and the events it sends back to the agent.
use vstd::prelude::*;
use crate::events::{
    opt_string_view, strings_view, AgentEventModel, AuthenticationAgentEvent,
    AuthenticationUserEvent, UserEventModel,
};
use crate::protocol::str_equals;
use crate::secret::scrub;

verus! {

/// An input of the prompt.
pub enum AppMsg {
    /// The user confirmed with a password for the chosen identity.
    Confirm { user: String, password: String },
    /// The user dismissed the prompt.
    Cancel,
    /// An event from the agent.
    AuthEvent(AuthenticationAgentEvent),
}

/// What the prompt shows.
pub struct App {
    message: String,
    identities: Vec<String>,
    cookie: Option<String>,
    retry_message: Option<String>,
    authenticating: bool,
    /// Shown while a submitted password is checked.
    busy_text: String,
}

pub struct AppModel {
    pub message: Seq<char>,
    pub identities: Seq<Seq<char>>,
    pub cookie: Option<Seq<char>>,
    pub retry_message: Option<Seq<char>>,
    pub authenticating: bool,
    pub busy_text: Seq<char>,
}

pub enum AppMsgModel {
    Confirm { user: Seq<char>, password: Seq<char> },
    Cancel,
    AuthEvent(AgentEventModel),
}

impl View for App {
    type V = AppModel;

    closed spec fn view(&self) -> AppModel {
        AppModel {
            message: self.message@,
            identities: strings_view(self.identities@),
            cookie: opt_string_view(self.cookie),
            retry_message: opt_string_view(self.retry_message),
            authenticating: self.authenticating,
            busy_text: self.busy_text@,
        }
    }
}

impl View for AppMsg {
    type V = AppMsgModel;

    open spec fn view(&self) -> AppMsgModel {
        match self {
            AppMsg::Confirm { user, password } => AppMsgModel::Confirm {
                user: user@,
                password: password@,
            },
            AppMsg::Cancel => AppMsgModel::Cancel,
            AppMsg::AuthEvent(ev) => AppMsgModel::AuthEvent(ev@),
        }
    }
}

/// The prompt shows nothing.
pub open spec fn idle(m: AppModel, retry_message: Option<Seq<char>>) -> AppModel {
    AppModel {
        message: seq![],
        identities: seq![],
        cookie: None,
        retry_message,
        authenticating: false,
        busy_text: m.busy_text,
    }
}

/// The prompt shows the request with this cookie.
pub open spec fn shows(m: AppModel, c: Seq<char>) -> bool {
    m.cookie == Some(c)
}

/// How the prompt reacts to an input, and what it sends to the agent.
pub open spec fn update_spec(m: AppModel, msg: AppMsgModel) -> (AppModel, Option<UserEventModel>) {
    match msg {
        AppMsgModel::Confirm { user, password } => match m.cookie {
            Some(c) => (
                AppModel { retry_message: Some(m.busy_text), authenticating: true, ..m },
                Some(UserEventModel::ProvidedPassword { cookie: c, username: user, password }),
            ),
            None => (m, None),
        },
        AppMsgModel::Cancel => match m.cookie {
            Some(c) => (idle(m, Some(seq![])), Some(UserEventModel::Canceled { cookie: c })),
            None => (m, None),
        },
        AppMsgModel::AuthEvent(ev) => match ev {
            AgentEventModel::Started { cookie, message, names } => {
                if m.cookie is None {
                    (
                        AppModel {
                            message,
                            identities: names,
                            cookie: Some(cookie),
                            retry_message: None,
                            authenticating: false,
                            busy_text: m.busy_text,
                        },
                        None,
                    )
                } else {
                    (m, None)
                }
            },
            AgentEventModel::Canceled { cookie } => {
                if shows(m, cookie) {
                    (idle(m, None), None)
                } else {
                    (m, None)
                }
            },
            AgentEventModel::AuthorizationSucceeded { cookie } => {
                if shows(m, cookie) {
                    (idle(m, None), None)
                } else {
                    (m, None)
                }
            },
            AgentEventModel::AuthorizationRetry { cookie, retry_message } => {
                if shows(m, cookie) {
                    (AppModel { retry_message, authenticating: false, ..m }, None)
                } else {
                    (m, None)
                }
            },
        },
    }
}

impl App {
    /// An idle prompt; `busy_text` is shown while a password is checked.
    pub fn new(busy_text: String) -> (r: App)
        ensures
            r@ == idle(r@, None),
            r@.busy_text == busy_text@,
    {
        let r = App {
            message: String::new(),
            identities: Vec::new(),
            cookie: None,
            retry_message: None,
            authenticating: false,
            busy_text,
        };
        assert(r@.identities =~= seq![]);
        r
    }

    pub fn message(&self) -> (r: &String)
        ensures
            r@ == self@.message,
    {
        &self.message
    }

    pub fn identities(&self) -> (r: &Vec<String>)
        ensures
            strings_view(r@) == self@.identities,
    {
        &self.identities
    }

    pub fn cookie(&self) -> (r: &Option<String>)
        ensures
            opt_string_view(*r) == self@.cookie,
    {
        &self.cookie
    }

    pub fn retry_message(&self) -> (r: &Option<String>)
        ensures
            opt_string_view(*r) == self@.retry_message,
    {
        &self.retry_message
    }

    pub fn authenticating(&self) -> (r: bool)
        ensures
            r == self@.authenticating,
    {
        self.authenticating
    }

    /// Whether the prompt shows the request with this cookie.
    fn is_showing(&self, cookie: &String) -> (r: bool)
        ensures
            r == shows(self@, cookie@),
    {
        match &self.cookie {
            Some(c) => str_equals(c.as_str(), cookie.as_str()),
            None => false,
        }
    }

    fn clear(&mut self, retry_message: Option<String>)
        ensures
            final(self)@ == idle(old(self)@, opt_string_view(retry_message)),
    {
        self.cookie = None;
        self.message = String::new();
        self.identities = Vec::new();
        self.retry_message = retry_message;
        self.authenticating = false;
        assert(final(self)@.identities =~= seq![]);
    }

    /// Handles one input; returns the event to send to the agent, if any.
    pub fn update(&mut self, msg: AppMsg) -> (r: Option<AuthenticationUserEvent>)
        ensures
            final(self)@ == update_spec(old(self)@, msg@).0,
            match r {
                Some(ev) => update_spec(old(self)@, msg@).1 == Some(ev@),
                None => update_spec(old(self)@, msg@).1 is None,
            },
    {
        match msg {
            AppMsg::Confirm { user, password } => {
                match &self.cookie {
                    Some(c) => {
                        let cookie = c.clone();
                        self.retry_message = Some(self.busy_text.clone());
                        self.authenticating = true;
                        Some(AuthenticationUserEvent::ProvidedPassword { cookie, username: user, password })
                    },
                    None => {
                        let mut password = password;
                        scrub(&mut password);
                        None
                    },
                }
            },
            AppMsg::Cancel => {
                match &self.cookie {
                    Some(c) => {
                        let cookie = c.clone();
                        let empty = String::new();
                        assert(empty@ =~= seq![]);
                        self.clear(Some(empty));
                        Some(AuthenticationUserEvent::Canceled { cookie })
                    },
                    None => None,
                }
            },
            AppMsg::AuthEvent(ev) => {
                match ev {
                    AuthenticationAgentEvent::Started { cookie, message, names } => {
                        if self.cookie.is_none() {
                            self.cookie = Some(cookie);
                            self.message = message;
                            self.identities = names;
                            self.retry_message = None;
                            self.authenticating = false;
                        }
                    },
                    AuthenticationAgentEvent::Canceled { cookie } => {
                        if self.is_showing(&cookie) {
                            self.clear(None);
                        }
                    },
                    AuthenticationAgentEvent::AuthorizationSucceeded { cookie } => {
                        if self.is_showing(&cookie) {
                            self.clear(None);
                        }
                    },
                    AuthenticationAgentEvent::AuthorizationRetry { cookie, retry_message } => {
                        if self.is_showing(&cookie) {
                            self.retry_message = retry_message;
                            self.authenticating = false;
                        }
                    },
                }
                None
            },
        }
    }
}

} // verus!
