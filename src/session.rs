//! The session coordinator: the cookie table and the state machine that binds
//! the policy authority's calls, the consumer's events and the helper's
//! output for each cookie.
use vstd::prelude::*;
use crate::events::{
    opt_string_view, strings_view, AgentEventModel, AuthenticationAgentEvent,
    AuthenticationUserEvent, UserEventModel,
};
use crate::protocol::{
    directive_of, is_lockout_notice, lockout_notice, parse_helper_line, password_prompt,
    password_reply, str_equals, DirectiveModel, HelperDirective,
};
use crate::secret::scrub;

verus! {

/// Where a live session stands. The terminal states are not represented:
/// a session that reaches one leaves the table.
#[derive(PartialEq, Eq, Structural, Clone, Copy, Debug)]
pub enum SessionPhase {
    /// Waiting for the user to submit a password or cancel.
    AwaitingCredential,
    /// A password was submitted and the helper is checking it.
    Verifying,
}

/// Why a `BeginAuthentication` call ends without success.
#[derive(PartialEq, Eq, Structural, Clone, Copy, Debug)]
pub enum AgentError {
    /// The user or the authority canceled the authentication.
    Cancelled,
    /// The helper stream broke before a verdict.
    Failed,
    /// The cookie is already in use, or was used by an earlier request.
    DuplicateCookie,
}

/// One live session of the table.
pub struct Session {
    cookie: String,
    phase: SessionPhase,
    /// The submitted password, held until the helper prompts for it.
    password: Option<String>,
    /// The last lockout notice the helper sent during this attempt.
    last_info: Option<String>,
}

pub struct SessionModel {
    pub cookie: Seq<char>,
    pub phase: SessionPhase,
    pub password: Option<Seq<char>>,
    pub last_info: Option<Seq<char>>,
}

impl View for Session {
    type V = SessionModel;

    closed spec fn view(&self) -> SessionModel {
        SessionModel {
            cookie: self.cookie@,
            phase: self.phase,
            password: opt_string_view(self.password),
            last_info: opt_string_view(self.last_info),
        }
    }
}

/// What the coordinator asks its environment to do.
pub enum Action {
    /// Send an event to the consumer.
    Emit { event: AuthenticationAgentEvent },
    /// Open a helper conversation for `username` and send the handshake.
    OpenHelper { cookie: String, username: String },
    /// Write `data` to the cookie's helper stream.
    WriteHelper { cookie: String, data: String },
    /// Resolve the cookie's outstanding `BeginAuthentication` call and release
    /// its helper, if any.
    Finish { cookie: String, result: Result<(), AgentError> },
}

pub enum ActionModel {
    Emit { event: AgentEventModel },
    OpenHelper { cookie: Seq<char>, username: Seq<char> },
    WriteHelper { cookie: Seq<char>, data: Seq<char> },
    Finish { cookie: Seq<char>, result: Result<(), AgentError> },
}

impl View for Action {
    type V = ActionModel;

    open spec fn view(&self) -> ActionModel {
        match self {
            Action::Emit { event } => ActionModel::Emit { event: event@ },
            Action::OpenHelper { cookie, username } => ActionModel::OpenHelper {
                cookie: cookie@,
                username: username@,
            },
            Action::WriteHelper { cookie, data } => ActionModel::WriteHelper {
                cookie: cookie@,
                data: data@,
            },
            Action::Finish { cookie, result } => ActionModel::Finish {
                cookie: cookie@,
                result: *result,
            },
        }
    }
}

pub open spec fn actions_view(v: Seq<Action>) -> Seq<ActionModel> {
    v.map_values(|a: Action| a@)
}

/// The retry message shown when the helper gave no reason.
pub open spec fn fallback_message() -> Seq<char> {
    "Authentication failed. Please try again."@
}

/// The cookie table: the live sessions, and the cookies whose sessions ended.
pub struct Coordinator {
    sessions: Vec<Session>,
    finished: Vec<String>,
}

pub struct CoordinatorModel {
    pub sessions: Seq<SessionModel>,
    pub finished: Seq<Seq<char>>,
}

impl View for Coordinator {
    type V = CoordinatorModel;

    closed spec fn view(&self) -> CoordinatorModel {
        CoordinatorModel {
            sessions: self.sessions@.map_values(|s: Session| s@),
            finished: strings_view(self.finished@),
        }
    }
}

impl CoordinatorModel {
    /// A session with this cookie is live.
    pub open spec fn is_live(self, c: Seq<char>) -> bool {
        exists|i: int| 0 <= i < self.sessions.len() && #[trigger] self.sessions[i].cookie == c
    }

    /// Where the live session with this cookie stands in the table.
    pub open spec fn index_of(self, c: Seq<char>) -> int {
        choose|i: int| 0 <= i < self.sessions.len() && #[trigger] self.sessions[i].cookie == c
    }

    /// The cookie is live, or its session has ended.
    pub open spec fn knows(self, c: Seq<char>) -> bool {
        self.is_live(c) || self.finished.contains(c)
    }

    /// At most one live session per cookie, and none for a cookie whose
    /// session has ended.
    pub open spec fn wf(self) -> bool {
        &&& forall|i: int, j: int|
            0 <= i < j < self.sessions.len() ==> self.sessions[i].cookie
                != self.sessions[j].cookie
        &&& forall|i: int|
            0 <= i < self.sessions.len() ==> !self.finished.contains(
                #[trigger] self.sessions[i].cookie,
            )
    }

    /// The session at `i` ends: it leaves the table, its cookie is retired,
    /// the consumer gets `event` and the outstanding call gets `result`.
    pub open spec fn close(self, i: int, event: AgentEventModel, result: Result<(), AgentError>) -> (
        CoordinatorModel,
        Seq<ActionModel>,
    ) {
        let c = self.sessions[i].cookie;
        (
            CoordinatorModel { sessions: self.sessions.remove(i), finished: self.finished.push(c) },
            seq![ActionModel::Emit { event }, ActionModel::Finish { cookie: c, result }],
        )
    }

    pub open spec fn with_session(self, i: int, s: SessionModel) -> CoordinatorModel {
        CoordinatorModel { sessions: self.sessions.update(i, s), finished: self.finished }
    }
}

/// `BeginAuthentication`: a new session starts unless the cookie is known.
pub open spec fn begin_step(
    m: CoordinatorModel,
    cookie: Seq<char>,
    message: Seq<char>,
    names: Seq<Seq<char>>,
) -> (CoordinatorModel, Seq<ActionModel>) {
    if m.knows(cookie) {
        (m, seq![])
    } else {
        (
            CoordinatorModel {
                sessions: m.sessions.push(
                    SessionModel {
                        cookie,
                        phase: SessionPhase::AwaitingCredential,
                        password: None,
                        last_info: None,
                    },
                ),
                finished: m.finished,
            },
            seq![
                ActionModel::Emit {
                    event: AgentEventModel::Started { cookie, message, names },
                },
            ],
        )
    }
}

/// A cancel, from the authority or the user: a live session ends as canceled.
pub open spec fn cancel_step(m: CoordinatorModel, cookie: Seq<char>) -> (
    CoordinatorModel,
    Seq<ActionModel>,
) {
    if m.is_live(cookie) {
        m.close(
            m.index_of(cookie),
            AgentEventModel::Canceled { cookie },
            Err(AgentError::Cancelled),
        )
    } else {
        (m, seq![])
    }
}

/// An event from the consumer.
pub open spec fn user_step(m: CoordinatorModel, ev: UserEventModel) -> (
    CoordinatorModel,
    Seq<ActionModel>,
) {
    match ev {
        UserEventModel::Canceled { cookie } => cancel_step(m, cookie),
        UserEventModel::ProvidedPassword { cookie, username, password } => {
            if m.is_live(cookie) && m.sessions[m.index_of(cookie)].phase
                == SessionPhase::AwaitingCredential {
                (
                    m.with_session(
                        m.index_of(cookie),
                        SessionModel {
                            cookie,
                            phase: SessionPhase::Verifying,
                            password: Some(password),
                            last_info: None,
                        },
                    ),
                    seq![ActionModel::OpenHelper { cookie, username }],
                )
            } else {
                (m, seq![])
            }
        },
    }
}

/// One line of helper output for a session that is verifying.
pub open spec fn verifying_line_step(m: CoordinatorModel, i: int, line: Seq<char>) -> (
    CoordinatorModel,
    Seq<ActionModel>,
) {
    let s = m.sessions[i];
    match directive_of(line) {
        DirectiveModel::EchoOffPrompt { prompt } => {
            if prompt == password_prompt() && s.password is Some {
                (
                    m.with_session(i, SessionModel { password: None, ..s }),
                    seq![
                        ActionModel::WriteHelper {
                            cookie: s.cookie,
                            data: s.password->Some_0 + "\n"@,
                        },
                    ],
                )
            } else {
                (m, seq![])
            }
        },
        DirectiveModel::TextInfo { text } => {
            if lockout_notice(text) {
                (
                    m.with_session(i, SessionModel { last_info: Some(text), ..s }),
                    seq![
                        ActionModel::Emit {
                            event: AgentEventModel::AuthorizationRetry {
                                cookie: s.cookie,
                                retry_message: Some(text),
                            },
                        },
                    ],
                )
            } else {
                (m, seq![])
            }
        },
        DirectiveModel::Failure => (
            m.with_session(
                i,
                SessionModel { phase: SessionPhase::AwaitingCredential, password: None, ..s },
            ),
            seq![
                ActionModel::Emit {
                    event: AgentEventModel::AuthorizationRetry {
                        cookie: s.cookie,
                        retry_message: Some(
                            match s.last_info {
                                Some(t) => t,
                                None => fallback_message(),
                            },
                        ),
                    },
                },
            ],
        ),
        DirectiveModel::Success => m.close(
            i,
            AgentEventModel::AuthorizationSucceeded { cookie: s.cookie },
            Ok(()),
        ),
        DirectiveModel::Unrecognized => (m, seq![]),
    }
}

/// One line of helper output: only a verifying session listens to its helper.
pub open spec fn line_step(m: CoordinatorModel, cookie: Seq<char>, line: Seq<char>) -> (
    CoordinatorModel,
    Seq<ActionModel>,
) {
    if m.is_live(cookie) && m.sessions[m.index_of(cookie)].phase == SessionPhase::Verifying {
        verifying_line_step(m, m.index_of(cookie), line)
    } else {
        (m, seq![])
    }
}

/// The helper stream closed, or could not be opened: a session still waiting
/// for a verdict fails.
pub open spec fn closed_step(m: CoordinatorModel, cookie: Seq<char>) -> (
    CoordinatorModel,
    Seq<ActionModel>,
) {
    if m.is_live(cookie) && m.sessions[m.index_of(cookie)].phase == SessionPhase::Verifying {
        m.close(m.index_of(cookie), AgentEventModel::Canceled { cookie }, Err(AgentError::Failed))
    } else {
        (m, seq![])
    }
}


impl Session {
    /// The model of a session, as its exec fields give it.
    proof fn lemma_view(&self)
        ensures
            self@.cookie == self.cookie@,
            self@.phase == self.phase,
            self@.password == opt_string_view(self.password),
            self@.last_info == opt_string_view(self.last_info),
    {
    }
}

impl Coordinator {
    pub open spec fn wf(&self) -> bool {
        self@.wf()
    }

    /// An empty table.
    pub fn new() -> (r: Coordinator)
        ensures
            r.wf(),
            r@.sessions.len() == 0,
            r@.finished.len() == 0,
    {
        let r = Coordinator { sessions: Vec::new(), finished: Vec::new() };
        assert(r@.sessions =~= Seq::<SessionModel>::empty());
        assert(r@.finished =~= Seq::<Seq<char>>::empty());
        r
    }

    fn find(&self, cookie: &str) -> (r: Option<usize>)
        requires
            self.wf(),
        ensures
            r is Some <==> self@.is_live(cookie@),
            r is Some ==> r->Some_0 < self.sessions.len() && r->Some_0 as int == self@.index_of(
                cookie@,
            ),
    {
        let mut i: usize = 0;
        while i < self.sessions.len()
            invariant
                self.wf(),
                i <= self.sessions.len(),
                forall|k: int| 0 <= k < i ==> #[trigger] self@.sessions[k].cookie != cookie@,
            decreases self.sessions.len() - i,
        {
            if str_equals(self.sessions[i].cookie.as_str(), cookie) {
                assert(self@.sessions[i as int].cookie == cookie@);
                assert(self@.is_live(cookie@));
                let ghost j = self@.index_of(cookie@);
                assert(j == i as int);
                return Some(i);
            }
            i = i + 1;
        }
        None
    }

    fn has_finished(&self, cookie: &str) -> (r: bool)
        ensures
            r == self@.finished.contains(cookie@),
    {
        let mut i: usize = 0;
        while i < self.finished.len()
            invariant
                i <= self.finished.len(),
                forall|k: int| 0 <= k < i ==> #[trigger] self@.finished[k] != cookie@,
            decreases self.finished.len() - i,
        {
            if str_equals(self.finished[i].as_str(), cookie) {
                assert(self@.finished[i as int] == cookie@);
                return true;
            }
            i = i + 1;
        }
        false
    }

    /// Whether a session with this cookie is live.
    pub fn is_active(&self, cookie: &str) -> (r: bool)
        requires
            self.wf(),
        ensures
            r == self@.is_live(cookie@),
    {
        self.find(cookie).is_some()
    }

    /// The phase of the live session with this cookie, if there is one.
    pub fn phase_of(&self, cookie: &str) -> (r: Option<SessionPhase>)
        requires
            self.wf(),
        ensures
            r is Some <==> self@.is_live(cookie@),
            r is Some ==> r->Some_0 == self@.sessions[self@.index_of(cookie@)].phase,
    {
        match self.find(cookie) {
            Some(i) => Some(self.sessions[i].phase),
            None => None,
        }
    }

    /// Number of live sessions.
    pub fn active_count(&self) -> (r: usize)
        ensures
            r == self@.sessions.len(),
    {
        self.sessions.len()
    }


    /// `BeginAuthentication`: starts a session for a cookie that is neither
    /// live nor used before, and announces it to the consumer.
    pub fn begin(&mut self, cookie: String, message: String, names: Vec<String>) -> (r: Result<
        Vec<Action>,
        AgentError,
    >)
        requires
            old(self).wf(),
        ensures
            final(self).wf(),
            r is Err <==> old(self)@.knows(cookie@),
            final(self)@ == begin_step(old(self)@, cookie@, message@, strings_view(names@)).0,
            match r {
                Ok(a) => actions_view(a@) == begin_step(
                    old(self)@,
                    cookie@,
                    message@,
                    strings_view(names@),
                ).1,
                Err(e) => e == AgentError::DuplicateCookie,
            },
    {
        if self.find(cookie.as_str()).is_some() || self.has_finished(cookie.as_str()) {
            return Err(AgentError::DuplicateCookie);
        }
        let ghost m = self@;
        let c = cookie.clone();
        let s = Session {
            cookie,
            phase: SessionPhase::AwaitingCredential,
            password: None,
            last_info: None,
        };
        self.sessions.push(s);
        let r = vec![
            Action::Emit { event: AuthenticationAgentEvent::Started { cookie: c, message, names } },
        ];
        proof {
            let (m2, a2) = begin_step(m, c@, message@, strings_view(names@));
            assert(self@.sessions =~= m2.sessions);
            assert(self@.finished =~= m2.finished);
            assert(actions_view(r@) =~= a2);
            assert forall|k: int| 0 <= k < self@.sessions.len() implies !self@.finished.contains(
                #[trigger] self@.sessions[k].cookie,
            ) by {
                if k < m.sessions.len() {
                    assert(self@.sessions[k] == m.sessions[k]);
                }
            }
            assert forall|a: int, b: int| 0 <= a < b < self@.sessions.len() implies self@.sessions[a].cookie
                != self@.sessions[b].cookie by {
                assert(self@.sessions[a] == m.sessions[a]);
                if b < m.sessions.len() {
                    assert(self@.sessions[b] == m.sessions[b]);
                }
            }
        }
        Ok(r)
    }

    /// `CancelAuthentication`, or a cancel from the user: a live session ends
    /// as canceled; any other cookie is left alone.
    pub fn cancel(&mut self, cookie: &str) -> (r: Vec<Action>)
        requires
            old(self).wf(),
        ensures
            final(self).wf(),
            (final(self)@, actions_view(r@)) == cancel_step(old(self)@, cookie@),
    {
        match self.find(cookie) {
            Some(i) => {
                let c = self.sessions[i].cookie.clone();
                self.close(i, AuthenticationAgentEvent::Canceled { cookie: c }, Err(AgentError::Cancelled))
            },
            None => {
                let r = Vec::new();
                assert(actions_view(r@) =~= seq![]);
                r
            },
        }
    }

    /// An event from the consumer. A password is taken only by a session that
    /// waits for one; otherwise it is scrubbed at once.
    pub fn user_event(&mut self, ev: AuthenticationUserEvent) -> (r: Vec<Action>)
        requires
            old(self).wf(),
        ensures
            final(self).wf(),
            (final(self)@, actions_view(r@)) == user_step(old(self)@, ev@),
    {
        match ev {
            AuthenticationUserEvent::Canceled { cookie } => self.cancel(cookie.as_str()),
            AuthenticationUserEvent::ProvidedPassword { cookie, username, password } => {
                let mut password = password;
                match self.find(cookie.as_str()) {
                    Some(i) => {
                        if self.sessions[i].phase == SessionPhase::AwaitingCredential {
                            let ghost pw = password@;
                            let s = Session {
                                cookie: cookie.clone(),
                                phase: SessionPhase::Verifying,
                                password: Some(password),
                                last_info: None,
                            };
                            proof {
                                s.lemma_view();
                                self.sessions[i as int].lemma_view();
                            }
                            self.replace_session(i, s);
                            let r = vec![Action::OpenHelper { cookie, username }];
                            assert(actions_view(r@) =~= seq![
                                ActionModel::OpenHelper { cookie: cookie@, username: username@ },
                            ]);
                            return r;
                        }
                    },
                    None => {},
                }
                scrub(&mut password);
                let r = Vec::new();
                assert(actions_view(r@) =~= seq![]);
                r
            },
        }
    }


    /// One line of output from the helper of the session with this cookie.
    pub fn helper_line(&mut self, cookie: &str, line: &str) -> (r: Vec<Action>)
        requires
            old(self).wf(),
        ensures
            final(self).wf(),
            (final(self)@, actions_view(r@)) == line_step(old(self)@, cookie@, line@),
    {
        let i = match self.find(cookie) {
            Some(i) => i,
            None => {
                let r = Vec::new();
                assert(actions_view(r@) =~= seq![]);
                return r;
            },
        };
        if self.sessions[i].phase != SessionPhase::Verifying {
            let r = Vec::new();
            assert(actions_view(r@) =~= seq![]);
            return r;
        }
        let ghost m = self@;
        proof {
            self.sessions[i as int].lemma_view();
        }
        let c = self.sessions[i].cookie.clone();
        let phase = self.sessions[i].phase;
        let last_info = clone_opt(&self.sessions[i].last_info);
        match parse_helper_line(line) {
            HelperDirective::EchoOffPrompt { prompt } => {
                if str_equals(prompt.as_str(), "Password:") {
                    if let Some(p) = &self.sessions[i].password {
                        let reply = password_reply(p.clone());
                        let s = Session { cookie: c.clone(), phase, password: None, last_info };
                        proof {
                            s.lemma_view();
                        }
                        self.replace_session(i, s);
                        let r = vec![Action::WriteHelper { cookie: c, data: reply }];
                        assert(actions_view(r@) =~= line_step(m, cookie@, line@).1);
                        return r;
                    }
                }
                let r = Vec::new();
                assert(actions_view(r@) =~= seq![]);
                r
            },
            HelperDirective::TextInfo { text } => {
                if is_lockout_notice(text.as_str()) {
                    let password = clone_opt(&self.sessions[i].password);
                    let s = Session {
                        cookie: c.clone(),
                        phase,
                        password,
                        last_info: Some(text.clone()),
                    };
                    proof {
                        s.lemma_view();
                        assert(s@ == SessionModel { last_info: Some(text@), ..m.sessions[i as int] });
                    }
                    self.replace_session(i, s);
                    let r = vec![
                        Action::Emit {
                            event: AuthenticationAgentEvent::AuthorizationRetry {
                                cookie: c,
                                retry_message: Some(text),
                            },
                        },
                    ];
                    assert(actions_view(r@) =~= line_step(m, cookie@, line@).1);
                    r
                } else {
                    let r = Vec::new();
                    assert(actions_view(r@) =~= seq![]);
                    r
                }
            },
            HelperDirective::Failure => {
                let message = match &last_info {
                    Some(t) => t.clone(),
                    None => fallback_retry_message(),
                };
                let s = Session {
                    cookie: c.clone(),
                    phase: SessionPhase::AwaitingCredential,
                    password: None,
                    last_info,
                };
                proof {
                    s.lemma_view();
                }
                self.replace_session(i, s);
                let r = vec![
                    Action::Emit {
                        event: AuthenticationAgentEvent::AuthorizationRetry {
                            cookie: c,
                            retry_message: Some(message),
                        },
                    },
                ];
                assert(actions_view(r@) =~= line_step(m, cookie@, line@).1);
                r
            },
            HelperDirective::Success => {
                self.close(i, AuthenticationAgentEvent::AuthorizationSucceeded { cookie: c }, Ok(()))
            },
            HelperDirective::Unrecognized => {
                let r = Vec::new();
                assert(actions_view(r@) =~= seq![]);
                r
            },
        }
    }

    /// The helper stream of this cookie closed, or could not be opened.
    pub fn helper_closed(&mut self, cookie: &str) -> (r: Vec<Action>)
        requires
            old(self).wf(),
        ensures
            final(self).wf(),
            (final(self)@, actions_view(r@)) == closed_step(old(self)@, cookie@),
    {
        match self.find(cookie) {
            Some(i) => {
                if self.sessions[i].phase == SessionPhase::Verifying {
                    let c = self.sessions[i].cookie.clone();
                    return self.close(
                        i,
                        AuthenticationAgentEvent::Canceled { cookie: c },
                        Err(AgentError::Failed),
                    );
                }
            },
            None => {},
        }
        let r = Vec::new();
        assert(actions_view(r@) =~= seq![]);
        r
    }

    fn close(&mut self, i: usize, event: AuthenticationAgentEvent, result: Result<(), AgentError>) -> (r: Vec<Action>)
        requires
            old(self).wf(),
            i < old(self).sessions.len(),
        ensures
            final(self).wf(),
            (final(self)@, actions_view(r@)) == old(self)@.close(i as int, event@, result),
    {
        let ghost m = self@;
        let s = self.sessions.remove(i);
        proof {
            s.lemma_view();
        }
        let Session { cookie, phase: _, password, last_info: _ } = s;
        if let Some(pw) = password {
            let mut pw = pw;
            scrub(&mut pw);
        }
        let c = cookie.clone();
        self.finished.push(cookie);
        let r = vec![Action::Emit { event }, Action::Finish { cookie: c, result }];
        proof {
            let (m2, a2) = m.close(i as int, event@, result);
            assert(self@.sessions =~= m2.sessions);
            assert(self@.finished =~= m2.finished);
            assert(actions_view(r@) =~= a2);
            assert forall|k: int| 0 <= k < self@.sessions.len() implies !self@.finished.contains(
                #[trigger] self@.sessions[k].cookie,
            ) by {
                let k0 = if k < i { k } else { k + 1 };
                assert(self@.sessions[k] == m.sessions[k0]);
                assert(!m.finished.contains(m.sessions[k0].cookie));
                if self@.finished.contains(self@.sessions[k].cookie) {
                    let w = choose|w: int| 0 <= w < self@.finished.len() && self@.finished[w] == self@.sessions[k].cookie;
                    if w < m.finished.len() {
                        assert(m.finished[w] == self@.finished[w]);
                    }
                }
            }
            assert forall|a: int, b: int| 0 <= a < b < self@.sessions.len() implies self@.sessions[a].cookie
                != self@.sessions[b].cookie by {
                let a0 = if a < i { a } else { a + 1 };
                let b0 = if b < i { b } else { b + 1 };
                assert(self@.sessions[a] == m.sessions[a0]);
                assert(self@.sessions[b] == m.sessions[b0]);
            }
        }
        r
    }

    fn replace_session(&mut self, i: usize, s: Session)
        requires
            old(self).wf(),
            i < old(self).sessions.len(),
            s@.cookie == old(self)@.sessions[i as int].cookie,
        ensures
            final(self).wf(),
            final(self)@ == old(self)@.with_session(i as int, s@),
    {
        let ghost m = self@;
        let mut t = s;
        std::mem::swap(&mut self.sessions[i], &mut t);
        proof {
            assert(self@.sessions =~= m.sessions.update(i as int, s@));
            assert(self@.finished =~= m.finished);
            assert forall|k: int| 0 <= k < self@.sessions.len() implies !self@.finished.contains(
                #[trigger] self@.sessions[k].cookie,
            ) by {
                assert(self@.sessions[k].cookie == m.sessions[k].cookie);
            }
            assert forall|a: int, b: int| 0 <= a < b < self@.sessions.len() implies self@.sessions[a].cookie
                != self@.sessions[b].cookie by {
                assert(self@.sessions[a].cookie == m.sessions[a].cookie);
                assert(self@.sessions[b].cookie == m.sessions[b].cookie);
            }
        }
        let mut old_session = t;
        if let Some(pw) = old_session.password.take() {
            let mut pw = pw;
            scrub(&mut pw);
        }
    }
}

fn clone_opt(o: &Option<String>) -> (r: Option<String>)
    ensures
        opt_string_view(r) == opt_string_view(*o),
{
    match o {
        Some(s) => Some(s.clone()),
        None => None,
    }
}

fn fallback_retry_message() -> (r: String)
    ensures
        r@ == fallback_message(),
{
    String::from_str("Authentication failed. Please try again.")
}

} // verus!
