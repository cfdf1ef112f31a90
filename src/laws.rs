//! Properties of the session coordinator over whole runs of inputs.
use vstd::prelude::*;
use crate::events::{AgentEventModel, UserEventModel};
use crate::protocol::{directive_of, password_prompt, DirectiveModel};
use crate::session::{
    begin_step, cancel_step, closed_step, line_step, user_step, verifying_line_step, ActionModel,
    AgentError, CoordinatorModel, SessionPhase,
};

verus! {

/// Whatever reaches the coordinator: calls of the authority, events of the
/// consumer, and what the helper streams do.
pub enum Input {
    Begin { cookie: Seq<char>, message: Seq<char>, names: Seq<Seq<char>> },
    Cancel { cookie: Seq<char> },
    User { event: UserEventModel },
    HelperLine { cookie: Seq<char>, line: Seq<char> },
    HelperClosed { cookie: Seq<char> },
}

/// The coordinator's answer to one input; each public method of
/// `Coordinator` is proved to follow it.
pub open spec fn step(m: CoordinatorModel, i: Input) -> (CoordinatorModel, Seq<ActionModel>) {
    match i {
        Input::Begin { cookie, message, names } => begin_step(m, cookie, message, names),
        Input::Cancel { cookie } => cancel_step(m, cookie),
        Input::User { event } => user_step(m, event),
        Input::HelperLine { cookie, line } => line_step(m, cookie, line),
        Input::HelperClosed { cookie } => closed_step(m, cookie),
    }
}

/// The state after a run of inputs.
pub open spec fn run_state(m: CoordinatorModel, inputs: Seq<Input>) -> CoordinatorModel
    decreases inputs.len(),
{
    if inputs.len() == 0 {
        m
    } else {
        run_state(step(m, inputs[0]).0, inputs.drop_first())
    }
}

/// Every action produced over a run of inputs, in order.
pub open spec fn run(m: CoordinatorModel, inputs: Seq<Input>) -> Seq<ActionModel>
    decreases inputs.len(),
{
    if inputs.len() == 0 {
        seq![]
    } else {
        step(m, inputs[0]).1 + run(step(m, inputs[0]).0, inputs.drop_first())
    }
}

/// The action sends the consumer an event about cookie `c`.
pub open spec fn emits_for(a: ActionModel, c: Seq<char>) -> bool {
    a is Emit && a->Emit_event.cookie() == c
}

/// The action sends the consumer a terminal event about cookie `c`.
pub open spec fn terminal_for(a: ActionModel, c: Seq<char>) -> bool {
    emits_for(a, c) && a->Emit_event.is_terminal()
}

/// What one step guarantees: the table stays well formed, no retired cookie
/// comes back, only the first action may be an event, an event never speaks
/// of a retired cookie, and a terminal event retires its cookie.
proof fn lemma_step(m: CoordinatorModel, i: Input)
    requires
        m.wf(),
    ensures
        step(m, i).0.wf(),
        forall|c: Seq<char>| m.finished.contains(c) ==> step(m, i).0.finished.contains(c),
        forall|k: int| 0 < k < step(m, i).1.len() ==> !(step(m, i).1[k] is Emit),
        forall|k: int, c: Seq<char>|
            0 <= k < step(m, i).1.len() && emits_for(step(m, i).1[k], c) ==> !m.finished.contains(
                c,
            ),
        forall|k: int, c: Seq<char>|
            0 <= k < step(m, i).1.len() && terminal_for(step(m, i).1[k], c)
                ==> step(m, i).0.finished.contains(c),
{
    let (m2, out) = step(m, i);
    assert forall|c: Seq<char>| m.finished.contains(c) implies m2.finished.contains(c) by {
        let w = choose|w: int| 0 <= w < m.finished.len() && m.finished[w] == c;
        if m2.finished.len() > m.finished.len() {
            assert(m2.finished[w] == m.finished[w]);
        }
    }
    assert forall|k: int, c: Seq<char>|
        0 <= k < out.len() && emits_for(out[k], c) implies !m.finished.contains(c) by {
        if m.is_live(c) {
            let j = choose|j: int| 0 <= j < m.sessions.len() && m.sessions[j].cookie == c;
            assert(!m.finished.contains(m.sessions[j].cookie));
        }
        match i {
            Input::Begin { cookie, message, names } => {},
            Input::Cancel { cookie } => {},
            Input::User { event } => {},
            Input::HelperLine { cookie, line } => {
                if m.is_live(cookie) && m.sessions[m.index_of(cookie)].phase
                    == SessionPhase::Verifying {
                    let j = m.index_of(cookie);
                    assert(!m.finished.contains(m.sessions[j].cookie));
                }
            },
            Input::HelperClosed { cookie } => {},
        }
    }
    assert forall|k: int, c: Seq<char>|
        0 <= k < out.len() && terminal_for(out[k], c) implies m2.finished.contains(c) by {
        assert(m2.finished.last() == c);
    }
    lemma_step_wf(m, i);
}

proof fn lemma_close_wf(m: CoordinatorModel, j: int, event: AgentEventModel, result: Result<(), AgentError>)
    requires
        m.wf(),
        0 <= j < m.sessions.len(),
    ensures
        m.close(j, event, result).0.wf(),
{
    let m2 = m.close(j, event, result).0;
    assert forall|k: int| 0 <= k < m2.sessions.len() implies !m2.finished.contains(
        #[trigger] m2.sessions[k].cookie,
    ) by {
        let k0 = if k < j { k } else { k + 1 };
        assert(m2.sessions[k] == m.sessions[k0]);
        if m2.finished.contains(m2.sessions[k].cookie) {
            let w = choose|w: int| 0 <= w < m2.finished.len() && m2.finished[w] == m2.sessions[k].cookie;
            if w < m.finished.len() {
                assert(m.finished[w] == m2.finished[w]);
            }
        }
    }
    assert forall|a: int, b: int| 0 <= a < b < m2.sessions.len() implies m2.sessions[a].cookie
        != m2.sessions[b].cookie by {
        let a0 = if a < j { a } else { a + 1 };
        let b0 = if b < j { b } else { b + 1 };
        assert(m2.sessions[a] == m.sessions[a0]);
        assert(m2.sessions[b] == m.sessions[b0]);
    }
}

proof fn lemma_update_wf(m: CoordinatorModel, j: int, s: crate::session::SessionModel)
    requires
        m.wf(),
        0 <= j < m.sessions.len(),
        s.cookie == m.sessions[j].cookie,
    ensures
        m.with_session(j, s).wf(),
{
    let m2 = m.with_session(j, s);
    assert forall|k: int| 0 <= k < m2.sessions.len() implies !m2.finished.contains(
        #[trigger] m2.sessions[k].cookie,
    ) by {
        assert(m2.sessions[k].cookie == m.sessions[k].cookie);
    }
    assert forall|a: int, b: int| 0 <= a < b < m2.sessions.len() implies m2.sessions[a].cookie
        != m2.sessions[b].cookie by {
        assert(m2.sessions[a].cookie == m.sessions[a].cookie);
        assert(m2.sessions[b].cookie == m.sessions[b].cookie);
    }
}

proof fn lemma_step_wf(m: CoordinatorModel, i: Input)
    requires
        m.wf(),
    ensures
        step(m, i).0.wf(),
{
    match i {
        Input::Begin { cookie, message, names } => {
            if !m.knows(cookie) {
                let m2 = step(m, i).0;
                assert forall|k: int| 0 <= k < m2.sessions.len() implies !m2.finished.contains(
                    #[trigger] m2.sessions[k].cookie,
                ) by {
                    if k < m.sessions.len() {
                        assert(m2.sessions[k] == m.sessions[k]);
                    }
                }
                assert forall|a: int, b: int| 0 <= a < b < m2.sessions.len() implies m2.sessions[a].cookie
                    != m2.sessions[b].cookie by {
                    assert(m2.sessions[a] == m.sessions[a]);
                    if b < m.sessions.len() {
                        assert(m2.sessions[b] == m.sessions[b]);
                    }
                }
            }
        },
        Input::Cancel { cookie } => {
            if m.is_live(cookie) {
                lemma_close_wf(m, m.index_of(cookie), AgentEventModel::Canceled { cookie }, Err(AgentError::Cancelled));
            }
        },
        Input::User { event } => {
            match event {
                UserEventModel::Canceled { cookie } => {
                    if m.is_live(cookie) {
                        lemma_close_wf(m, m.index_of(cookie), AgentEventModel::Canceled { cookie }, Err(AgentError::Cancelled));
                    }
                },
                UserEventModel::ProvidedPassword { cookie, username, password } => {
                    if m.is_live(cookie) && m.sessions[m.index_of(cookie)].phase
                        == SessionPhase::AwaitingCredential {
                        let j = m.index_of(cookie);
                        lemma_update_wf(m, j, crate::session::SessionModel {
                            cookie,
                            phase: SessionPhase::Verifying,
                            password: Some(password),
                            last_info: None,
                        });
                    }
                },
            }
        },
        Input::HelperLine { cookie, line } => {
            if m.is_live(cookie) && m.sessions[m.index_of(cookie)].phase == SessionPhase::Verifying {
                let j = m.index_of(cookie);
                let s = m.sessions[j];
                lemma_close_wf(m, j, AgentEventModel::AuthorizationSucceeded { cookie: s.cookie }, Ok(()));
                lemma_update_wf(m, j, crate::session::SessionModel { password: None, ..s });
                lemma_update_wf(m, j, crate::session::SessionModel { phase: SessionPhase::AwaitingCredential, password: None, ..s });
                assert forall|t: Seq<char>| true implies m.with_session(j, crate::session::SessionModel { last_info: Some(t), ..s }).wf() by {
                    lemma_update_wf(m, j, crate::session::SessionModel { last_info: Some(t), ..s });
                }
                assert(verifying_line_step(m, j, line).0.wf());
            }
        },
        Input::HelperClosed { cookie } => {
            if m.is_live(cookie) && m.sessions[m.index_of(cookie)].phase == SessionPhase::Verifying {
                lemma_close_wf(m, m.index_of(cookie), AgentEventModel::Canceled { cookie }, Err(AgentError::Failed));
            }
        },
    }
}

/// Once a cookie is retired, no run of inputs sends the consumer another
/// event about it.
proof fn lemma_retired_stays_silent(m: CoordinatorModel, inputs: Seq<Input>, c: Seq<char>)
    requires
        m.wf(),
        m.finished.contains(c),
    ensures
        forall|k: int| 0 <= k < run(m, inputs).len() ==> !emits_for(run(m, inputs)[k], c),
    decreases inputs.len(),
{
    if inputs.len() > 0 {
        let (m1, out) = step(m, inputs[0]);
        lemma_step(m, inputs[0]);
        lemma_retired_stays_silent(m1, inputs.drop_first(), c);
        let rest = run(m1, inputs.drop_first());
        assert forall|k: int| 0 <= k < run(m, inputs).len() implies !emits_for(run(m, inputs)[k], c) by {
            if k < out.len() {
                assert(run(m, inputs)[k] == out[k]);
            } else {
                assert(run(m, inputs)[k] == rest[k - out.len()]);
            }
        }
    }
}

/// For any cookie: once the consumer has been sent a terminal event about it
/// (canceled or succeeded), no later action of any run sends it another
/// event about that cookie.
pub proof fn lemma_no_event_after_terminal(
    m: CoordinatorModel,
    inputs: Seq<Input>,
    c: Seq<char>,
    i: int,
    j: int,
)
    requires
        m.wf(),
        0 <= i < j < run(m, inputs).len(),
        terminal_for(run(m, inputs)[i], c),
    ensures
        !emits_for(run(m, inputs)[j], c),
    decreases inputs.len(),
{
    let (m1, out) = step(m, inputs[0]);
    let rest = run(m1, inputs.drop_first());
    assert(run(m, inputs) == out + rest);
    lemma_step(m, inputs[0]);
    if j < out.len() {
        assert(run(m, inputs)[j] == out[j]);
    } else if i < out.len() {
        assert(run(m, inputs)[i] == out[i]);
        assert(m1.finished.contains(c));
        lemma_retired_stays_silent(m1, inputs.drop_first(), c);
        assert(run(m, inputs)[j] == rest[j - out.len()]);
    } else {
        assert(run(m, inputs)[i] == rest[i - out.len()]);
        assert(run(m, inputs)[j] == rest[j - out.len()]);
        lemma_no_event_after_terminal(m1, inputs.drop_first(), c, i - out.len(), j - out.len());
    }
}

/// The table stays well formed over every run of inputs: never two live
/// sessions under one cookie.
pub proof fn lemma_run_keeps_cookies_unique(m: CoordinatorModel, inputs: Seq<Input>)
    requires
        m.wf(),
    ensures
        run_state(m, inputs).wf(),
    decreases inputs.len(),
{
    if inputs.len() > 0 {
        lemma_step_wf(m, inputs[0]);
        lemma_run_keeps_cookies_unique(step(m, inputs[0]).0, inputs.drop_first());
    }
}

/// A cancel for a session that waits for a password ends it as canceled: it
/// leaves the table, its cookie is retired, the consumer is told, and the
/// outstanding `BeginAuthentication` call resolves with `Cancelled`.
pub proof fn lemma_cancel_while_awaiting(m: CoordinatorModel, c: Seq<char>)
    requires
        m.wf(),
        m.is_live(c),
        m.sessions[m.index_of(c)].phase == SessionPhase::AwaitingCredential,
    ensures
        !step(m, Input::Cancel { cookie: c }).0.is_live(c),
        step(m, Input::Cancel { cookie: c }).0.finished.contains(c),
        step(m, Input::Cancel { cookie: c }).1 == seq![
            ActionModel::Emit { event: AgentEventModel::Canceled { cookie: c } },
            ActionModel::Finish { cookie: c, result: Err(AgentError::Cancelled) },
        ],
        step(m, Input::User { event: UserEventModel::Canceled { cookie: c } }) == step(
            m,
            Input::Cancel { cookie: c },
        ),
{
    let j = m.index_of(c);
    let m2 = step(m, Input::Cancel { cookie: c }).0;
    lemma_step(m, Input::Cancel { cookie: c });
    assert(m2.finished.last() == c);
    assert(m2.finished.contains(c));
}

/// Cancelling a cookie whose session already ended does nothing, however
/// often it is repeated: the table is unchanged and no action follows.
pub proof fn lemma_cancel_after_end_is_noop(m: CoordinatorModel, c: Seq<char>)
    requires
        m.wf(),
        m.finished.contains(c),
    ensures
        step(m, Input::Cancel { cookie: c }) == (m, Seq::<ActionModel>::empty()),
        step(step(m, Input::Cancel { cookie: c }).0, Input::Cancel { cookie: c }) == (
            m,
            Seq::<ActionModel>::empty(),
        ),
{
    if m.is_live(c) {
        let j = choose|j: int| 0 <= j < m.sessions.len() && m.sessions[j].cookie == c;
        assert(!m.finished.contains(m.sessions[j].cookie));
    }
    assert(step(m, Input::Cancel { cookie: c }).1 =~= Seq::<ActionModel>::empty());
}

/// A second `BeginAuthentication` for a live cookie is rejected: the live
/// session is untouched and nothing is sent.
pub proof fn lemma_duplicate_begin_rejected(
    m: CoordinatorModel,
    c: Seq<char>,
    message: Seq<char>,
    names: Seq<Seq<char>>,
)
    requires
        m.wf(),
        m.is_live(c),
    ensures
        step(m, Input::Begin { cookie: c, message, names }) == (m, Seq::<ActionModel>::empty()),
{
    assert(step(m, Input::Begin { cookie: c, message, names }).1 =~= Seq::<ActionModel>::empty());
}

/// The submitted password goes to the helper once: the first password
/// prompt is answered with the password and a newline, and a repeat of the
/// prompt is answered with nothing.
pub proof fn lemma_password_written_once(m: CoordinatorModel, c: Seq<char>, line: Seq<char>)
    requires
        m.wf(),
        m.is_live(c),
        m.sessions[m.index_of(c)].phase == SessionPhase::Verifying,
        m.sessions[m.index_of(c)].password is Some,
        directive_of(line) == (DirectiveModel::EchoOffPrompt { prompt: password_prompt() }),
    ensures
        step(m, Input::HelperLine { cookie: c, line }).1 == seq![
            ActionModel::WriteHelper {
                cookie: c,
                data: m.sessions[m.index_of(c)].password->Some_0 + "\n"@,
            },
        ],
        step(step(m, Input::HelperLine { cookie: c, line }).0, Input::HelperLine { cookie: c, line }).1
            == Seq::<ActionModel>::empty(),
{
    let j = m.index_of(c);
    let m1 = step(m, Input::HelperLine { cookie: c, line }).0;
    lemma_step_wf(m, Input::HelperLine { cookie: c, line });
    assert(m1.sessions[j].cookie == c);
    assert(m1.is_live(c));
    let j1 = m1.index_of(c);
    assert(j1 == j);
    assert(step(m1, Input::HelperLine { cookie: c, line }).1 =~= Seq::<ActionModel>::empty());
}

} // verus!
