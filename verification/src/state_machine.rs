//! The protocol state machine: from the current state and one event to the
//! side effect to perform and the state that follows.
//!
//! Handling one event is split in two verified halves around the one thing
//! the library cannot do itself, the network I/O. `handle_event` decides
//! the step: the action (connect, write these bytes, upgrade to TLS then
//! write, stream the message body — or nothing) and the state reached when
//! that action succeeds. The driver performs the action and then calls
//! `apply_outcome` with the same event and the outcome; a failed action
//! lands in `Failed`, an action-free transition takes its next state
//! unconditionally. Every transition that writes is thereby paired with
//! its own failure branch: one socket failure is immediately terminal.

use vstd::prelude::*;
use vstd::utf8::encode_utf8;

use crate::b64::{b64_encode, b64_of};
use crate::send_body::{send_body, spec_body_writes};
use crate::state_events::{Event, EventV};
use crate::stream::{same_session, spec_upgrade, SmtpConnection, Stream};

verus! {

/// The protocol states, from `Start` to the two terminal states `Finished`
/// (success) and `Failed` (failure, reachable from every state).
#[derive(Clone, Copy, Debug, PartialEq, Eq, Structural)]
pub enum State {
    Start,
    ConnectingTcp,
    ConnectedTcpHelloSent,
    ConnectedTcp,
    ConnectedTcpStartTls,
    ConnectedTls,
    SendingMailHeaders,
    SendingMailData,
    MailSent,
    Finished,
    Failed,
}

/// The side effect one transition asks of the driver: nothing, open the TCP
/// connection, write one piece of text, perform the STARTTLS upgrade and
/// then write one piece of text, or stream the message body writes in
/// order.
#[derive(Debug, PartialEq)]
pub enum Action {
    NoAction,
    ConnectTcp,
    WriteData(String),
    UpgradeTlsThenWrite(String),
    SendChunks(Vec<String>),
}

/// The mathematical model of an `Action`.
pub enum ActionV {
    NoAction,
    ConnectTcp,
    WriteData(Seq<char>),
    UpgradeTlsThenWrite(Seq<char>),
    SendChunks(Seq<Seq<char>>),
}

impl View for Action {
    type V = ActionV;

    open spec fn view(&self) -> ActionV {
        match self {
            Action::NoAction => ActionV::NoAction,
            Action::ConnectTcp => ActionV::ConnectTcp,
            Action::WriteData(d) => ActionV::WriteData(d@),
            Action::UpgradeTlsThenWrite(d) => ActionV::UpgradeTlsThenWrite(d@),
            Action::SendChunks(w) => ActionV::SendChunks(w.deep_view()),
        }
    }
}

/// One planned transition: the action to perform and the state reached if
/// the action succeeds.
#[derive(Debug, PartialEq)]
pub struct Step {
    pub action: Action,
    pub next: State,
}

/// The mathematical model of a `Step`.
pub struct StepV {
    pub action: ActionV,
    pub next: State,
}

impl View for Step {
    type V = StepV;

    open spec fn view(&self) -> StepV {
        StepV { action: self.action@, next: self.next }
    }
}

/// The state machine: the current protocol state and the session it owns.
pub struct StateMachine {
    pub state: State,
    pub smtp_connection: SmtpConnection,
}

/// The greeting line sent after connecting and again after the TLS upgrade.
pub open spec fn spec_ehlo_line() -> Seq<char> {
    "EHLO rustclient\r\n"@
}

/// The transition table: which action and which success state follow from
/// the protocol state `st` and the event, for the session `m` carries.
/// Unhandled pairs, a missing credential at a challenge, and every
/// permanent error land in `Failed`; `Complete` ends the session from any
/// state.
pub open spec fn spec_step_at(m: StateMachine, st: State, e: EventV) -> StepV {
    let c = m.smtp_connection;
    match (st, e) {
        (State::Start, EventV::Connect) => StepV {
            action: ActionV::ConnectTcp,
            next: State::ConnectingTcp,
        },
        (State::ConnectingTcp, EventV::Received220(_)) => StepV {
            action: ActionV::WriteData(spec_ehlo_line()),
            next: State::ConnectedTcpHelloSent,
        },
        (State::ConnectedTcpHelloSent, EventV::Received250(_)) => StepV {
            action: ActionV::NoAction,
            next: State::ConnectedTcp,
        },
        (State::ConnectedTcp, EventV::Received250StartTls(_))
        | (State::ConnectedTcpHelloSent, EventV::Received250StartTls(_)) => StepV {
            action: ActionV::WriteData("STARTTLS\r\n"@),
            next: State::ConnectedTcpStartTls,
        },
        (State::ConnectedTcpStartTls, EventV::Received220(_)) => StepV {
            action: ActionV::UpgradeTlsThenWrite(spec_ehlo_line()),
            next: State::ConnectedTls,
        },
        (State::ConnectedTls, EventV::Received250(_)) => StepV {
            action: ActionV::WriteData("AUTH LOGIN\r\n"@),
            next: State::ConnectedTls,
        },
        (State::ConnectedTls, EventV::Received250StartTlsAuth(_)) => StepV {
            action: ActionV::WriteData("AUTH LOGIN\r\n"@),
            next: State::ConnectedTls,
        },
        (State::ConnectedTls, EventV::Received334Username) => match c.username {
            Some(u) => StepV {
                action: ActionV::WriteData(b64_of(encode_utf8(u@)) + "\r\n"@),
                next: State::ConnectedTls,
            },
            None => StepV { action: ActionV::NoAction, next: State::Failed },
        },
        (State::ConnectedTls, EventV::Received334Password) => match c.password {
            Some(p) => StepV {
                action: ActionV::WriteData(b64_of(encode_utf8(p@)) + "\r\n"@),
                next: State::ConnectedTls,
            },
            None => StepV { action: ActionV::NoAction, next: State::Failed },
        },
        (State::ConnectedTls, EventV::AuthSuccess(_)) => StepV {
            action: ActionV::WriteData("MAIL FROM:<"@ + c.from@ + ">\r\n"@),
            next: State::SendingMailHeaders,
        },
        (State::SendingMailHeaders, EventV::Received250SenderOk(_)) => StepV {
            action: ActionV::WriteData("RCPT TO:<"@ + c.to@ + ">\r\n"@),
            next: State::SendingMailHeaders,
        },
        (State::SendingMailHeaders, EventV::Received250RecipientOk(_)) => StepV {
            action: ActionV::WriteData("DATA\r\n"@),
            next: State::SendingMailData,
        },
        (State::SendingMailData, EventV::Received354MailInput(_)) => StepV {
            action: ActionV::SendChunks(spec_body_writes(c)),
            next: State::MailSent,
        },
        (State::MailSent, EventV::Received250Queued(_)) => StepV {
            action: ActionV::WriteData("QUIT\r\n"@),
            next: State::Finished,
        },
        (_, EventV::Received5xx(_)) => StepV { action: ActionV::NoAction, next: State::Failed },
        (_, EventV::Complete) => StepV { action: ActionV::NoAction, next: State::Finished },
        _ => StepV { action: ActionV::NoAction, next: State::Failed },
    }
}

/// The step the machine plans in its current state.
pub open spec fn spec_step(m: StateMachine, e: EventV) -> StepV {
    spec_step_at(m, m.state, e)
}

/// The protocol state after the driver reports the outcome of the planned
/// action: an action-free transition takes its next state unconditionally,
/// an action that succeeded takes the planned next state, and a failed
/// action lands in `Failed`.
pub open spec fn spec_next_state_at(m: StateMachine, st: State, e: EventV, ok: bool) -> State {
    let step = spec_step_at(m, st, e);
    if step.action is NoAction {
        step.next
    } else if ok {
        step.next
    } else {
        State::Failed
    }
}

/// The transport variant after the outcome, starting from variant `sm`:
/// connecting successfully makes it `Plaintext`, the upgrade consumes
/// `Plaintext` as `spec_upgrade` says, and no other action touches it. A
/// combined upgrade-and-greet that fails leaves no usable handle, whichever
/// half failed.
pub open spec fn spec_next_stream_at(
    m: StateMachine,
    st: State,
    sm: Stream,
    e: EventV,
    ok: bool,
) -> Stream {
    match spec_step_at(m, st, e).action {
        ActionV::ConnectTcp => if ok {
            Stream::Plaintext
        } else {
            sm
        },
        ActionV::UpgradeTlsThenWrite(_) => spec_upgrade(sm, ok),
        _ => sm,
    }
}

/// The machine's protocol state after one event and its reported outcome.
pub open spec fn spec_next_state(m: StateMachine, e: EventV, ok: bool) -> State {
    spec_next_state_at(m, m.state, e, ok)
}

/// The machine's transport variant after one event and its reported
/// outcome.
pub open spec fn spec_next_stream(m: StateMachine, e: EventV, ok: bool) -> Stream {
    spec_next_stream_at(m, m.state, m.smtp_connection.smtp_stream, e, ok)
}

/// Which transport variant belongs to which protocol state: none before
/// connecting, the plaintext stream from the TCP connect up to the STARTTLS
/// exchange, the encrypted stream from the upgrade on. The terminal states
/// constrain nothing.
pub open spec fn wf_pair(st: State, sm: Stream) -> bool {
    match st {
        State::Start => sm == Stream::Uninitialized,
        State::ConnectingTcp | State::ConnectedTcpHelloSent | State::ConnectedTcp
            | State::ConnectedTcpStartTls => sm == Stream::Plaintext,
        State::ConnectedTls | State::SendingMailHeaders | State::SendingMailData
            | State::MailSent => sm == Stream::Encrypted,
        State::Finished | State::Failed => true,
    }
}

impl StateMachine {
    /// The machine's protocol state and transport variant agree.
    pub open spec fn wf(self) -> bool {
        wf_pair(self.state, self.smtp_connection.smtp_stream)
    }

    /// A fresh machine for one delivery attempt to `host:port`, in `Start`,
    /// with nothing connected and an empty envelope.
    pub fn new(host: &str, port: u16) -> (m: Self)
        ensures
            m.state == State::Start,
            m.smtp_connection.smtp_stream == Stream::Uninitialized,
            m.smtp_connection.host@ == host@,
            m.smtp_connection.port == port,
            m.smtp_connection.username is None,
            m.smtp_connection.password is None,
            m.smtp_connection.attachment is None,
            m.wf(),
    {
        StateMachine { state: State::Start, smtp_connection: SmtpConnection::new(host, port, None, None) }
    }

    /// Decide the step for `event` in the current state, per the transition
    /// table. The machine itself is unchanged; the driver performs the
    /// returned action and reports back through `apply_outcome`.
    pub fn handle_event(&self, event: &Event) -> (step: Step)
        requires
            self.smtp_connection.username matches Some(u) ==> 4 * ((encode_utf8(u@).len() + 2) / 3)
                <= usize::MAX,
            self.smtp_connection.password matches Some(p) ==> 4 * ((encode_utf8(p@).len() + 2) / 3)
                <= usize::MAX,
            self.smtp_connection.attachment matches Some(a) ==> 4 * ((a.data@.len() + 2) / 3)
                <= usize::MAX,
        ensures
            step@ == spec_step(*self, event@),
    {
        match (self.state, event) {
            (State::Start, Event::Connect) => Step {
                action: Action::ConnectTcp,
                next: State::ConnectingTcp,
            },
            (State::ConnectingTcp, Event::Received220(_)) => Step {
                action: Action::WriteData(String::from_str("EHLO rustclient\r\n")),
                next: State::ConnectedTcpHelloSent,
            },
            (State::ConnectedTcpHelloSent, Event::Received250(_)) => Step {
                action: Action::NoAction,
                next: State::ConnectedTcp,
            },
            (State::ConnectedTcp, Event::Received250StartTls(_))
            | (State::ConnectedTcpHelloSent, Event::Received250StartTls(_)) => Step {
                action: Action::WriteData(String::from_str("STARTTLS\r\n")),
                next: State::ConnectedTcpStartTls,
            },
            (State::ConnectedTcpStartTls, Event::Received220(_)) => Step {
                action: Action::UpgradeTlsThenWrite(String::from_str("EHLO rustclient\r\n")),
                next: State::ConnectedTls,
            },
            (State::ConnectedTls, Event::Received250(_)) => Step {
                action: Action::WriteData(String::from_str("AUTH LOGIN\r\n")),
                next: State::ConnectedTls,
            },
            (State::ConnectedTls, Event::Received250StartTlsAuth(_)) => Step {
                action: Action::WriteData(String::from_str("AUTH LOGIN\r\n")),
                next: State::ConnectedTls,
            },
            (State::ConnectedTls, Event::Received334Username) => match &self
                .smtp_connection
                .username {
                Some(u) => {
                    let mut d = b64_encode(u.as_str().as_bytes());
                    d.append("\r\n");
                    Step { action: Action::WriteData(d), next: State::ConnectedTls }
                },
                None => Step { action: Action::NoAction, next: State::Failed },
            },
            (State::ConnectedTls, Event::Received334Password) => match &self
                .smtp_connection
                .password {
                Some(p) => {
                    let mut d = b64_encode(p.as_str().as_bytes());
                    d.append("\r\n");
                    Step { action: Action::WriteData(d), next: State::ConnectedTls }
                },
                None => Step { action: Action::NoAction, next: State::Failed },
            },
            (State::ConnectedTls, Event::AuthSuccess(_)) => {
                let mut d = String::from_str("MAIL FROM:<");
                d.append(self.smtp_connection.from.as_str());
                d.append(">\r\n");
                Step { action: Action::WriteData(d), next: State::SendingMailHeaders }
            },
            (State::SendingMailHeaders, Event::Received250SenderOk(_)) => {
                let mut d = String::from_str("RCPT TO:<");
                d.append(self.smtp_connection.to.as_str());
                d.append(">\r\n");
                Step { action: Action::WriteData(d), next: State::SendingMailHeaders }
            },
            (State::SendingMailHeaders, Event::Received250RecipientOk(_)) => Step {
                action: Action::WriteData(String::from_str("DATA\r\n")),
                next: State::SendingMailData,
            },
            (State::SendingMailData, Event::Received354MailInput(_)) => Step {
                action: Action::SendChunks(send_body(&self.smtp_connection)),
                next: State::MailSent,
            },
            (State::MailSent, Event::Received250Queued(_)) => Step {
                action: Action::WriteData(String::from_str("QUIT\r\n")),
                next: State::Finished,
            },
            (_, Event::Received5xx(_)) => Step { action: Action::NoAction, next: State::Failed },
            (_, Event::Complete) => Step { action: Action::NoAction, next: State::Finished },
            _ => Step { action: Action::NoAction, next: State::Failed },
        }
    }

    /// Commit the outcome the driver reports for `event`'s action: the state
    /// follows `spec_next_state`, the transport variant follows
    /// `spec_next_stream`, and the session parameters are untouched.
    pub fn apply_outcome(&mut self, event: &Event, ok: bool)
        ensures
            final(self).state == spec_next_state(*old(self), event@, ok),
            final(self).smtp_connection.smtp_stream == spec_next_stream(*old(self), event@, ok),
            same_session(old(self).smtp_connection, final(self).smtp_connection),
    {
        match (self.state, event) {
            (State::Start, Event::Connect) => {
                let _ = self.smtp_connection.connect_to_server(ok);
                self.state = if ok {
                    State::ConnectingTcp
                } else {
                    State::Failed
                };
            },
            (State::ConnectingTcp, Event::Received220(_)) => {
                self.state = if ok {
                    State::ConnectedTcpHelloSent
                } else {
                    State::Failed
                };
            },
            (State::ConnectedTcpHelloSent, Event::Received250(_)) => {
                self.state = State::ConnectedTcp;
            },
            (State::ConnectedTcp, Event::Received250StartTls(_))
            | (State::ConnectedTcpHelloSent, Event::Received250StartTls(_)) => {
                self.state = if ok {
                    State::ConnectedTcpStartTls
                } else {
                    State::Failed
                };
            },
            (State::ConnectedTcpStartTls, Event::Received220(_)) => {
                let _ = self.smtp_connection.switch_to_tls(ok);
                self.state = if ok {
                    State::ConnectedTls
                } else {
                    State::Failed
                };
            },
            (State::ConnectedTls, Event::Received250(_)) => {
                self.state = if ok {
                    State::ConnectedTls
                } else {
                    State::Failed
                };
            },
            (State::ConnectedTls, Event::Received250StartTlsAuth(_)) => {
                self.state = if ok {
                    State::ConnectedTls
                } else {
                    State::Failed
                };
            },
            (State::ConnectedTls, Event::Received334Username) => {
                self.state = if self.smtp_connection.username.is_some() {
                    if ok {
                        State::ConnectedTls
                    } else {
                        State::Failed
                    }
                } else {
                    State::Failed
                };
            },
            (State::ConnectedTls, Event::Received334Password) => {
                self.state = if self.smtp_connection.password.is_some() {
                    if ok {
                        State::ConnectedTls
                    } else {
                        State::Failed
                    }
                } else {
                    State::Failed
                };
            },
            (State::ConnectedTls, Event::AuthSuccess(_)) => {
                self.state = if ok {
                    State::SendingMailHeaders
                } else {
                    State::Failed
                };
            },
            (State::SendingMailHeaders, Event::Received250SenderOk(_)) => {
                self.state = if ok {
                    State::SendingMailHeaders
                } else {
                    State::Failed
                };
            },
            (State::SendingMailHeaders, Event::Received250RecipientOk(_)) => {
                self.state = if ok {
                    State::SendingMailData
                } else {
                    State::Failed
                };
            },
            (State::SendingMailData, Event::Received354MailInput(_)) => {
                self.state = if ok {
                    State::MailSent
                } else {
                    State::Failed
                };
            },
            (State::MailSent, Event::Received250Queued(_)) => {
                self.state = if ok {
                    State::Finished
                } else {
                    State::Failed
                };
            },
            (_, Event::Received5xx(_)) => {
                self.state = State::Failed;
            },
            (_, Event::Complete) => {
                self.state = State::Finished;
            },
            _ => {
                self.state = State::Failed;
            },
        }
    }
}

/// Well-formedness is preserved: from a machine whose protocol state and
/// transport variant agree, every event and every reported outcome lead to
/// a machine whose state and variant agree again.
pub proof fn lemma_wf_preserved(m: StateMachine, e: EventV, ok: bool)
    requires
        m.wf(),
    ensures
        wf_pair(spec_next_state(m, e, ok), spec_next_stream(m, e, ok)),
{
}

/// Transport monotonicity over whole transitions: in a well-formed machine
/// whose transport is already `Encrypted`, no event and no outcome can ever
/// make the transport anything else — in particular it is never observed as
/// `Plaintext` again for the rest of the session.
pub proof fn lemma_encrypted_stays_encrypted(m: StateMachine, e: EventV, ok: bool)
    requires
        m.wf(),
        m.smtp_connection.smtp_stream == Stream::Encrypted,
    ensures
        spec_next_stream(m, e, ok) == Stream::Encrypted,
{
}

/// From `Start`, the only event whose transition can leave the failure
/// state behind is `Connect`, which plans the TCP connect towards
/// `ConnectingTcp`; every other event lands in `Failed`, whatever outcome
/// the driver reports. The one exception is the driver's own `Complete`
/// signal, which ends any session as `Finished` and is excluded here.
pub proof fn lemma_start_only_connect(m: StateMachine, e: EventV, ok: bool)
    requires
        m.state == State::Start,
        !(e is Complete),
    ensures
        spec_step(m, e).next != State::Failed <==> e is Connect,
        e is Connect ==> spec_step(m, e) == (StepV {
            action: ActionV::ConnectTcp,
            next: State::ConnectingTcp,
        }),
        !(e is Connect) ==> spec_next_state(m, e, ok) == State::Failed,
        e is Connect ==> spec_next_state(m, e, ok) == (if ok {
            State::ConnectingTcp
        } else {
            State::Failed
        }),
{
}

/// `Failed` is absorbing: once the machine has failed, no event and no
/// outcome move it anywhere else. The one exception is the driver's own
/// `Complete` signal, which ends any session as `Finished` and is excluded
/// here.
pub proof fn lemma_failed_absorbing(m: StateMachine, e: EventV, ok: bool)
    requires
        m.state == State::Failed,
        !(e is Complete),
    ensures
        spec_next_state(m, e, ok) == State::Failed,
{
}

/// The protocol state and transport variant after a whole trace of events,
/// each with the outcome the driver reported for its action, starting from
/// state `st` and variant `sm` in the session `m` carries.
pub open spec fn spec_run(
    m: StateMachine,
    st: State,
    sm: Stream,
    trace: Seq<(EventV, bool)>,
) -> (State, Stream)
    decreases trace.len(),
{
    if trace.len() == 0 {
        (st, sm)
    } else {
        spec_run(
            m,
            spec_next_state_at(m, st, trace[0].0, trace[0].1),
            spec_next_stream_at(m, st, sm, trace[0].0, trace[0].1),
            trace.drop_first(),
        )
    }
}

/// Transport monotonicity for the remainder of the session: from any
/// well-formed point whose transport is `Encrypted`, every further trace of
/// events and outcomes, of any length, leaves the transport `Encrypted` —
/// it is never observed as `Plaintext` again.
pub proof fn lemma_encrypted_for_remainder(
    m: StateMachine,
    st: State,
    sm: Stream,
    trace: Seq<(EventV, bool)>,
)
    requires
        wf_pair(st, sm),
        sm == Stream::Encrypted,
    ensures
        spec_run(m, st, sm, trace).1 == Stream::Encrypted,
        wf_pair(spec_run(m, st, sm, trace).0, spec_run(m, st, sm, trace).1),
    decreases trace.len(),
{
    if trace.len() > 0 {
        lemma_encrypted_for_remainder(
            m,
            spec_next_state_at(m, st, trace[0].0, trace[0].1),
            spec_next_stream_at(m, st, sm, trace[0].0, trace[0].1),
            trace.drop_first(),
        );
    }
}

/// `Failed` is absorbing over whole traces: once the machine has failed,
/// feeding any sequence of events and outcomes that does not contain the
/// driver's `Complete` signal leaves it in `Failed`.
pub proof fn lemma_failed_absorbing_trace(
    m: StateMachine,
    sm: Stream,
    trace: Seq<(EventV, bool)>,
)
    requires
        forall|i: int| 0 <= i < trace.len() ==> !((#[trigger] trace[i]).0 is Complete),
    ensures
        spec_run(m, State::Failed, sm, trace).0 == State::Failed,
    decreases trace.len(),
{
    if trace.len() > 0 {
        lemma_failed_absorbing_trace(
            m,
            spec_next_stream_at(m, State::Failed, sm, trace[0].0, trace[0].1),
            trace.drop_first(),
        );
    }
}

} // verus!

