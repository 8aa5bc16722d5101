//! The session with a target: which address it is opened to, in which order
//! its steps are taken, and what is made of what a running command sends.
//! Taking a step is the caller's part; the decisions are made here.

use vstd::prelude::*;
use crate::actions::deploy_descriptor::Descriptor;
use crate::configs::project_config::{Ipv4Address, ProjectConfig, TeamNumber};

verus! {

/// The port of the secure shell.
pub const SSH_PORT: u16 = 22;

/// The notice that goes with the disconnect after a refused password.
pub const AUTH_FAILED_NOTICE: &'static str = "Failed to authenticate as root";

/// The language of that notice.
pub const NOTICE_LANGUAGE: &'static str = "English";

/// The subsystem that transfers files.
pub const FILE_TRANSFER_SUBSYSTEM: &'static str = "sftp";

/// The address of the controller of `team`: `10.(team / 100).(team % 100).2`.
/// A team from 25600 on has none, for its hundreds do not fit one number of
/// an address.
pub open spec fn team_address(team: TeamNumber) -> Option<Ipv4Address> {
    if team.0 / 100 <= 255 {
        Some(Ipv4Address(10, (team.0 / 100) as u8, (team.0 % 100) as u8, 2))
    } else {
        None
    }
}

/// The address to deploy to: the one that overrides, where there is one,
/// else the one of the team.
pub open spec fn address_of(team: TeamNumber, overriding: Option<Ipv4Address>) -> Option<
    Ipv4Address,
> {
    match overriding {
        Some(address) => Some(address),
        None => team_address(team),
    }
}

/// An address that overrides is the address, whatever the team.
pub proof fn lemma_override_wins(team: TeamNumber, address: Ipv4Address)
    ensures
        address_of(team, Some(address)) == Some(address),
{
}

/// The address to deploy to.
pub fn target_address(config: &ProjectConfig) -> (address: Option<Ipv4Address>)
    ensures
        address == address_of(config.team, config.address),
{
    match config.address {
        Some(address) => Some(address),
        None => {
            let hundreds = config.team.0 / 100;
            if hundreds <= 255 {
                Some(Ipv4Address(10, hundreds as u8, (config.team.0 % 100) as u8, 2))
            } else {
                None
            }
        },
    }
}

/// A step of opening a session, in the order in which the steps are taken.
#[derive(Debug, Clone, Copy, PartialEq, Eq, Structural)]
pub enum SessionStep {
    /// Opening the secure transport to the target.
    Connect,
    /// Giving user and password.
    Authenticate,
    /// Telling the target that the session ends, after it has refused the
    /// password.
    Disconnect,
    /// Opening a channel for the file transfer.
    OpenChannel,
    /// Asking for the file transfer subsystem on that channel.
    RequestSubsystem,
    /// Starting the file transfer on the channel.
    StartFileTransfer,
}

/// Why no session was opened.
#[derive(Debug, Clone, Copy, PartialEq, Eq, Structural)]
pub enum SessionFailure {
    /// The target has refused the password.
    NotAuthenticated,
    /// A step has failed; its own error says why.
    Step(SessionStep),
}

/// How far the opening of a session has come.
#[derive(Debug, Clone, Copy, PartialEq, Eq, Structural)]
pub enum SessionState {
    /// The step is under way.
    Taking(SessionStep),
    /// All steps are done: the session is open.
    Established,
    /// There is no session, and there will be none.
    Failed(SessionFailure),
}

/// How a step has ended.
#[derive(Debug, Clone, Copy, PartialEq, Eq, Structural)]
pub enum StepOutcome {
    Done,
    /// The target has answered, and has refused the password.
    Rejected,
    Failed,
}

/// Why a connection is ended.
#[derive(Debug, Clone, Copy, PartialEq, Eq, Structural)]
pub enum DisconnectReason {
    AuthCancelledByUser,
}

/// What to do next.
#[derive(Debug)]
pub enum SessionAction {
    OpenTransport { address: Ipv4Address, port: u16 },
    Authenticate { user: String, password: String },
    Disconnect { reason: DisconnectReason, notice: &'static str, language: &'static str },
    OpenChannel,
    RequestSubsystem { name: &'static str },
    StartFileTransfer,
    /// Hand the open session to the caller.
    Finish,
    /// Give up, and report the failure.
    Fail(SessionFailure),
}

/// A `SessionAction` by the characters of its texts.
pub enum SessionActionView {
    OpenTransport { address: Ipv4Address, port: u16 },
    Authenticate { user: Seq<char>, password: Seq<char> },
    Disconnect { reason: DisconnectReason, notice: Seq<char>, language: Seq<char> },
    OpenChannel,
    RequestSubsystem { name: Seq<char> },
    StartFileTransfer,
    Finish,
    Fail(SessionFailure),
}

impl View for SessionAction {
    type V = SessionActionView;

    open spec fn view(&self) -> SessionActionView {
        match *self {
            SessionAction::OpenTransport { address, port } => SessionActionView::OpenTransport {
                address,
                port,
            },
            SessionAction::Authenticate { user, password } => SessionActionView::Authenticate {
                user: user@,
                password: password@,
            },
            SessionAction::Disconnect { reason, notice, language } => {
                SessionActionView::Disconnect { reason, notice: notice@, language: language@ }
            },
            SessionAction::OpenChannel => SessionActionView::OpenChannel,
            SessionAction::RequestSubsystem { name } => SessionActionView::RequestSubsystem {
                name: name@,
            },
            SessionAction::StartFileTransfer => SessionActionView::StartFileTransfer,
            SessionAction::Finish => SessionActionView::Finish,
            SessionAction::Fail(failure) => SessionActionView::Fail(failure),
        }
    }
}

/// The state that follows `state` once the step that was under way has
/// ended with `outcome`. The steps follow each other while each is done. A
/// refused password leads to the disconnect and from there to failure,
/// whether the disconnect is done or fails. A step that fails ends the
/// opening, and so does a refusal where no password was given. What is
/// established or has failed stays so.
pub open spec fn next_state(state: SessionState, outcome: StepOutcome) -> SessionState {
    match state {
        SessionState::Taking(step) => match outcome {
            StepOutcome::Done => match step {
                SessionStep::Connect => SessionState::Taking(SessionStep::Authenticate),
                SessionStep::Authenticate => SessionState::Taking(SessionStep::OpenChannel),
                SessionStep::Disconnect => SessionState::Failed(SessionFailure::NotAuthenticated),
                SessionStep::OpenChannel => SessionState::Taking(SessionStep::RequestSubsystem),
                SessionStep::RequestSubsystem => SessionState::Taking(
                    SessionStep::StartFileTransfer,
                ),
                SessionStep::StartFileTransfer => SessionState::Established,
            },
            StepOutcome::Rejected => if step == SessionStep::Authenticate {
                SessionState::Taking(SessionStep::Disconnect)
            } else {
                SessionState::Failed(SessionFailure::Step(step))
            },
            StepOutcome::Failed => SessionState::Failed(SessionFailure::Step(step)),
        },
        SessionState::Established => SessionState::Established,
        SessionState::Failed(failure) => SessionState::Failed(failure),
    }
}

/// What is to be done in `state`: the step that is under way, with what it
/// is handed, or the end.
pub open spec fn action_in(
    state: SessionState,
    address: Ipv4Address,
    user: Seq<char>,
    password: Seq<char>,
) -> SessionActionView {
    match state {
        SessionState::Taking(step) => match step {
            SessionStep::Connect => SessionActionView::OpenTransport { address, port: SSH_PORT },
            SessionStep::Authenticate => SessionActionView::Authenticate { user, password },
            SessionStep::Disconnect => SessionActionView::Disconnect {
                reason: DisconnectReason::AuthCancelledByUser,
                notice: AUTH_FAILED_NOTICE@,
                language: NOTICE_LANGUAGE@,
            },
            SessionStep::OpenChannel => SessionActionView::OpenChannel,
            SessionStep::RequestSubsystem => SessionActionView::RequestSubsystem {
                name: FILE_TRANSFER_SUBSYSTEM@,
            },
            SessionStep::StartFileTransfer => SessionActionView::StartFileTransfer,
        },
        SessionState::Established => SessionActionView::Finish,
        SessionState::Failed(failure) => SessionActionView::Fail(failure),
    }
}

/// The state after the steps have ended with `outcomes`, one after the
/// other, starting in `state`.
pub open spec fn state_after(state: SessionState, outcomes: Seq<StepOutcome>) -> SessionState
    decreases outcomes.len(),
{
    if outcomes.len() == 0 {
        state
    } else {
        state_after(next_state(state, outcomes[0]), outcomes.drop_first())
    }
}

/// The state in which the opening of a session starts.
pub open spec fn first_state() -> SessionState {
    SessionState::Taking(SessionStep::Connect)
}

/// What has failed stays failed, whatever follows.
pub proof fn lemma_failed_stays(failure: SessionFailure, outcomes: Seq<StepOutcome>)
    ensures
        state_after(SessionState::Failed(failure), outcomes) == SessionState::Failed(failure),
    decreases outcomes.len(),
{
    if outcomes.len() > 0 {
        lemma_failed_stays(failure, outcomes.drop_first());
    }
}

/// Once the password is refused there is no session, whatever follows: the
/// disconnect is next, and after it the opening has failed, for want of
/// authentication where the disconnect was done.
pub proof fn lemma_rejected_is_never_established(outcomes: Seq<StepOutcome>)
    ensures
        next_state(SessionState::Taking(SessionStep::Authenticate), StepOutcome::Rejected)
            == SessionState::Taking(SessionStep::Disconnect),
        state_after(SessionState::Taking(SessionStep::Disconnect), outcomes)
            != SessionState::Established,
        outcomes.len() > 0 ==> state_after(SessionState::Taking(SessionStep::Disconnect), outcomes)
            is Failed,
        outcomes.len() > 0 && outcomes[0] == StepOutcome::Done ==> state_after(
            SessionState::Taking(SessionStep::Disconnect),
            outcomes,
        ) == SessionState::Failed(SessionFailure::NotAuthenticated),
{
    if outcomes.len() > 0 {
        let next = next_state(SessionState::Taking(SessionStep::Disconnect), outcomes[0]);
        lemma_failed_stays(next->Failed_0, outcomes.drop_first());
    }
}

/// The session is handed out in the established state and in no other.
pub proof fn lemma_finish_means_established(
    state: SessionState,
    address: Ipv4Address,
    user: Seq<char>,
    password: Seq<char>,
)
    ensures
        action_in(state, address, user, password) is Finish <==> state == SessionState::Established,
{
}

/// A session is established only once five steps were done: the opening
/// starts with the connection, and no outcome but `Done` leads on.
pub proof fn lemma_established_after_all_steps(outcomes: Seq<StepOutcome>)
    requires
        state_after(first_state(), outcomes) == SessionState::Established,
    ensures
        outcomes.len() >= 5,
        forall|i: int| 0 <= i < 5 ==> outcomes[i] == StepOutcome::Done,
{
    lemma_steps_to_established(SessionStep::Connect, outcomes);
}

/// How many steps are to be done from `step` on until the session is
/// established; the disconnect does not lead there.
pub open spec fn steps_left(step: SessionStep) -> int {
    match step {
        SessionStep::Connect => 5,
        SessionStep::Authenticate => 4,
        SessionStep::Disconnect => 0,
        SessionStep::OpenChannel => 3,
        SessionStep::RequestSubsystem => 2,
        SessionStep::StartFileTransfer => 1,
    }
}

/// Where the opening is established from a step on, all steps that are
/// left were done.
pub proof fn lemma_steps_to_established(step: SessionStep, outcomes: Seq<StepOutcome>)
    requires
        state_after(SessionState::Taking(step), outcomes) == SessionState::Established,
    ensures
        step != SessionStep::Disconnect,
        outcomes.len() >= steps_left(step),
        forall|i: int| 0 <= i < steps_left(step) ==> outcomes[i] == StepOutcome::Done,
    decreases outcomes.len(),
{
    if outcomes.len() > 0 {
        let next = next_state(SessionState::Taking(step), outcomes[0]);
        let rest = outcomes.drop_first();
        match next {
            SessionState::Taking(following) => {
                lemma_steps_to_established(following, rest);
                assert forall|i: int| 0 <= i < steps_left(step) implies outcomes[i]
                    == StepOutcome::Done by {
                    if i > 0 {
                        assert(outcomes[i] == rest[i - 1]);
                    }
                }
            },
            SessionState::Established => {},
            SessionState::Failed(failure) => {
                lemma_failed_stays(failure, rest);
            },
        }
    }
}

/// The state in which the opening of a session starts.
pub fn begin() -> (state: SessionState)
    ensures
        state == first_state(),
{
    SessionState::Taking(SessionStep::Connect)
}

/// The state that follows `state` once the step that was under way has
/// ended with `outcome`.
pub fn advance(state: SessionState, outcome: StepOutcome) -> (next: SessionState)
    ensures
        next == next_state(state, outcome),
{
    match state {
        SessionState::Taking(step) => match outcome {
            StepOutcome::Done => match step {
                SessionStep::Connect => SessionState::Taking(SessionStep::Authenticate),
                SessionStep::Authenticate => SessionState::Taking(SessionStep::OpenChannel),
                SessionStep::Disconnect => SessionState::Failed(SessionFailure::NotAuthenticated),
                SessionStep::OpenChannel => SessionState::Taking(SessionStep::RequestSubsystem),
                SessionStep::RequestSubsystem => SessionState::Taking(
                    SessionStep::StartFileTransfer,
                ),
                SessionStep::StartFileTransfer => SessionState::Established,
            },
            StepOutcome::Rejected => match step {
                SessionStep::Authenticate => SessionState::Taking(SessionStep::Disconnect),
                _ => SessionState::Failed(SessionFailure::Step(step)),
            },
            StepOutcome::Failed => SessionState::Failed(SessionFailure::Step(step)),
        },
        SessionState::Established => SessionState::Established,
        SessionState::Failed(failure) => SessionState::Failed(failure),
    }
}

/// What is to be done in `state` for a session to `address` with the login
/// of `descriptor`.
pub fn action(state: SessionState, address: Ipv4Address, descriptor: &Descriptor) -> (next:
    SessionAction)
    ensures
        next@ == action_in(state, address, descriptor.root_user@, descriptor.root_password@),
{
    match state {
        SessionState::Taking(step) => match step {
            SessionStep::Connect => SessionAction::OpenTransport { address, port: SSH_PORT },
            SessionStep::Authenticate => SessionAction::Authenticate {
                user: descriptor.root_user.clone(),
                password: descriptor.root_password.clone(),
            },
            SessionStep::Disconnect => SessionAction::Disconnect {
                reason: DisconnectReason::AuthCancelledByUser,
                notice: AUTH_FAILED_NOTICE,
                language: NOTICE_LANGUAGE,
            },
            SessionStep::OpenChannel => SessionAction::OpenChannel,
            SessionStep::RequestSubsystem => SessionAction::RequestSubsystem {
                name: FILE_TRANSFER_SUBSYSTEM,
            },
            SessionStep::StartFileTransfer => SessionAction::StartFileTransfer,
        },
        SessionState::Established => SessionAction::Finish,
        SessionState::Failed(failure) => SessionAction::Fail(failure),
    }
}

/// What a running command has sent on its channel.
#[derive(Debug, Clone, Copy, PartialEq, Eq, Structural)]
pub enum ChannelEvent {
    /// A piece of what the command prints.
    Data,
    /// The command has ended with this code.
    ExitStatus(u32),
    /// The channel has nothing more to send.
    Closed,
    /// Anything else.
    Other,
}

/// What to do about a `ChannelEvent`.
#[derive(Debug, Clone, Copy, PartialEq, Eq, Structural)]
pub enum CommandStep {
    /// Print the piece, and wait for more.
    Print,
    /// Wait for more.
    Wait,
    /// End the call with this exit code; before that, tell the target that
    /// nothing more will be sent, where `send_eof` is set.
    Finish { code: u32, send_eof: bool },
}

/// What is to be done about `event`: a piece of output is printed; the exit
/// status ends the call with its code, after the end of input was sent; a
/// channel that closes without one ends it with 0.
pub open spec fn step_for(event: ChannelEvent) -> CommandStep {
    match event {
        ChannelEvent::Data => CommandStep::Print,
        ChannelEvent::ExitStatus(code) => CommandStep::Finish { code, send_eof: true },
        ChannelEvent::Closed => CommandStep::Finish { code: 0, send_eof: false },
        ChannelEvent::Other => CommandStep::Wait,
    }
}

/// The exit code that a call ends with, given all that the channel sends:
/// the code of the first exit status, or 0 where the channel closes, or the
/// events end, before one.
pub open spec fn exit_code(events: Seq<ChannelEvent>) -> u32
    decreases events.len(),
{
    if events.len() == 0 {
        0
    } else {
        match step_for(events[0]) {
            CommandStep::Finish { code, .. } => code,
            _ => exit_code(events.drop_first()),
        }
    }
}

/// A call ends with the code of the exit status that comes first, where
/// output and other events alone come before it; what follows plays no
/// part.
pub proof fn lemma_first_exit_status_decides(
    before: Seq<ChannelEvent>,
    code: u32,
    after: Seq<ChannelEvent>,
)
    requires
        forall|i: int|
            0 <= i < before.len() ==> before[i] == ChannelEvent::Data || before[i]
                == ChannelEvent::Other,
    ensures
        exit_code(before + seq![ChannelEvent::ExitStatus(code)] + after) == code,
    decreases before.len(),
{
    let events = before + seq![ChannelEvent::ExitStatus(code)] + after;
    if before.len() > 0 {
        let rest = before.drop_first();
        assert(events[0] == before[0]);
        assert(events.drop_first() =~= rest + seq![ChannelEvent::ExitStatus(code)] + after);
        assert forall|i: int| 0 <= i < rest.len() implies rest[i] == ChannelEvent::Data || rest[i]
            == ChannelEvent::Other by {
            assert(rest[i] == before[i + 1]);
        }
        lemma_first_exit_status_decides(rest, code, after);
    } else {
        assert(events[0] == ChannelEvent::ExitStatus(code));
    }
}

/// What is to be done about `event`.
pub fn on_channel_event(event: ChannelEvent) -> (step: CommandStep)
    ensures
        step == step_for(event),
{
    match event {
        ChannelEvent::Data => CommandStep::Print,
        ChannelEvent::ExitStatus(code) => CommandStep::Finish { code, send_eof: true },
        ChannelEvent::Closed => CommandStep::Finish { code: 0, send_eof: false },
        ChannelEvent::Other => CommandStep::Wait,
    }
}

} // verus!
