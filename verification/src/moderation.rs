//! Kicking and banning: the commands, and what follows from their outcomes.
//!
//! The library decides; the caller runs the sessions. A kick is one command and
//! its conclusion. A ban is a roster query, from which the target's identity is
//! recovered as far as possible, then the ban command, and on its success a
//! [`ReconciliationTask`] for the bookkeeping that follows out of band.

use crate::outcome::{OutcomeView, RconOutcome};
use crate::reconcile::{ReconciliationTask, TaskView};
use crate::roster::{
    locate_player, located, parse_roster, player_views, roster, unknown_info, Player, PlayerInfo,
    PlayerInfoView,
};
use crate::text::{decimal, decimal_string};
use vstd::prelude::*;
use vstd::string::StringExecFns;

verus! {

/// The command that asks a server for its roster.
pub const STATUS_COMMAND: &'static str = "status";

/// The reason of a kick that names none.
pub const DEFAULT_KICK_REASON: &'static str = "Kicked by admin";

/// The reason of a ban that names none.
pub const DEFAULT_BAN_REASON: &'static str = "Banned by admin";

/// What a kick command starts with, up to the user id.
pub const KICK_HEAD: &'static str = "sm_kick #";

/// What a ban command starts with, up to the user id.
pub const BAN_HEAD: &'static str = "sm_ban #";

/// What stands between the user id and the minutes of a ban command.
pub const SPACE: &'static str = " ";

/// What opens the reason of a command.
pub const REASON_OPEN: &'static str = " \"";

/// What closes the reason of a command.
pub const REASON_CLOSE: &'static str = "\"";

/// The action that the audit entry of a kick names.
pub const KICK_ACTION: &'static str = "kick_player";

/// The action that the audit entry of a ban names.
pub const BAN_ACTION: &'static str = "ban_player_rcon_db";

/// The words for a kick that went through.
pub const KICKED: &'static str = "Player kicked";

/// The words for a ban that went through.
pub const BANNED: &'static str = "Player banned and recorded";

/// The words for a connection test that went through.
pub const CONNECTED: &'static str = "Connected successfully";

/// What stands before the cause of a failed kick.
pub const KICK_FAILED: &'static str = "Failed to kick: ";

/// What stands before the cause of a failed ban.
pub const BAN_FAILED: &'static str = "Failed to ban: ";

/// What stands before the cause of a failed roster query.
pub const ROSTER_FAILED: &'static str = "RCON Error: ";

/// What stands before the cause of a failed connection test.
pub const CONNECTION_FAILED: &'static str = "Connection failed: ";

/// The cause of a refused secret, in words.
pub const AUTH_CAUSE: &'static str = "authentication failed";

/// The cause of a timeout, in words.
pub const TIMEOUT_CAUSE: &'static str = "timed out";

/// The cause of an unknown server, in words.
pub const NOT_FOUND_CAUSE: &'static str = "Server not found";

/// What stands before the server name in the target of an audit entry.
pub const TARGET_SERVER: &'static str = "Server: ";

/// What stands before the user id in the target of an audit entry.
pub const TARGET_USERID: &'static str = ", UserID: ";

/// What stands before the reason in the particulars of a kick.
pub const DETAIL_REASON: &'static str = "Reason: ";

/// What stands before the minutes in the particulars of a ban.
pub const DETAIL_DURATION: &'static str = "Duration: ";

/// What stands before the reason in the particulars of a ban.
pub const DETAIL_REASON_NEXT: &'static str = ", Reason: ";

/// What stands before the player's name in the particulars of a ban.
pub const DETAIL_PLAYER: &'static str = ", Player: ";

/// What opens the player's identity in the particulars of a ban.
pub const DETAIL_IDENTITY_OPEN: &'static str = " (";

/// What closes the player's identity in the particulars of a ban.
pub const DETAIL_IDENTITY_CLOSE: &'static str = ")";

/// A request to remove a player from the server.
#[derive(Debug, Clone, PartialEq, Eq)]
pub struct KickPlayerRequest {
    pub userid: i32,
    pub reason: Option<String>,
}

/// A request to ban a player. The duration is in minutes; zero bans for good.
#[derive(Debug, Clone, PartialEq, Eq)]
pub struct BanPlayerRequest {
    pub userid: i32,
    pub duration: i32,
    pub reason: Option<String>,
}

/// Either kind of request.
#[derive(Debug, Clone, PartialEq, Eq)]
pub enum ModerationRequest {
    Kick(KickPlayerRequest),
    Ban(BanPlayerRequest),
}

/// Who acts, and on which server.
#[derive(Debug, Clone, PartialEq, Eq)]
pub struct ModerationContext {
    pub actor: String,
    pub server_id: i64,
    pub server_name: String,
}

/// The mathematical value of a [`ModerationContext`].
pub struct ContextView {
    pub actor: Seq<char>,
    pub server_id: i64,
    pub server_name: Seq<char>,
}

impl View for ModerationContext {
    type V = ContextView;

    open spec fn view(&self) -> ContextView {
        ContextView {
            actor: self.actor@,
            server_id: self.server_id,
            server_name: self.server_name@,
        }
    }
}

impl ModerationContext {
    /// A copy of this context.
    pub fn duplicate(&self) -> (r: ModerationContext)
        ensures
            r@ == self@,
    {
        ModerationContext {
            actor: self.actor.clone(),
            server_id: self.server_id,
            server_name: self.server_name.clone(),
        }
    }
}

/// Why an operation failed.
#[derive(Debug, Clone, PartialEq, Eq)]
pub enum ModerationError {
    /// The server could not be reached.
    Transport(String),
    /// The shared secret was refused.
    Auth,
    /// The server did not answer in time.
    Timeout,
    /// The connection broke or the server broke the protocol.
    Protocol(String),
    /// The server to act on is not known.
    NotFound,
    /// The bookkeeping after a ban failed. Logged, never handed to the caller
    /// of the ban.
    Reconciliation(String),
}

/// The mathematical value of a [`ModerationError`].
pub enum ErrorView {
    Transport(Seq<char>),
    Auth,
    Timeout,
    Protocol(Seq<char>),
    NotFound,
    Reconciliation(Seq<char>),
}

impl View for ModerationError {
    type V = ErrorView;

    open spec fn view(&self) -> ErrorView {
        match self {
            ModerationError::Transport(cause) => ErrorView::Transport(cause@),
            ModerationError::Auth => ErrorView::Auth,
            ModerationError::Timeout => ErrorView::Timeout,
            ModerationError::Protocol(cause) => ErrorView::Protocol(cause@),
            ModerationError::NotFound => ErrorView::NotFound,
            ModerationError::Reconciliation(cause) => ErrorView::Reconciliation(cause@),
        }
    }
}

/// One line of the audit log: who did what to whom, with what particulars.
#[derive(Debug, Clone, PartialEq, Eq)]
pub struct AuditEntry {
    pub actor: String,
    pub action: String,
    pub target: String,
    pub details: String,
}

/// The mathematical value of an [`AuditEntry`].
pub struct AuditView {
    pub actor: Seq<char>,
    pub action: Seq<char>,
    pub target: Seq<char>,
    pub details: Seq<char>,
}

impl View for AuditEntry {
    type V = AuditView;

    open spec fn view(&self) -> AuditView {
        AuditView {
            actor: self.actor@,
            action: self.action@,
            target: self.target@,
            details: self.details@,
        }
    }
}

/// The answer to a caller whose kick went through, with the entry that the
/// audit log is owed.
#[derive(Debug, Clone, PartialEq, Eq)]
pub struct KickAck {
    pub message: String,
    pub audit: AuditEntry,
}

/// Where a ban stands: what the next outcome handed in belongs to.
#[derive(Debug, Clone, PartialEq, Eq)]
pub enum BanStage {
    /// The roster was asked for; the outcome of that query comes next.
    Lookup,
    /// The ban command was issued for the player recovered from the roster; its
    /// outcome comes next.
    Command(PlayerInfo),
}

/// The mathematical value of a [`BanStage`].
pub enum BanStageView {
    Lookup,
    Command(PlayerInfoView),
}

impl View for BanStage {
    type V = BanStageView;

    open spec fn view(&self) -> BanStageView {
        match self {
            BanStage::Lookup => BanStageView::Lookup,
            BanStage::Command(info) => BanStageView::Command(info@),
        }
    }
}

/// What a ban asks of its caller next.
#[derive(Debug)]
pub enum BanStep {
    /// Run `command` in a fresh session and come back with its outcome at
    /// stage `next`.
    Execute { command: String, next: BanStage },
    /// The ban is in force: answer the caller with success and hand the task
    /// to the background.
    Scheduled(ReconciliationTask),
    /// The ban command did not go through: answer the caller with the error.
    /// Nothing is recorded and nothing is handed to the background.
    Rejected(ModerationError),
}

/// The mathematical value of a [`BanStep`].
pub enum BanStepView {
    Execute { command: Seq<char>, next: BanStageView },
    Scheduled(TaskView),
    Rejected(ErrorView),
}

impl View for BanStep {
    type V = BanStepView;

    open spec fn view(&self) -> BanStepView {
        match self {
            BanStep::Execute { command, next } => BanStepView::Execute {
                command: command@,
                next: next@,
            },
            BanStep::Scheduled(task) => BanStepView::Scheduled(task@),
            BanStep::Rejected(error) => BanStepView::Rejected(error@),
        }
    }
}

/// The text of an optional string.
pub open spec fn text_or(value: Option<String>, fallback: Seq<char>) -> Seq<char> {
    match value {
        Some(s) => s@,
        None => fallback,
    }
}

/// The failure that an outcome stands for, or the server's answer where the
/// command ran.
pub open spec fn outcome_result(outcome: OutcomeView) -> Result<Seq<char>, ErrorView> {
    match outcome {
        OutcomeView::Success(body) => Ok(body),
        OutcomeView::AuthFailed => Err(ErrorView::Auth),
        OutcomeView::ConnectFailed(cause) => Err(ErrorView::Transport(cause)),
        OutcomeView::Timeout => Err(ErrorView::Timeout),
        OutcomeView::ProtocolError(cause) => Err(ErrorView::Protocol(cause)),
    }
}

/// The cause that an error carries, in words.
pub open spec fn cause_text(error: ErrorView) -> Seq<char> {
    match error {
        ErrorView::Transport(cause) => cause,
        ErrorView::Auth => AUTH_CAUSE@,
        ErrorView::Timeout => TIMEOUT_CAUSE@,
        ErrorView::Protocol(cause) => cause,
        ErrorView::NotFound => NOT_FOUND_CAUSE@,
        ErrorView::Reconciliation(cause) => cause,
    }
}

/// The kick command: `sm_kick #<userid> "<reason>"`.
pub open spec fn kick_command_text(userid: i32, reason: Seq<char>) -> Seq<char> {
    KICK_HEAD@ + decimal(userid as int) + REASON_OPEN@ + reason + REASON_CLOSE@
}

/// The ban command: `sm_ban #<userid> <minutes> "<reason>"`.
pub open spec fn ban_command_text(userid: i32, duration: i32, reason: Seq<char>) -> Seq<char> {
    BAN_HEAD@ + decimal(userid as int) + SPACE@ + decimal(duration as int) + REASON_OPEN@ + reason
        + REASON_CLOSE@
}

/// Whom an audit entry is about: `Server: <name>, UserID: <userid>`.
pub open spec fn audit_target(server_name: Seq<char>, userid: i32) -> Seq<char> {
    TARGET_SERVER@ + server_name + TARGET_USERID@ + decimal(userid as int)
}

/// The audit entry of a kick.
pub open spec fn kick_audit(
    actor: Seq<char>,
    server_name: Seq<char>,
    userid: i32,
    reason: Seq<char>,
) -> AuditView {
    AuditView {
        actor,
        action: KICK_ACTION@,
        target: audit_target(server_name, userid),
        details: DETAIL_REASON@ + reason,
    }
}

impl ModerationError {
    /// The cause, in words.
    pub fn cause(&self) -> (r: String)
        ensures
            r@ == cause_text(self@),
    {
        match self {
            ModerationError::Transport(cause) => cause.clone(),
            ModerationError::Auth => String::from_str(AUTH_CAUSE),
            ModerationError::Timeout => String::from_str(TIMEOUT_CAUSE),
            ModerationError::Protocol(cause) => cause.clone(),
            ModerationError::NotFound => String::from_str(NOT_FOUND_CAUSE),
            ModerationError::Reconciliation(cause) => cause.clone(),
        }
    }

    /// The message for the caller: what was tried, then the cause.
    pub fn message(&self, attempt: &str) -> (r: String)
        ensures
            r@ == attempt@ + cause_text(self@),
    {
        let mut r = String::from_str(attempt);
        let cause = self.cause();
        r.append(cause.as_str());
        r
    }
}

/// The server's answer where the command ran, else the failure that the
/// outcome stands for.
pub fn answer(outcome: &RconOutcome) -> (r: Result<&str, ModerationError>)
    ensures
        match r {
            Ok(body) => outcome_result(outcome@) == Ok::<Seq<char>, ErrorView>(body@),
            Err(e) => outcome_result(outcome@) == Err::<Seq<char>, ErrorView>(e@),
        },
{
    match outcome {
        RconOutcome::Success(body) => Ok(body.as_str()),
        RconOutcome::AuthFailed => Err(ModerationError::Auth),
        RconOutcome::ConnectFailed(cause) => Err(ModerationError::Transport(cause.clone())),
        RconOutcome::Timeout => Err(ModerationError::Timeout),
        RconOutcome::ProtocolError(cause) => Err(ModerationError::Protocol(cause.clone())),
    }
}

fn reason_or(reason: &Option<String>, fallback: &str) -> (r: String)
    ensures
        r@ == text_or(*reason, fallback@),
{
    match reason {
        Some(s) => s.clone(),
        None => String::from_str(fallback),
    }
}

pub(crate) fn target_of(server_name: &str, userid: i32) -> (r: String)
    ensures
        r@ == audit_target(server_name@, userid),
{
    let mut r = String::from_str(TARGET_SERVER);
    r.append(server_name);
    r.append(TARGET_USERID);
    let id = decimal_string(userid as i64);
    r.append(id.as_str());
    r
}

/// The command that kicks the player of the request, with the default reason
/// where the request names none.
pub fn kick_command(request: &KickPlayerRequest) -> (command: String)
    ensures
        command@ == kick_command_text(
            request.userid,
            text_or(request.reason, DEFAULT_KICK_REASON@),
        ),
{
    let reason = reason_or(&request.reason, DEFAULT_KICK_REASON);
    let id = decimal_string(request.userid as i64);
    let mut command = String::from_str(KICK_HEAD);
    command.append(id.as_str());
    command.append(REASON_OPEN);
    command.append(reason.as_str());
    command.append(REASON_CLOSE);
    command
}

/// What a kick comes to, given how the session with the kick command ended:
/// on success the answer with the entry for the audit log, on every other
/// outcome the error that carries its cause.
pub fn conclude_kick(
    request: &KickPlayerRequest,
    context: &ModerationContext,
    outcome: &RconOutcome,
) -> (r: Result<KickAck, ModerationError>)
    ensures
        match r {
            Ok(ack) => outcome@ is Success && ack.message@ == KICKED@ && ack.audit@ == kick_audit(
                context.actor@,
                context.server_name@,
                request.userid,
                text_or(request.reason, DEFAULT_KICK_REASON@),
            ),
            Err(e) => outcome_result(outcome@) == Err::<Seq<char>, ErrorView>(e@),
        },
{
    match answer(outcome) {
        Err(e) => Err(e),
        Ok(_) => {
            let reason = reason_or(&request.reason, DEFAULT_KICK_REASON);
            let mut details = String::from_str(DETAIL_REASON);
            details.append(reason.as_str());
            Ok(
                KickAck {
                    message: String::from_str(KICKED),
                    audit: AuditEntry {
                        actor: context.actor.clone(),
                        action: String::from_str(KICK_ACTION),
                        target: target_of(context.server_name.as_str(), request.userid),
                        details,
                    },
                },
            )
        },
    }
}

/// What a roster query comes to: the roster read out of the server's answer,
/// or the error of the session.
pub fn conclude_roster(outcome: &RconOutcome) -> (r: Result<Vec<Player>, ModerationError>)
    ensures
        match r {
            Ok(players) => outcome@ matches OutcomeView::Success(body) && player_views(players@)
                == roster(body),
            Err(e) => outcome_result(outcome@) == Err::<Seq<char>, ErrorView>(e@),
        },
{
    match answer(outcome) {
        Ok(body) => Ok(parse_roster(body)),
        Err(e) => Err(e),
    }
}

/// What a connection test comes to: the words of success, or the error of the
/// session.
pub fn conclude_check(outcome: &RconOutcome) -> (r: Result<String, ModerationError>)
    ensures
        match r {
            Ok(message) => outcome@ is Success && message@ == CONNECTED@,
            Err(e) => outcome_result(outcome@) == Err::<Seq<char>, ErrorView>(e@),
        },
{
    match answer(outcome) {
        Ok(_) => Ok(String::from_str(CONNECTED)),
        Err(e) => Err(e),
    }
}

/// What is known of the target of a ban after the roster query: what the
/// roster tells where the query ran, and nothing where it did not.
pub open spec fn ban_target(userid: i32, roster: OutcomeView) -> PlayerInfoView {
    match roster {
        OutcomeView::Success(body) => located(body, userid),
        _ => unknown_info(),
    }
}

/// The task that a ban in force leaves to the background.
pub open spec fn ban_task(
    userid: i32,
    duration: i32,
    reason: Seq<char>,
    context: ContextView,
    info: PlayerInfoView,
) -> TaskView {
    TaskView { info, reason, duration, userid, context }
}

/// The next step of a ban. The roster's outcome, whatever it is, leads to the
/// ban command; the ban command's outcome leads to the task if it is a
/// success and to the error if it is not.
pub open spec fn ban_step_of(
    userid: i32,
    duration: i32,
    reason: Seq<char>,
    context: ContextView,
    stage: BanStageView,
    outcome: OutcomeView,
) -> BanStepView {
    match stage {
        BanStageView::Lookup => BanStepView::Execute {
            command: ban_command_text(userid, duration, reason),
            next: BanStageView::Command(ban_target(userid, outcome)),
        },
        BanStageView::Command(info) => match outcome_result(outcome) {
            Ok(_) => BanStepView::Scheduled(ban_task(userid, duration, reason, context, info)),
            Err(e) => BanStepView::Rejected(e),
        },
    }
}

/// The command that bans the player of the request, with the default reason
/// where the request names none.
pub fn ban_command(request: &BanPlayerRequest) -> (command: String)
    ensures
        command@ == ban_command_text(
            request.userid,
            request.duration,
            text_or(request.reason, DEFAULT_BAN_REASON@),
        ),
{
    let reason = reason_or(&request.reason, DEFAULT_BAN_REASON);
    let id = decimal_string(request.userid as i64);
    let minutes = decimal_string(request.duration as i64);
    let mut command = String::from_str(BAN_HEAD);
    command.append(id.as_str());
    command.append(SPACE);
    command.append(minutes.as_str());
    command.append(REASON_OPEN);
    command.append(reason.as_str());
    command.append(REASON_CLOSE);
    command
}

impl ModerationRequest {
    /// The command that carries out the request.
    pub fn command(&self) -> (command: String)
        ensures
            command@ == match *self {
                ModerationRequest::Kick(kick) => kick_command_text(
                    kick.userid,
                    text_or(kick.reason, DEFAULT_KICK_REASON@),
                ),
                ModerationRequest::Ban(ban) => ban_command_text(
                    ban.userid,
                    ban.duration,
                    text_or(ban.reason, DEFAULT_BAN_REASON@),
                ),
            },
    {
        match self {
            ModerationRequest::Kick(kick) => kick_command(kick),
            ModerationRequest::Ban(ban) => ban_command(ban),
        }
    }
}

/// The first step of a ban: the roster query, whose outcome belongs to
/// [`BanStage::Lookup`].
pub fn begin_ban() -> (step: BanStep)
    ensures
        step@ == (BanStepView::Execute { command: STATUS_COMMAND@, next: BanStageView::Lookup }),
{
    BanStep::Execute { command: String::from_str(STATUS_COMMAND), next: BanStage::Lookup }
}

/// Takes the outcome of the session that the last step asked for and gives
/// the next step.
pub fn ban_step(
    request: &BanPlayerRequest,
    context: &ModerationContext,
    stage: BanStage,
    outcome: &RconOutcome,
) -> (step: BanStep)
    ensures
        step@ == ban_step_of(
            request.userid,
            request.duration,
            text_or(request.reason, DEFAULT_BAN_REASON@),
            context@,
            stage@,
            outcome@,
        ),
{
    match stage {
        BanStage::Lookup => {
            let info = match answer(outcome) {
                Ok(body) => locate_player(body, request.userid),
                Err(_) => PlayerInfo::unknown(),
            };
            BanStep::Execute { command: ban_command(request), next: BanStage::Command(info) }
        },
        BanStage::Command(info) => match answer(outcome) {
            Err(e) => BanStep::Rejected(e),
            Ok(_) => BanStep::Scheduled(
                ReconciliationTask::new(
                    info,
                    reason_or(&request.reason, DEFAULT_BAN_REASON),
                    request.duration,
                    request.userid,
                    context.duplicate(),
                ),
            ),
        },
    }
}

/// A ban whose command failed schedules nothing: the step is the rejection
/// with the session's error, and a task comes out of a success only.
pub proof fn lemma_failed_ban_schedules_nothing(
    userid: i32,
    duration: i32,
    reason: Seq<char>,
    context: ContextView,
    info: PlayerInfoView,
    outcome: OutcomeView,
)
    ensures
        ban_step_of(userid, duration, reason, context, BanStageView::Command(info), outcome)
            is Scheduled <==> outcome is Success,
        !(outcome is Success) ==> ban_step_of(
            userid,
            duration,
            reason,
            context,
            BanStageView::Command(info),
            outcome,
        ) == BanStepView::Rejected(outcome_result(outcome)->Err_0),
{
}

/// The ban command does not wait on the roster: whatever the roster query
/// came to, the next step is the same ban command.
pub proof fn lemma_ban_command_follows_any_lookup(
    userid: i32,
    duration: i32,
    reason: Seq<char>,
    context: ContextView,
    outcome: OutcomeView,
)
    ensures
        ban_step_of(userid, duration, reason, context, BanStageView::Lookup, outcome)
            matches BanStepView::Execute { command, next } && command == ban_command_text(
            userid,
            duration,
            reason,
        ) && next is Command,
{
}

} // verus!
