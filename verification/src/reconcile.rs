//! The bookkeeping that follows a ban: the record for the ban store and the
//! entry for the audit log.
//!
//! A [`ReconciliationTask`] exists only for a ban whose command went through.
//! The caller resolves the player's identity and trades the task for the
//! record and a [`Bookkeeping`]; it stores the record and trades the
//! bookkeeping, with the result of storing, for the audit entry. Each trade
//! uses its value up, so one ban gives at most one record, and the audit entry
//! is owed whether or not storing worked.

use crate::moderation::{
    audit_target, target_of, AuditEntry, AuditView, ContextView, ErrorView, ModerationContext,
    ModerationError, BAN_ACTION, DETAIL_DURATION, DETAIL_IDENTITY_CLOSE, DETAIL_IDENTITY_OPEN,
    DETAIL_PLAYER, DETAIL_REASON_NEXT,
};
use crate::roster::{PlayerInfo, PlayerInfoView};
use crate::text::{decimal, decimal_string, prefix_before, take_before};
use vstd::prelude::*;
use vstd::string::StringExecFns;

verus! {

/// The kind of every ban that this library records.
pub const BAN_TYPE: &'static str = "ip";

/// The status of a ban when it is recorded.
pub const ACTIVE: &'static str = "active";

/// What separates an address from a port.
pub const PORT_SEPARATOR: char = ':';

/// Seconds in a minute.
pub const MINUTE: i64 = 60;

/// What the identity resolver found: the 64-bit form and the two textual
/// forms, each absent where the resolver could not produce it.
#[derive(Debug, Clone, PartialEq, Eq)]
pub struct ResolvedIdentity {
    pub id64: Option<String>,
    pub id2: Option<String>,
    pub id3: Option<String>,
}

/// The mathematical value of a [`ResolvedIdentity`].
pub struct ResolvedView {
    pub id64: Option<Seq<char>>,
    pub id2: Option<Seq<char>>,
    pub id3: Option<Seq<char>>,
}

/// The text of an optional string, if any.
pub open spec fn optional_text(value: Option<String>) -> Option<Seq<char>> {
    match value {
        Some(s) => Some(s@),
        None => None,
    }
}

impl View for ResolvedIdentity {
    type V = ResolvedView;

    open spec fn view(&self) -> ResolvedView {
        ResolvedView {
            id64: optional_text(self.id64),
            id2: optional_text(self.id2),
            id3: optional_text(self.id3),
        }
    }
}

/// One row of the ban store. Times are seconds since the Unix epoch.
#[derive(Debug, Clone, PartialEq, Eq)]
pub struct BanRecord {
    pub name: String,
    pub steam_id: String,
    pub steam_id_3: String,
    pub steam_id_64: String,
    pub ip: String,
    pub ban_type: String,
    pub reason: String,
    pub duration: i32,
    pub admin_name: String,
    pub expires_at: Option<i64>,
    pub created_at: i64,
    pub status: String,
    pub server_id: i64,
}

/// The mathematical value of a [`BanRecord`].
pub struct BanRecordView {
    pub name: Seq<char>,
    pub steam_id: Seq<char>,
    pub steam_id_3: Seq<char>,
    pub steam_id_64: Seq<char>,
    pub ip: Seq<char>,
    pub ban_type: Seq<char>,
    pub reason: Seq<char>,
    pub duration: i32,
    pub admin_name: Seq<char>,
    pub expires_at: Option<int>,
    pub created_at: int,
    pub status: Seq<char>,
    pub server_id: i64,
}

impl View for BanRecord {
    type V = BanRecordView;

    open spec fn view(&self) -> BanRecordView {
        BanRecordView {
            name: self.name@,
            steam_id: self.steam_id@,
            steam_id_3: self.steam_id_3@,
            steam_id_64: self.steam_id_64@,
            ip: self.ip@,
            ban_type: self.ban_type@,
            reason: self.reason@,
            duration: self.duration,
            admin_name: self.admin_name@,
            expires_at: match self.expires_at {
                Some(t) => Some(t as int),
                None => None,
            },
            created_at: self.created_at as int,
            status: self.status@,
            server_id: self.server_id,
        }
    }
}

/// The bookkeeping owed for one ban in force.
#[derive(Debug)]
pub struct ReconciliationTask {
    info: PlayerInfo,
    reason: String,
    duration: i32,
    userid: i32,
    context: ModerationContext,
}

/// The mathematical value of a [`ReconciliationTask`].
pub struct TaskView {
    pub info: PlayerInfoView,
    pub reason: Seq<char>,
    pub duration: i32,
    pub userid: i32,
    pub context: ContextView,
}

impl View for ReconciliationTask {
    type V = TaskView;

    closed spec fn view(&self) -> TaskView {
        TaskView {
            info: self.info@,
            reason: self.reason@,
            duration: self.duration,
            userid: self.userid,
            context: self.context@,
        }
    }
}

/// What is left of a task once its record has been handed out: the audit
/// entry.
#[derive(Debug)]
pub struct Bookkeeping {
    task: ReconciliationTask,
}

impl View for Bookkeeping {
    type V = TaskView;

    closed spec fn view(&self) -> TaskView {
        self.task@
    }
}

/// The failure to report after storing: none where the record was stored,
/// else the reconciliation error with the store's cause.
pub open spec fn store_failure(stored: Result<(), String>) -> Option<ErrorView> {
    match stored {
        Ok(_) => None,
        Err(cause) => Some(ErrorView::Reconciliation(cause@)),
    }
}

/// The error of an optional error.
pub open spec fn optional_error(error: Option<ModerationError>) -> Option<ErrorView> {
    match error {
        Some(e) => Some(e@),
        None => None,
    }
}

/// When a ban ends: `minutes` after `created_at` for a positive duration,
/// never for any other.
pub open spec fn expiry(created_at: int, minutes: i32) -> Option<int> {
    if minutes > 0 {
        Some(created_at + MINUTE * minutes)
    } else {
        None
    }
}

/// A form of the identity as the resolver gave it, or the raw identity where
/// it gave none.
pub open spec fn identity_or_raw(resolved: Option<Seq<char>>, raw: Seq<char>) -> Seq<char> {
    match resolved {
        Some(id) => id,
        None => raw,
    }
}

/// The record of a ban.
pub open spec fn record_of(task: TaskView, resolved: ResolvedView, created_at: int) -> BanRecordView {
    BanRecordView {
        name: task.info.name,
        steam_id: identity_or_raw(resolved.id2, task.info.steam_id),
        steam_id_3: identity_or_raw(resolved.id3, task.info.steam_id),
        steam_id_64: identity_or_raw(resolved.id64, task.info.steam_id),
        ip: prefix_before(task.info.ip, PORT_SEPARATOR),
        ban_type: BAN_TYPE@,
        reason: task.reason,
        duration: task.duration,
        admin_name: task.context.actor,
        expires_at: expiry(created_at, task.duration),
        created_at,
        status: ACTIVE@,
        server_id: task.context.server_id,
    }
}

/// What holds of every record that comes out of a reconciliation: it ends
/// exactly when its duration is positive, then that many minutes after its
/// creation, and it is an active ban by address.
pub open spec fn record_is_sound(record: BanRecordView) -> bool {
    &&& record.expires_at == expiry(record.created_at, record.duration)
    &&& record.ban_type == BAN_TYPE@
    &&& record.status == ACTIVE@
}

/// The audit entry of a ban:
/// `Duration: <minutes>, Reason: <reason>, Player: <name> (<raw identity>)`
/// about `Server: <name>, UserID: <userid>`.
pub open spec fn ban_audit(task: TaskView) -> AuditView {
    AuditView {
        actor: task.context.actor,
        action: BAN_ACTION@,
        target: audit_target(task.context.server_name, task.userid),
        details: DETAIL_DURATION@ + decimal(task.duration as int) + DETAIL_REASON_NEXT@
            + task.reason + DETAIL_PLAYER@ + task.info.name + DETAIL_IDENTITY_OPEN@
            + task.info.steam_id + DETAIL_IDENTITY_CLOSE@,
    }
}

/// When a ban of `minutes` that starts at `created_at` ends.
pub fn expires_at(created_at: i64, minutes: i32) -> (r: Option<i64>)
    requires
        minutes > 0 ==> created_at + MINUTE * minutes <= i64::MAX,
    ensures
        match r {
            Some(t) => expiry(created_at as int, minutes) == Some(t as int),
            None => expiry(created_at as int, minutes) is None,
        },
{
    if minutes > 0 {
        Some(created_at + MINUTE * (minutes as i64))
    } else {
        None
    }
}

fn resolved_or_raw(resolved: &Option<String>, raw: &String) -> (r: String)
    ensures
        r@ == identity_or_raw(optional_text(*resolved), raw@),
{
    match resolved {
        Some(id) => id.clone(),
        None => raw.clone(),
    }
}

impl ReconciliationTask {
    pub(crate) fn new(
        info: PlayerInfo,
        reason: String,
        duration: i32,
        userid: i32,
        context: ModerationContext,
    ) -> (task: ReconciliationTask)
        ensures
            task@ == (TaskView {
                info: info@,
                reason: reason@,
                duration,
                userid,
                context: context@,
            }),
    {
        ReconciliationTask { info, reason, duration, userid, context }
    }

    /// The identity as the roster showed it: what the resolver is to be asked
    /// about.
    pub fn raw_identity(&self) -> (raw: &str)
        ensures
            raw@ == self@.info.steam_id,
    {
        self.info.steam_id.as_str()
    }

    /// The duration of the ban in minutes.
    pub fn duration(&self) -> (minutes: i32)
        ensures
            minutes == self@.duration,
    {
        self.duration
    }

    /// Trades the task for the record to store, for a ban created at
    /// `created_at`, and for the bookkeeping that remains. Each form of the
    /// identity that the resolver did not give is the raw identity; the
    /// address loses its port.
    pub fn record(self, resolved: &ResolvedIdentity, created_at: i64) -> (r: (
        BanRecord,
        Bookkeeping,
    ))
        requires
            self@.duration > 0 ==> created_at + MINUTE * self@.duration <= i64::MAX,
        ensures
            r.0@ == record_of(self@, resolved@, created_at as int),
            record_is_sound(r.0@),
            r.1@ == self@,
    {
        let record = BanRecord {
            name: self.info.name.clone(),
            steam_id: resolved_or_raw(&resolved.id2, &self.info.steam_id),
            steam_id_3: resolved_or_raw(&resolved.id3, &self.info.steam_id),
            steam_id_64: resolved_or_raw(&resolved.id64, &self.info.steam_id),
            ip: take_before(self.info.ip.as_str(), PORT_SEPARATOR),
            ban_type: String::from_str(BAN_TYPE),
            reason: self.reason.clone(),
            duration: self.duration,
            admin_name: self.context.actor.clone(),
            expires_at: expires_at(created_at, self.duration),
            created_at,
            status: String::from_str(ACTIVE),
            server_id: self.context.server_id,
        };
        (record, Bookkeeping { task: self })
    }

    fn audit_entry(&self) -> (entry: AuditEntry)
        ensures
            entry@ == ban_audit(self@),
    {
        let target = target_of(self.context.server_name.as_str(), self.userid);
        let minutes = decimal_string(self.duration as i64);
        let mut details = String::from_str(DETAIL_DURATION);
        details.append(minutes.as_str());
        details.append(DETAIL_REASON_NEXT);
        details.append(self.reason.as_str());
        details.append(DETAIL_PLAYER);
        details.append(self.info.name.as_str());
        details.append(DETAIL_IDENTITY_OPEN);
        details.append(self.info.steam_id.as_str());
        details.append(DETAIL_IDENTITY_CLOSE);
        AuditEntry {
            actor: self.context.actor.clone(),
            action: String::from_str(BAN_ACTION),
            target,
            details,
        }
    }
}

impl ResolvedIdentity {
    /// What a resolver that failed altogether has found: nothing.
    pub fn unresolved() -> (r: ResolvedIdentity)
        ensures
            r@ == (ResolvedView { id64: None, id2: None, id3: None }),
    {
        ResolvedIdentity { id64: None, id2: None, id3: None }
    }
}

impl Bookkeeping {
    /// Trades the bookkeeping, with the result of storing the record, for the
    /// audit entry and the failure to log. The entry is the same whether or
    /// not the record was stored; the failure is there exactly when storing
    /// failed, and goes to the log only.
    pub fn conclude(self, stored: Result<(), String>) -> (r: (AuditEntry, Option<ModerationError>))
        ensures
            r.0@ == ban_audit(self@),
            optional_error(r.1) == store_failure(stored),
    {
        let entry = self.task.audit_entry();
        let failure = match stored {
            Ok(_) => None,
            Err(cause) => Some(ModerationError::Reconciliation(cause)),
        };
        (entry, failure)
    }
}

/// A record has an end exactly when its duration is positive, and the end is
/// then the creation time plus that many minutes.
pub proof fn lemma_expiry_follows_duration(task: TaskView, resolved: ResolvedView, created_at: int)
    ensures
        record_of(task, resolved, created_at).expires_at is Some <==> task.duration > 0,
        task.duration > 0 ==> record_of(task, resolved, created_at).expires_at == Some(
            created_at + 60 * task.duration,
        ),
        task.duration == 0 ==> record_of(task, resolved, created_at).expires_at is None,
        record_of(task, resolved, created_at).created_at == created_at,
        record_is_sound(record_of(task, resolved, created_at)),
{
}

/// Where the resolver found nothing, the record still stands, with the raw
/// identity in all three identity fields.
pub proof fn lemma_unresolved_identity_is_raw(task: TaskView, resolved: ResolvedView, created_at: int)
    requires
        resolved.id64 is None,
        resolved.id2 is None,
        resolved.id3 is None,
    ensures
        record_of(task, resolved, created_at).steam_id == task.info.steam_id,
        record_of(task, resolved, created_at).steam_id_3 == task.info.steam_id,
        record_of(task, resolved, created_at).steam_id_64 == task.info.steam_id,
{
}

/// Each identity field of a record is what the resolver gave for it, or the
/// raw identity where the resolver gave nothing for it.
pub proof fn lemma_identity_fields(task: TaskView, resolved: ResolvedView, created_at: int)
    ensures
        ({
            let record = record_of(task, resolved, created_at);
            &&& (resolved.id2 is Some ==> record.steam_id == resolved.id2->0)
            &&& (resolved.id2 is None ==> record.steam_id == task.info.steam_id)
            &&& (resolved.id3 is Some ==> record.steam_id_3 == resolved.id3->0)
            &&& (resolved.id3 is None ==> record.steam_id_3 == task.info.steam_id)
            &&& (resolved.id64 is Some ==> record.steam_id_64 == resolved.id64->0)
            &&& (resolved.id64 is None ==> record.steam_id_64 == task.info.steam_id)
        }),
{
}

} // verus!
