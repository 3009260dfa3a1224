use rcon_moderation::moderation::{
    answer, ban_command, ban_step, begin_ban, conclude_check, conclude_kick, conclude_roster,
    kick_command, BanPlayerRequest, BanStage, BanStep, KickPlayerRequest, ModerationContext,
    ModerationError, ModerationRequest,
};
use rcon_moderation::outcome::{RconOutcome, ServerAddress};
use rcon_moderation::reconcile::{expires_at, ReconciliationTask, ResolvedIdentity};
use rcon_moderation::roster::PlayerInfo;

const ROSTER: &str = "hostname: x\n#  7 1 \"Alice\" STEAM_0:1:111 05:12 34 0 active 80000 10.1.2.3:27005\n";

fn context() -> ModerationContext {
    ModerationContext { actor: "root".to_string(), server_id: 4, server_name: "Dust".to_string() }
}

fn ban_request(duration: i32, reason: Option<&str>) -> BanPlayerRequest {
    BanPlayerRequest { userid: 7, duration, reason: reason.map(|r| r.to_string()) }
}

fn run_ban(
    request: &BanPlayerRequest,
    roster: RconOutcome,
    ban: RconOutcome,
) -> (Vec<String>, BanStep) {
    let mut commands = Vec::new();
    let mut step = begin_ban();
    let mut outcomes = vec![ban, roster];
    loop {
        match step {
            BanStep::Execute { command, next } => {
                commands.push(command);
                let outcome = outcomes.pop().unwrap();
                step = ban_step(request, &context(), next, &outcome);
            }
            last => return (commands, last),
        }
    }
}

fn scheduled(request: &BanPlayerRequest, roster: RconOutcome) -> ReconciliationTask {
    match run_ban(request, roster, RconOutcome::Success(String::new())).1 {
        BanStep::Scheduled(task) => task,
        other => panic!("not scheduled: {:?}", other),
    }
}

fn nothing_resolved() -> ResolvedIdentity {
    ResolvedIdentity::unresolved()
}

#[test]
fn endpoint_joins_host_and_port() {
    let address = ServerAddress {
        host: "10.0.0.5".to_string(),
        port: 27015,
        secret: "hunter2".to_string(),
    };
    assert_eq!(address.endpoint(), "10.0.0.5:27015");
}

#[test]
fn kick_without_a_reason_uses_the_default() {
    let request = KickPlayerRequest { userid: 7, reason: None };
    assert_eq!(kick_command(&request), "sm_kick #7 \"Kicked by admin\"");
    let ack = conclude_kick(&request, &context(), &RconOutcome::Success(String::new())).unwrap();
    assert_eq!(ack.message, "Player kicked");
    assert_eq!(ack.audit.actor, "root");
    assert_eq!(ack.audit.action, "kick_player");
    assert_eq!(ack.audit.target, "Server: Dust, UserID: 7");
    assert_eq!(ack.audit.details, "Reason: Kicked by admin");
}

#[test]
fn kick_with_a_reason_carries_it() {
    let request = KickPlayerRequest { userid: 12, reason: Some("afk".to_string()) };
    assert_eq!(kick_command(&request), "sm_kick #12 \"afk\"");
    let ack = conclude_kick(&request, &context(), &RconOutcome::Success("ok".to_string())).unwrap();
    assert_eq!(ack.audit.details, "Reason: afk");
}

#[test]
fn a_failed_kick_carries_the_cause() {
    let request = KickPlayerRequest { userid: 7, reason: None };
    let refused = RconOutcome::ConnectFailed("connection refused".to_string());
    let error = conclude_kick(&request, &context(), &refused).unwrap_err();
    assert_eq!(error, ModerationError::Transport("connection refused".to_string()));
    assert_eq!(error.message("Failed to kick: "), "Failed to kick: connection refused");
    assert_eq!(
        conclude_kick(&request, &context(), &RconOutcome::AuthFailed).unwrap_err(),
        ModerationError::Auth
    );
    assert_eq!(
        conclude_kick(&request, &context(), &RconOutcome::Timeout).unwrap_err(),
        ModerationError::Timeout
    );
    assert_eq!(
        conclude_kick(&request, &context(), &RconOutcome::ProtocolError("bad frame".to_string()))
            .unwrap_err(),
        ModerationError::Protocol("bad frame".to_string())
    );
}

#[test]
fn every_error_has_its_cause() {
    assert_eq!(ModerationError::Transport("unreachable".to_string()).cause(), "unreachable");
    assert_eq!(ModerationError::Auth.cause(), "authentication failed");
    assert_eq!(ModerationError::Timeout.cause(), "timed out");
    assert_eq!(ModerationError::Protocol("short frame".to_string()).cause(), "short frame");
    assert_eq!(ModerationError::NotFound.cause(), "Server not found");
    assert_eq!(ModerationError::Reconciliation("store down".to_string()).cause(), "store down");
    assert_eq!(ModerationError::Timeout.message("Failed to ban: "), "Failed to ban: timed out");
}

#[test]
fn outcomes_map_to_answers_and_errors() {
    assert_eq!(answer(&RconOutcome::Success("x".to_string())), Ok("x"));
    assert_eq!(answer(&RconOutcome::AuthFailed), Err(ModerationError::Auth));
    assert_eq!(
        answer(&RconOutcome::ConnectFailed("c".to_string())),
        Err(ModerationError::Transport("c".to_string()))
    );
    assert_eq!(answer(&RconOutcome::Timeout), Err(ModerationError::Timeout));
    assert_eq!(
        answer(&RconOutcome::ProtocolError("p".to_string())),
        Err(ModerationError::Protocol("p".to_string()))
    );
}

#[test]
fn connection_test_reports_the_outcome() {
    assert_eq!(
        conclude_check(&RconOutcome::Success(String::new())),
        Ok("Connected successfully".to_string())
    );
    let closed = RconOutcome::ConnectFailed("connection refused".to_string());
    let error = conclude_check(&closed).unwrap_err();
    assert_eq!(error, ModerationError::Transport("connection refused".to_string()));
    assert_eq!(error.message("Connection failed: "), "Connection failed: connection refused");
    assert_eq!(conclude_check(&RconOutcome::AuthFailed), Err(ModerationError::Auth));
}

#[test]
fn roster_query_reports_players_or_the_error() {
    let players = conclude_roster(&RconOutcome::Success(ROSTER.to_string())).unwrap();
    assert_eq!(players.len(), 1);
    assert_eq!(players[0].userid, 7);
    assert_eq!(conclude_roster(&RconOutcome::Timeout), Err(ModerationError::Timeout));
}

#[test]
fn ban_command_binds_id_duration_and_reason() {
    assert_eq!(ban_command(&ban_request(30, Some("cheating"))), "sm_ban #7 30 \"cheating\"");
    assert_eq!(ban_command(&ban_request(0, None)), "sm_ban #7 0 \"Banned by admin\"");
}

#[test]
fn a_ban_asks_for_the_roster_then_bans() {
    let request = ban_request(30, Some("cheating"));
    let (commands, last) = run_ban(
        &request,
        RconOutcome::Success(ROSTER.to_string()),
        RconOutcome::Success(String::new()),
    );
    assert_eq!(commands, vec!["status".to_string(), "sm_ban #7 30 \"cheating\"".to_string()]);
    assert!(matches!(last, BanStep::Scheduled(_)));
}

#[test]
fn a_failed_ban_schedules_nothing() {
    let request = ban_request(30, None);
    let (commands, last) =
        run_ban(&request, RconOutcome::Success(ROSTER.to_string()), RconOutcome::Timeout);
    assert_eq!(commands.len(), 2);
    match last {
        BanStep::Rejected(error) => {
            assert_eq!(error, ModerationError::Timeout);
            assert_eq!(error.message("Failed to ban: "), "Failed to ban: timed out");
        }
        other => panic!("not rejected: {:?}", other),
    }
    let refused = RconOutcome::ConnectFailed("refused".to_string());
    let (_, last) = run_ban(&request, RconOutcome::Success(ROSTER.to_string()), refused);
    assert!(matches!(last, BanStep::Rejected(ModerationError::Transport(_))));
}

#[test]
fn a_ban_goes_on_when_the_roster_query_fails() {
    let request = ban_request(0, None);
    let (commands, last) =
        run_ban(&request, RconOutcome::Timeout, RconOutcome::Success(String::new()));
    assert_eq!(commands[1], "sm_ban #7 0 \"Banned by admin\"");
    match last {
        BanStep::Scheduled(task) => {
            assert_eq!(task.raw_identity(), "Unknown");
            let (record, _) = task.record(&nothing_resolved(), 1000);
            assert_eq!(record.name, "Unknown");
            assert_eq!(record.ip, "0.0.0.0");
        }
        other => panic!("not scheduled: {:?}", other),
    }
}

#[test]
fn the_lookup_stage_carries_what_the_roster_told() {
    let request = ban_request(5, None);
    let roster = RconOutcome::Success(ROSTER.to_string());
    match ban_step(&request, &context(), BanStage::Lookup, &roster) {
        BanStep::Execute { next, .. } => assert_eq!(
            next,
            BanStage::Command(PlayerInfo {
                name: "Alice".to_string(),
                steam_id: "STEAM_0:1:111".to_string(),
                ip: "10.1.2.3".to_string(),
            })
        ),
        other => panic!("not a command: {:?}", other),
    }
}

#[test]
fn two_bans_of_one_player_are_both_scheduled() {
    let request = ban_request(10, Some("dup"));
    let first = scheduled(&request, RconOutcome::Success(ROSTER.to_string()));
    let second = scheduled(&request, RconOutcome::Success(ROSTER.to_string()));
    let (a, rest_a) = first.record(&nothing_resolved(), 500);
    let (b, rest_b) = second.record(&nothing_resolved(), 500);
    assert_eq!(a, b);
    assert_eq!(rest_a.conclude(Ok(())), rest_b.conclude(Ok(())));
}

#[test]
fn a_permanent_ban_never_expires() {
    let task = scheduled(&ban_request(0, None), RconOutcome::Success(ROSTER.to_string()));
    let (record, _) = task.record(&nothing_resolved(), 1_700_000_000);
    assert_eq!(record.duration, 0);
    assert_eq!(record.expires_at, None);
    assert_eq!(record.created_at, 1_700_000_000);
}

#[test]
fn a_timed_ban_expires_after_its_minutes() {
    let task = scheduled(&ban_request(30, None), RconOutcome::Success(ROSTER.to_string()));
    assert_eq!(task.duration(), 30);
    let (record, _) = task.record(&nothing_resolved(), 1_700_000_000);
    assert_eq!(record.expires_at, Some(1_700_000_000 + 30 * 60));
    assert_eq!(expires_at(0, 1), Some(60));
    assert_eq!(expires_at(100, 0), None);
    assert_eq!(expires_at(100, -5), None);
    assert_eq!(expires_at(i64::MAX - 60, 1), Some(i64::MAX));
}

#[test]
fn an_unresolved_identity_falls_back_to_the_raw_one() {
    let task = scheduled(&ban_request(30, Some("cheating")), RconOutcome::Success(ROSTER.to_string()));
    assert_eq!(task.raw_identity(), "STEAM_0:1:111");
    let (record, _) = task.record(&nothing_resolved(), 1000);
    assert_eq!(record.steam_id, "STEAM_0:1:111");
    assert_eq!(record.steam_id_3, "STEAM_0:1:111");
    assert_eq!(record.steam_id_64, "STEAM_0:1:111");
    assert_eq!(record.name, "Alice");
    assert_eq!(record.ip, "10.1.2.3");
    assert_eq!(record.ban_type, "ip");
    assert_eq!(record.status, "active");
    assert_eq!(record.reason, "cheating");
    assert_eq!(record.admin_name, "root");
    assert_eq!(record.server_id, 4);
}

#[test]
fn a_resolved_identity_is_recorded_field_by_field() {
    let task = scheduled(&ban_request(30, None), RconOutcome::Success(ROSTER.to_string()));
    let resolved = ResolvedIdentity {
        id64: Some("76561197960265951".to_string()),
        id2: None,
        id3: Some("[U:1:223]".to_string()),
    };
    let (record, _) = task.record(&resolved, 1000);
    assert_eq!(record.steam_id_64, "76561197960265951");
    assert_eq!(record.steam_id, "STEAM_0:1:111");
    assert_eq!(record.steam_id_3, "[U:1:223]");
}

#[test]
fn the_ban_audit_entry_describes_the_action() {
    let task = scheduled(&ban_request(30, Some("cheating")), RconOutcome::Success(ROSTER.to_string()));
    let (_, rest) = task.record(&nothing_resolved(), 1000);
    let (entry, failure) = rest.conclude(Ok(()));
    assert_eq!(failure, None);
    assert_eq!(entry.actor, "root");
    assert_eq!(entry.action, "ban_player_rcon_db");
    assert_eq!(entry.target, "Server: Dust, UserID: 7");
    assert_eq!(
        entry.details,
        "Duration: 30, Reason: cheating, Player: Alice (STEAM_0:1:111)"
    );
}

#[test]
fn a_request_of_either_kind_has_its_command() {
    let kick = ModerationRequest::Kick(KickPlayerRequest { userid: 3, reason: None });
    assert_eq!(kick.command(), "sm_kick #3 \"Kicked by admin\"");
    let ban = ModerationRequest::Ban(ban_request(-1, Some("x")));
    assert_eq!(ban.command(), "sm_ban #7 -1 \"x\"");
}

#[test]
fn a_failed_store_is_reported_and_the_audit_entry_still_written() {
    let request = ban_request(30, Some("cheating"));
    let stored = scheduled(&request, RconOutcome::Success(ROSTER.to_string()));
    let failed = scheduled(&request, RconOutcome::Success(ROSTER.to_string()));
    let (entry, none) = stored.record(&nothing_resolved(), 1000).1.conclude(Ok(()));
    let (same, failure) =
        failed.record(&nothing_resolved(), 1000).1.conclude(Err("store down".to_string()));
    assert_eq!(none, None);
    assert_eq!(failure, Some(ModerationError::Reconciliation("store down".to_string())));
    assert_eq!(entry, same);
}

#[test]
fn an_unresolved_identity_holds_nothing() {
    let nothing = ResolvedIdentity::unresolved();
    assert_eq!(nothing, ResolvedIdentity { id64: None, id2: None, id3: None });
}
