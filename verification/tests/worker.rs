use std::path::PathBuf;

use codexmeter::launcher::{LaunchSpec, ProgramPath};
use codexmeter::models::{AppSettings, ConnectionStatus};
use codexmeter::service::{
    append_error_line, exit_detail_text, incoming_message, request_parts, Effect, Input, Outgoing,
    RequestParams, SpawnOutcome, Worker,
};

type In = Input<String, PathBuf>;

fn direct(path: &str) -> LaunchSpec<PathBuf> {
    LaunchSpec::direct(ProgramPath::Native(PathBuf::from(path)), path.to_string())
}

fn line(generation: u64, text: &str, snapshot: Option<Result<String, String>>, wall_millis: u64) -> In {
    In::Line { generation, line: text.to_string(), snapshot, wall_millis }
}

const HANDSHAKE: &str = r#"{"id":1,"result":{"userAgent":"codex"}}"#;
const UPDATED: &str = r#"{"method":"account/rateLimits/updated","params":{}}"#;

fn worker() -> Worker<String> {
    Worker::new("linux".to_string(), AppSettings::default(), 0)
}

fn status(w: &Worker<String>) -> ConnectionStatus {
    w.frontend().connection.status
}

fn text(w: &Worker<String>) -> Option<String> {
    w.frontend().connection.message.clone()
}

/// A worker with an App Server whose handshake is done and no request pending.
fn connected() -> Worker<String> {
    let mut w = worker();
    w.step(In::Connect);
    w.step(In::Located { spec: Some(direct("codex")), now: 1 });
    w.step(In::Spawned { outcome: SpawnOutcome::Started, now: 2 });
    w.step(line(1, HANDSHAKE, None, 0));
    let e = w.step(In::Sent { result: Ok(()), now: 3 });
    assert!(matches!(e.last(), Some(Effect::Send(Outgoing::ReadRateLimits { id: 10 }))));
    w.step(In::Sent { result: Ok(()), now: 4 });
    w.step(line(
        1,
        r#"{"id":10,"result":{"rateLimits":{"primary":{"usedPercent":24}}}}"#,
        Some(Ok("snapshot".to_string())),
        99,
    ));
    w
}

#[test]
fn new_worker_is_disconnected() {
    let w = worker();
    assert_eq!(status(&w), ConnectionStatus::Disconnected);
    assert_eq!(w.frontend().platform, "linux");
    assert_eq!(w.frontend().snapshot, None);
    assert!(!w.is_awaiting());
}

#[test]
fn connect_locates_then_spawns() {
    let mut w = worker();
    let e = w.step(In::Connect);
    assert!(matches!(&e[..], [Effect::Locate { configured: None }]));
    assert!(w.is_awaiting());
    let e = w.step(In::Located { spec: Some(direct("/bin/codex")), now: 5 });
    assert_eq!(e.len(), 2);
    assert!(matches!(e[0], Effect::Publish));
    match &e[1] {
        Effect::Spawn { spec, generation, greeting } => {
            assert_eq!(*greeting, Outgoing::Initialize);
            assert_eq!(spec.program, ProgramPath::Native(PathBuf::from("/bin/codex")));
            assert_eq!(spec.display, "/bin/codex");
            assert_eq!(*generation, 1);
        }
        other => panic!("unexpected {:?}", other),
    }
    assert_eq!(status(&w), ConnectionStatus::Connecting);
    assert_eq!(w.frontend().connection.executable.as_deref(), Some("/bin/codex"));
    let e = w.step(In::Spawned { outcome: SpawnOutcome::Started, now: 6 });
    assert!(e.is_empty());
    assert!(!w.is_awaiting());
}

#[test]
fn configured_path_is_handed_to_locate() {
    let settings = AppSettings { codex_binary_path: Some("/opt/codex".to_string()), ..AppSettings::default() };
    let mut w: Worker<String> = Worker::new("macos".to_string(), settings, 0);
    let e = w.step(In::Connect);
    match &e[..] {
        [Effect::Locate { configured }] => assert_eq!(configured.as_deref(), Some("/opt/codex")),
        other => panic!("unexpected {:?}", other),
    }
}

#[test]
fn missing_executable_fails() {
    let mut w = worker();
    w.step(In::Connect);
    let e = w.step(In::Located { spec: None, now: 1 });
    assert!(matches!(&e[..], [Effect::Publish]));
    assert_eq!(status(&w), ConnectionStatus::Failed);
    assert_eq!(text(&w).as_deref(), Some("找不到 Codex。请安装 Codex CLI，或设置 CODEX_BINARY。"));
}

fn spawn_failure(outcome: SpawnOutcome) -> Worker<String> {
    let mut w = worker();
    w.step(In::Connect);
    w.step(In::Located { spec: Some(direct("codex")), now: 1 });
    let e = w.step(In::Spawned { outcome, now: 2 });
    assert!(matches!(&e[..], [Effect::Publish]));
    assert_eq!(status(&w), ConnectionStatus::Failed);
    w
}

#[test]
fn spawn_failures_are_reported() {
    let w = spawn_failure(SpawnOutcome::SpawnFailed("No such file".to_string()));
    assert_eq!(text(&w).as_deref(), Some("无法启动 Codex App Server：No such file"));
    assert_eq!(w.frontend().connection.executable.as_deref(), Some("codex"));
    let w = spawn_failure(SpawnOutcome::NoStdin);
    assert_eq!(text(&w).as_deref(), Some("Codex 输入通道不可用"));
    let w = spawn_failure(SpawnOutcome::NoStdout);
    assert_eq!(text(&w).as_deref(), Some("Codex 输出通道不可用"));
    let w = spawn_failure(SpawnOutcome::NoStderr);
    assert_eq!(text(&w).as_deref(), Some("Codex 错误通道不可用"));
    let w = spawn_failure(SpawnOutcome::InitializeFailed("Broken pipe".to_string()));
    assert_eq!(text(&w).as_deref(), Some("无法初始化 Codex App Server：Broken pipe"));
}

#[test]
fn handshake_then_first_read() {
    let w = connected();
    assert_eq!(status(&w), ConnectionStatus::Connected);
    assert_eq!(w.frontend().snapshot.as_deref(), Some("snapshot"));
    assert_eq!(w.frontend().last_updated, Some(99));
    assert_eq!(text(&w), None);
}

#[test]
fn handshake_send_failure_fails_session() {
    let mut w = worker();
    w.step(In::Connect);
    w.step(In::Located { spec: Some(direct("codex")), now: 1 });
    w.step(In::Spawned { outcome: SpawnOutcome::Started, now: 2 });
    let e = w.step(line(1, HANDSHAKE, None, 0));
    assert!(matches!(&e[..], [Effect::Send(Outgoing::Initialized)]));
    let e = w.step(In::Sent { result: Err("closed".to_string()), now: 3 });
    assert!(matches!(&e[..], [Effect::StopSession, Effect::Publish]));
    assert_eq!(text(&w).as_deref(), Some("Codex 握手失败：closed"));
    assert_eq!(w.frontend().connection.executable.as_deref(), Some("codex"));
}

#[test]
fn read_send_failure_fails_session() {
    let mut w = connected();
    let e = w.step(In::Refresh);
    assert!(matches!(&e[..], [Effect::Send(Outgoing::ReadRateLimits { id: 11 })]));
    let e = w.step(In::Sent { result: Err("pipe".to_string()), now: 5 });
    assert!(matches!(&e[..], [Effect::StopSession, Effect::Publish]));
    assert_eq!(text(&w).as_deref(), Some("额度查询发送失败：pipe"));
    assert_eq!(w.frontend().snapshot.as_deref(), Some("snapshot"));
}

#[test]
fn only_one_read_at_a_time() {
    let mut w = connected();
    w.step(In::Refresh);
    w.step(In::Sent { result: Ok(()), now: 5 });
    let e = w.step(In::Refresh);
    assert!(e.is_empty());
}

#[test]
fn updated_notification_reads_again() {
    let mut w = connected();
    let e = w.step(line(1, UPDATED, None, 0));
    assert!(matches!(&e[..], [Effect::Send(Outgoing::ReadRateLimits { id: 11 })]));
}

#[test]
fn error_response_fails_connection_but_keeps_session() {
    let mut w = connected();
    w.step(In::Refresh);
    w.step(In::Sent { result: Ok(()), now: 5 });
    let e = w.step(line(1, r#"{"id":11,"error":{"code":-32000,"message":"rate limited"}}"#, None, 0));
    assert!(matches!(&e[..], [Effect::Publish]));
    assert_eq!(text(&w).as_deref(), Some("rate limited"));
    assert_eq!(status(&w), ConnectionStatus::Failed);
    let e = w.step(In::Refresh);
    assert!(matches!(&e[..], [Effect::Send(Outgoing::ReadRateLimits { id: 12 })]));
}

#[test]
fn error_without_message_is_unknown() {
    let mut w = connected();
    w.step(line(1, r#"{"error":{"code":-32600}}"#, None, 0));
    assert_eq!(text(&w).as_deref(), Some("未知 App Server 错误"));
}

#[test]
fn undecodable_quota_is_reported() {
    let mut w = connected();
    w.step(line(1, r#"{"id":12,"result":{"rateLimits":{"primary":"bad"}}}"#, Some(Err("missing field".to_string())), 0));
    assert_eq!(text(&w).as_deref(), Some("无法解析额度数据：missing field"));
    assert_eq!(w.frontend().snapshot.as_deref(), Some("snapshot"));
}

#[test]
fn results_without_quota_are_ignored() {
    let mut w = connected();
    let e = w.step(line(1, r#"{"id":7,"result":{"account":null}}"#, Some(Err("missing field `rateLimits`".to_string())), 0));
    assert!(e.is_empty());
    let e = w.step(line(1, "not json", None, 0));
    assert!(e.is_empty());
    let e = w.step(line(1, "{}", None, 0));
    assert!(e.is_empty());
}

#[test]
fn output_of_an_old_process_is_ignored() {
    let mut w = connected();
    let e = w.step(In::Eof { generation: 7, exit_code: Some(1) });
    assert!(e.is_empty());
    let e = w.step(line(0, UPDATED, None, 0));
    assert!(e.is_empty());
    assert_eq!(status(&w), ConnectionStatus::Connected);
}

#[test]
fn exit_reports_last_error_line() {
    let mut w = connected();
    w.step(In::Stderr { generation: 1, line: "first problem".to_string() });
    w.step(In::Stderr { generation: 1, line: "WARNING: proceeding, even though".to_string() });
    w.step(In::Stderr { generation: 1, line: "   ".to_string() });
    w.step(In::Stderr { generation: 1, line: "fatal: not logged in".to_string() });
    let e = w.step(In::Eof { generation: 1, exit_code: Some(1) });
    assert!(matches!(&e[..], [Effect::StopSession, Effect::Publish]));
    assert_eq!(text(&w).as_deref(), Some("fatal: not logged in"));
    assert_eq!(status(&w), ConnectionStatus::Failed);
    assert_eq!(w.frontend().snapshot.as_deref(), Some("snapshot"));
}

#[test]
fn exit_without_error_output_reports_exit_code() {
    let mut w = connected();
    w.step(In::Eof { generation: 1, exit_code: Some(-2) });
    assert_eq!(text(&w).as_deref(), Some("Codex App Server 已退出（状态码 -2）"));
    let mut w = connected();
    w.step(In::Eof { generation: 1, exit_code: None });
    assert_eq!(text(&w).as_deref(), Some("Codex App Server 已退出"));
}

#[test]
fn exit_detail_takes_the_last_non_blank_line() {
    assert_eq!(exit_detail_text("a\r\nb\r\n  \n", Some(3)), "b");
    assert_eq!(exit_detail_text("only\r", None), "only\r");
    assert_eq!(exit_detail_text("", Some(0)), "Codex App Server 已退出（状态码 0）");
    assert_eq!(exit_detail_text(" \n\t", Some(127)), "Codex App Server 已退出（状态码 127）");
    assert_eq!(exit_detail_text("", Some(-1)), "Codex App Server 已退出（状态码 -1）");
    assert_eq!(exit_detail_text("", Some(i32::MIN)), "Codex App Server 已退出（状态码 -2147483648）");
    assert_eq!(exit_detail_text("", Some(i32::MAX)), "Codex App Server 已退出（状态码 2147483647）");
}

#[test]
fn error_output_keeps_its_last_2000_bytes() {
    assert_eq!(append_error_line("", "x"), "x");
    assert_eq!(append_error_line("a", "b"), "a\nb");
    let long = "x".repeat(1990);
    let t = append_error_line(&long, "0123456789abc");
    assert_eq!(t.len(), 2000);
    assert!(t.ends_with("0123456789abc"));
    assert!(t.starts_with("xxx"));
}

#[test]
fn cutting_inside_a_character_is_refused() {
    let mut w = connected();
    w.step(In::Stderr { generation: 1, line: "é".repeat(1000) });
    let cut = In::Stderr { generation: 1, line: "xy".to_string() };
    assert!(w.splits_char(&cut));
    let fine = In::Stderr { generation: 1, line: "x".to_string() };
    assert!(!w.splits_char(&fine));
    w.step(fine);
}

#[test]
fn handshake_timeout_fails() {
    let mut w = worker();
    w.step(In::Connect);
    w.step(In::Located { spec: Some(direct("codex")), now: 1 });
    w.step(In::Spawned { outcome: SpawnOutcome::Started, now: 1000 });
    let e = w.step(In::Tick { now: 20_999 });
    assert!(e.is_empty());
    let e = w.step(In::Tick { now: 21_000 });
    assert!(matches!(&e[..], [Effect::StopSession, Effect::Publish]));
    assert_eq!(text(&w).as_deref(), Some("连接 Codex 超时。请确认已经登录 Codex。"));
}

#[test]
fn request_timeout_fails_connection() {
    let mut w = connected();
    w.step(In::Refresh);
    w.step(In::Sent { result: Ok(()), now: 100 });
    let e = w.step(In::Tick { now: 25_099 });
    assert!(e.is_empty());
    let e = w.step(In::Tick { now: 25_100 });
    assert!(matches!(&e[..], [Effect::Publish]));
    assert_eq!(text(&w).as_deref(), Some("额度查询超时，稍后会自动重试。"));
    let e = w.step(In::Refresh);
    assert!(matches!(&e[..], [Effect::Send(Outgoing::ReadRateLimits { .. })]));
}

#[test]
fn automatic_refresh_follows_the_settings_interval() {
    let settings = AppSettings { refresh_interval_secs: 30, ..AppSettings::default() };
    let mut w: Worker<String> = Worker::new("linux".to_string(), settings, 1_000);
    assert!(w.step(In::Tick { now: 30_999 }).is_empty());
    let e = w.step(In::Tick { now: 31_000 });
    assert!(matches!(&e[..], [Effect::Locate { .. }]));
    w.step(In::Located { spec: None, now: 31_500 });
    assert!(w.step(In::Tick { now: 61_499 }).is_empty());
    let e = w.step(In::Tick { now: 61_500 });
    assert!(matches!(&e[..], [Effect::Locate { .. }]));
}

#[test]
fn events_are_dropped_while_waiting() {
    let mut w = worker();
    w.step(In::Connect);
    assert!(w.step(In::Refresh).is_empty());
    assert!(w.step(In::Disconnect).is_empty());
    assert!(w.step(In::Sent { result: Ok(()), now: 0 }).is_empty());
    assert!(w.is_awaiting());
}

#[test]
fn reconnect_stops_and_connects() {
    let mut w = connected();
    let e = w.step(In::Reconnect);
    assert!(matches!(&e[..], [Effect::StopSession, Effect::Locate { .. }]));
    let e = w.step(In::Located { spec: Some(direct("codex")), now: 9 });
    assert!(matches!(e.last(), Some(Effect::Spawn { generation: 2, greeting: Outgoing::Initialize, .. })));
}

#[test]
fn connect_with_a_session_does_nothing() {
    let mut w = connected();
    assert!(w.step(In::Connect).is_empty());
}

#[test]
fn disconnect_keeps_executable_and_snapshot() {
    let mut w = connected();
    let e = w.step(In::Disconnect);
    assert!(matches!(&e[..], [Effect::StopSession, Effect::Publish]));
    assert_eq!(status(&w), ConnectionStatus::Disconnected);
    assert_eq!(w.frontend().connection.executable.as_deref(), Some("codex"));
    assert_eq!(w.frontend().snapshot.as_deref(), Some("snapshot"));
    let e = w.step(In::Disconnect);
    assert!(matches!(&e[..], [Effect::Publish]));
}

#[test]
fn closing_the_commands_stops_everything() {
    let mut w = connected();
    let e = w.step(In::CommandsClosed);
    assert!(matches!(&e[..], [Effect::StopSession, Effect::Exit]));
    let mut w = worker();
    let e = w.step(In::CommandsClosed);
    assert!(matches!(&e[..], [Effect::Exit]));
}

#[test]
fn settings_updates_are_published() {
    let mut w = worker();
    let settings = AppSettings { widget_visible: true, ..AppSettings::default() };
    let e = w.step(In::UpdateSettings(settings));
    assert!(matches!(&e[..], [Effect::Publish]));
    assert!(w.frontend().settings.widget_visible);
    let e = w.step(In::RefreshUi);
    assert!(matches!(&e[..], [Effect::Publish]));
}

#[test]
fn keyed_only_quota_is_shown() {
    let mut w = connected();
    w.step(In::Refresh);
    w.step(In::Sent { result: Ok(()), now: 5 });
    let e = w.step(line(
        1,
        r#"{"id":11,"result":{"rateLimitsByLimitId":{"codex":{"primary":{"usedPercent":12,"windowDurationMins":10080}}}}}"#,
        Some(Ok("keyed".to_string())),
        1234,
    ));
    assert!(matches!(&e[..], [Effect::Publish]));
    assert_eq!(w.frontend().snapshot.as_deref(), Some("keyed"));
    assert_eq!(w.frontend().last_updated, Some(1234));
    assert_eq!(status(&w), ConnectionStatus::Connected);
    let e = w.step(In::Refresh);
    assert!(matches!(&e[..], [Effect::Send(Outgoing::ReadRateLimits { id: 12 })]));
}

#[test]
fn other_limit_ids_alone_are_not_quota() {
    let mut w = connected();
    let e = w.step(line(
        1,
        r#"{"id":11,"result":{"rateLimitsByLimitId":{"other":{}}}}"#,
        Some(Ok("other".to_string())),
        5,
    ));
    assert!(e.is_empty());
    assert_eq!(w.frontend().snapshot.as_deref(), Some("snapshot"));
}

#[test]
fn json_lines_are_read_member_by_member() {
    let m = incoming_message::<String>(
        r#"{"id":3,"method":"x/y","result":{"rateLimits":null},"error":{"message":"boom"}}"#,
        Some(Ok("s".to_string())),
    )
    .unwrap();
    assert_eq!(m.method.as_deref(), Some("x/y"));
    assert_eq!(m.id, Some(3));
    assert!(m.has_result);
    assert_eq!(m.error.unwrap().message.as_deref(), Some("boom"));
    assert_eq!(m.rate_limits, Some(Ok("s".to_string())));

    let m = incoming_message::<String>(r#"{"id":"7","method":5,"error":{"message":1}}"#, None).unwrap();
    assert_eq!(m.method, None);
    assert_eq!(m.id, None);
    assert!(!m.has_result);
    assert_eq!(m.error.unwrap().message, None);
    assert_eq!(m.rate_limits, None);

    let m = incoming_message::<String>(r#"{"id":9,"result":{}}"#, Some(Ok("s".to_string()))).unwrap();
    assert_eq!(m.rate_limits, None);
    assert!(m.error.is_none());

    assert!(incoming_message::<String>("not json", None).is_none());
    assert!(incoming_message::<String>("", None).is_none());
}

#[test]
fn messages_to_the_app_server() {
    let init = request_parts(Outgoing::Initialize);
    assert_eq!(init.method, "initialize");
    assert_eq!(init.id, Some(1));
    assert_eq!(
        init.params,
        RequestParams::ClientInfo {
            name: "codex_quota_widget".to_string(),
            title: "Codex Quota Tool".to_string()
        }
    );
    let done = request_parts(Outgoing::Initialized);
    assert_eq!(done.method, "initialized");
    assert_eq!(done.id, None);
    assert_eq!(done.params, RequestParams::Empty);
    let read = request_parts(Outgoing::ReadRateLimits { id: 10 });
    assert_eq!(read.method, "account/rateLimits/read");
    assert_eq!(read.id, Some(10));
    assert_eq!(read.params, RequestParams::Absent);
}

#[test]
fn request_ids_count_up_from_ten() {
    let mut w = connected();
    let mut ids = Vec::new();
    for now in 0..3u64 {
        match &w.step(In::Refresh)[..] {
            [Effect::Send(Outgoing::ReadRateLimits { id })] => ids.push(*id),
            other => panic!("unexpected {:?}", other),
        }
        w.step(In::Sent { result: Ok(()), now });
        w.step(line(1, r#"{"id":0,"result":{"rateLimits":{}}}"#, Some(Ok("s".to_string())), now));
    }
    assert_eq!(ids, vec![11, 12, 13]);
}
