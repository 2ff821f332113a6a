//! The quota worker: the decisions of the App Server session as a state machine.
//!
//! The host runs the worker: it hands each event to `Worker::step`, performs the
//! effects that come back in order, and when the last effect waits for an
//! answer (locating the executable, starting the App Server, sending a message)
//! it hands that answer back as the next event before anything else.
use serde_json::Value;
use vstd::prelude::*;
use crate::launcher::{LaunchSpec, LaunchSpecView};
use crate::models::{
    AppSettings, AppSettingsView, ConnectionState, ConnectionStateView, ConnectionStatus,
    clamp_refresh, clamp_refresh_secs, opt_chars, clone_opt_string,
};
use crate::text::{
    all_white_space, chars_in_bytes, char_index_at_byte, contains_text, contains_text_exec,
    decimal, decimal_text, is_blank, is_utf8_boundary, last_non_blank_line,
    last_non_blank_line_exec, opt_text, string_from_chars, chars_of, utf8_len, utf8_len_exec,
};

verus! {

/// The request id of the `initialize` handshake.
pub const INITIALIZE_REQUEST_ID: i64 = 1;

/// The id of the first quota request.
pub const FIRST_REQUEST_ID: i64 = 10;

/// How long the App Server has to answer the handshake, in milliseconds.
pub const INITIALIZE_TIMEOUT_MS: u64 = 20_000;

/// How long the App Server has to answer a quota request, in milliseconds.
pub const REQUEST_TIMEOUT_MS: u64 = 25_000;

/// How many bytes of the App Server's error output are kept.
pub const ERROR_TAIL_BYTES: u128 = 2_000;

/// What the host shows: connection, last quota snapshot, when it was read,
/// the platform and the settings.
pub struct FrontendState<S> {
    pub connection: ConnectionState,
    pub snapshot: Option<S>,
    pub last_updated: Option<u64>,
    pub platform: String,
    pub settings: AppSettings,
}

pub struct FrontendView<S> {
    pub connection: ConnectionStateView,
    pub snapshot: Option<S>,
    pub last_updated: Option<u64>,
    pub platform: Seq<char>,
    pub settings: AppSettingsView,
}

impl<S> View for FrontendState<S> {
    type V = FrontendView<S>;

    open spec fn view(&self) -> FrontendView<S> {
        FrontendView {
            connection: self.connection@,
            snapshot: self.snapshot,
            last_updated: self.last_updated,
            platform: self.platform@,
            settings: self.settings@,
        }
    }
}

/// The running App Server as the worker sees it.
pub struct Session {
    pub generation: u64,
    pub executable: String,
    pub initialized: bool,
    pub initialize_deadline: u64,
    pub pending_request: Option<(i64, u64)>,
}

pub struct SessionView {
    pub generation: u64,
    pub executable: Seq<char>,
    pub initialized: bool,
    pub initialize_deadline: u64,
    pub pending_request: Option<(i64, u64)>,
}

impl View for Session {
    type V = SessionView;

    open spec fn view(&self) -> SessionView {
        SessionView {
            generation: self.generation,
            executable: self.executable@,
            initialized: self.initialized,
            initialize_deadline: self.initialize_deadline,
            pending_request: self.pending_request,
        }
    }
}

/// The view of an optional session.
pub open spec fn opt_session(o: Option<Session>) -> Option<SessionView> {
    match o {
        Some(s) => Some(s@),
        None => None,
    }
}

/// The answer the worker waits for.
pub enum Awaiting {
    Locate,
    Spawn { generation: u64, executable: String },
    SendInitialized,
    SendRead { id: i64 },
}

pub enum AwaitingView {
    Locate,
    Spawn { generation: u64, executable: Seq<char> },
    SendInitialized,
    SendRead { id: i64 },
}

impl View for Awaiting {
    type V = AwaitingView;

    open spec fn view(&self) -> AwaitingView {
        match self {
            Awaiting::Locate => AwaitingView::Locate,
            Awaiting::Spawn { generation, executable } => AwaitingView::Spawn {
                generation: *generation,
                executable: executable@,
            },
            Awaiting::SendInitialized => AwaitingView::SendInitialized,
            Awaiting::SendRead { id } => AwaitingView::SendRead { id: *id },
        }
    }
}

pub open spec fn opt_awaiting(o: Option<Awaiting>) -> Option<AwaitingView> {
    match o {
        Some(a) => Some(a@),
        None => None,
    }
}

/// A message to the App Server.
#[derive(Clone, Copy, Debug, PartialEq, Eq, Structural)]
pub enum Outgoing {
    /// The `initialize` request (id `INITIALIZE_REQUEST_ID`) that opens the handshake.
    Initialize,
    /// The `initialized` notification that completes the handshake.
    Initialized,
    /// The `account/rateLimits/read` request with the given id.
    ReadRateLimits { id: i64 },
}

/// What the host does for the worker.
#[derive(Debug)]
pub enum Effect<P> {
    /// Look for the Codex executable, the configured path first; answer `Located`.
    Locate { configured: Option<String> },
    /// Start the App Server and send it `greeting` (always `Outgoing::Initialize`);
    /// answer `Spawned`.
    Spawn { spec: LaunchSpec<P>, generation: u64, greeting: Outgoing },
    /// Send a message to the App Server; answer `Sent`.
    Send(Outgoing),
    /// Kill the running App Server and wait for it.
    StopSession,
    /// Show the current frontend state and update the tray.
    Publish,
    /// Stop the worker.
    Exit,
}

pub enum EffectView<P> {
    Locate { configured: Option<Seq<char>> },
    Spawn { spec: LaunchSpecView<P>, generation: u64, greeting: Outgoing },
    Send(Outgoing),
    StopSession,
    Publish,
    Exit,
}

impl<P> View for Effect<P> {
    type V = EffectView<P>;

    open spec fn view(&self) -> EffectView<P> {
        match self {
            Effect::Locate { configured } => EffectView::Locate { configured: opt_chars(*configured) },
            Effect::Spawn { spec, generation, greeting } => EffectView::Spawn {
                spec: spec@,
                generation: *generation,
                greeting: *greeting,
            },
            Effect::Send(m) => EffectView::Send(*m),
            Effect::StopSession => EffectView::StopSession,
            Effect::Publish => EffectView::Publish,
            Effect::Exit => EffectView::Exit,
        }
    }
}

/// The views of a list of effects.
pub open spec fn effects_view<P>(v: Seq<Effect<P>>) -> Seq<EffectView<P>> {
    v.map_values(|e: Effect<P>| e@)
}

/// Whether an effect waits for an answer.
pub open spec fn awaits_answer<P>(e: EffectView<P>) -> bool {
    e is Locate || e is Spawn || e is Send
}

/// How starting the App Server went.
#[derive(Debug)]
pub enum SpawnOutcome {
    Started,
    SpawnFailed(String),
    NoStdin,
    NoStdout,
    NoStderr,
    InitializeFailed(String),
}

pub enum SpawnOutcomeView {
    Started,
    SpawnFailed(Seq<char>),
    NoStdin,
    NoStdout,
    NoStderr,
    InitializeFailed(Seq<char>),
}

impl View for SpawnOutcome {
    type V = SpawnOutcomeView;

    open spec fn view(&self) -> SpawnOutcomeView {
        match self {
            SpawnOutcome::Started => SpawnOutcomeView::Started,
            SpawnOutcome::SpawnFailed(e) => SpawnOutcomeView::SpawnFailed(e@),
            SpawnOutcome::NoStdin => SpawnOutcomeView::NoStdin,
            SpawnOutcome::NoStdout => SpawnOutcomeView::NoStdout,
            SpawnOutcome::NoStderr => SpawnOutcomeView::NoStderr,
            SpawnOutcome::InitializeFailed(e) => SpawnOutcomeView::InitializeFailed(e@),
        }
    }
}

/// The `error` member of an App Server message, with its `message` text if it has one.
#[derive(Debug)]
pub struct RpcError {
    pub message: Option<String>,
}

/// What the worker reads of one JSON-RPC line from the App Server:
/// the `method` text, the `id` as an integer, whether a `result` member is there,
/// the `error` member, and, when the result carries quota (a `rateLimits` member or
/// a `rateLimitsByLimitId.codex` member), the result decoded as a quota snapshot or
/// the decoding error.
#[derive(Debug)]
pub struct IncomingMessage<S> {
    pub method: Option<String>,
    pub id: Option<i64>,
    pub has_result: bool,
    pub error: Option<RpcError>,
    pub rate_limits: Option<Result<S, String>>,
}

pub struct IncomingView<S> {
    pub method: Option<Seq<char>>,
    pub id: Option<i64>,
    pub has_result: bool,
    pub error: Option<Option<Seq<char>>>,
    pub rate_limits: Option<Result<S, Seq<char>>>,
}

impl<S> View for IncomingMessage<S> {
    type V = IncomingView<S>;

    open spec fn view(&self) -> IncomingView<S> {
        IncomingView {
            method: opt_chars(self.method),
            id: self.id,
            has_result: self.has_result,
            error: match self.error {
                Some(e) => Some(opt_chars(e.message)),
                None => None,
            },
            rate_limits: match self.rate_limits {
                Some(Ok(s)) => Some(Ok(s)),
                Some(Err(e)) => Some(Err(e@)),
                None => None,
            },
        }
    }
}

/// An event for the worker.
pub enum Input<S, P> {
    Connect,
    Refresh,
    Reconnect,
    Disconnect,
    UpdateSettings(AppSettings),
    RefreshUi,
    CommandsClosed,
    /// A line on the App Server's standard output, with its `result` member decoded
    /// as a quota snapshot (`None` when the line has no result or is not JSON);
    /// `wall_millis` is the wall-clock time in milliseconds since the Unix epoch.
    Line { generation: u64, line: String, snapshot: Option<Result<S, String>>, wall_millis: u64 },
    /// A line on the App Server's error output.
    Stderr { generation: u64, line: String },
    /// The App Server's standard output ended; `exit_code` is its exit code if it has exited.
    Eof { generation: u64, exit_code: Option<i32> },
    /// The periodic check; `now` is monotonic time in milliseconds.
    Tick { now: u64 },
    /// The answer to `Effect::Locate`.
    Located { spec: Option<LaunchSpec<P>>, now: u64 },
    /// The answer to `Effect::Spawn`.
    Spawned { outcome: SpawnOutcome, now: u64 },
    /// The answer to `Effect::Send`.
    Sent { result: Result<(), String>, now: u64 },
}

pub enum InputView<S, P> {
    Connect,
    Refresh,
    Reconnect,
    Disconnect,
    UpdateSettings(AppSettingsView),
    RefreshUi,
    CommandsClosed,
    Line { generation: u64, line: Seq<char>, snapshot: Option<Result<S, Seq<char>>>, wall_millis: u64 },
    Stderr { generation: u64, line: Seq<char> },
    Eof { generation: u64, exit_code: Option<i32> },
    Tick { now: u64 },
    Located { spec: Option<LaunchSpecView<P>>, now: u64 },
    Spawned { outcome: SpawnOutcomeView, now: u64 },
    Sent { result: Result<(), Seq<char>>, now: u64 },
}

impl<S, P> View for Input<S, P> {
    type V = InputView<S, P>;

    open spec fn view(&self) -> InputView<S, P> {
        match self {
            Input::Connect => InputView::Connect,
            Input::Refresh => InputView::Refresh,
            Input::Reconnect => InputView::Reconnect,
            Input::Disconnect => InputView::Disconnect,
            Input::UpdateSettings(s) => InputView::UpdateSettings(s@),
            Input::RefreshUi => InputView::RefreshUi,
            Input::CommandsClosed => InputView::CommandsClosed,
            Input::Line { generation, line, snapshot, wall_millis } => InputView::Line {
                generation: *generation,
                line: line@,
                snapshot: decoded_view(*snapshot),
                wall_millis: *wall_millis,
            },
            Input::Stderr { generation, line } => InputView::Stderr {
                generation: *generation,
                line: line@,
            },
            Input::Eof { generation, exit_code } => InputView::Eof {
                generation: *generation,
                exit_code: *exit_code,
            },
            Input::Tick { now } => InputView::Tick { now: *now },
            Input::Located { spec, now } => InputView::Located {
                spec: match spec {
                    Some(s) => Some(s@),
                    None => None,
                },
                now: *now,
            },
            Input::Spawned { outcome, now } => InputView::Spawned { outcome: outcome@, now: *now },
            Input::Sent { result, now } => InputView::Sent {
                result: match result {
                    Ok(()) => Ok(()),
                    Err(e) => Err(e@),
                },
                now: *now,
            },
        }
    }
}

/// The members of one App Server line that the worker reads, as `read_json_line`
/// finds them: `method` as text, `id` as an integer, whether `result` and `error`
/// are there, `error.message` as text, and whether `result.rateLimits` and
/// `result.rateLimitsByLimitId.codex` are there.
#[derive(Debug)]
pub struct JsonLineFields {
    pub method: Option<String>,
    pub id: Option<i64>,
    pub has_result: bool,
    pub has_error: bool,
    pub error_message: Option<String>,
    pub has_rate_limits: bool,
    pub has_keyed_codex: bool,
}

/// The view of `JsonLineFields`, in field order.
pub open spec fn json_fields_view(r: Option<JsonLineFields>) -> Option<
    (Option<Seq<char>>, Option<i64>, bool, bool, Option<Seq<char>>, bool, bool),
> {
    match r {
        Some(f) => Some(
            (
                opt_chars(f.method),
                f.id,
                f.has_result,
                f.has_error,
                opt_chars(f.error_message),
                f.has_rate_limits,
                f.has_keyed_codex,
            ),
        ),
        None => None,
    }
}

/// The members that a line of JSON text holds (see `JsonLineFields`), or `None`
/// when the line is not JSON.
pub uninterp spec fn json_line_fields(line: Seq<char>) -> Option<
    (Option<Seq<char>>, Option<i64>, bool, bool, Option<Seq<char>>, bool, bool),
>;

/// `serde_json::from_str::<Value>` on `line`, then the member look-ups
/// `Value::get`, `Value::pointer`, `Value::as_str` and `Value::as_i64` that
/// `JsonLineFields` lists. The contract names the result: the same line always
/// gives the same fields; what JSON parsing finds is not spelled out.
#[verifier::external_body]
pub(crate) fn read_json_line(line: &str) -> (r: Option<JsonLineFields>)
    ensures
        json_fields_view(r) == json_line_fields(line@),
{
    let v: Value = serde_json::from_str(line).ok()?;
    Some(JsonLineFields {
        method: v.get("method").and_then(Value::as_str).map(str::to_owned),
        id: v.get("id").and_then(Value::as_i64),
        has_result: v.get("result").is_some(),
        has_error: v.get("error").is_some(),
        error_message: v.pointer("/error/message").and_then(Value::as_str).map(str::to_owned),
        has_rate_limits: v.pointer("/result/rateLimits").is_some(),
        has_keyed_codex: v.pointer("/result/rateLimitsByLimitId/codex").is_some(),
    })
}

/// The view of a decoded snapshot.
pub open spec fn decoded_view<S>(d: Option<Result<S, String>>) -> Option<Result<S, Seq<char>>> {
    match d {
        Some(Ok(s)) => Some(Ok(s)),
        Some(Err(e)) => Some(Err(e@)),
        None => None,
    }
}

/// The view of an optional message.
pub open spec fn opt_incoming<S>(m: Option<IncomingMessage<S>>) -> Option<IncomingView<S>> {
    match m {
        Some(v) => Some(v@),
        None => None,
    }
}

/// The message that a line with members `f` makes, given its decoded snapshot:
/// the quota part is there exactly when the line has a result carrying
/// `rateLimits` or `rateLimitsByLimitId.codex`.
pub open spec fn incoming_from_fields<S>(
    f: Option<(Option<Seq<char>>, Option<i64>, bool, bool, Option<Seq<char>>, bool, bool)>,
    decoded: Option<Result<S, Seq<char>>>,
) -> Option<IncomingView<S>> {
    match f {
        None => None,
        Some((method, id, has_result, has_error, error_message, has_rate_limits, has_keyed_codex)) => Some(
            IncomingView {
                method,
                id,
                has_result,
                error: if has_error {
                    Some(error_message)
                } else {
                    None
                },
                rate_limits: if has_result && (has_rate_limits || has_keyed_codex) {
                    decoded
                } else {
                    None
                },
            },
        ),
    }
}

/// What the worker reads of one line of App Server output (`None` when it is
/// not JSON); `decoded` is the line's result decoded as a quota snapshot.
pub fn incoming_message<S>(line: &str, decoded: Option<Result<S, String>>) -> (r: Option<
    IncomingMessage<S>,
>)
    ensures
        opt_incoming(r) == incoming_from_fields(json_line_fields(line@), decoded_view(decoded)),
{
    match read_json_line(line) {
        None => None,
        Some(f) => {
            let quota = f.has_result && (f.has_rate_limits || f.has_keyed_codex);
            let rate_limits = if quota {
                decoded
            } else {
                None
            };
            let error = if f.has_error {
                Some(RpcError { message: f.error_message })
            } else {
                None
            };
            Some(
                IncomingMessage {
                    method: f.method,
                    id: f.id,
                    has_result: f.has_result,
                    error,
                    rate_limits,
                },
            )
        },
    }
}

/// The quota worker.
pub struct Worker<S> {
    session: Option<Session>,
    generation: u64,
    next_request_id: i64,
    error_tail: String,
    frontend: FrontendState<S>,
    next_auto_refresh: u64,
    awaiting: Option<Awaiting>,
    reschedule: bool,
}

pub struct WorkerView<S> {
    pub session: Option<SessionView>,
    pub generation: u64,
    pub next_request_id: i64,
    pub error_tail: Seq<char>,
    pub frontend: FrontendView<S>,
    pub next_auto_refresh: u64,
    pub awaiting: Option<AwaitingView>,
    pub reschedule: bool,
}

impl<S> View for Worker<S> {
    type V = WorkerView<S>;

    closed spec fn view(&self) -> WorkerView<S> {
        WorkerView {
            session: opt_session(self.session),
            generation: self.generation,
            next_request_id: self.next_request_id,
            error_tail: self.error_tail@,
            frontend: self.frontend@,
            next_auto_refresh: self.next_auto_refresh,
            awaiting: opt_awaiting(self.awaiting),
            reschedule: self.reschedule,
        }
    }
}

// ---------------------------------------------------------------------------
// Texts
// ---------------------------------------------------------------------------
pub open spec fn not_found_text() -> Seq<char> {
    "找不到 Codex。请安装 Codex CLI，或设置 CODEX_BINARY。"@
}

pub open spec fn spawn_failure_text(o: SpawnOutcomeView) -> Seq<char> {
    match o {
        SpawnOutcomeView::SpawnFailed(e) => "无法启动 Codex App Server："@ + e,
        SpawnOutcomeView::NoStdin => "Codex 输入通道不可用"@,
        SpawnOutcomeView::NoStdout => "Codex 输出通道不可用"@,
        SpawnOutcomeView::NoStderr => "Codex 错误通道不可用"@,
        SpawnOutcomeView::InitializeFailed(e) => "无法初始化 Codex App Server："@ + e,
        SpawnOutcomeView::Started => Seq::empty(),
    }
}

pub open spec fn exit_status_text(code: Option<i32>) -> Seq<char> {
    match code {
        Some(c) => "（状态码 "@ + decimal(c as int) + "）"@,
        None => Seq::empty(),
    }
}

/// Why the App Server stopped: the last line of its error output that holds more
/// than white space, else that it exited, with its exit code when known.
pub open spec fn exit_detail(tail: Seq<char>, code: Option<i32>) -> Seq<char> {
    match last_non_blank_line(tail, false) {
        Some(line) => line,
        None => "Codex App Server 已退出"@ + exit_status_text(code),
    }
}

fn owned(s: &str) -> (r: String)
    ensures
        r@ == s@,
{
    s.to_owned()
}

fn joined(a: &str, b: &str) -> (r: String)
    ensures
        r@ == a@ + b@,
{
    let mut r = owned(a);
    r.append(b);
    r
}

/// The `params` member of a message to the App Server.
#[derive(Debug, PartialEq, Eq)]
pub enum RequestParams {
    /// No `params` member.
    Absent,
    /// `params` is the empty object.
    Empty,
    /// `params` is `{"clientInfo": {"name", "title", "version"}}`, the version being
    /// the host's own.
    ClientInfo { name: String, title: String },
}

/// A message to the App Server, member by member.
#[derive(Debug, PartialEq, Eq)]
pub struct RequestParts {
    pub method: String,
    pub id: Option<i64>,
    pub params: RequestParams,
}

pub enum RequestParamsView {
    Absent,
    Empty,
    ClientInfo { name: Seq<char>, title: Seq<char> },
}

impl View for RequestParts {
    type V = (Seq<char>, Option<i64>, RequestParamsView);

    open spec fn view(&self) -> (Seq<char>, Option<i64>, RequestParamsView) {
        (
            self.method@,
            self.id,
            match self.params {
                RequestParams::Absent => RequestParamsView::Absent,
                RequestParams::Empty => RequestParamsView::Empty,
                RequestParams::ClientInfo { name, title } => RequestParamsView::ClientInfo {
                    name: name@,
                    title: title@,
                },
            },
        )
    }
}

/// The method, id and parameters of each message: `initialize` with id 1 and the
/// client's name and title; `initialized` with empty parameters; and
/// `account/rateLimits/read` with its id.
pub open spec fn request_parts_for(m: Outgoing) -> (Seq<char>, Option<i64>, RequestParamsView) {
    match m {
        Outgoing::Initialize => (
            "initialize"@,
            Some(INITIALIZE_REQUEST_ID),
            RequestParamsView::ClientInfo { name: "codex_quota_widget"@, title: "Codex Quota Tool"@ },
        ),
        Outgoing::Initialized => ("initialized"@, None, RequestParamsView::Empty),
        Outgoing::ReadRateLimits { id } => ("account/rateLimits/read"@, Some(id), RequestParamsView::Absent),
    }
}

/// The members of message `m` (see `request_parts_for`).
pub fn request_parts(m: Outgoing) -> (r: RequestParts)
    ensures
        r@ == request_parts_for(m),
{
    match m {
        Outgoing::Initialize => RequestParts {
            method: owned("initialize"),
            id: Some(INITIALIZE_REQUEST_ID),
            params: RequestParams::ClientInfo {
                name: owned("codex_quota_widget"),
                title: owned("Codex Quota Tool"),
            },
        },
        Outgoing::Initialized => RequestParts {
            method: owned("initialized"),
            id: None,
            params: RequestParams::Empty,
        },
        Outgoing::ReadRateLimits { id } => RequestParts {
            method: owned("account/rateLimits/read"),
            id: Some(id),
            params: RequestParams::Absent,
        },
    }
}

// ---------------------------------------------------------------------------
// The state machine, as spec functions over views
// ---------------------------------------------------------------------------
/// `t + d`, or the largest time when that does not fit.
pub open spec fn later(t: u64, d: u64) -> u64 {
    if t > u64::MAX - d {
        u64::MAX
    } else {
        (t + d) as u64
    }
}

pub open spec fn next_generation(g: u64) -> u64 {
    if g == u64::MAX {
        0
    } else {
        (g + 1) as u64
    }
}

pub open spec fn next_id(id: i64) -> i64 {
    if id == i64::MAX {
        i64::MIN
    } else {
        (id + 1) as i64
    }
}

/// The automatic refresh interval in milliseconds, taken from the settings.
pub open spec fn refresh_interval_ms(s: AppSettingsView) -> u64 {
    (clamp_refresh(s.refresh_interval_secs) * 1000) as u64
}

/// The worker before any event: no session, generation 0, the first request id,
/// no error output, disconnected and the first automatic refresh one interval after `now`.
pub open spec fn initial_model<S>(platform: Seq<char>, settings: AppSettingsView, now: u64) -> WorkerView<S> {
    WorkerView {
        session: None,
        generation: 0,
        next_request_id: FIRST_REQUEST_ID,
        error_tail: Seq::empty(),
        frontend: FrontendView {
            connection: ConnectionStateView {
                status: ConnectionStatus::Disconnected,
                message: None,
                executable: None,
            },
            snapshot: None,
            last_updated: None,
            platform,
            settings,
        },
        next_auto_refresh: later(now, refresh_interval_ms(settings)),
        awaiting: None,
        reschedule: false,
    }
}

/// Sets the connection status and message; the executable is replaced only by a
/// known one or when none was known. The state is then published.
pub open spec fn set_connection_model<S, P>(
    w: WorkerView<S>,
    status: ConnectionStatus,
    message: Option<Seq<char>>,
    executable: Option<Seq<char>>,
) -> (WorkerView<S>, Seq<EffectView<P>>) {
    let old = w.frontend.connection;
    let exe = if executable is Some || old.executable is None {
        executable
    } else {
        old.executable
    };
    (
        WorkerView {
            frontend: FrontendView {
                connection: ConnectionStateView { status, message, executable: exe },
                ..w.frontend
            },
            ..w
        },
        seq![EffectView::Publish],
    )
}

/// Drops the session, stopping its process.
pub open spec fn stop_session_model<S, P>(w: WorkerView<S>) -> (WorkerView<S>, Seq<EffectView<P>>) {
    if w.session is Some {
        (WorkerView { session: None, ..w }, seq![EffectView::StopSession])
    } else {
        (w, Seq::empty())
    }
}

/// Stops the session and reports `message` as a failure, keeping the session's executable.
pub open spec fn fail_model<S, P>(w: WorkerView<S>, message: Seq<char>) -> (WorkerView<S>, Seq<EffectView<P>>) {
    let exe = match w.session {
        Some(s) => Some(s.executable),
        None => None,
    };
    let (w1, e1) = stop_session_model(w);
    let (w2, e2) = set_connection_model(w1, ConnectionStatus::Failed, Some(message), exe);
    (w2, e1 + e2)
}

/// Starts looking for the executable.
pub open spec fn connect_model<S, P>(w: WorkerView<S>) -> (WorkerView<S>, Seq<EffectView<P>>) {
    (
        WorkerView { awaiting: Some(AwaitingView::Locate), ..w },
        seq![EffectView::Locate { configured: w.frontend.settings.codex_binary_path }],
    )
}

/// Asks for a quota snapshot: connects when there is no session, does nothing before
/// the handshake is done or while a request is pending, else sends a request with the
/// next id.
pub open spec fn refresh_model<S, P>(w: WorkerView<S>) -> (WorkerView<S>, Seq<EffectView<P>>) {
    match w.session {
        None => connect_model(w),
        Some(s) => if !s.initialized || s.pending_request is Some {
            (w, Seq::empty())
        } else {
            let id = w.next_request_id;
            (
                WorkerView {
                    next_request_id: next_id(id),
                    awaiting: Some(AwaitingView::SendRead { id }),
                    ..w
                },
                seq![EffectView::Send(Outgoing::ReadRateLimits { id })],
            )
        },
    }
}

/// The session with no pending request.
pub open spec fn clear_pending(s: Option<SessionView>) -> Option<SessionView> {
    match s {
        Some(v) => Some(SessionView { pending_request: None, ..v }),
        None => None,
    }
}

/// Handles one decoded line of the App Server's standard output.
pub open spec fn handle_line_model<S, P>(w: WorkerView<S>, m: IncomingView<S>, wall_millis: u64) -> (
    WorkerView<S>,
    Seq<EffectView<P>>,
) {
    if m.method == Some("account/rateLimits/updated"@) {
        refresh_model(w)
    } else if m.id == Some(INITIALIZE_REQUEST_ID) && m.has_result {
        if w.session is Some {
            (
                WorkerView { awaiting: Some(AwaitingView::SendInitialized), ..w },
                seq![EffectView::Send(Outgoing::Initialized)],
            )
        } else {
            (w, Seq::empty())
        }
    } else if m.error is Some {
        let detail = match m.error->0 {
            Some(t) => t,
            None => "未知 App Server 错误"@,
        };
        set_connection_model(
            WorkerView { session: clear_pending(w.session), ..w },
            ConnectionStatus::Failed,
            Some(detail),
            None,
        )
    } else if !m.has_result {
        (w, Seq::empty())
    } else {
        match m.rate_limits {
            None => (w, Seq::empty()),
            Some(Ok(snapshot)) => match w.session {
                Some(s) => (
                    WorkerView {
                        session: clear_pending(w.session),
                        frontend: FrontendView {
                            snapshot: Some(snapshot),
                            last_updated: Some(wall_millis),
                            connection: ConnectionStateView {
                                status: ConnectionStatus::Connected,
                                message: None,
                                executable: Some(s.executable),
                            },
                            ..w.frontend
                        },
                        ..w
                    },
                    seq![EffectView::Publish],
                ),
                None => (w, Seq::empty()),
            },
            Some(Err(e)) => set_connection_model(
                w,
                ConnectionStatus::Failed,
                Some("无法解析额度数据："@ + e),
                None,
            ),
        }
    }
}

/// The error output kept after `line` arrived: the earlier output and `line`
/// joined by a line break, cut to its last `ERROR_TAIL_BYTES` bytes.
pub open spec fn joined_tail(tail: Seq<char>, line: Seq<char>) -> Seq<char> {
    if tail.len() == 0 {
        line
    } else {
        tail + seq!['\n'] + line
    }
}

pub open spec fn cut_tail(t: Seq<char>) -> Seq<char> {
    if utf8_len(t) <= ERROR_TAIL_BYTES {
        t
    } else {
        t.subrange(chars_in_bytes(t, utf8_len(t) - ERROR_TAIL_BYTES), t.len() as int)
    }
}

/// Whether a line of error output is kept: not the known harmless warning and not blank.
pub open spec fn keeps_error_line(line: Seq<char>) -> bool {
    !contains_text(line, "WARNING: proceeding"@) && !all_white_space(line)
}

/// Cutting the error output to its last bytes would split a character; the
/// byte-indexed cut then fails.
pub open spec fn tail_cut_splits_char(tail: Seq<char>, line: Seq<char>) -> bool {
    let t = joined_tail(tail, line);
    keeps_error_line(line) && utf8_len(t) > ERROR_TAIL_BYTES && !is_utf8_boundary(
        t,
        utf8_len(t) - ERROR_TAIL_BYTES,
    )
}

/// The event is a line of error output of the current session whose keeping would
/// cut a character apart.
pub open spec fn step_splits_char<S, P>(w: WorkerView<S>, i: InputView<S, P>) -> bool {
    match i {
        InputView::Stderr { generation, line } => w.awaiting is None && (match w.session {
            Some(s) => s.generation == generation,
            None => false,
        }) && tail_cut_splits_char(w.error_tail, line),
        _ => false,
    }
}

/// A request is pending and its deadline has come.
pub open spec fn request_overdue(p: Option<(i64, u64)>, now: u64) -> bool {
    match p {
        Some((_, deadline)) => now >= deadline,
        None => false,
    }
}

/// Fails the session when the handshake or the pending request timed out.
pub open spec fn check_timeouts_model<S, P>(w: WorkerView<S>, now: u64) -> (WorkerView<S>, Seq<EffectView<P>>) {
    match w.session {
        None => (w, Seq::empty()),
        Some(s) => if !s.initialized && now >= s.initialize_deadline {
            fail_model(w, "连接 Codex 超时。请确认已经登录 Codex。"@)
        } else if request_overdue(s.pending_request, now) {
            set_connection_model(
                WorkerView { session: clear_pending(w.session), ..w },
                ConnectionStatus::Failed,
                Some("额度查询超时，稍后会自动重试。"@),
                None,
            )
        } else {
            (w, Seq::empty())
        },
    }
}

/// Once nothing is awaited, a refresh started by the periodic check schedules the next one.
pub open spec fn settle_model<S>(w: WorkerView<S>, now: u64) -> WorkerView<S> {
    if w.awaiting is None && w.reschedule {
        WorkerView {
            reschedule: false,
            next_auto_refresh: later(now, refresh_interval_ms(w.frontend.settings)),
            ..w
        }
    } else {
        w
    }
}

/// Handles the answer the worker waits for.
pub open spec fn answer_model<S, P>(w: WorkerView<S>, i: InputView<S, P>) -> (WorkerView<S>, Seq<EffectView<P>>) {
    let w0 = WorkerView { awaiting: None, ..w };
    match (w.awaiting->0, i) {
        (AwaitingView::Locate, InputView::Located { spec, now }) => match spec {
            None => set_connection_model(w0, ConnectionStatus::Failed, Some(not_found_text()), None),
            Some(sp) => {
                let (w1, e1) = set_connection_model(w0, ConnectionStatus::Connecting, None, Some(sp.display));
                let g = next_generation(w1.generation);
                (
                    WorkerView {
                        generation: g,
                        error_tail: Seq::empty(),
                        awaiting: Some(AwaitingView::Spawn { generation: g, executable: sp.display }),
                        ..w1
                    },
                    e1 + seq![EffectView::Spawn { spec: sp, generation: g, greeting: Outgoing::Initialize }],
                )
            },
        },
        (AwaitingView::Spawn { generation, executable }, InputView::Spawned { outcome, now }) => {
            match outcome {
                SpawnOutcomeView::Started => (
                    WorkerView {
                        session: Some(
                            SessionView {
                                generation,
                                executable,
                                initialized: false,
                                initialize_deadline: later(now, INITIALIZE_TIMEOUT_MS),
                                pending_request: None,
                            },
                        ),
                        ..w0
                    },
                    Seq::empty(),
                ),
                _ => set_connection_model(
                    w0,
                    ConnectionStatus::Failed,
                    Some(spawn_failure_text(outcome)),
                    None,
                ),
            }
        },
        (AwaitingView::SendInitialized, InputView::Sent { result, now }) => match result {
            Err(e) => fail_model(w0, "Codex 握手失败："@ + e),
            Ok(()) => match w0.session {
                Some(s) => {
                    let w1 = WorkerView {
                        session: Some(SessionView { initialized: true, ..s }),
                        ..w0
                    };
                    let (w2, e2) = set_connection_model(
                        w1,
                        ConnectionStatus::Connected,
                        None,
                        Some(s.executable),
                    );
                    let (w3, e3) = refresh_model(w2);
                    (w3, e2 + e3)
                },
                None => (w0, Seq::empty()),
            },
        },
        (AwaitingView::SendRead { id }, InputView::Sent { result, now }) => match result {
            Err(e) => fail_model(w0, "额度查询发送失败："@ + e),
            Ok(()) => match w0.session {
                Some(s) => (
                    WorkerView {
                        session: Some(
                            SessionView {
                                pending_request: Some((id, later(now, REQUEST_TIMEOUT_MS))),
                                ..s
                            },
                        ),
                        ..w0
                    },
                    Seq::empty(),
                ),
                None => (w0, Seq::empty()),
            },
        },
        _ => (w, Seq::empty()),
    }
}

/// The time an answer carries.
pub open spec fn answer_time<S, P>(i: InputView<S, P>) -> u64 {
    match i {
        InputView::Located { now, .. } => now,
        InputView::Spawned { now, .. } => now,
        InputView::Sent { now, .. } => now,
        _ => 0,
    }
}

/// Whether the event answers an effect.
pub open spec fn is_answer<S, P>(i: InputView<S, P>) -> bool {
    i is Located || i is Spawned || i is Sent
}

/// The event belongs to the current session.
pub open spec fn current_generation<S>(w: WorkerView<S>, g: u64) -> bool {
    match w.session {
        Some(s) => s.generation == g,
        None => false,
    }
}

/// Handles an event when no answer is awaited.
pub open spec fn event_model<S, P>(w: WorkerView<S>, i: InputView<S, P>) -> (WorkerView<S>, Seq<EffectView<P>>) {
    match i {
        InputView::Connect => if w.session is None {
            connect_model(w)
        } else {
            (w, Seq::empty())
        },
        InputView::Refresh => refresh_model(w),
        InputView::Reconnect => {
            let (w1, e1) = stop_session_model(w);
            let (w2, e2) = connect_model(w1);
            (w2, e1 + e2)
        },
        InputView::Disconnect => {
            let (w1, e1) = stop_session_model(w);
            let (w2, e2) = set_connection_model(w1, ConnectionStatus::Disconnected, None, None);
            (w2, e1 + e2)
        },
        InputView::UpdateSettings(s) => (
            WorkerView { frontend: FrontendView { settings: s, ..w.frontend }, ..w },
            seq![EffectView::Publish],
        ),
        InputView::RefreshUi => (w, seq![EffectView::Publish]),
        InputView::CommandsClosed => {
            let (w1, e1) = stop_session_model(w);
            (w1, e1 + seq![EffectView::Exit])
        },
        InputView::Line { generation, line, snapshot, wall_millis } => if current_generation(
            w,
            generation,
        ) && incoming_from_fields(json_line_fields(line), snapshot) is Some {
            handle_line_model(w, incoming_from_fields(json_line_fields(line), snapshot)->0, wall_millis)
        } else {
            (w, Seq::empty())
        },
        InputView::Stderr { generation, line } => if current_generation(w, generation)
            && keeps_error_line(line) {
            (
                WorkerView { error_tail: cut_tail(joined_tail(w.error_tail, line)), ..w },
                Seq::empty(),
            )
        } else {
            (w, Seq::empty())
        },
        InputView::Eof { generation, exit_code } => if current_generation(w, generation) {
            fail_model(w, exit_detail(w.error_tail, exit_code))
        } else {
            (w, Seq::empty())
        },
        InputView::Tick { now } => {
            let (w1, e1) = check_timeouts_model(w, now);
            if now >= w1.next_auto_refresh {
                let (w2, e2) = refresh_model(w1);
                let w3 = if w2.awaiting is None {
                    WorkerView {
                        next_auto_refresh: later(now, refresh_interval_ms(w2.frontend.settings)),
                        ..w2
                    }
                } else {
                    WorkerView { reschedule: true, ..w2 }
                };
                (w3, e1 + e2)
            } else {
                (w1, e1)
            }
        },
        _ => (w, Seq::empty()),
    }
}

/// One step of the worker: while an answer is awaited only that answer is taken
/// (anything else is dropped); otherwise the event is handled.
pub open spec fn step_model<S, P>(w: WorkerView<S>, i: InputView<S, P>) -> (WorkerView<S>, Seq<EffectView<P>>) {
    if w.awaiting is Some {
        if is_answer(i) {
            let (w1, e1) = answer_model(w, i);
            (settle_model(w1, answer_time(i)), e1)
        } else {
            (w, Seq::empty())
        }
    } else {
        event_model(w, i)
    }
}

// ---------------------------------------------------------------------------
// The worker
// ---------------------------------------------------------------------------
proof fn lemma_push_effect<P>(v: Seq<Effect<P>>, e: Effect<P>)
    ensures
        effects_view(v.push(e)) == effects_view(v).push(e@),
{
    assert(effects_view(v.push(e)) =~= effects_view(v).push(e@));
}

fn push_effect<P>(effects: &mut Vec<Effect<P>>, e: Effect<P>)
    ensures
        effects_view(final(effects)@) == effects_view(old(effects)@) + seq![e@],
{
    let ghost before = effects@;
    let ghost ev = e@;
    effects.push(e);
    proof {
        lemma_push_effect(before, e);
        assert(effects_view(before).push(ev) =~= effects_view(before) + seq![ev]);
    }
}

fn next_generation_exec(g: u64) -> (r: u64)
    ensures
        r == next_generation(g),
{
    if g == u64::MAX {
        0
    } else {
        g + 1
    }
}

fn later_exec(t: u64, d: u64) -> (r: u64)
    ensures
        r == later(t, d),
{
    if t > u64::MAX - d {
        u64::MAX
    } else {
        t + d
    }
}

fn clone_session(s: &Session) -> (r: Session)
    ensures
        r@ == s@,
{
    Session {
        generation: s.generation,
        executable: s.executable.clone(),
        initialized: s.initialized,
        initialize_deadline: s.initialize_deadline,
        pending_request: s.pending_request,
    }
}

/// Why starting the App Server failed.
fn spawn_failure_message(o: &SpawnOutcome) -> (r: String)
    ensures
        r@ == spawn_failure_text(o@),
{
    match o {
        SpawnOutcome::Started => String::new(),
        SpawnOutcome::SpawnFailed(e) => joined("无法启动 Codex App Server：", e.as_str()),
        SpawnOutcome::NoStdin => owned("Codex 输入通道不可用"),
        SpawnOutcome::NoStdout => owned("Codex 输出通道不可用"),
        SpawnOutcome::NoStderr => owned("Codex 错误通道不可用"),
        SpawnOutcome::InitializeFailed(e) => joined("无法初始化 Codex App Server：", e.as_str()),
    }
}

/// Why the App Server stopped (see `exit_detail`).
pub fn exit_detail_text(tail: &str, exit_code: Option<i32>) -> (r: String)
    ensures
        r@ == exit_detail(tail@, exit_code),
{
    match last_non_blank_line_exec(tail) {
        Some(line) => line,
        None => {
            let mut t = owned("Codex App Server 已退出");
            match exit_code {
                Some(c) => {
                    t.append("（状态码 ");
                    let digits = decimal_text(c);
                    t.append(digits.as_str());
                    t.append("）");
                },
                None => {},
            }
            t
        },
    }
}

/// The error output kept after `line` arrived (see `joined_tail` and `cut_tail`).
pub fn append_error_line(tail: &str, line: &str) -> (r: String)
    requires
        !(utf8_len(joined_tail(tail@, line@)) > ERROR_TAIL_BYTES && !is_utf8_boundary(
            joined_tail(tail@, line@),
            utf8_len(joined_tail(tail@, line@)) - ERROR_TAIL_BYTES,
        )),
    ensures
        r@ == cut_tail(joined_tail(tail@, line@)),
{
    let t = if tail.is_empty() {
        owned(line)
    } else {
        let mut t = owned(tail);
        t.append("\n");
        t.append(line);
        t
    };
    let ghost tv = joined_tail(tail@, line@);
    proof {
        reveal_strlit("\n");
    }
    assert(t@ =~= tv);
    let v = chars_of(t.as_str());
    let total = utf8_len_exec(&v);
    if total > ERROR_TAIL_BYTES {
        let n = total - ERROR_TAIL_BYTES;
        match char_index_at_byte(&v, n) {
            Some(k) => {
                proof {
                    let c = chars_in_bytes(tv, n as int);
                    assert(0 <= c <= tv.len() && utf8_len(tv.take(c)) == n);
                    if c < k {
                        crate::text::lemma_utf8_len_prefix_increasing(tv, c, k as int);
                    } else if c > k {
                        crate::text::lemma_utf8_len_prefix_increasing(tv, k as int, c);
                    }
                }
                string_from_chars(&v, k, v.len())
            },
            None => t,
        }
    } else {
        t
    }
}

impl<S> Worker<S> {
    /// A worker with no session, disconnected, showing `settings` on `platform`;
    /// the first automatic refresh comes one interval after `now`.
    pub fn new(platform: String, settings: AppSettings, now: u64) -> (r: Self)
        ensures
            r@ == initial_model::<S>(platform@, settings@, now),
    {
        let interval = clamp_refresh_secs(settings.refresh_interval_secs) * 1000;
        let next = later_exec(now, interval);
        Worker {
            session: None,
            generation: 0,
            next_request_id: FIRST_REQUEST_ID,
            error_tail: String::new(),
            frontend: FrontendState {
                connection: ConnectionState {
                    status: ConnectionStatus::Disconnected,
                    message: None,
                    executable: None,
                },
                snapshot: None,
                last_updated: None,
                platform,
                settings,
            },
            next_auto_refresh: next,
            awaiting: None,
            reschedule: false,
        }
    }

    /// What the host shows.
    pub fn frontend(&self) -> (r: &FrontendState<S>)
        ensures
            r@ == self@.frontend,
    {
        &self.frontend
    }

    /// Whether the worker waits for the answer to its last effect.
    pub fn is_awaiting(&self) -> (r: bool)
        ensures
            r == self@.awaiting is Some,
    {
        self.awaiting.is_some()
    }

    /// Whether keeping this line of error output would cut a character apart
    /// (see `step_splits_char`); `step` does not take such an event.
    pub fn splits_char<P>(&self, input: &Input<S, P>) -> (r: bool)
        ensures
            r == step_splits_char(self@, input@),
    {
        match input {
            Input::Stderr { generation, line } => {
                if self.awaiting.is_some() || !self.is_current(*generation) || !self.keeps_line(
                    line,
                ) {
                    return false;
                }
                let t = if self.error_tail.as_str().is_empty() {
                    owned(line.as_str())
                } else {
                    let mut t = owned(self.error_tail.as_str());
                    t.append("\n");
                    t.append(line.as_str());
                    t
                };
                proof {
                    reveal_strlit("\n");
                }
                assert(t@ =~= joined_tail(self@.error_tail, line@));
                let v = chars_of(t.as_str());
                let total = utf8_len_exec(&v);
                if total > ERROR_TAIL_BYTES {
                    char_index_at_byte(&v, total - ERROR_TAIL_BYTES).is_none()
                } else {
                    false
                }
            },
            _ => false,
        }
    }

    fn is_current(&self, generation: u64) -> (r: bool)
        ensures
            r == current_generation(self@, generation),
    {
        match &self.session {
            Some(s) => s.generation == generation,
            None => false,
        }
    }

    fn keeps_line(&self, line: &String) -> (r: bool)
        ensures
            r == keeps_error_line(line@),
    {
        !contains_text_exec(line.as_str(), "WARNING: proceeding") && !is_blank(line.as_str())
    }

    fn set_connection<P>(
        &mut self,
        status: ConnectionStatus,
        message: Option<String>,
        executable: Option<String>,
        effects: &mut Vec<Effect<P>>,
    )
        ensures
            final(self)@ == set_connection_model::<S, P>(
                old(self)@,
                status,
                opt_chars(message),
                opt_chars(executable),
            ).0,
            effects_view(final(effects)@) == effects_view(old(effects)@) + set_connection_model(
                old(self)@,
                status,
                opt_chars(message),
                opt_chars(executable),
            ).1,
    {
        let keep = executable.is_none() && self.frontend.connection.executable.is_some();
        self.frontend.connection.status = status;
        self.frontend.connection.message = message;
        if !keep {
            self.frontend.connection.executable = executable;
        }
        push_effect(effects, Effect::Publish);
    }

    fn stop_session<P>(&mut self, effects: &mut Vec<Effect<P>>)
        ensures
            final(self)@ == stop_session_model::<S, P>(old(self)@).0,
            effects_view(final(effects)@) == effects_view(old(effects)@) + stop_session_model(
                old(self)@,
            ).1,
    {
        if self.session.is_some() {
            self.session = None;
            push_effect(effects, Effect::StopSession);
        } else {
            assert(effects_view(effects@) =~= effects_view(effects@) + Seq::<EffectView<P>>::empty());
        }
    }

    fn fail<P>(&mut self, message: String, effects: &mut Vec<Effect<P>>)
        ensures
            final(self)@ == fail_model::<S, P>(old(self)@, message@).0,
            effects_view(final(effects)@) == effects_view(old(effects)@) + fail_model(
                old(self)@,
                message@,
            ).1,
    {
        let ghost w = self@;
        let ghost e0 = effects_view(effects@);
        let exe = match &self.session {
            Some(s) => Some(s.executable.clone()),
            None => None,
        };
        self.stop_session(effects);
        self.set_connection(ConnectionStatus::Failed, Some(message), exe, effects);
        proof {
            let (w1, s1) = stop_session_model(w);
            let (w2, s2) = set_connection_model(
                w1,
                ConnectionStatus::Failed,
                Some(message@),
                opt_chars(exe),
            );
            assert(effects_view(effects@) =~= e0 + (s1 + s2));
        }
    }

    fn connect<P>(&mut self, effects: &mut Vec<Effect<P>>)
        ensures
            final(self)@ == connect_model::<S, P>(old(self)@).0,
            effects_view(final(effects)@) == effects_view(old(effects)@) + connect_model(
                old(self)@,
            ).1,
    {
        let configured = clone_opt_string(&self.frontend.settings.codex_binary_path);
        self.awaiting = Some(Awaiting::Locate);
        push_effect(effects, Effect::Locate { configured });
    }

    fn refresh<P>(&mut self, effects: &mut Vec<Effect<P>>)
        ensures
            final(self)@ == refresh_model::<S, P>(old(self)@).0,
            effects_view(final(effects)@) == effects_view(old(effects)@) + refresh_model(
                old(self)@,
            ).1,
    {
        let ready = match &self.session {
            None => {
                self.connect(effects);
                return ;
            },
            Some(s) => s.initialized && s.pending_request.is_none(),
        };
        if ready {
            let id = self.next_request_id;
            self.next_request_id = if id == i64::MAX {
                i64::MIN
            } else {
                id + 1
            };
            self.awaiting = Some(Awaiting::SendRead { id });
            push_effect(effects, Effect::Send(Outgoing::ReadRateLimits { id }));
        } else {
            assert(effects_view(effects@) =~= effects_view(effects@) + Seq::<EffectView<P>>::empty());
        }
    }

    fn clear_pending(&mut self)
        ensures
            final(self)@ == (WorkerView { session: clear_pending(old(self)@.session), ..old(self)@ }),
    {
        if let Some(s) = self.session.take() {
            let mut s = s;
            s.pending_request = None;
            self.session = Some(s);
        }
    }

    fn handle_line<P>(&mut self, m: IncomingMessage<S>, wall_millis: u64, effects: &mut Vec<Effect<P>>)
        ensures
            final(self)@ == handle_line_model::<S, P>(old(self)@, m@, wall_millis).0,
            effects_view(final(effects)@) == effects_view(old(effects)@) + handle_line_model(
                old(self)@,
                m@,
                wall_millis,
            ).1,
    {
        let IncomingMessage { method, id, has_result, error, rate_limits } = m;
        let updated = match &method {
            Some(t) => crate::text::text_equals(t.as_str(), "account/rateLimits/updated"),
            None => false,
        };
        if updated {
            self.refresh(effects);
            return ;
        }
        let handshake = match id {
            Some(v) => v == INITIALIZE_REQUEST_ID,
            None => false,
        };
        if handshake && has_result {
            if self.session.is_some() {
                self.awaiting = Some(Awaiting::SendInitialized);
                push_effect(effects, Effect::Send(Outgoing::Initialized));
            } else {
                assert(effects_view(effects@) =~= effects_view(effects@) + Seq::<EffectView<P>>::empty());
            }
            return ;
        }
        match error {
            Some(err) => {
                let detail = match err.message {
                    Some(t) => t,
                    None => owned("未知 App Server 错误"),
                };
                self.clear_pending();
                self.set_connection(ConnectionStatus::Failed, Some(detail), None, effects);
                return ;
            },
            None => {},
        }
        if !has_result {
            assert(effects_view(effects@) =~= effects_view(effects@) + Seq::<EffectView<P>>::empty());
            return ;
        }
        match rate_limits {
            None => {
                assert(effects_view(effects@) =~= effects_view(effects@) + Seq::<EffectView<P>>::empty());
            },
            Some(Ok(snapshot)) => {
                let exe = match &self.session {
                    Some(s) => Some(s.executable.clone()),
                    None => None,
                };
                match exe {
                    Some(exe) => {
                        self.clear_pending();
                        self.frontend.snapshot = Some(snapshot);
                        self.frontend.last_updated = Some(wall_millis);
                        self.frontend.connection = ConnectionState {
                            status: ConnectionStatus::Connected,
                            message: None,
                            executable: Some(exe),
                        };
                        push_effect(effects, Effect::Publish);
                    },
                    None => {
                        assert(effects_view(effects@) =~= effects_view(effects@) + Seq::<
                            EffectView<P>,
                        >::empty());
                    },
                }
            },
            Some(Err(e)) => {
                let text = joined("无法解析额度数据：", e.as_str());
                self.set_connection(ConnectionStatus::Failed, Some(text), None, effects);
            },
        }
    }

    fn check_timeouts<P>(&mut self, now: u64, effects: &mut Vec<Effect<P>>)
        ensures
            final(self)@ == check_timeouts_model::<S, P>(old(self)@, now).0,
            effects_view(final(effects)@) == effects_view(old(effects)@) + check_timeouts_model(
                old(self)@,
                now,
            ).1,
    {
        let (init_overdue, req_overdue) = match &self.session {
            None => {
                assert(effects_view(effects@) =~= effects_view(effects@) + Seq::<EffectView<P>>::empty());
                return ;
            },
            Some(s) => {
                let init = !s.initialized && now >= s.initialize_deadline;
                let req = match s.pending_request {
                    Some((_, deadline)) => now >= deadline,
                    None => false,
                };
                (init, req)
            },
        };
        if init_overdue {
            self.fail(owned("连接 Codex 超时。请确认已经登录 Codex。"), effects);
        } else if req_overdue {
            self.clear_pending();
            self.set_connection(
                ConnectionStatus::Failed,
                Some(owned("额度查询超时，稍后会自动重试。")),
                None,
                effects,
            );
        } else {
            assert(effects_view(effects@) =~= effects_view(effects@) + Seq::<EffectView<P>>::empty());
        }
    }

    fn settle(&mut self, now: u64)
        ensures
            final(self)@ == settle_model(old(self)@, now),
    {
        if self.awaiting.is_none() && self.reschedule {
            self.reschedule = false;
            let interval = self.interval_ms();
            self.next_auto_refresh = later_exec(now, interval);
        }
    }

    fn answer<P>(&mut self, input: Input<S, P>, effects: &mut Vec<Effect<P>>)
        requires
            old(self)@.awaiting is Some,
            is_answer(input@),
        ensures
            final(self)@ == answer_model(old(self)@, input@).0,
            effects_view(final(effects)@) == effects_view(old(effects)@) + answer_model(
                old(self)@,
                input@,
            ).1,
    {
        let ghost w = self@;
        let ghost e0 = effects_view(effects@);
        let a = self.awaiting.take();
        let a = match a {
            Some(a) => a,
            None => {
                return ;
            },
        };
        match a {
            Awaiting::Locate => match input {
                Input::Located { spec, now } => match spec {
                    None => {
                        self.set_connection(
                            ConnectionStatus::Failed,
                            Some(owned("找不到 Codex。请安装 Codex CLI，或设置 CODEX_BINARY。")),
                            None,
                            effects,
                        );
                    },
                    Some(sp) => {
                        let display = sp.display.clone();
                        self.set_connection(
                            ConnectionStatus::Connecting,
                            None,
                            Some(display),
                            effects,
                        );
                        let g = next_generation_exec(self.generation);
                        self.generation = g;
                        self.error_tail = String::new();
                        self.awaiting = Some(
                            Awaiting::Spawn { generation: g, executable: sp.display.clone() },
                        );
                        let ghost spv = sp@;
                        push_effect(
                            effects,
                            Effect::Spawn { spec: sp, generation: g, greeting: Outgoing::Initialize },
                        );
                        proof {
                            assert(effects_view(effects@) =~= e0 + (
                            set_connection_model(
                                WorkerView { awaiting: None, ..w },
                                ConnectionStatus::Connecting,
                                None,
                                Some(spv.display),
                            ).1 + seq![EffectView::Spawn { spec: spv, generation: g, greeting: Outgoing::Initialize }]));
                        }
                    },
                },
                other => {
                    self.awaiting = Some(Awaiting::Locate);
                    assert(effects_view(effects@) =~= e0 + Seq::<EffectView<P>>::empty());
                },
            },
            Awaiting::Spawn { generation, executable } => match input {
                Input::Spawned { outcome, now } => {
                    let started = match &outcome {
                        SpawnOutcome::Started => true,
                        _ => false,
                    };
                    if started {
                        let deadline = later_exec(now, INITIALIZE_TIMEOUT_MS);
                        self.session = Some(
                            Session {
                                generation,
                                executable,
                                initialized: false,
                                initialize_deadline: deadline,
                                pending_request: None,
                            },
                        );
                        assert(effects_view(effects@) =~= e0 + Seq::<EffectView<P>>::empty());
                    } else {
                        let msg = spawn_failure_message(&outcome);
                        self.set_connection(ConnectionStatus::Failed, Some(msg), None, effects);
                    }
                },
                other => {
                    self.awaiting = Some(Awaiting::Spawn { generation, executable });
                    assert(effects_view(effects@) =~= e0 + Seq::<EffectView<P>>::empty());
                },
            },
            Awaiting::SendInitialized => match input {
                Input::Sent { result, now } => match result {
                    Err(e) => {
                        self.fail(joined("Codex 握手失败：", e.as_str()), effects);
                    },
                    Ok(()) => {
                        let exe = match &self.session {
                            Some(s) => Some(s.executable.clone()),
                            None => None,
                        };
                        match exe {
                            Some(exe) => {
                                if let Some(s) = self.session.take() {
                                    let mut s = s;
                                    s.initialized = true;
                                    self.session = Some(s);
                                }
                                self.set_connection(
                                    ConnectionStatus::Connected,
                                    None,
                                    Some(exe),
                                    effects,
                                );
                                let ghost e2 = effects_view(effects@);
                                let ghost w2 = self@;
                                self.refresh(effects);
                                proof {
                                    assert(effects_view(effects@) =~= e0 + ((e2.subrange(
                                        e0.len() as int,
                                        e2.len() as int,
                                    )) + refresh_model(w2).1));
                                }
                            },
                            None => {
                                assert(effects_view(effects@) =~= e0 + Seq::<EffectView<P>>::empty());
                            },
                        }
                    },
                },
                other => {
                    self.awaiting = Some(Awaiting::SendInitialized);
                    assert(effects_view(effects@) =~= e0 + Seq::<EffectView<P>>::empty());
                },
            },
            Awaiting::SendRead { id } => match input {
                Input::Sent { result, now } => match result {
                    Err(e) => {
                        self.fail(joined("额度查询发送失败：", e.as_str()), effects);
                    },
                    Ok(()) => {
                        if let Some(s) = self.session.take() {
                            let mut s = s;
                            s.pending_request = Some((id, later_exec(now, REQUEST_TIMEOUT_MS)));
                            self.session = Some(s);
                        }
                        assert(effects_view(effects@) =~= e0 + Seq::<EffectView<P>>::empty());
                    },
                },
                other => {
                    self.awaiting = Some(Awaiting::SendRead { id });
                    assert(effects_view(effects@) =~= e0 + Seq::<EffectView<P>>::empty());
                },
            },
        }
    }

    fn event<P>(&mut self, input: Input<S, P>, effects: &mut Vec<Effect<P>>)
        requires
            old(self)@.awaiting is None,
            !step_splits_char(old(self)@, input@),
        ensures
            final(self)@ == event_model(old(self)@, input@).0,
            effects_view(final(effects)@) == effects_view(old(effects)@) + event_model(
                old(self)@,
                input@,
            ).1,
    {
        let ghost w = self@;
        let ghost e0 = effects_view(effects@);
        match input {
            Input::Connect => {
                if self.session.is_none() {
                    self.connect(effects);
                } else {
                    assert(effects_view(effects@) =~= e0 + Seq::<EffectView<P>>::empty());
                }
            },
            Input::Refresh => {
                self.refresh(effects);
            },
            Input::Reconnect => {
                self.stop_session(effects);
                let ghost w1 = self@;
                self.connect(effects);
                assert(effects_view(effects@) =~= e0 + (stop_session_model(w).1 + connect_model(
                    w1,
                ).1));
            },
            Input::Disconnect => {
                self.stop_session(effects);
                let ghost w1 = self@;
                self.set_connection(ConnectionStatus::Disconnected, None, None, effects);
                assert(effects_view(effects@) =~= e0 + (stop_session_model(w).1
                    + set_connection_model(w1, ConnectionStatus::Disconnected, None, None).1));
            },
            Input::UpdateSettings(settings) => {
                self.frontend.settings = settings;
                push_effect(effects, Effect::Publish);
            },
            Input::RefreshUi => {
                push_effect(effects, Effect::Publish);
            },
            Input::CommandsClosed => {
                self.stop_session(effects);
                push_effect(effects, Effect::Exit);
                assert(effects_view(effects@) =~= e0 + (stop_session_model(w).1 + seq![
                    EffectView::Exit,
                ]));
            },
            Input::Line { generation, line, snapshot, wall_millis } => {
                if self.is_current(generation) {
                    match incoming_message(line.as_str(), snapshot) {
                        Some(m) => {
                            self.handle_line(m, wall_millis, effects);
                        },
                        None => {
                            assert(effects_view(effects@) =~= e0 + Seq::<EffectView<P>>::empty());
                        },
                    }
                } else {
                    assert(effects_view(effects@) =~= e0 + Seq::<EffectView<P>>::empty());
                }
            },
            Input::Stderr { generation, line } => {
                if self.is_current(generation) && self.keeps_line(&line) {
                    let t = append_error_line(self.error_tail.as_str(), line.as_str());
                    self.error_tail = t;
                }
                assert(effects_view(effects@) =~= e0 + Seq::<EffectView<P>>::empty());
            },
            Input::Eof { generation, exit_code } => {
                if self.is_current(generation) {
                    let detail = exit_detail_text(self.error_tail.as_str(), exit_code);
                    self.fail(detail, effects);
                } else {
                    assert(effects_view(effects@) =~= e0 + Seq::<EffectView<P>>::empty());
                }
            },
            Input::Tick { now } => {
                self.check_timeouts(now, effects);
                let ghost w1 = self@;
                if now >= self.next_auto_refresh {
                    self.refresh(effects);
                    if self.awaiting.is_none() {
                        let interval = self.interval_ms();
                        self.next_auto_refresh = later_exec(now, interval);
                    } else {
                        self.reschedule = true;
                    }
                    assert(effects_view(effects@) =~= e0 + (check_timeouts_model(w, now).1
                        + refresh_model(w1).1));
                }
            },
            other => {
                assert(effects_view(effects@) =~= e0 + Seq::<EffectView<P>>::empty());
            },
        }
    }

    /// Handles one event and returns the effects to perform, in order (see `step_model`).
    /// A line of error output whose keeping would cut a character apart is not
    /// taken (see `splits_char`).
    pub fn step<P>(&mut self, input: Input<S, P>) -> (r: Vec<Effect<P>>)
        requires
            !step_splits_char(old(self)@, input@),
        ensures
            final(self)@ == step_model(old(self)@, input@).0,
            effects_view(r@) == step_model(old(self)@, input@).1,
    {
        let mut effects: Vec<Effect<P>> = Vec::new();
        assert(effects_view(effects@) =~= Seq::<EffectView<P>>::empty());
        if self.awaiting.is_some() {
            let now = match &input {
                Input::Located { now, .. } => Some(*now),
                Input::Spawned { now, .. } => Some(*now),
                Input::Sent { now, .. } => Some(*now),
                _ => None,
            };
            match now {
                Some(now) => {
                    let ghost w = self@;
                    let ghost iv = input@;
                    self.answer(input, &mut effects);
                    self.settle(now);
                    assert(effects_view(effects@) =~= answer_model(w, iv).1);
                },
                None => {},
            }
        } else {
            let ghost iv = input@;
            self.event(input, &mut effects);
            assert(effects_view(effects@) =~= event_model(old(self)@, iv).1);
        }
        effects
    }

    fn interval_ms(&self) -> (r: u64)
        ensures
            r == refresh_interval_ms(self@.frontend.settings),
    {
        clamp_refresh_secs(self.frontend.settings.refresh_interval_secs) * 1000
    }
}

} // verus!
