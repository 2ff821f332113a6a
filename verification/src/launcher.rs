//! Where the Codex executable is looked for, and how the App Server is started.
use vstd::prelude::*;
use crate::models::opt_chars;
use crate::text::text_equals;

verus! {

/// The operating system the monitor runs on, as far as launching cares.
#[derive(Clone, Copy, Debug, PartialEq, Eq, Structural)]
pub enum Platform {
    MacOs,
    Windows,
    Other,
}

/// A program to start: a path that the host found, held in the host's own path
/// type (`Native`, which need not be valid Unicode), or a path written as text.
#[derive(Clone, Debug, PartialEq, Eq)]
pub enum ProgramPath<P> {
    Native(P),
    Text(String),
}

pub enum ProgramPathView<P> {
    Native(P),
    Text(Seq<char>),
}

impl<P> View for ProgramPath<P> {
    type V = ProgramPathView<P>;

    open spec fn view(&self) -> ProgramPathView<P> {
        match self {
            ProgramPath::Native(p) => ProgramPathView::Native(*p),
            ProgramPath::Text(t) => ProgramPathView::Text(t@),
        }
    }
}

/// A path that the host found, with the text the host shows for it (where the path
/// is not valid Unicode, a lossy rendering; it is empty exactly when the path is).
#[derive(Debug, PartialEq, Eq)]
pub struct HostPath<P> {
    pub path: P,
    pub display: String,
}

pub struct HostPathView<P> {
    pub path: P,
    pub display: Seq<char>,
}

impl<P> View for HostPath<P> {
    type V = HostPathView<P>;

    open spec fn view(&self) -> HostPathView<P> {
        HostPathView { path: self.path, display: self.display@ }
    }
}

/// How to start the App Server: the program, its arguments, and the name shown to the user.
#[derive(Debug, PartialEq, Eq)]
pub struct LaunchSpec<P> {
    pub program: ProgramPath<P>,
    pub args: Vec<String>,
    pub display: String,
}

pub struct LaunchSpecView<P> {
    pub program: ProgramPathView<P>,
    pub args: Seq<Seq<char>>,
    pub display: Seq<char>,
}

/// The characters of each string of `v`.
pub open spec fn strings_view(v: Seq<String>) -> Seq<Seq<char>> {
    v.map_values(|s: String| s@)
}

impl<P> View for LaunchSpec<P> {
    type V = LaunchSpecView<P>;

    open spec fn view(&self) -> LaunchSpecView<P> {
        LaunchSpecView { program: self.program@, args: strings_view(self.args@), display: self.display@ }
    }
}

/// The arguments that make `codex` serve JSON-RPC over its standard streams.
pub open spec fn app_server_args() -> Seq<Seq<char>> {
    seq!["app-server"@, "--stdio"@]
}

/// Running the executable at `path`, shown as `display`, directly.
pub open spec fn direct_launch<P>(path: ProgramPathView<P>, display: Seq<char>) -> LaunchSpecView<P> {
    LaunchSpecView { program: path, args: app_server_args(), display }
}

/// The command line that `cmd.exe` runs for a batch script shown as `display`.
pub open spec fn script_command(display: Seq<char>) -> Seq<char> {
    "\""@ + display + "\" app-server --stdio"@
}

/// Running the batch script shown as `display` through `cmd.exe`.
pub open spec fn script_launch<P>(display: Seq<char>) -> LaunchSpecView<P> {
    LaunchSpecView {
        program: ProgramPathView::Text("cmd.exe"@),
        args: seq!["/D"@, "/S"@, "/C"@, script_command(display)],
        display,
    }
}

/// Running `codex` inside the Windows Subsystem for Linux.
pub open spec fn wsl_launch<P>() -> LaunchSpecView<P> {
    LaunchSpecView {
        program: ProgramPathView::Text("wsl.exe"@),
        args: seq!["--"@, "codex"@, "app-server"@, "--stdio"@],
        display: "WSL: codex"@,
    }
}

/// An extension that Windows runs through `cmd.exe`.
pub open spec fn is_script_extension(ext: Option<Seq<char>>) -> bool {
    ext == Some("cmd"@) || ext == Some("bat"@)
}

/// How to run the executable found at `path`, shown as `display`, whose file extension
/// is `ext`: on Windows a `.cmd` or `.bat` script goes through `cmd.exe`, anything else
/// runs directly.
pub open spec fn launch_for_path<P>(
    path: ProgramPathView<P>,
    display: Seq<char>,
    ext: Option<Seq<char>>,
    platform: Platform,
) -> LaunchSpecView<P> {
    if platform == Platform::Windows && is_script_extension(ext) {
        script_launch(display)
    } else {
        direct_launch(path, display)
    }
}

fn owned(s: &str) -> (r: String)
    ensures
        r@ == s@,
{
    s.to_owned()
}

impl<P> LaunchSpec<P> {
    /// Runs the executable at `path`, shown as `display`, directly with the App Server
    /// arguments.
    pub fn direct(path: ProgramPath<P>, display: String) -> (r: LaunchSpec<P>)
        ensures
            r@ == direct_launch(path@, display@),
    {
        let mut args: Vec<String> = Vec::new();
        args.push(owned("app-server"));
        args.push(owned("--stdio"));
        proof {
            assert(strings_view(args@) =~= app_server_args());
        }
        LaunchSpec { program: path, args, display }
    }

    /// Runs the batch script shown as `display` through `cmd.exe`, which is handed the
    /// script's name inside its command line.
    pub fn windows_script(display: String) -> (r: LaunchSpec<P>)
        ensures
            r@ == script_launch::<P>(display@),
    {
        let mut quoted = owned("\"");
        quoted.append(display.as_str());
        quoted.append("\" app-server --stdio");
        let mut args: Vec<String> = Vec::new();
        args.push(owned("/D"));
        args.push(owned("/S"));
        args.push(owned("/C"));
        args.push(quoted);
        proof {
            assert(strings_view(args@) =~= seq!["/D"@, "/S"@, "/C"@, script_command(display@)]);
        }
        LaunchSpec { program: ProgramPath::Text(owned("cmd.exe")), args, display }
    }

    /// Runs `codex` through `wsl.exe`.
    pub fn wsl() -> (r: LaunchSpec<P>)
        ensures
            r@ == wsl_launch::<P>(),
    {
        let mut args: Vec<String> = Vec::new();
        args.push(owned("--"));
        args.push(owned("codex"));
        args.push(owned("app-server"));
        args.push(owned("--stdio"));
        proof {
            assert(strings_view(args@) =~= seq!["--"@, "codex"@, "app-server"@, "--stdio"@]);
        }
        LaunchSpec { program: ProgramPath::Text(owned("wsl.exe")), args, display: owned("WSL: codex") }
    }
}

/// How to run the executable found at `path`, shown as `display`, whose file extension
/// is `extension`.
pub fn spec_for<P>(path: ProgramPath<P>, display: String, extension: Option<String>, platform: Platform) -> (r:
    LaunchSpec<P>)
    ensures
        r@ == launch_for_path(path@, display@, opt_chars(extension), platform),
{
    let script = match &extension {
        Some(e) => text_equals(e.as_str(), "cmd") || text_equals(e.as_str(), "bat"),
        None => false,
    };
    if platform == Platform::Windows && script {
        LaunchSpec::windows_script(display)
    } else {
        LaunchSpec::direct(path, display)
    }
}

/// Where a candidate executable comes from; the standard macOS application
/// binaries always run directly, the others may be batch scripts.
#[derive(Clone, Copy, Debug, PartialEq, Eq, Structural)]
pub enum CandidateSource {
    Configured,
    Environment,
    MacApplication,
    SearchPath,
}

/// A place where the Codex executable may be, with the text shown for it.
#[derive(Debug, PartialEq, Eq)]
pub struct Candidate<P> {
    pub path: ProgramPath<P>,
    pub display: String,
    pub source: CandidateSource,
}

/// A candidate with what the file system says of it: whether it is an
/// executable file, and its file extension.
#[derive(Debug, PartialEq, Eq)]
pub struct CheckedCandidate<P> {
    pub path: ProgramPath<P>,
    pub display: String,
    pub source: CandidateSource,
    pub usable: bool,
    pub extension: Option<String>,
}

pub struct CandidateView<P> {
    pub path: ProgramPathView<P>,
    pub display: Seq<char>,
    pub source: CandidateSource,
}

pub struct CheckedCandidateView<P> {
    pub path: ProgramPathView<P>,
    pub display: Seq<char>,
    pub source: CandidateSource,
    pub usable: bool,
    pub extension: Option<Seq<char>>,
}

impl<P> View for Candidate<P> {
    type V = CandidateView<P>;

    open spec fn view(&self) -> CandidateView<P> {
        CandidateView { path: self.path@, display: self.display@, source: self.source }
    }
}

impl<P> View for CheckedCandidate<P> {
    type V = CheckedCandidateView<P>;

    open spec fn view(&self) -> CheckedCandidateView<P> {
        CheckedCandidateView {
            path: self.path@,
            display: self.display@,
            source: self.source,
            usable: self.usable,
            extension: opt_chars(self.extension),
        }
    }
}

/// The two executables inside the standard macOS applications.
pub open spec fn mac_application_paths() -> Seq<Seq<char>> {
    seq![
        "/Applications/ChatGPT.app/Contents/Resources/codex"@,
        "/Applications/Codex.app/Contents/Resources/codex"@,
    ]
}

/// The file names that a search of the directories in `PATH` tries, in order.
pub open spec fn executable_names_for(platform: Platform) -> Seq<Seq<char>> {
    if platform == Platform::Windows {
        seq!["codex.exe"@, "codex.cmd"@, "codex.bat"@, "codex"@]
    } else {
        seq!["codex"@]
    }
}

/// The candidate of a path written as text.
pub open spec fn text_candidate<P>(p: Seq<char>, source: CandidateSource) -> CandidateView<P> {
    CandidateView { path: ProgramPathView::Text(p), display: p, source }
}

/// The candidate of a path that the host found.
pub open spec fn host_candidate<P>(h: HostPathView<P>, source: CandidateSource) -> CandidateView<P> {
    CandidateView { path: ProgramPathView::Native(h.path), display: h.display, source }
}

/// The views of host paths.
pub open spec fn host_paths_view<P>(v: Seq<HostPath<P>>) -> Seq<HostPathView<P>> {
    v.map_values(|h: HostPath<P>| h@)
}

/// The view of an optional host path.
pub open spec fn opt_host_view<P>(o: Option<HostPath<P>>) -> Option<HostPathView<P>> {
    match o {
        Some(h) => Some(h@),
        None => None,
    }
}

/// The places to look for the executable, in order: the path configured in
/// settings, the `CODEX_BINARY` override, the standard macOS application
/// binaries (on macOS), then each file of the `PATH` search. An empty configured
/// path or override is no candidate.
pub open spec fn candidate_order<P>(
    configured: Option<Seq<char>>,
    env_override: Option<HostPathView<P>>,
    search: Seq<HostPathView<P>>,
    platform: Platform,
) -> Seq<CandidateView<P>> {
    (match configured {
        Some(c) => if c.len() > 0 {
            seq![text_candidate(c, CandidateSource::Configured)]
        } else {
            seq![]
        },
        None => seq![],
    }) + (match env_override {
        Some(h) => if h.display.len() > 0 {
            seq![host_candidate(h, CandidateSource::Environment)]
        } else {
            seq![]
        },
        None => seq![],
    }) + (if platform == Platform::MacOs {
        mac_application_paths().map_values(|p: Seq<char>| text_candidate(p, CandidateSource::MacApplication))
    } else {
        seq![]
    }) + search.map_values(|h: HostPathView<P>| host_candidate(h, CandidateSource::SearchPath))
}

/// The file names that a search of the directories in `PATH` tries, in order.
pub fn executable_names(platform: Platform) -> (r: Vec<String>)
    ensures
        strings_view(r@) == executable_names_for(platform),
{
    let mut names: Vec<String> = Vec::new();
    if platform == Platform::Windows {
        names.push(owned("codex.exe"));
        names.push(owned("codex.cmd"));
        names.push(owned("codex.bat"));
    }
    names.push(owned("codex"));
    proof {
        assert(strings_view(names@) =~= executable_names_for(platform));
    }
    names
}

fn text_path_candidate<P>(p: String, source: CandidateSource) -> (r: Candidate<P>)
    ensures
        r@ == text_candidate::<P>(p@, source),
{
    let display = p.clone();
    Candidate { path: ProgramPath::Text(p), display, source }
}

/// The places to look for the executable, in the order of `candidate_order`;
/// `search` holds each directory of `PATH` joined with each of `executable_names`.
pub fn launch_candidates<P>(
    configured: Option<String>,
    env_override: Option<HostPath<P>>,
    search: Vec<HostPath<P>>,
    platform: Platform,
) -> (r: Vec<Candidate<P>>)
    ensures
        r@.map_values(|c: Candidate<P>| c@) == candidate_order(
            opt_chars(configured),
            opt_host_view(env_override),
            host_paths_view(search@),
            platform,
        ),
{
    let ghost order = candidate_order(opt_chars(configured), opt_host_view(env_override), host_paths_view(search@), platform);
    let mut out: Vec<Candidate<P>> = Vec::new();
    match configured {
        Some(c) => {
            if !c.as_str().is_empty() {
                out.push(text_path_candidate(c, CandidateSource::Configured));
            }
        },
        None => {},
    }
    match env_override {
        Some(h) => {
            if !h.display.as_str().is_empty() {
                out.push(Candidate { path: ProgramPath::Native(h.path), display: h.display, source: CandidateSource::Environment });
            }
        },
        None => {},
    }
    let ghost head = out@.map_values(|c: Candidate<P>| c@);
    if platform == Platform::MacOs {
        out.push(text_path_candidate(owned("/Applications/ChatGPT.app/Contents/Resources/codex"), CandidateSource::MacApplication));
        out.push(text_path_candidate(owned("/Applications/Codex.app/Contents/Resources/codex"), CandidateSource::MacApplication));
    }
    let ghost mac = if platform == Platform::MacOs {
        mac_application_paths().map_values(|p: Seq<char>| text_candidate::<P>(p, CandidateSource::MacApplication))
    } else {
        seq![]
    };
    assert(out@.map_values(|c: Candidate<P>| c@) =~= head + mac);
    let ghost mid = out@.map_values(|c: Candidate<P>| c@);
    let ghost sv = host_paths_view(search@);
    let ghost g = |h: HostPathView<P>| host_candidate(h, CandidateSource::SearchPath);
    let n = search.len();
    let mut search = search;
    let mut rest: Vec<Candidate<P>> = Vec::new();
    let mut k: usize = 0;
    while k < n
        invariant
            k <= n,
            search.len() == n - k,
            host_paths_view(search@) == sv.skip(k as int),
            sv.len() == n,
            rest@.map_values(|c: Candidate<P>| c@) == sv.take(k as int).map_values(g),
            g == (|h: HostPathView<P>| host_candidate(h, CandidateSource::SearchPath)),
        decreases n - k,
    {
        let ghost before = search@;
        let h = search.remove(0);
        proof {
            assert(host_paths_view(before)[0] == h@);
            assert(host_paths_view(search@) =~= host_paths_view(before).drop_first());
        }
        let ghost old_rest = rest@;
        rest.push(Candidate { path: ProgramPath::Native(h.path), display: h.display, source: CandidateSource::SearchPath });
        proof {
            let f = |c: Candidate<P>| c@;
            assert(sv.skip(k as int)[0] == sv[k as int]);
            assert(sv.take(k + 1) =~= sv.take(k as int).push(sv[k as int]));
            assert(rest@ == old_rest.push(rest@.last()));
            assert(rest@.map_values(f) =~= old_rest.map_values(f).push(rest@.last()@));
            assert(sv.take(k + 1).map_values(g) =~= sv.take(k as int).map_values(g).push(g(sv[k as int])));
            assert(rest@.map_values(f) =~= sv.take(k + 1).map_values(g));
            assert(sv.skip(k + 1) =~= sv.skip(k as int).drop_first());
        }
        k = k + 1;
    }
    assert(sv.take(n as int) =~= sv);
    let ghost tail = rest@.map_values(|c: Candidate<P>| c@);
    out.append(&mut rest);
    assert(out@.map_values(|c: Candidate<P>| c@) =~= mid + tail);
    assert(out@.map_values(|c: Candidate<P>| c@) =~= order);
    out
}

/// The views of checked candidates.
pub open spec fn checked_view<P>(v: Seq<CheckedCandidate<P>>) -> Seq<CheckedCandidateView<P>> {
    v.map_values(|c: CheckedCandidate<P>| c@)
}

/// The index of the first usable candidate, if any.
pub open spec fn first_usable<P>(c: Seq<CheckedCandidateView<P>>) -> Option<int>
    decreases c.len(),
{
    if c.len() == 0 {
        None
    } else if c[0].usable {
        Some(0)
    } else {
        match first_usable(c.drop_first()) {
            Some(i) => Some(i + 1),
            None => None,
        }
    }
}

/// How to run a candidate that was found usable.
pub open spec fn launch_for_candidate<P>(c: CheckedCandidateView<P>, platform: Platform) -> LaunchSpecView<P> {
    if c.source == CandidateSource::MacApplication {
        direct_launch(c.path, c.display)
    } else {
        launch_for_path(c.path, c.display, c.extension, platform)
    }
}

/// The launch that the checked candidates lead to: the first usable one; if there
/// is none, `wsl.exe` on Windows when `CODEX_USE_WSL` is `1`; else nothing.
pub open spec fn chosen_launch<P>(
    c: Seq<CheckedCandidateView<P>>,
    platform: Platform,
    use_wsl: Option<Seq<char>>,
) -> Option<LaunchSpecView<P>> {
    match first_usable(c) {
        Some(i) => Some(launch_for_candidate(c[i], platform)),
        None => if platform == Platform::Windows && use_wsl == Some("1"@) {
            Some(wsl_launch())
        } else {
            None
        },
    }
}

proof fn lemma_first_usable_step<P>(c: Seq<CheckedCandidateView<P>>, k: int)
    requires
        0 <= k < c.len(),
        forall|m: int| 0 <= m < k ==> !(#[trigger] c[m]).usable,
    ensures
        c[k].usable ==> first_usable(c) == Some(k),
        !c[k].usable && k + 1 == c.len() ==> first_usable(c) is None,
    decreases k,
{
    if k > 0 {
        let d = c.drop_first();
        assert forall|m: int| 0 <= m < k - 1 implies !(#[trigger] d[m]).usable by {
            assert(d[m] == c[m + 1]);
        }
        lemma_first_usable_step(d, k - 1);
        assert(d[k - 1] == c[k]);
        assert(!c[0].usable);
    } else {
        if !c[0].usable && c.len() == 1 {
            assert(c.drop_first().len() == 0);
            assert(first_usable(c.drop_first()) is None);
        }
    }
}

/// The launch that the checked candidates lead to (see `chosen_launch`).
pub fn choose_launch<P>(
    candidates: Vec<CheckedCandidate<P>>,
    platform: Platform,
    use_wsl: Option<String>,
) -> (r: Option<LaunchSpec<P>>)
    ensures
        match r {
            Some(s) => chosen_launch(
                checked_view(candidates@),
                platform,
                opt_chars(use_wsl),
            ) == Some(s@),
            None => chosen_launch(
                checked_view(candidates@),
                platform,
                opt_chars(use_wsl),
            ) is None,
        },
{
    let ghost cv = checked_view(candidates@);
    let n = candidates.len();
    let mut pool = candidates;
    let mut k: usize = 0;
    while k < n
        invariant
            n == pool.len(),
            k <= n,
            cv == checked_view(pool@),
            cv == checked_view(candidates@),
            forall|m: int| 0 <= m < k ==> !(#[trigger] cv[m]).usable,
        decreases n - k,
    {
        if pool[k].usable {
            proof {
                lemma_first_usable_step(cv, k as int);
            }
            let ghost ck = cv[k as int];
            let c = pool.swap_remove(k);
            assert(c@ == ck);
            let spec = if c.source == CandidateSource::MacApplication {
                LaunchSpec::direct(c.path, c.display)
            } else {
                spec_for(c.path, c.display, c.extension, platform)
            };
            return Some(spec);
        }
        k = k + 1;
    }
    proof {
        if n == 0 {
            assert(cv.len() == 0);
        } else {
            lemma_first_usable_step(cv, n - 1);
        }
    }
    let wsl = match &use_wsl {
        Some(v) => text_equals(v.as_str(), "1"),
        None => false,
    };
    if platform == Platform::Windows && wsl {
        Some(LaunchSpec::wsl())
    } else {
        None
    }
}

/// The path configured in settings comes first: when it is set and usable, it is
/// what the App Server is started from.
pub proof fn lemma_configured_path_wins<P>(
    configured: Seq<char>,
    env_override: Option<HostPathView<P>>,
    search: Seq<HostPathView<P>>,
    platform: Platform,
    checked: Seq<CheckedCandidateView<P>>,
    use_wsl: Option<Seq<char>>,
)
    requires
        configured.len() > 0,
        checked.len() == candidate_order(Some(configured), env_override, search, platform).len(),
        forall|k: int|
            0 <= k < checked.len() ==> (#[trigger] checked[k]).path == candidate_order(
                Some(configured),
                env_override,
                search,
                platform,
            )[k].path && checked[k].display == candidate_order(
                Some(configured),
                env_override,
                search,
                platform,
            )[k].display && checked[k].source == candidate_order(
                Some(configured),
                env_override,
                search,
                platform,
            )[k].source,
        checked[0].usable,
    ensures
        chosen_launch(checked, platform, use_wsl) == Some(
            launch_for_path(ProgramPathView::<P>::Text(configured), configured, checked[0].extension, platform),
        ),
{
    let order = candidate_order(Some(configured), env_override, search, platform);
    assert(order[0] == text_candidate::<P>(configured, CandidateSource::Configured));
    assert(checked[0].path == order[0].path);
    assert(checked[0].display == order[0].display);
}

/// The `PATH` search comes last and keeps its order: after the configured path, the
/// override and (on macOS) the two application binaries, each searched file follows
/// in the order the search lists it, found by the host and shown as the host shows it.
pub proof fn lemma_search_order_kept<P>(
    configured: Option<Seq<char>>,
    env_override: Option<HostPathView<P>>,
    search: Seq<HostPathView<P>>,
    platform: Platform,
)
    ensures
        ({
            let o = candidate_order(configured, env_override, search, platform);
            let head = (if configured is Some && configured->0.len() > 0 { 1int } else { 0int })
                + (if env_override is Some && env_override->0.display.len() > 0 { 1int } else { 0int })
                + (if platform == Platform::MacOs { 2int } else { 0int });
            &&& o.len() == head + search.len()
            &&& forall|i: int|
                0 <= i < search.len() ==> {
                    &&& (#[trigger] o[head + i]).path == ProgramPathView::Native(search[i].path)
                    &&& o[head + i].display == search[i].display
                    &&& o[head + i].source == CandidateSource::SearchPath
                }
        }),
{
    let o = candidate_order(configured, env_override, search, platform);
    let head = (if configured is Some && configured->0.len() > 0 { 1int } else { 0int })
        + (if env_override is Some && env_override->0.display.len() > 0 { 1int } else { 0int })
        + (if platform == Platform::MacOs { 2int } else { 0int });
    let c: Seq<CandidateView<P>> = match configured {
        Some(c) => if c.len() > 0 {
            seq![text_candidate(c, CandidateSource::Configured)]
        } else {
            seq![]
        },
        None => seq![],
    };
    let e: Seq<CandidateView<P>> = match env_override {
        Some(h) => if h.display.len() > 0 {
            seq![host_candidate(h, CandidateSource::Environment)]
        } else {
            seq![]
        },
        None => seq![],
    };
    let m: Seq<CandidateView<P>> = if platform == Platform::MacOs {
        mac_application_paths().map_values(|p: Seq<char>| text_candidate(p, CandidateSource::MacApplication))
    } else {
        seq![]
    };
    let t = search.map_values(|h: HostPathView<P>| host_candidate(h, CandidateSource::SearchPath));
    assert(o == c + e + m + t);
    assert((c + e + m).len() == head);
    assert forall|i: int| 0 <= i < search.len() implies {
        &&& (#[trigger] o[head + i]).path == ProgramPathView::Native(search[i].path)
        &&& o[head + i].display == search[i].display
        &&& o[head + i].source == CandidateSource::SearchPath
    } by {
        assert(o[head + i] == t[i]);
    }
}

/// The first usable candidate is the one launched, whatever follows it: an earlier
/// candidate that is not usable is passed over, a later usable one is never reached.
pub proof fn lemma_first_usable_launched<P>(
    c: Seq<CheckedCandidateView<P>>,
    k: int,
    platform: Platform,
    use_wsl: Option<Seq<char>>,
)
    requires
        0 <= k < c.len(),
        c[k].usable,
        forall|m: int| 0 <= m < k ==> !(#[trigger] c[m]).usable,
    ensures
        chosen_launch(c, platform, use_wsl) == Some(launch_for_candidate(c[k], platform)),
        c[k].source == CandidateSource::MacApplication || !(platform == Platform::Windows
            && (c[k].extension == Some("cmd"@) || c[k].extension == Some("bat"@)))
            ==> chosen_launch(c, platform, use_wsl) == Some(
            LaunchSpecView { program: c[k].path, args: seq!["app-server"@, "--stdio"@], display: c[k].display },
        ),
{
    lemma_first_usable_step(c, k);
}

} // verus!
