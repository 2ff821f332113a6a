use std::path::PathBuf;

use codexmeter::launcher::{
    choose_launch, executable_names, launch_candidates, spec_for, CandidateSource, CheckedCandidate,
    HostPath, LaunchSpec, Platform, ProgramPath,
};

fn native(path: &str) -> ProgramPath<PathBuf> {
    ProgramPath::Native(PathBuf::from(path))
}

fn text(path: &str) -> ProgramPath<PathBuf> {
    ProgramPath::Text(path.to_string())
}

fn host(path: &str) -> HostPath<PathBuf> {
    HostPath { path: PathBuf::from(path), display: path.to_string() }
}

#[test]
fn direct_spec_uses_fixed_app_server_arguments() {
    let spec = LaunchSpec::direct(native("codex"), "codex".to_string());
    assert_eq!(spec.program, native("codex"));
    assert_eq!(spec.args, vec!["app-server", "--stdio"]);
}

#[test]
fn direct_spec_displays_the_path() {
    let spec = LaunchSpec::direct(native("/usr/local/bin/codex"), "/usr/local/bin/codex".to_string());
    assert_eq!(spec.display, "/usr/local/bin/codex");
}

#[test]
fn windows_script_runs_through_cmd() {
    let spec = LaunchSpec::<PathBuf>::windows_script("C:\\bin\\codex.cmd".to_string());
    assert_eq!(spec.program, text("cmd.exe"));
    assert_eq!(
        spec.args,
        vec!["/D", "/S", "/C", "\"C:\\bin\\codex.cmd\" app-server --stdio"]
    );
    assert_eq!(spec.display, "C:\\bin\\codex.cmd");
}

#[test]
fn wsl_spec_runs_codex_in_wsl() {
    let spec = LaunchSpec::<PathBuf>::wsl();
    assert_eq!(spec.program, text("wsl.exe"));
    assert_eq!(spec.args, vec!["--", "codex", "app-server", "--stdio"]);
    assert_eq!(spec.display, "WSL: codex");
}

#[test]
fn spec_for_uses_cmd_only_for_windows_scripts() {
    let run = |path: &str, ext: Option<&str>, platform: Platform| {
        spec_for(native(path), path.to_string(), ext.map(str::to_string), platform).program
    };
    assert_eq!(run("x.bat", Some("bat"), Platform::Windows), text("cmd.exe"));
    assert_eq!(run("x.cmd", Some("cmd"), Platform::Windows), text("cmd.exe"));
    assert_eq!(run("x.exe", Some("exe"), Platform::Windows), native("x.exe"));
    assert_eq!(run("x.CMD", Some("CMD"), Platform::Windows), native("x.CMD"));
    assert_eq!(run("x.cmd", Some("cmd"), Platform::MacOs), native("x.cmd"));
    assert_eq!(run("codex", None, Platform::Windows), native("codex"));
}

#[test]
fn paths_that_are_not_unicode_pass_through() {
    // Raw bytes stand in for a host path that is not valid UTF-8.
    let raw: Vec<u8> = vec![b'/', b'b', 0xff, b'/', b'c', b'o', b'd', b'e', b'x'];
    let display = "/b\u{fffd}/codex".to_string();
    let candidates = launch_candidates(
        None,
        Some(HostPath { path: raw.clone(), display: display.clone() }),
        Vec::new(),
        Platform::Other,
    );
    assert_eq!(candidates.len(), 1);
    assert_eq!(candidates[0].path, ProgramPath::Native(raw.clone()));
    let checked = candidates
        .into_iter()
        .map(|c| CheckedCandidate { path: c.path, display: c.display, source: c.source, usable: true, extension: None })
        .collect();
    let chosen = choose_launch(checked, Platform::Other, None).unwrap();
    assert_eq!(chosen.program, ProgramPath::Native(raw));
    assert_eq!(chosen.display, display);
}

#[test]
fn executable_names_per_platform() {
    assert_eq!(executable_names(Platform::Windows), vec!["codex.exe", "codex.cmd", "codex.bat", "codex"]);
    assert_eq!(executable_names(Platform::MacOs), vec!["codex"]);
    assert_eq!(executable_names(Platform::Other), vec!["codex"]);
}

#[test]
fn candidates_come_in_documented_order() {
    let c = launch_candidates(
        Some("/opt/codex".to_string()),
        Some(host("/env/codex")),
        vec![host("/usr/bin/codex")],
        Platform::MacOs,
    );
    let paths: Vec<ProgramPath<PathBuf>> = c.iter().map(|c| c.path.clone()).collect();
    assert_eq!(
        paths,
        vec![
            text("/opt/codex"),
            native("/env/codex"),
            text("/Applications/ChatGPT.app/Contents/Resources/codex"),
            text("/Applications/Codex.app/Contents/Resources/codex"),
            native("/usr/bin/codex"),
        ]
    );
    let shown: Vec<&str> = c.iter().map(|c| c.display.as_str()).collect();
    assert_eq!(shown[0], "/opt/codex");
    assert_eq!(shown[4], "/usr/bin/codex");
    assert_eq!(c[0].source, CandidateSource::Configured);
    assert_eq!(c[1].source, CandidateSource::Environment);
    assert_eq!(c[2].source, CandidateSource::MacApplication);
    assert_eq!(c[4].source, CandidateSource::SearchPath);
}

#[test]
fn empty_override_is_skipped() {
    let c = launch_candidates(None, Some(host("")), vec![host("/bin/codex")], Platform::Other);
    assert_eq!(c.len(), 1);
    assert_eq!(c[0].path, native("/bin/codex"));
    let c = launch_candidates(Some(String::new()), None, Vec::<HostPath<PathBuf>>::new(), Platform::Other);
    assert!(c.is_empty());
}

fn checked(path: &str, source: CandidateSource, usable: bool, ext: Option<&str>) -> CheckedCandidate<PathBuf> {
    CheckedCandidate {
        path: native(path),
        display: path.to_string(),
        source,
        usable,
        extension: ext.map(|e| e.to_string()),
    }
}

#[test]
fn first_usable_candidate_wins() {
    let chosen = choose_launch(
        vec![
            checked("/a/codex", CandidateSource::Environment, false, None),
            checked("/b/codex", CandidateSource::SearchPath, true, None),
            checked("/c/codex", CandidateSource::SearchPath, true, None),
        ],
        Platform::Other,
        None,
    )
    .unwrap();
    assert_eq!(chosen.program, native("/b/codex"));
}

#[test]
fn mac_application_always_runs_directly() {
    let chosen = choose_launch(
        vec![checked("/Applications/Codex.app/Contents/Resources/codex.cmd", CandidateSource::MacApplication, true, Some("cmd"))],
        Platform::Windows,
        None,
    )
    .unwrap();
    assert_eq!(chosen.program, native("/Applications/Codex.app/Contents/Resources/codex.cmd"));
}

#[test]
fn wsl_fallback_only_on_windows_when_asked() {
    let none = vec![checked("/x", CandidateSource::SearchPath, false, None)];
    let wsl = choose_launch(none, Platform::Windows, Some("1".to_string())).unwrap();
    assert_eq!(wsl.program, text("wsl.exe"));
    let none = vec![checked("/x", CandidateSource::SearchPath, false, None)];
    assert!(choose_launch(none, Platform::Windows, Some("yes".to_string())).is_none());
    assert!(choose_launch(Vec::<CheckedCandidate<PathBuf>>::new(), Platform::MacOs, Some("1".to_string())).is_none());
    assert!(choose_launch(Vec::<CheckedCandidate<PathBuf>>::new(), Platform::Windows, None).is_none());
}

#[test]
fn usable_configured_path_wins() {
    let candidates = launch_candidates(
        Some("/opt/custom/codex".to_string()),
        Some(host("/env/codex")),
        vec![host("/usr/bin/codex")],
        Platform::Other,
    );
    let checked: Vec<CheckedCandidate<PathBuf>> = candidates
        .into_iter()
        .map(|c| CheckedCandidate { path: c.path, display: c.display, source: c.source, usable: true, extension: None })
        .collect();
    let chosen = choose_launch(checked, Platform::Other, None).unwrap();
    assert_eq!(chosen.program, text("/opt/custom/codex"));
    assert_eq!(chosen.args, vec!["app-server", "--stdio"]);
}
