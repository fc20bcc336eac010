use proxy_installer::agent_install::{AgentEvent, AgentInstaller, AgentStage};
use proxy_installer::detection::{
    accept_probe_output, agent_executables, agent_probe, command_probes, known_agent_paths,
    listing_shows_agent, output_confirms_agent, runner_output_names_agent, AgentIdentity,
    ProbeSession,
};
use proxy_installer::path_store::Platform;
use proxy_installer::{DependencyKind, DependencyStatus};

fn strings(v: &[&str]) -> Vec<String> {
    v.iter().map(|s| s.to_string()).collect()
}

fn agent() -> AgentIdentity {
    AgentIdentity {
        programs: strings(&["helper", "helper-cli"]),
        probe_tokens: strings(&["helper", "acme", "version"]),
        confirm_tokens: strings(&["helper", "acme"]),
        package: "@acme/helper-cli".to_string(),
        label: "Helper CLI".to_string(),
    }
}

#[test]
fn probe_tables() {
    assert_eq!(
        command_probes(DependencyKind::ScriptRuntime),
        vec![("python3", "--version"), ("python", "--version")]
    );
    assert_eq!(command_probes(DependencyKind::VersionControl), vec![("git", "--version")]);
    assert!(command_probes(DependencyKind::AgentCli).is_empty());
    assert_eq!(agent_probe(0), (0, "--version"));
    assert_eq!(agent_probe(2), (0, "-h"));
    assert_eq!(agent_probe(4), (1, "--help"));
}

#[test]
fn agent_locations() {
    let a = agent();
    assert_eq!(
        agent_executables(&a, Platform::Unix, "helper"),
        vec![("helper".to_string(), "Helper CLI (executable found)".to_string())]
    );
    let w = agent_executables(&a, Platform::Windows, "helper");
    assert_eq!(w[1], ("helper.cmd".to_string(), "Helper CLI (helper.cmd)".to_string()));
    assert_eq!(known_agent_paths(Platform::Unix, "helper")[2], "~/.npm-global/bin/helper");
    assert_eq!(
        known_agent_paths(Platform::Windows, "helper")[1],
        "C:\\Program Files\\nodejs\\helper.cmd"
    );
}

#[test]
fn probe_output_acceptance() {
    let a = agent();
    assert_eq!(
        accept_probe_output(DependencyKind::ScriptRuntime, &a, "python3", "Python 3.11.5"),
        Some("Python 3.11.5".to_string())
    );
    assert_eq!(accept_probe_output(DependencyKind::ScriptRuntime, &a, "python", "Python 3.7.9"), None);
    assert_eq!(accept_probe_output(DependencyKind::ManagedRuntime, &a, "node", "v14.21.3"), None);
    assert_eq!(
        accept_probe_output(DependencyKind::ManagedRuntime, &a, "node", "v18.17.0"),
        Some("v18.17.0".to_string())
    );
    assert_eq!(
        accept_probe_output(DependencyKind::VersionControl, &a, "git", "git version 2.40.1"),
        Some("git version 2.40.1".to_string())
    );
}

#[test]
fn agent_output_is_lowercased_before_matching() {
    let a = agent();
    assert_eq!(
        accept_probe_output(DependencyKind::AgentCli, &a, "helper", "HELPER TOOL"),
        Some("Helper CLI (helper)".to_string())
    );
    assert_eq!(accept_probe_output(DependencyKind::AgentCli, &a, "helper", "usage: foo"), None);
    assert!(output_confirms_agent(&a, "ACME tool"));
    assert!(!output_confirms_agent(&a, "some other tool"));
    assert!(runner_output_names_agent(&a, "Helper 1.0"));
    assert!(!runner_output_names_agent(&a, "nothing"));
    assert!(listing_shows_agent(&a, "`-- @acme/helper-cli@1.0.0"));
    assert!(!listing_shows_agent(&a, "(empty)"));
}

#[test]
fn first_accepted_probe_wins() {
    let mut s = ProbeSession::new(DependencyKind::ScriptRuntime, 2);
    assert_eq!(s.pending(), Some(0));
    s.report(None);
    assert_eq!(s.pending(), Some(1));
    s.report(Some("Python 3.12.1".to_string()));
    assert_eq!(s.pending(), None);
    s.report(Some("ignored".to_string()));
    match s.status() {
        DependencyStatus::Found(d) => assert_eq!(d, "Python 3.12.1"),
        DependencyStatus::NotFound => panic!("should be found"),
    }
}

#[test]
fn exhausted_probes_give_not_found() {
    let mut s = ProbeSession::new(DependencyKind::ManagedRuntime, 1);
    s.report(None);
    assert_eq!(s.pending(), None);
    assert!(matches!(s.status(), DependencyStatus::NotFound));
}

#[test]
fn agent_installer_falls_through_to_user_scope() {
    let mut a = AgentInstaller::new(2);
    assert_eq!(a.stage, AgentStage::Candidate(0));
    a.report(AgentEvent::Failed("missing".to_string()));
    assert_eq!(a.stage, AgentStage::Candidate(1));
    a.report(AgentEvent::Succeeded);
    assert_eq!(a.stage, AgentStage::VerifyCandidate(1));
    a.report(AgentEvent::Failed("not invokable".to_string()));
    assert_eq!(a.stage, AgentStage::SearchPath);
    a.report(AgentEvent::Failed("exit 1".to_string()));
    assert_eq!(a.stage, AgentStage::SetPrefix);
    a.report(AgentEvent::Succeeded);
    a.report(AgentEvent::Succeeded);
    assert_eq!(a.stage, AgentStage::RegisterBin);
    a.report(AgentEvent::Succeeded);
    assert_eq!(a.result(), Some(Ok(())));
}

#[test]
fn agent_installer_verified_candidate_finishes() {
    let mut a = AgentInstaller::new(1);
    a.report(AgentEvent::Succeeded);
    a.report(AgentEvent::Succeeded);
    assert_eq!(a.stage, AgentStage::Installed);
}

#[test]
fn agent_installer_user_scope_failure_keeps_cause() {
    let mut a = AgentInstaller::new(0);
    assert_eq!(a.stage, AgentStage::SearchPath);
    a.report(AgentEvent::Failed("no npm".to_string()));
    a.report(AgentEvent::Failed("Failed to set npm prefix".to_string()));
    assert_eq!(a.result(), Some(Err("Failed to set npm prefix".to_string())));
}
