use proxy_installer::acquisition::{
    strategies, AcquisitionEngine, AcquisitionStep, ArchiveFormat, Artifact, PackageManager,
    Strategy, StrategyOutcome,
};
use proxy_installer::path_store::Platform;
use proxy_installer::DependencyKind;

#[test]
fn second_strategy_wins_and_third_is_not_tried() {
    let mut e = AcquisitionEngine::new(DependencyKind::ScriptRuntime, 3);
    assert_eq!(e.pending(), AcquisitionStep::Attempt(0));
    e.report(StrategyOutcome::Failed("apt failed".to_string()));
    assert_eq!(e.pending(), AcquisitionStep::Attempt(1));
    e.report(StrategyOutcome::Succeeded);
    assert_eq!(e.pending(), AcquisitionStep::Installed(1));
    e.report(StrategyOutcome::Failed("late".to_string()));
    assert_eq!(e.pending(), AcquisitionStep::Installed(1));
    assert_eq!(e.result().unwrap().unwrap(), 1);
}

#[test]
fn all_strategies_failing_gives_last_cause() {
    let mut e = AcquisitionEngine::new(DependencyKind::VersionControl, 2);
    e.report(StrategyOutcome::Failed("first".to_string()));
    assert!(e.result().is_none());
    e.report(StrategyOutcome::Failed("second".to_string()));
    assert_eq!(e.pending(), AcquisitionStep::Exhausted);
    let err = e.result().unwrap().unwrap_err();
    assert_eq!(err.kind, DependencyKind::VersionControl);
    assert_eq!(err.cause, "second");
}

#[test]
fn empty_strategy_list_is_exhausted() {
    let e = AcquisitionEngine::new(DependencyKind::AgentCli, 0);
    assert_eq!(e.pending(), AcquisitionStep::Exhausted);
    assert!(e.result().unwrap().is_err());
}

#[test]
fn strategy_tables() {
    assert_eq!(
        strategies(DependencyKind::ScriptRuntime, Platform::Unix),
        vec![
            Strategy::PackageManager(PackageManager::Apt),
            Strategy::PackageManager(PackageManager::Yum),
            Strategy::PackageManager(PackageManager::Brew),
        ]
    );
    assert_eq!(
        strategies(DependencyKind::ManagedRuntime, Platform::Windows),
        vec![Strategy::DownloadArchive(Artifact::ManagedRuntimeZip)]
    );
    assert_eq!(
        strategies(DependencyKind::VersionControl, Platform::Windows),
        vec![Strategy::RunInstaller(Artifact::VersionControlInstaller)]
    );
    assert!(strategies(DependencyKind::AgentCli, Platform::Unix).is_empty());
}

#[test]
fn package_manager_commands() {
    assert_eq!(PackageManager::Brew.program(), "brew");
    assert_eq!(
        PackageManager::Apt.install_command(DependencyKind::ScriptRuntime),
        Some(("sudo apt update && sudo apt install -y python3 python3-pip", "/usr/bin/python3"))
    );
    assert_eq!(
        PackageManager::Yum.install_command(DependencyKind::VersionControl),
        Some(("sudo yum install -y git", "/usr/bin/git"))
    );
    assert_eq!(PackageManager::Apt.install_command(DependencyKind::AgentCli), None);
}

#[test]
fn artifacts() {
    assert_eq!(Artifact::ScriptRuntimeArchive.format(), Some(ArchiveFormat::TarGz));
    assert_eq!(Artifact::ManagedRuntimeZip.format(), Some(ArchiveFormat::Zip));
    assert_eq!(Artifact::VersionControlInstaller.format(), None);
    assert_eq!(Artifact::ManagedRuntimeZip.file_and_dir(), ("nodejs.zip", "nodejs"));
    assert_eq!(Artifact::ScriptRuntimeArchive.path_dirs(), vec!["", "Scripts"]);
    assert!(Artifact::ManagedRuntimeZip.url().ends_with("node-v18.18.2-win-x64.zip"));
}
