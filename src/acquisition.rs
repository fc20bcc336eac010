use crate::orchestrator::DependencyKind;
use crate::path_store::Platform;
use vstd::prelude::*;

verus! {

/// A native package manager that the installer can drive.
#[derive(Clone, Copy, Debug, PartialEq, Eq, Structural)]
pub enum PackageManager {
    Apt,
    Yum,
    Brew,
}

/// A pinned download.
#[derive(Clone, Copy, Debug, PartialEq, Eq, Structural)]
pub enum Artifact {
    /// Standalone scripting runtime, a gzip-compressed tar archive.
    ScriptRuntimeArchive,
    /// Managed runtime, a zip archive.
    ManagedRuntimeZip,
    /// Portable version-control client, a self-extracting installer.
    VersionControlInstaller,
}

#[derive(Clone, Copy, Debug, PartialEq, Eq, Structural)]
pub enum ArchiveFormat {
    TarGz,
    Zip,
}

/// One way to obtain a missing tool.
#[derive(Clone, Copy, Debug, PartialEq, Eq, Structural)]
pub enum Strategy {
    /// Install through a package manager, when that manager is present.
    PackageManager(PackageManager),
    /// Download an archive into the install root and unpack it.
    DownloadArchive(Artifact),
    /// Download a self-extracting installer and run it.
    RunInstaller(Artifact),
}

/// The strategies tried for `kind` on `platform`, in order.
pub open spec fn strategies_of(kind: DependencyKind, platform: Platform) -> Seq<Strategy> {
    match platform {
        Platform::Windows => match kind {
            DependencyKind::ScriptRuntime => seq![
                Strategy::DownloadArchive(Artifact::ScriptRuntimeArchive),
            ],
            DependencyKind::ManagedRuntime => seq![
                Strategy::DownloadArchive(Artifact::ManagedRuntimeZip),
            ],
            DependencyKind::VersionControl => seq![
                Strategy::RunInstaller(Artifact::VersionControlInstaller),
            ],
            DependencyKind::AgentCli => seq![],
        },
        Platform::Unix => match kind {
            DependencyKind::AgentCli => seq![],
            _ => seq![
                Strategy::PackageManager(PackageManager::Apt),
                Strategy::PackageManager(PackageManager::Yum),
                Strategy::PackageManager(PackageManager::Brew),
            ],
        },
    }
}

/// The strategy table. The agent CLI has an installer of its own and no entry here.
pub fn strategies(kind: DependencyKind, platform: Platform) -> (r: Vec<Strategy>)
    ensures
        r@ == strategies_of(kind, platform),
{
    let mut v: Vec<Strategy> = Vec::new();
    match platform {
        Platform::Windows => match kind {
            DependencyKind::ScriptRuntime => v.push(
                Strategy::DownloadArchive(Artifact::ScriptRuntimeArchive),
            ),
            DependencyKind::ManagedRuntime => v.push(
                Strategy::DownloadArchive(Artifact::ManagedRuntimeZip),
            ),
            DependencyKind::VersionControl => v.push(
                Strategy::RunInstaller(Artifact::VersionControlInstaller),
            ),
            DependencyKind::AgentCli => {},
        },
        Platform::Unix => match kind {
            DependencyKind::AgentCli => {},
            _ => {
                v.push(Strategy::PackageManager(PackageManager::Apt));
                v.push(Strategy::PackageManager(PackageManager::Yum));
                v.push(Strategy::PackageManager(PackageManager::Brew));
            },
        },
    }
    assert(v@ =~= strategies_of(kind, platform));
    v
}

impl PackageManager {
    /// The executable whose presence on the search path enables this manager.
    pub fn program(&self) -> (r: &'static str)
        ensures
            *self == PackageManager::Apt ==> r@ == "apt"@,
            *self == PackageManager::Yum ==> r@ == "yum"@,
            *self == PackageManager::Brew ==> r@ == "brew"@,
    {
        match self {
            PackageManager::Apt => "apt",
            PackageManager::Yum => "yum",
            PackageManager::Brew => "brew",
        }
    }

    /// The shell command that installs `kind` with this manager, and where the
    /// installed tool then lives. The agent CLI has none.
    pub fn install_command(&self, kind: DependencyKind) -> (r: Option<(&'static str, &'static str)>)
        ensures
            r is None <==> kind == DependencyKind::AgentCli,
            r matches Some((cmd, loc)) ==> match (*self, kind) {
                (PackageManager::Apt, DependencyKind::ScriptRuntime) => cmd@
                    == "sudo apt update && sudo apt install -y python3 python3-pip"@ && loc@
                    == "/usr/bin/python3"@,
                (PackageManager::Yum, DependencyKind::ScriptRuntime) => cmd@
                    == "sudo yum install -y python3 python3-pip"@ && loc@ == "/usr/bin/python3"@,
                (PackageManager::Brew, DependencyKind::ScriptRuntime) => cmd@
                    == "brew install python3"@ && loc@ == "/usr/bin/python3"@,
                (PackageManager::Apt, DependencyKind::ManagedRuntime) => cmd@
                    == "sudo apt update && sudo apt install -y nodejs npm"@ && loc@
                    == "/usr/bin/node"@,
                (PackageManager::Yum, DependencyKind::ManagedRuntime) => cmd@
                    == "sudo yum install -y nodejs npm"@ && loc@ == "/usr/bin/node"@,
                (PackageManager::Brew, DependencyKind::ManagedRuntime) => cmd@ == "brew install node"@
                    && loc@ == "/usr/bin/node"@,
                (PackageManager::Apt, DependencyKind::VersionControl) => cmd@
                    == "sudo apt install -y git"@ && loc@ == "/usr/bin/git"@,
                (PackageManager::Yum, DependencyKind::VersionControl) => cmd@
                    == "sudo yum install -y git"@ && loc@ == "/usr/bin/git"@,
                (PackageManager::Brew, DependencyKind::VersionControl) => cmd@ == "brew install git"@
                    && loc@ == "/usr/bin/git"@,
                _ => false,
            },
    {
        match kind {
            DependencyKind::ScriptRuntime => {
                let cmd = match self {
                    PackageManager::Apt => "sudo apt update && sudo apt install -y python3 python3-pip",
                    PackageManager::Yum => "sudo yum install -y python3 python3-pip",
                    PackageManager::Brew => "brew install python3",
                };
                Some((cmd, "/usr/bin/python3"))
            },
            DependencyKind::ManagedRuntime => {
                let cmd = match self {
                    PackageManager::Apt => "sudo apt update && sudo apt install -y nodejs npm",
                    PackageManager::Yum => "sudo yum install -y nodejs npm",
                    PackageManager::Brew => "brew install node",
                };
                Some((cmd, "/usr/bin/node"))
            },
            DependencyKind::VersionControl => {
                let cmd = match self {
                    PackageManager::Apt => "sudo apt install -y git",
                    PackageManager::Yum => "sudo yum install -y git",
                    PackageManager::Brew => "brew install git",
                };
                Some((cmd, "/usr/bin/git"))
            },
            DependencyKind::AgentCli => None,
        }
    }
}

impl Artifact {
    pub fn url(&self) -> (r: &'static str)
        ensures
            *self == Artifact::ScriptRuntimeArchive ==> r@
                == "https://github.com/indygreg/python-build-standalone/releases/download/20231002/cpython-3.11.6+20231002-x86_64-pc-windows-msvc-shared-install_only.tar.gz"@,
            *self == Artifact::ManagedRuntimeZip ==> r@
                == "https://nodejs.org/dist/v18.18.2/node-v18.18.2-win-x64.zip"@,
            *self == Artifact::VersionControlInstaller ==> r@
                == "https://github.com/git-for-windows/git/releases/download/v2.42.0.windows.2/PortableGit-2.42.0.2-64-bit.7z.exe"@,
    {
        match self {
            Artifact::ScriptRuntimeArchive => "https://github.com/indygreg/python-build-standalone/releases/download/20231002/cpython-3.11.6+20231002-x86_64-pc-windows-msvc-shared-install_only.tar.gz",
            Artifact::ManagedRuntimeZip => "https://nodejs.org/dist/v18.18.2/node-v18.18.2-win-x64.zip",
            Artifact::VersionControlInstaller => "https://github.com/git-for-windows/git/releases/download/v2.42.0.windows.2/PortableGit-2.42.0.2-64-bit.7z.exe",
        }
    }

    /// The download's file name in the install root, and the directory it is unpacked into.
    pub fn file_and_dir(&self) -> (r: (&'static str, &'static str))
        ensures
            *self == Artifact::ScriptRuntimeArchive ==> r.0@ == "python.tar.gz"@ && r.1@
                == "python"@,
            *self == Artifact::ManagedRuntimeZip ==> r.0@ == "nodejs.zip"@ && r.1@ == "nodejs"@,
            *self == Artifact::VersionControlInstaller ==> r.0@ == "git-portable.exe"@ && r.1@
                == "git"@,
    {
        match self {
            Artifact::ScriptRuntimeArchive => ("python.tar.gz", "python"),
            Artifact::ManagedRuntimeZip => ("nodejs.zip", "nodejs"),
            Artifact::VersionControlInstaller => ("git-portable.exe", "git"),
        }
    }

    pub fn format(&self) -> (r: Option<ArchiveFormat>)
        ensures
            *self == Artifact::ScriptRuntimeArchive ==> r == Some(ArchiveFormat::TarGz),
            *self == Artifact::ManagedRuntimeZip ==> r == Some(ArchiveFormat::Zip),
            *self == Artifact::VersionControlInstaller ==> r is None,
    {
        match self {
            Artifact::ScriptRuntimeArchive => Some(ArchiveFormat::TarGz),
            Artifact::ManagedRuntimeZip => Some(ArchiveFormat::Zip),
            Artifact::VersionControlInstaller => None,
        }
    }

    /// The directories, below the unpacked one, to put on the search path
    /// (the empty string is the unpacked directory itself).
    pub fn path_dirs(&self) -> (r: Vec<&'static str>)
        ensures
            *self == Artifact::ScriptRuntimeArchive ==> r@.len() == 2 && r@[0]@ == ""@
                && r@[1]@ == "Scripts"@,
            *self == Artifact::ManagedRuntimeZip ==> r@.len() == 1 && r@[0]@ == ""@,
            *self == Artifact::VersionControlInstaller ==> r@.len() == 1 && r@[0]@ == "bin"@,
    {
        let mut v: Vec<&'static str> = Vec::new();
        match self {
            Artifact::ScriptRuntimeArchive => {
                v.push("");
                v.push("Scripts");
            },
            Artifact::ManagedRuntimeZip => v.push(""),
            Artifact::VersionControlInstaller => v.push("bin"),
        }
        v
    }
}

#[derive(Clone, Copy, Debug, PartialEq, Eq, Structural)]
pub enum AcquisitionStatus {
    Trying,
    Installed,
    Exhausted,
}

/// How one attempted strategy ended, as its own exit status tells.
#[derive(Clone, Debug)]
pub enum StrategyOutcome {
    Succeeded,
    Failed(String),
}

/// What the engine asks for next.
#[derive(Clone, Copy, Debug, PartialEq, Eq, Structural)]
pub enum AcquisitionStep {
    Attempt(usize),
    Installed(usize),
    Exhausted,
}

/// Every strategy of a tool failed; `cause` is the last strategy's.
#[derive(Clone, Debug)]
pub struct AcquisitionError {
    pub kind: DependencyKind,
    pub cause: String,
}

pub open spec fn acquisition_start(total: int) -> (AcquisitionStatus, int) {
    if total > 0 {
        (AcquisitionStatus::Trying, 0)
    } else {
        (AcquisitionStatus::Exhausted, 0)
    }
}

/// One transition: success ends the search at the current strategy; failure
/// moves to the next strategy, or ends the search when none is left.
pub open spec fn acquisition_step(total: int, s: (AcquisitionStatus, int), o: StrategyOutcome) -> (
    AcquisitionStatus,
    int,
) {
    if s.0 != AcquisitionStatus::Trying {
        s
    } else {
        match o {
            StrategyOutcome::Succeeded => (AcquisitionStatus::Installed, s.1),
            StrategyOutcome::Failed(_) => if s.1 + 1 < total {
                (AcquisitionStatus::Trying, s.1 + 1)
            } else {
                (AcquisitionStatus::Exhausted, s.1)
            },
        }
    }
}

pub open spec fn acquisition_after(
    total: int,
    s: (AcquisitionStatus, int),
    os: Seq<StrategyOutcome>,
) -> (AcquisitionStatus, int)
    decreases os.len(),
{
    if os.len() == 0 {
        s
    } else {
        acquisition_after(total, acquisition_step(total, s, os[0]), os.drop_first())
    }
}

pub open spec fn pending_of(s: (AcquisitionStatus, int)) -> AcquisitionStep {
    match s.0 {
        AcquisitionStatus::Trying => AcquisitionStep::Attempt(s.1 as usize),
        AcquisitionStatus::Installed => AcquisitionStep::Installed(s.1 as usize),
        AcquisitionStatus::Exhausted => AcquisitionStep::Exhausted,
    }
}

/// Walks a tool's strategy list in order until one succeeds.
pub struct AcquisitionEngine {
    pub kind: DependencyKind,
    pub total: usize,
    pub current: usize,
    pub status: AcquisitionStatus,
    pub last_cause: String,
}

impl AcquisitionEngine {
    pub open spec fn state(&self) -> (AcquisitionStatus, int) {
        (self.status, self.current as int)
    }

    pub open spec fn wf(&self) -> bool {
        self.status == AcquisitionStatus::Trying ==> self.current < self.total
    }

    /// An engine over `total` strategies for `kind`.
    pub fn new(kind: DependencyKind, total: usize) -> (r: Self)
        ensures
            r.wf(),
            r.kind == kind,
            r.total == total,
            r.state() == acquisition_start(total as int),
    {
        let status = if total > 0 {
            AcquisitionStatus::Trying
        } else {
            AcquisitionStatus::Exhausted
        };
        AcquisitionEngine { kind, total, current: 0, status, last_cause: String::new() }
    }

    pub fn pending(&self) -> (r: AcquisitionStep)
        ensures
            r == pending_of(self.state()),
    {
        match self.status {
            AcquisitionStatus::Trying => AcquisitionStep::Attempt(self.current),
            AcquisitionStatus::Installed => AcquisitionStep::Installed(self.current),
            AcquisitionStatus::Exhausted => AcquisitionStep::Exhausted,
        }
    }

    /// Takes the outcome of the strategy last asked for.
    pub fn report(&mut self, outcome: StrategyOutcome)
        requires
            old(self).wf(),
        ensures
            final(self).wf(),
            final(self).kind == old(self).kind,
            final(self).total == old(self).total,
            final(self).state() == acquisition_step(
                old(self).total as int,
                old(self).state(),
                outcome,
            ),
            old(self).status == AcquisitionStatus::Trying ==> (outcome matches StrategyOutcome::Failed(
                c,
            ) ==> final(self).last_cause@ == c@),
            old(self).status != AcquisitionStatus::Trying ==> final(self).last_cause
                == old(self).last_cause,
    {
        if self.status != AcquisitionStatus::Trying {
            return ;
        }
        match outcome {
            StrategyOutcome::Succeeded => {
                self.status = AcquisitionStatus::Installed;
            },
            StrategyOutcome::Failed(cause) => {
                self.last_cause = cause;
                if self.current + 1 < self.total {
                    self.current = self.current + 1;
                } else {
                    self.status = AcquisitionStatus::Exhausted;
                }
            },
        }
    }

    /// The result once the search has ended: the index of the strategy that
    /// succeeded, or the error with the last cause.
    pub fn result(&self) -> (r: Option<Result<usize, AcquisitionError>>)
        ensures
            self.status == AcquisitionStatus::Trying <==> r is None,
            self.status == AcquisitionStatus::Installed ==> r == Some(
                Ok::<usize, AcquisitionError>(self.current),
            ),
            self.status == AcquisitionStatus::Exhausted ==> (r matches Some(Err(e)) && e.kind
                == self.kind && e.cause@ == self.last_cause@),
    {
        match self.status {
            AcquisitionStatus::Trying => None,
            AcquisitionStatus::Installed => Some(Ok(self.current)),
            AcquisitionStatus::Exhausted => Some(
                Err(AcquisitionError { kind: self.kind, cause: self.last_cause.clone() }),
            ),
        }
    }
}

/// Once a strategy has succeeded, no further outcome moves the engine: it
/// stays installed by that strategy and asks for no other attempt.
pub proof fn lemma_installed_is_final(total: int, i: int, os: Seq<StrategyOutcome>)
    ensures
        acquisition_after(total, (AcquisitionStatus::Installed, i), os) == (
            AcquisitionStatus::Installed,
            i,
        ),
    decreases os.len(),
{
    if os.len() > 0 {
        lemma_installed_is_final(total, i, os.drop_first());
    }
}

/// When the first strategy fails and the second succeeds, the tool is installed
/// by the second, and the third is never attempted, whatever is reported after.
pub proof fn lemma_second_strategy_wins(total: int, cause: String, later: Seq<StrategyOutcome>)
    requires
        total >= 2,
    ensures
        pending_of(
            acquisition_step(total, acquisition_start(total), StrategyOutcome::Failed(cause)),
        ) == AcquisitionStep::Attempt(1),
        acquisition_after(
            total,
            acquisition_start(total),
            seq![StrategyOutcome::Failed(cause), StrategyOutcome::Succeeded] + later,
        ) == (AcquisitionStatus::Installed, 1int),
{
    let os = seq![StrategyOutcome::Failed(cause), StrategyOutcome::Succeeded] + later;
    let s1 = acquisition_step(total, acquisition_start(total), os[0]);
    assert(s1 == (AcquisitionStatus::Trying, 1int));
    assert(os.drop_first()[0] == StrategyOutcome::Succeeded);
    assert(os.drop_first().drop_first() =~= later);
    let s2 = acquisition_step(total, s1, os.drop_first()[0]);
    assert(s2 == (AcquisitionStatus::Installed, 1int));
    lemma_installed_is_final(total, 1, later);
    assert(acquisition_after(total, s1, os.drop_first()) == acquisition_after(
        total,
        s2,
        os.drop_first().drop_first(),
    ));
    assert(acquisition_after(total, acquisition_start(total), os) == acquisition_after(
        total,
        s1,
        os.drop_first(),
    ));
}

} // verus!
