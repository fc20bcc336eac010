use crate::orchestrator::{DependencyKind, DependencyStatus};
use crate::path_store::Platform;
use crate::text::{contains_sub, has_sub, lower_of, lowercase};
use crate::version::{
    is_nodejs_version_sufficient, is_python_version_sufficient, nodejs_version_ok,
    python_version_ok,
};
use vstd::prelude::*;

verus! {

/// The command probes of a version-gated tool: program and argument, tried in
/// this order. The agent CLI's probes come from its identity instead.
pub open spec fn probes_of(kind: DependencyKind) -> Seq<(Seq<char>, Seq<char>)> {
    match kind {
        DependencyKind::ScriptRuntime => seq![
            ("python3"@, "--version"@),
            ("python"@, "--version"@),
        ],
        DependencyKind::ManagedRuntime => seq![("node"@, "--version"@)],
        DependencyKind::VersionControl => seq![("git"@, "--version"@)],
        DependencyKind::AgentCli => seq![],
    }
}

/// The command probes of `kind`, in the order they are tried.
pub fn command_probes(kind: DependencyKind) -> (r: Vec<(&'static str, &'static str)>)
    ensures
        r@.len() == probes_of(kind).len(),
        forall|i: int|
            0 <= i < r@.len() ==> (#[trigger] r@[i]).0@ == probes_of(kind)[i].0 && r@[i].1@
                == probes_of(kind)[i].1,
{
    let mut v: Vec<(&'static str, &'static str)> = Vec::new();
    match kind {
        DependencyKind::ScriptRuntime => {
            v.push(("python3", "--version"));
            v.push(("python", "--version"));
        },
        DependencyKind::ManagedRuntime => v.push(("node", "--version")),
        DependencyKind::VersionControl => v.push(("git", "--version")),
        DependencyKind::AgentCli => {},
    }
    v
}

/// How the agent CLI is recognised, as the installer's configuration gives it.
pub struct AgentIdentity {
    /// Program names, tried in order, each with every argument that `agent_probe` lists.
    pub programs: Vec<String>,
    /// Lower-case tokens; probe output that holds any of them, lower-cased,
    /// identifies the CLI.
    pub probe_tokens: Vec<String>,
    /// Lower-case tokens; output that holds any of them confirms a fresh install.
    pub confirm_tokens: Vec<String>,
    /// The CLI's package in the package manager's registry.
    pub package: String,
    /// Product name used in descriptors.
    pub label: String,
}

pub open spec fn agent_flag_of(m: int) -> Seq<char> {
    if m == 0 {
        "--version"@
    } else if m == 1 {
        "--help"@
    } else {
        "-h"@
    }
}

pub const AGENT_FLAGS: usize = 3;

/// Probe `i` of the agent CLI: the index of its program and its argument.
/// Each program is tried with `--version`, `--help` and `-h` before the next.
pub fn agent_probe(i: usize) -> (r: (usize, &'static str))
    ensures
        r.0 == i / 3,
        r.1@ == agent_flag_of(i as int % 3),
{
    let m = i % AGENT_FLAGS;
    let f = if m == 0 {
        "--version"
    } else if m == 1 {
        "--help"
    } else {
        "-h"
    };
    (i / AGENT_FLAGS, f)
}

/// Some token of `tokens` occurs in `s`.
pub open spec fn holds_any(s: Seq<char>, tokens: Seq<String>) -> bool {
    exists|k: int| 0 <= k < tokens.len() && has_sub(s, #[trigger] tokens[k]@)
}

/// Whether `s` holds some token of `tokens`.
pub fn contains_any(s: &str, tokens: &Vec<String>) -> (r: bool)
    ensures
        r == holds_any(s@, tokens@),
{
    let mut k: usize = 0;
    while k < tokens.len()
        invariant
            k <= tokens@.len(),
            forall|j: int| 0 <= j < k ==> !has_sub(s@, #[trigger] tokens@[j]@),
        decreases tokens@.len() - k,
    {
        if contains_sub(s, tokens[k].as_str()) {
            return true;
        }
        k = k + 1;
    }
    false
}

/// The descriptor recorded for an agent CLI found through `source`.
pub open spec fn descriptor(label: Seq<char>, source: Seq<char>) -> Seq<char> {
    label + " ("@ + source + ")"@
}

pub fn descriptor_of(label: &str, source: &str) -> (r: String)
    ensures
        r@ == descriptor(label@, source@),
{
    let s = String::from_str(label);
    let s = s.concat(" (");
    let s = s.concat(source);
    s.concat(")")
}

/// What a probe of `kind` that exited successfully shows: the descriptor of a
/// usable tool, or nothing when the output fails the kind's gate.
pub open spec fn accepted(
    kind: DependencyKind,
    agent: AgentIdentity,
    program: Seq<char>,
    output: Seq<char>,
) -> Option<Seq<char>> {
    match kind {
        DependencyKind::ScriptRuntime => if python_version_ok(output) {
            Some(output)
        } else {
            None
        },
        DependencyKind::ManagedRuntime => if nodejs_version_ok(output) {
            Some(output)
        } else {
            None
        },
        DependencyKind::VersionControl => Some(output),
        DependencyKind::AgentCli => if holds_any(lower_of(output), agent.probe_tokens@) {
            Some(descriptor(agent.label@, program))
        } else {
            None
        },
    }
}

/// Judges the trimmed output of a probe of `kind` that ran `program` and exited
/// successfully.
pub fn accept_probe_output(
    kind: DependencyKind,
    agent: &AgentIdentity,
    program: &str,
    output: &str,
) -> (r: Option<String>)
    ensures
        match r {
            Some(d) => accepted(kind, *agent, program@, output@) == Some(d@),
            None => accepted(kind, *agent, program@, output@) is None,
        },
{
    match kind {
        DependencyKind::ScriptRuntime => if is_python_version_sufficient(output) {
            Some(String::from_str(output))
        } else {
            None
        },
        DependencyKind::ManagedRuntime => if is_nodejs_version_sufficient(output) {
            Some(String::from_str(output))
        } else {
            None
        },
        DependencyKind::VersionControl => Some(String::from_str(output)),
        DependencyKind::AgentCli => {
            let lowered = lowercase(output);
            if contains_any(lowered.as_str(), &agent.probe_tokens) {
                Some(descriptor_of(agent.label.as_str(), program))
            } else {
                None
            }
        },
    }
}

/// Whether output of the installed CLI confirms an install.
pub fn output_confirms_agent(agent: &AgentIdentity, output: &str) -> (r: bool)
    ensures
        r == holds_any(lower_of(output@), agent.confirm_tokens@),
{
    let lowered = lowercase(output);
    contains_any(lowered.as_str(), &agent.confirm_tokens)
}

/// Whether a global package listing shows the CLI's package.
pub fn listing_shows_agent(agent: &AgentIdentity, output: &str) -> (r: bool)
    ensures
        r == has_sub(output@, agent.package@),
{
    contains_sub(output, agent.package.as_str())
}

/// Whether output of the package runner, lower-cased, names the CLI's first program.
pub fn runner_output_names_agent(agent: &AgentIdentity, output: &str) -> (r: bool)
    ensures
        r == (agent.programs@.len() > 0 && has_sub(lower_of(output@), agent.programs@[0]@)),
{
    if agent.programs.len() == 0 {
        return false;
    }
    let lowered = lowercase(output);
    contains_sub(lowered.as_str(), agent.programs[0].as_str())
}

/// File names under which the CLI's `program` may sit in a search-path
/// directory, with the descriptor that each one gives.
pub fn agent_executables(agent: &AgentIdentity, platform: Platform, program: &str) -> (r: Vec<
    (String, String),
>)
    ensures
        platform == Platform::Windows ==> r@.len() == 3 && r@[0].0@ == program@ + ".exe"@
            && r@[0].1@ == descriptor(agent.label@, "executable found"@) && r@[1].0@ == program@
            + ".cmd"@ && r@[1].1@ == descriptor(agent.label@, program@ + ".cmd"@) && r@[2].0@
            == program@ + ".bat"@ && r@[2].1@ == descriptor(agent.label@, program@ + ".bat"@),
        platform == Platform::Unix ==> r@.len() == 1 && r@[0].0@ == program@ && r@[0].1@
            == descriptor(agent.label@, "executable found"@),
{
    let label = agent.label.as_str();
    let mut v: Vec<(String, String)> = Vec::new();
    match platform {
        Platform::Windows => {
            let exe = String::from_str(program).concat(".exe");
            let cmd = String::from_str(program).concat(".cmd");
            let bat = String::from_str(program).concat(".bat");
            let dc = descriptor_of(label, cmd.as_str());
            let db = descriptor_of(label, bat.as_str());
            v.push((exe, descriptor_of(label, "executable found")));
            v.push((cmd, dc));
            v.push((bat, db));
        },
        Platform::Unix => v.push(
            (String::from_str(program), descriptor_of(label, "executable found")),
        ),
    }
    v
}

/// Well-known install locations of the CLI's `program`. `%USERNAME%` and a
/// leading `~/` stand for the user name and the home directory.
pub fn known_agent_paths(platform: Platform, program: &str) -> (r: Vec<String>)
    ensures
        platform == Platform::Windows ==> r@.len() == 3 && r@[0]@
            == "C:\\Users\\%USERNAME%\\AppData\\Roaming\\npm\\"@ + program@ + ".cmd"@ && r@[1]@
            == "C:\\Program Files\\nodejs\\"@ + program@ + ".cmd"@ && r@[2]@
            == "C:\\Program Files (x86)\\nodejs\\"@ + program@ + ".cmd"@,
        platform == Platform::Unix ==> r@.len() == 3 && r@[0]@ == "/usr/local/bin/"@ + program@
            && r@[1]@ == "/usr/bin/"@ + program@ && r@[2]@ == "~/.npm-global/bin/"@ + program@,
{
    let mut v: Vec<String> = Vec::new();
    match platform {
        Platform::Windows => {
            v.push(
                String::from_str("C:\\Users\\%USERNAME%\\AppData\\Roaming\\npm\\").concat(
                    program,
                ).concat(".cmd"),
            );
            v.push(String::from_str("C:\\Program Files\\nodejs\\").concat(program).concat(".cmd"));
            v.push(
                String::from_str("C:\\Program Files (x86)\\nodejs\\").concat(program).concat(
                    ".cmd",
                ),
            );
        },
        Platform::Unix => {
            v.push(String::from_str("/usr/local/bin/").concat(program));
            v.push(String::from_str("/usr/bin/").concat(program));
            v.push(String::from_str("~/.npm-global/bin/").concat(program));
        },
    }
    v
}

/// Runs the probes of one tool in order; the first accepted one wins and no
/// further probe runs.
pub struct ProbeSession {
    pub kind: DependencyKind,
    pub total: usize,
    pub next: usize,
    pub found: Option<String>,
}

impl ProbeSession {
    pub fn new(kind: DependencyKind, total: usize) -> (r: Self)
        ensures
            r.kind == kind,
            r.total == total,
            r.next == 0,
            r.found is None,
    {
        ProbeSession { kind, total, next: 0, found: None }
    }

    /// The probe to run next, if any is left to run.
    pub fn pending(&self) -> (r: Option<usize>)
        ensures
            r == (if self.found is None && self.next < self.total {
                Some(self.next)
            } else {
                None::<usize>
            }),
    {
        if self.found.is_none() && self.next < self.total {
            Some(self.next)
        } else {
            None
        }
    }

    /// Takes what the pending probe showed: the accepted descriptor, or nothing
    /// when it failed to run, exited unsuccessfully or was not accepted.
    pub fn report(&mut self, accepted: Option<String>)
        ensures
            final(self).kind == old(self).kind,
            final(self).total == old(self).total,
            old(self).found is Some || old(self).next >= old(self).total ==> final(self).next
                == old(self).next && final(self).found == old(self).found,
            old(self).found is None && old(self).next < old(self).total ==> match accepted {
                Some(d) => final(self).next == old(self).next && final(self).found == Some(d),
                None => final(self).next == old(self).next + 1 && final(self).found is None,
            },
    {
        if self.found.is_some() || self.next >= self.total {
            return ;
        }
        match accepted {
            Some(d) => {
                self.found = Some(d);
            },
            None => {
                self.next = self.next + 1;
            },
        }
    }

    /// The detection outcome once no probe is pending.
    pub fn status(&self) -> (r: DependencyStatus)
        ensures
            match (r, self.found) {
                (DependencyStatus::Found(d), Some(f)) => d@ == f@,
                (DependencyStatus::NotFound, None) => true,
                _ => false,
            },
    {
        match &self.found {
            Some(d) => DependencyStatus::Found(d.clone()),
            None => DependencyStatus::NotFound,
        }
    }
}

} // verus!
