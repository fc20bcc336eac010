use vstd::prelude::*;

verus! {

/// Where the agent CLI installer stands.
#[derive(Clone, Copy, Debug, PartialEq, Eq, Structural)]
pub enum AgentStage {
    /// Global install through the package manager found at candidate `i`.
    Candidate(usize),
    /// Confirming that the install through candidate `i` left a working command.
    VerifyCandidate(usize),
    /// Global install through the manager on the inherited search path.
    SearchPath,
    VerifySearchPath,
    /// Pointing the manager's global prefix at a user-owned directory.
    SetPrefix,
    /// Global install into that prefix.
    InstallLocal,
    /// Putting the prefix's binary directory on the persistent search path.
    RegisterBin,
    Installed,
    Failed,
}

/// How the work of the current stage ended. A candidate manager that does not
/// exist counts as failed.
#[derive(Clone, Debug)]
pub enum AgentEvent {
    Succeeded,
    Failed(String),
}

pub open spec fn after_candidates(n: int, j: int) -> AgentStage {
    if j < n {
        AgentStage::Candidate(j as usize)
    } else {
        AgentStage::SearchPath
    }
}

/// One transition of the installer over `n` candidate managers.
pub open spec fn agent_step(n: int, s: AgentStage, ev: AgentEvent) -> AgentStage {
    let ok = ev is Succeeded;
    match s {
        AgentStage::Candidate(i) => if ok {
            AgentStage::VerifyCandidate(i)
        } else {
            after_candidates(n, i + 1)
        },
        AgentStage::VerifyCandidate(i) => if ok {
            AgentStage::Installed
        } else {
            after_candidates(n, i + 1)
        },
        AgentStage::SearchPath => if ok {
            AgentStage::VerifySearchPath
        } else {
            AgentStage::SetPrefix
        },
        AgentStage::VerifySearchPath => if ok {
            AgentStage::Installed
        } else {
            AgentStage::SetPrefix
        },
        AgentStage::SetPrefix => if ok {
            AgentStage::InstallLocal
        } else {
            AgentStage::Failed
        },
        AgentStage::InstallLocal => if ok {
            AgentStage::RegisterBin
        } else {
            AgentStage::Failed
        },
        AgentStage::RegisterBin => if ok {
            AgentStage::Installed
        } else {
            AgentStage::Failed
        },
        _ => s,
    }
}

/// Installs the agent CLI: each candidate manager in turn, each success
/// confirmed by a probe; then the manager on the search path; then a
/// user-scoped install.
pub struct AgentInstaller {
    pub candidates: usize,
    pub stage: AgentStage,
    pub cause: String,
}

impl AgentInstaller {
    pub open spec fn wf(&self) -> bool {
        &&& self.stage matches AgentStage::Candidate(i) ==> i < self.candidates
        &&& self.stage matches AgentStage::VerifyCandidate(i) ==> i < self.candidates
    }

    /// An installer over `candidates` manager locations, tried in order.
    pub fn new(candidates: usize) -> (r: Self)
        ensures
            r.wf(),
            r.candidates == candidates,
            r.stage == after_candidates(candidates as int, 0),
    {
        let stage = if 0 < candidates {
            AgentStage::Candidate(0)
        } else {
            AgentStage::SearchPath
        };
        AgentInstaller { candidates, stage, cause: String::new() }
    }

    /// Takes how the current stage's work ended.
    pub fn report(&mut self, ev: AgentEvent)
        requires
            old(self).wf(),
        ensures
            final(self).wf(),
            final(self).candidates == old(self).candidates,
            final(self).stage == agent_step(old(self).candidates as int, old(self).stage, ev),
            final(self).stage == AgentStage::Failed && old(self).stage != AgentStage::Failed ==> (
            ev matches AgentEvent::Failed(c) && final(self).cause@ == c@),
            old(self).stage == AgentStage::Failed ==> final(self).cause == old(self).cause,
    {
        let ok = match &ev {
            AgentEvent::Succeeded => true,
            AgentEvent::Failed(_) => false,
        };
        let n = self.candidates;
        let next = match self.stage {
            AgentStage::Candidate(i) => if ok {
                AgentStage::VerifyCandidate(i)
            } else if i + 1 < n {
                AgentStage::Candidate(i + 1)
            } else {
                AgentStage::SearchPath
            },
            AgentStage::VerifyCandidate(i) => if ok {
                AgentStage::Installed
            } else if i + 1 < n {
                AgentStage::Candidate(i + 1)
            } else {
                AgentStage::SearchPath
            },
            AgentStage::SearchPath => if ok {
                AgentStage::VerifySearchPath
            } else {
                AgentStage::SetPrefix
            },
            AgentStage::VerifySearchPath => if ok {
                AgentStage::Installed
            } else {
                AgentStage::SetPrefix
            },
            AgentStage::SetPrefix => if ok {
                AgentStage::InstallLocal
            } else {
                AgentStage::Failed
            },
            AgentStage::InstallLocal => if ok {
                AgentStage::RegisterBin
            } else {
                AgentStage::Failed
            },
            AgentStage::RegisterBin => if ok {
                AgentStage::Installed
            } else {
                AgentStage::Failed
            },
            s => s,
        };
        if next == AgentStage::Failed && self.stage != AgentStage::Failed {
            if let AgentEvent::Failed(c) = ev {
                self.cause = c;
            }
        }
        self.stage = next;
    }

    /// `Some(Ok(()))` once installed, `Some(Err(cause))` once failed.
    pub fn result(&self) -> (r: Option<Result<(), String>>)
        ensures
            self.stage == AgentStage::Installed <==> r matches Some(Ok(_)),
            self.stage == AgentStage::Failed <==> r matches Some(Err(_)),
            r matches Some(Err(c)) ==> c@ == self.cause@,
    {
        match self.stage {
            AgentStage::Installed => Some(Ok(())),
            AgentStage::Failed => Some(Err(self.cause.clone())),
            _ => None,
        }
    }
}

} // verus!
