use vstd::prelude::*;
use crate::conf::{Config, ConfigView};
use crate::paths::{child_of, child_path};
use crate::table::text_lt;
use crate::registry::{script_file, script_name, Registry, RegistryError};

verus! {

/// The paths of one build of a repository.
pub struct BuildPlan {
    pub name: String,
    /// The working copy, where the script runs.
    pub source: String,
    /// The build script.
    pub script: String,
    /// The programs directory, handed to the script.
    pub programs: String,
    /// Where the script leaves its result.
    pub release: String,
    /// Where the result is kept.
    pub target: String,
}

/// A step of a build, each done by the caller on disk.
#[derive(Debug, PartialEq, Eq, Structural, Clone, Copy)]
pub enum BuildStage {
    /// See that the script is there.
    CheckScript,
    /// Run the script in the working copy.
    RunScript,
    /// See that the script left its result.
    CheckRelease,
    /// Delete what an earlier build left at the target and create its parent.
    ClearTarget,
    /// Move the result to the target.
    Promote,
}

/// How a step went. `NotStarted` is for a script that could not be run at all.
#[derive(Debug, PartialEq, Eq, Structural, Clone, Copy)]
pub enum StepOutcome {
    Succeeded,
    Failed,
    NotStarted,
}

/// What follows a build step.
#[derive(Debug, PartialEq, Eq, Structural, Clone, Copy)]
pub enum BuildProgress {
    Next(BuildStage),
    Built,
    Stopped(RegistryError),
}

/// The build's course: each step in turn, stopping at the first that fails.
pub open spec fn build_transition(stage: BuildStage, outcome: StepOutcome) -> BuildProgress {
    match stage {
        BuildStage::CheckScript => if outcome == StepOutcome::Succeeded {
            BuildProgress::Next(BuildStage::RunScript)
        } else {
            BuildProgress::Stopped(RegistryError::BuildScriptUnavailable)
        },
        BuildStage::RunScript => match outcome {
            StepOutcome::Succeeded => BuildProgress::Next(BuildStage::CheckRelease),
            StepOutcome::Failed => BuildProgress::Stopped(RegistryError::BuildFailed),
            StepOutcome::NotStarted => BuildProgress::Stopped(RegistryError::BuildScriptUnavailable),
        },
        BuildStage::CheckRelease => if outcome == StepOutcome::Succeeded {
            BuildProgress::Next(BuildStage::ClearTarget)
        } else {
            BuildProgress::Stopped(RegistryError::RelocationFailed)
        },
        BuildStage::ClearTarget => if outcome == StepOutcome::Succeeded {
            BuildProgress::Next(BuildStage::Promote)
        } else {
            BuildProgress::Stopped(RegistryError::RelocationFailed)
        },
        BuildStage::Promote => if outcome == StepOutcome::Succeeded {
            BuildProgress::Built
        } else {
            BuildProgress::Stopped(RegistryError::RelocationFailed)
        },
    }
}

/// The state with the build of `name` recorded at `target`.
pub open spec fn built(c: ConfigView, name: Seq<char>, target: Seq<char>) -> ConfigView {
    ConfigView { build: c.build.insert(name, target), ..c }
}

/// The result is only ever moved to a target that was cleared just before,
/// and each build of a name records the one place where its result is kept,
/// replacing what the build before it recorded.
pub proof fn lemma_build_replaces(
    c: ConfigView,
    stage: BuildStage,
    outcome: StepOutcome,
    name: Seq<char>,
    first: Seq<char>,
    second: Seq<char>,
)
    ensures
        build_transition(stage, outcome) == BuildProgress::Next(BuildStage::Promote)
            ==> stage == BuildStage::ClearTarget && outcome == StepOutcome::Succeeded,
        built(built(c, name, first), name, second) == built(c, name, second),
{
    assert(c.build.insert(name, first).insert(name, second) =~= c.build.insert(name, second));
}

/// A step of bringing one repository up to its remote, each done by the
/// caller on the repository.
#[derive(Debug, PartialEq, Eq, Structural, Clone, Copy)]
pub enum UpdateStage {
    /// Open the working copy.
    Open,
    /// Find the remote `origin`.
    FindRemote,
    /// Fetch the remote's branches.
    Fetch,
    /// Find the fetched commit of the tracked branch.
    ResolveRemote,
    /// Ask whether the local branch can fast-forward to it.
    Analyze,
    /// Move the local branch to the fetched commit.
    MoveRef,
    /// Point HEAD at the local branch.
    SetHead,
    /// Check the working copy out, by force.
    Checkout,
}

/// How an update step went; the analysis answers with one of the last two.
#[derive(Debug, PartialEq, Eq, Structural, Clone, Copy)]
pub enum UpdateEvent {
    Succeeded,
    Failed,
    FastForward,
    NotFastForward,
}

/// What follows an update step.
#[derive(Debug, PartialEq, Eq, Structural, Clone, Copy)]
pub enum UpdateProgress {
    Next(UpdateStage),
    /// The branch now stands at the remote commit.
    Updated,
    /// Nothing was changed: the histories diverged or there was nothing new.
    NeedsManualMerge,
    /// The step named failed; this repository is left as it was.
    Stopped(UpdateStage),
}

/// The update's course for one repository.
pub open spec fn update_transition(stage: UpdateStage, event: UpdateEvent) -> UpdateProgress {
    match stage {
        UpdateStage::Analyze => match event {
            UpdateEvent::FastForward => UpdateProgress::Next(UpdateStage::MoveRef),
            UpdateEvent::NotFastForward => UpdateProgress::NeedsManualMerge,
            _ => UpdateProgress::Stopped(stage),
        },
        _ => if event != UpdateEvent::Succeeded {
            UpdateProgress::Stopped(stage)
        } else {
            match stage {
                UpdateStage::Open => UpdateProgress::Next(UpdateStage::FindRemote),
                UpdateStage::FindRemote => UpdateProgress::Next(UpdateStage::Fetch),
                UpdateStage::Fetch => UpdateProgress::Next(UpdateStage::ResolveRemote),
                UpdateStage::ResolveRemote => UpdateProgress::Next(UpdateStage::Analyze),
                UpdateStage::MoveRef => UpdateProgress::Next(UpdateStage::SetHead),
                UpdateStage::SetHead => UpdateProgress::Next(UpdateStage::Checkout),
                _ => UpdateProgress::Updated,
            }
        },
    }
}

/// The steps that change the repository.
pub open spec fn changes_repository(stage: UpdateStage) -> bool {
    stage == UpdateStage::MoveRef || stage == UpdateStage::SetHead || stage == UpdateStage::Checkout
}

/// The steps taken from `stage` when the caller reports `events` in turn,
/// and where that leaves the update.
pub open spec fn update_run(stage: UpdateStage, events: Seq<UpdateEvent>) -> (Seq<UpdateStage>, UpdateProgress)
    decreases events.len(),
{
    if events.len() == 0 {
        (Seq::empty(), UpdateProgress::Next(stage))
    } else {
        match update_transition(stage, events[0]) {
            UpdateProgress::Next(s) => {
                let rest = update_run(s, events.drop_first());
                (seq![stage] + rest.0, rest.1)
            },
            p => (seq![stage], p),
        }
    }
}

/// A repository behind its remote with no commits of its own is moved to the
/// remote commit when every step succeeds; one whose history diverged, or that
/// has nothing new, ends without any step that changes it.
pub proof fn lemma_update_fast_forward(rest: Seq<UpdateEvent>)
    ensures
        update_run(
            UpdateStage::Open,
            seq![
                UpdateEvent::Succeeded,
                UpdateEvent::Succeeded,
                UpdateEvent::Succeeded,
                UpdateEvent::Succeeded,
                UpdateEvent::FastForward,
                UpdateEvent::Succeeded,
                UpdateEvent::Succeeded,
                UpdateEvent::Succeeded,
            ],
        ).1 == UpdateProgress::Updated,
        ({
            let run = update_run(
                UpdateStage::Open,
                seq![
                    UpdateEvent::Succeeded,
                    UpdateEvent::Succeeded,
                    UpdateEvent::Succeeded,
                    UpdateEvent::Succeeded,
                    UpdateEvent::NotFastForward,
                ] + rest,
            );
            run.1 == UpdateProgress::NeedsManualMerge && forall|i: int|
                0 <= i < run.0.len() ==> !changes_repository(#[trigger] run.0[i])
        }),
{
    let s = UpdateEvent::Succeeded;
    let ff = seq![s, s, s, s, UpdateEvent::FastForward, s, s, s];
    assert(ff.drop_first() =~= seq![s, s, s, UpdateEvent::FastForward, s, s, s]);
    assert(ff.drop_first().drop_first() =~= seq![s, s, UpdateEvent::FastForward, s, s, s]);
    assert(ff.drop_first().drop_first().drop_first() =~= seq![s, UpdateEvent::FastForward, s, s, s]);
    assert(ff.drop_first().drop_first().drop_first().drop_first() =~= seq![UpdateEvent::FastForward, s, s, s]);
    assert(ff.drop_first().drop_first().drop_first().drop_first().drop_first() =~= seq![s, s, s]);
    assert(seq![s, s, s].drop_first() =~= seq![s, s]);
    assert(seq![s, s].drop_first() =~= seq![s]);
    assert(seq![s].drop_first() =~= Seq::<UpdateEvent>::empty());
    assert(update_run(UpdateStage::Checkout, seq![s]).1 == UpdateProgress::Updated);
    assert(update_run(UpdateStage::SetHead, seq![s, s]).1 == UpdateProgress::Updated);
    assert(update_run(UpdateStage::MoveRef, seq![s, s, s]).1 == UpdateProgress::Updated);
    assert(update_run(UpdateStage::Analyze, seq![UpdateEvent::FastForward, s, s, s]).1 == UpdateProgress::Updated);
    assert(update_run(UpdateStage::ResolveRemote, seq![s, UpdateEvent::FastForward, s, s, s]).1 == UpdateProgress::Updated);
    assert(update_run(UpdateStage::Fetch, seq![s, s, UpdateEvent::FastForward, s, s, s]).1 == UpdateProgress::Updated);
    assert(update_run(UpdateStage::FindRemote, seq![s, s, s, UpdateEvent::FastForward, s, s, s]).1 == UpdateProgress::Updated);

    let d = seq![s, s, s, s, UpdateEvent::NotFastForward] + rest;
    let d1 = d.drop_first();
    let d2 = d1.drop_first();
    let d3 = d2.drop_first();
    let d4 = d3.drop_first();
    assert(d[0] == s && d1[0] == s && d2[0] == s && d3[0] == s && d4[0] == UpdateEvent::NotFastForward);
    let r4 = update_run(UpdateStage::Analyze, d4);
    assert(r4 == (seq![UpdateStage::Analyze], UpdateProgress::NeedsManualMerge));
    let r3 = update_run(UpdateStage::ResolveRemote, d3);
    assert(r3.0 =~= seq![UpdateStage::ResolveRemote, UpdateStage::Analyze]);
    let r2 = update_run(UpdateStage::Fetch, d2);
    assert(r2.0 =~= seq![UpdateStage::Fetch, UpdateStage::ResolveRemote, UpdateStage::Analyze]);
    let r1 = update_run(UpdateStage::FindRemote, d1);
    assert(r1.0 =~= seq![UpdateStage::FindRemote, UpdateStage::Fetch, UpdateStage::ResolveRemote, UpdateStage::Analyze]);
    let r0 = update_run(UpdateStage::Open, d);
    assert(r0.0 =~= seq![
        UpdateStage::Open,
        UpdateStage::FindRemote,
        UpdateStage::Fetch,
        UpdateStage::ResolveRemote,
        UpdateStage::Analyze,
    ]);
}

/// What a build of `name` in state `c` works with, and where its result goes.
pub open spec fn build_plan_of(c: ConfigView, name: Seq<char>, ext: Seq<char>, p: BuildPlan) -> bool {
    &&& p.name@ == name
    &&& p.source@ == c.added[name]
    &&& p.script@ == child_of(c.profiles.unwrap(), script_name(name, ext))
    &&& p.programs@ == c.programs.unwrap()
    &&& p.release@ == child_of(child_of(c.added[name], "release"@), name)
    &&& p.target@ == child_of(c.programs.unwrap(), name)
}

/// One registered repository in an update pass.
pub struct UpdateTask {
    pub name: String,
    /// The working copy.
    pub path: String,
    /// The branch it follows.
    pub branch: String,
    /// The local branch's reference.
    pub local_ref: String,
    /// The remote-tracking reference of that branch on `origin`.
    pub remote_ref: String,
    /// Whether to build it again once it was updated.
    pub rebuild: bool,
}

/// A registered repository's part in an update pass.
pub enum UpdateItem {
    /// Locked: it is left alone.
    Locked(String),
    /// Unlocked: it is brought up to its remote.
    Due(UpdateTask),
}

/// The reference of a local branch.
pub open spec fn local_ref_of(branch: Seq<char>) -> Seq<char> {
    "refs/heads/"@ + branch
}

/// The remote-tracking reference of a branch on `origin`.
pub open spec fn remote_ref_of(branch: Seq<char>) -> Seq<char> {
    "refs/remotes/origin/"@ + branch
}

/// `item` is what an update pass over state `c` does with the repository `name`.
pub open spec fn update_item_of(c: ConfigView, name: Seq<char>, item: UpdateItem) -> bool {
    match item {
        UpdateItem::Locked(n) => n@ == name && !c.unlocked.contains_key(name),
        UpdateItem::Due(t) => {
            &&& t.name@ == name
            &&& c.unlocked.contains_key(name)
            &&& t.path@ == c.added[name]
            &&& t.branch@ == c.unlocked[name]
            &&& t.local_ref@ == local_ref_of(c.unlocked[name])
            &&& t.remote_ref@ == remote_ref_of(c.unlocked[name])
            &&& t.rebuild == c.build.contains_key(name)
        },
    }
}

fn prefixed(prefix: &str, s: &String) -> (r: String)
    ensures
        r@ == prefix@ + s@,
{
    let mut r = prefix.to_owned();
    r.append(s.as_str());
    r
}

impl Registry {
    /// The plan of a build of `name`; `ext` is the build scripts' file extension.
    pub fn build_cmd(cfg: &Config, name: &String, ext: &str) -> (r: Result<BuildPlan, RegistryError>)
        ensures
            !cfg@.added.contains_key(name@) ==> (r matches Err(e) && e == RegistryError::UnknownName),
            cfg@.added.contains_key(name@) && (cfg@.profiles.is_none() || cfg@.programs.is_none())
                ==> (r matches Err(e) && e == RegistryError::ConfigurationIncomplete),
            cfg@.added.contains_key(name@) && cfg@.profiles.is_some() && cfg@.programs.is_some()
                ==> (r matches Ok(p) && build_plan_of(cfg@, name@, ext@, p)),
    {
        let source = match cfg.added.get(name) {
            Some(s) => s,
            None => return Err(RegistryError::UnknownName),
        };
        let profiles = match &cfg.directories.profiles {
            Some(p) => p,
            None => return Err(RegistryError::ConfigurationIncomplete),
        };
        let programs = match &cfg.directories.programs {
            Some(p) => p,
            None => return Err(RegistryError::ConfigurationIncomplete),
        };
        let f = script_file(name, ext);
        let script = child_path(profiles, f.as_str());
        let release_dir = child_path(&source, "release");
        let release = child_path(&release_dir, name.as_str());
        let target = child_path(programs, name.as_str());
        Ok(BuildPlan { name: name.clone(), source, script, programs: programs.clone(), release, target })
    }

    /// Takes in how `stage` of the build went, records the build once its
    /// result is in place, and says what comes next.
    pub fn build_step(cfg: &mut Config, plan: &BuildPlan, stage: BuildStage, outcome: StepOutcome) -> (r: BuildProgress)
        ensures
            r == build_transition(stage, outcome),
            r == BuildProgress::Built ==> final(cfg)@ == built(old(cfg)@, plan.name@, plan.target@),
            r != BuildProgress::Built ==> final(cfg)@ == old(cfg)@,
    {
        let ok = outcome == StepOutcome::Succeeded;
        match stage {
            BuildStage::CheckScript => if ok {
                BuildProgress::Next(BuildStage::RunScript)
            } else {
                BuildProgress::Stopped(RegistryError::BuildScriptUnavailable)
            },
            BuildStage::RunScript => match outcome {
                StepOutcome::Succeeded => BuildProgress::Next(BuildStage::CheckRelease),
                StepOutcome::Failed => BuildProgress::Stopped(RegistryError::BuildFailed),
                StepOutcome::NotStarted => BuildProgress::Stopped(RegistryError::BuildScriptUnavailable),
            },
            BuildStage::CheckRelease => if ok {
                BuildProgress::Next(BuildStage::ClearTarget)
            } else {
                BuildProgress::Stopped(RegistryError::RelocationFailed)
            },
            BuildStage::ClearTarget => if ok {
                BuildProgress::Next(BuildStage::Promote)
            } else {
                BuildProgress::Stopped(RegistryError::RelocationFailed)
            },
            BuildStage::Promote => if ok {
                cfg.build.insert(plan.name.clone(), plan.target.clone());
                BuildProgress::Built
            } else {
                BuildProgress::Stopped(RegistryError::RelocationFailed)
            },
        }
    }

    /// The update pass: every registered repository once, in ascending order
    /// of the names, the unlocked ones due, the locked ones left alone.
    pub fn update_cmd(cfg: &Config) -> (r: Vec<UpdateItem>)
        ensures
            r@.len() == cfg.added.key_seq().len(),
            forall|i: int| 0 <= i < r@.len() ==> update_item_of(cfg@, cfg.added.key_seq()[i], #[trigger] r@[i]),
            forall|k: Seq<char>| cfg@.added.contains_key(k) <==> cfg.added.key_seq().contains(k),
            forall|i: int, j: int|
                0 <= i < j < cfg.added.key_seq().len() ==> text_lt(cfg.added.key_seq()[i], cfg.added.key_seq()[j]),
    {
        let names = cfg.added.keys();
        let mut r: Vec<UpdateItem> = Vec::new();
        let mut i: usize = 0;
        while i < names.len()
            invariant
                i <= names@.len(),
                names@.map_values(|e: String| e@) == cfg.added.key_seq(),
                forall|k: Seq<char>| cfg@.added.contains_key(k) <==> cfg.added.key_seq().contains(k),
                forall|a: int, b: int| 0 <= a < b < names@.len() ==> text_lt(cfg.added.key_seq()[a], cfg.added.key_seq()[b]),
                r@.len() == i,
                forall|j: int| 0 <= j < i ==> update_item_of(cfg@, cfg.added.key_seq()[j], #[trigger] r@[j]),
            decreases names@.len() - i,
        {
            let name = &names[i];
            proof {
                assert(cfg.added.key_seq()[i as int] == name@);
                assert(cfg.added.key_seq().contains(name@));
            }
            match cfg.unlocked.get(name) {
                Some(branch) => {
                    let path = match cfg.added.get(name) {
                        Some(p) => p,
                        None => String::new(),
                    };
                    let local_ref = prefixed("refs/heads/", &branch);
                    let remote_ref = prefixed("refs/remotes/origin/", &branch);
                    let rebuild = cfg.build.contains_key(name);
                    r.push(UpdateItem::Due(UpdateTask { name: name.clone(), path, branch, local_ref, remote_ref, rebuild }));
                },
                None => {
                    r.push(UpdateItem::Locked(name.clone()));
                },
            }
            i = i + 1;
        }
        proof {
            assert forall|a: int, b: int|
                0 <= a < b < cfg.added.key_seq().len() implies text_lt(cfg.added.key_seq()[a], cfg.added.key_seq()[b]) by {
            }
        }
        r
    }

    /// Whether a repository is to be built again after its update ended in
    /// `progress`: exactly when it was brought up to its remote and it had
    /// been built before.
    pub fn rebuild_after(task: &UpdateTask, progress: UpdateProgress) -> (r: bool)
        ensures
            r == (progress == UpdateProgress::Updated && task.rebuild),
    {
        progress == UpdateProgress::Updated && task.rebuild
    }

    /// Takes in how `stage` of one repository's update went and says what
    /// comes next.
    pub fn update_step(stage: UpdateStage, event: UpdateEvent) -> (r: UpdateProgress)
        ensures
            r == update_transition(stage, event),
    {
        match stage {
            UpdateStage::Analyze => match event {
                UpdateEvent::FastForward => UpdateProgress::Next(UpdateStage::MoveRef),
                UpdateEvent::NotFastForward => UpdateProgress::NeedsManualMerge,
                _ => UpdateProgress::Stopped(stage),
            },
            _ => if event != UpdateEvent::Succeeded {
                UpdateProgress::Stopped(stage)
            } else {
                match stage {
                    UpdateStage::Open => UpdateProgress::Next(UpdateStage::FindRemote),
                    UpdateStage::FindRemote => UpdateProgress::Next(UpdateStage::Fetch),
                    UpdateStage::Fetch => UpdateProgress::Next(UpdateStage::ResolveRemote),
                    UpdateStage::ResolveRemote => UpdateProgress::Next(UpdateStage::Analyze),
                    UpdateStage::MoveRef => UpdateProgress::Next(UpdateStage::SetHead),
                    UpdateStage::SetHead => UpdateProgress::Next(UpdateStage::Checkout),
                    _ => UpdateProgress::Updated,
                }
            },
        }
    }
}

} // verus!
