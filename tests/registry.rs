use lubig::{
    BuildProgress, BuildStage, Config, LockOutcome, Registry, RegistryError, RepoStatus, Section, StepOutcome,
    UpdateEvent, UpdateItem, UpdateProgress, UpdateStage,
};

fn s(x: &str) -> String {
    x.to_string()
}

fn fresh() -> Config {
    Config::with_base(&s("/opt/lubig"))
}

fn registered(name: &str, path: &str) -> Config {
    let mut cfg = fresh();
    let root = s("/opt/lubig/sources");
    let plan = Registry::add_cmd(&cfg, &s(name), &s(path), &root, true).unwrap();
    Registry::complete_add(&mut cfg, &s(name), &plan, true).unwrap();
    cfg
}

fn run_build(cfg: &mut Config, name: &str) -> BuildProgress {
    let plan = Registry::build_cmd(cfg, &s(name), "sh").unwrap();
    let mut stage = BuildStage::CheckScript;
    loop {
        match Registry::build_step(cfg, &plan, stage, StepOutcome::Succeeded) {
            BuildProgress::Next(next) => stage = next,
            done => return done,
        }
    }
}

#[test]
fn add_outside_sources_relocates_under_root() {
    let cfg = fresh();
    let root = s("/opt/lubig/sources");
    let plan = Registry::add_cmd(&cfg, &s("demo"), &s("/tmp/repo"), &root, true).unwrap();
    assert!(plan.relocate);
    assert_eq!(plan.target, "/opt/lubig/sources/demo");
}

#[test]
fn add_inside_sources_stays_in_place() {
    let cfg = fresh();
    let root = s("/opt/lubig/sources");
    let plan = Registry::add_cmd(&cfg, &s("demo"), &s("/opt/lubig/sources/elsewhere"), &root, true).unwrap();
    assert!(!plan.relocate);
    assert_eq!(plan.target, "/opt/lubig/sources/elsewhere");
}

#[test]
fn add_sibling_with_common_prefix_is_not_inside() {
    let cfg = fresh();
    let root = s("/opt/lubig/sources");
    let plan = Registry::add_cmd(&cfg, &s("demo"), &s("/opt/lubig/sourcesx/demo"), &root, true).unwrap();
    assert!(plan.relocate);
    assert_eq!(plan.target, "/opt/lubig/sources/demo");
}

#[test]
fn add_rejects_non_repository() {
    let cfg = fresh();
    let r = Registry::add_cmd(&cfg, &s("demo"), &s("/tmp/repo"), &s("/opt/lubig/sources"), false);
    assert!(matches!(r, Err(RegistryError::NotAVersionControlRepository)));
}

#[test]
fn add_rejects_duplicate_name() {
    let cfg = registered("demo", "/tmp/repo");
    let r = Registry::add_cmd(&cfg, &s("demo"), &s("/tmp/other"), &s("/opt/lubig/sources"), true);
    assert!(matches!(r, Err(RegistryError::DuplicateName)));
}

#[test]
fn add_without_sources_is_incomplete() {
    let mut cfg = fresh();
    cfg.directories.sources = None;
    let r = Registry::add_cmd(&cfg, &s("demo"), &s("/tmp/repo"), &s("/opt/lubig/sources"), true);
    assert!(matches!(r, Err(RegistryError::ConfigurationIncomplete)));
}

#[test]
fn failed_move_registers_nothing() {
    let mut cfg = fresh();
    let plan = Registry::add_cmd(&cfg, &s("demo"), &s("/tmp/repo"), &s("/opt/lubig/sources"), true).unwrap();
    let r = Registry::complete_add(&mut cfg, &s("demo"), &plan, false);
    assert_eq!(r, Err(RegistryError::RelocationFailed));
    assert!(!cfg.key_exists(Section::Added, &s("demo")));
    assert!(!cfg.key_exists(Section::Unlocked, &s("demo")));
}

#[test]
fn registration_follows_default_branch() {
    let cfg = registered("demo", "/tmp/repo");
    assert_eq!(cfg.get_value(Section::Added, &s("demo")), Some(s("/opt/lubig/sources/demo")));
    assert_eq!(cfg.get_value(Section::Unlocked, &s("demo")), Some(s("main")));
    assert_eq!(cfg.get_value(Section::Build, &s("demo")), None);
}

#[test]
fn get_clones_into_sources() {
    let cfg = fresh();
    assert_eq!(Registry::get_cmd(&cfg, &s("demo")), Ok(s("/opt/lubig/sources/demo")));
    let cfg = registered("demo", "/tmp/repo");
    assert_eq!(Registry::get_cmd(&cfg, &s("demo")), Err(RegistryError::DuplicateName));
}

#[test]
fn lock_twice_is_benign() {
    let mut cfg = registered("demo", "/tmp/repo");
    assert_eq!(Registry::lock_cmd(&mut cfg, &s("demo")), Ok(LockOutcome::Locked));
    let before = cfg.to_text().unwrap();
    assert_eq!(Registry::lock_cmd(&mut cfg, &s("demo")), Ok(LockOutcome::AlreadyLocked));
    assert_eq!(cfg.to_text().unwrap(), before);
    assert!(!cfg.key_exists(Section::Unlocked, &s("demo")));
}

#[test]
fn unlock_twice_keeps_the_same_branch() {
    let mut cfg = registered("demo", "/tmp/repo");
    let dev = s("dev");
    Registry::unlock_cmd(&mut cfg, &s("demo"), Some(&dev)).unwrap();
    let once = cfg.to_text().unwrap();
    Registry::unlock_cmd(&mut cfg, &s("demo"), Some(&dev)).unwrap();
    assert_eq!(cfg.to_text().unwrap(), once);
    assert_eq!(cfg.get_value(Section::Unlocked, &s("demo")), Some(s("dev")));
}

#[test]
fn unlock_without_branch_takes_main() {
    let mut cfg = registered("demo", "/tmp/repo");
    Registry::lock_cmd(&mut cfg, &s("demo")).unwrap();
    Registry::unlock_cmd(&mut cfg, &s("demo"), None).unwrap();
    assert_eq!(cfg.get_value(Section::Unlocked, &s("demo")), Some(s("main")));
}

#[test]
fn lock_and_unlock_of_unknown_name_fail() {
    let mut cfg = fresh();
    assert_eq!(Registry::lock_cmd(&mut cfg, &s("ghost")), Err(RegistryError::UnknownName));
    assert_eq!(Registry::unlock_cmd(&mut cfg, &s("ghost"), None), Err(RegistryError::UnknownName));
    assert!(!cfg.key_exists(Section::Unlocked, &s("ghost")));
}

#[test]
fn status_reports_lock_and_build() {
    let mut cfg = registered("demo", "/tmp/repo");
    assert_eq!(Registry::status(&cfg, &s("demo")), Ok(RepoStatus { locked: false, built: false }));
    Registry::lock_cmd(&mut cfg, &s("demo")).unwrap();
    assert_eq!(run_build(&mut cfg, "demo"), BuildProgress::Built);
    assert_eq!(Registry::status(&cfg, &s("demo")), Ok(RepoStatus { locked: true, built: true }));
    assert_eq!(Registry::status(&cfg, &s("nobody")), Err(RegistryError::UnknownName));
}

#[test]
fn remove_is_terminal() {
    let mut cfg = registered("demo", "/tmp/repo");
    assert_eq!(run_build(&mut cfg, "demo"), BuildProgress::Built);
    let plan = Registry::remove_cmd(&mut cfg, &s("demo"), "sh").unwrap();
    assert_eq!(plan.artifact, Some(s("/opt/lubig/programs/demo")));
    assert_eq!(plan.script, Some(s("/opt/lubig/profiles/demo.sh")));
    assert_eq!(plan.source, "/opt/lubig/sources/demo");
    assert_eq!(Registry::status(&cfg, &s("demo")), Err(RegistryError::UnknownName));
    assert!(!cfg.key_exists(Section::Added, &s("demo")));
    assert!(!cfg.key_exists(Section::Unlocked, &s("demo")));
    assert!(!cfg.key_exists(Section::Build, &s("demo")));
}

#[test]
fn remove_of_unknown_name_fails() {
    let mut cfg = fresh();
    assert!(matches!(Registry::remove_cmd(&mut cfg, &s("demo"), "sh"), Err(RegistryError::UnknownName)));
}

#[test]
fn remove_without_build_or_profiles() {
    let mut cfg = registered("demo", "/tmp/repo");
    cfg.directories.profiles = None;
    let plan = Registry::remove_cmd(&mut cfg, &s("demo"), "sh").unwrap();
    assert_eq!(plan.artifact, None);
    assert_eq!(plan.script, None);
}

#[test]
fn build_plan_paths() {
    let cfg = registered("demo", "/tmp/repo");
    let plan = Registry::build_cmd(&cfg, &s("demo"), "sh").unwrap();
    assert_eq!(plan.script, "/opt/lubig/profiles/demo.sh");
    assert_eq!(plan.source, "/opt/lubig/sources/demo");
    assert_eq!(plan.programs, "/opt/lubig/programs");
    assert_eq!(plan.release, "/opt/lubig/sources/demo/release/demo");
    assert_eq!(plan.target, "/opt/lubig/programs/demo");
}

#[test]
fn build_preconditions_in_order() {
    let mut cfg = registered("demo", "/tmp/repo");
    assert!(matches!(Registry::build_cmd(&cfg, &s("other"), "sh"), Err(RegistryError::UnknownName)));
    cfg.directories.programs = None;
    assert!(matches!(Registry::build_cmd(&cfg, &s("demo"), "sh"), Err(RegistryError::ConfigurationIncomplete)));
    cfg.directories.profiles = None;
    assert!(matches!(Registry::build_cmd(&cfg, &s("demo"), "sh"), Err(RegistryError::ConfigurationIncomplete)));
}

#[test]
fn build_failures_leave_state() {
    let cases = [
        (BuildStage::CheckScript, StepOutcome::Failed, RegistryError::BuildScriptUnavailable),
        (BuildStage::RunScript, StepOutcome::Failed, RegistryError::BuildFailed),
        (BuildStage::RunScript, StepOutcome::NotStarted, RegistryError::BuildScriptUnavailable),
        (BuildStage::CheckRelease, StepOutcome::Failed, RegistryError::RelocationFailed),
        (BuildStage::ClearTarget, StepOutcome::Failed, RegistryError::RelocationFailed),
        (BuildStage::Promote, StepOutcome::Failed, RegistryError::RelocationFailed),
    ];
    for (stage, outcome, err) in cases {
        let mut cfg = registered("demo", "/tmp/repo");
        let plan = Registry::build_cmd(&cfg, &s("demo"), "sh").unwrap();
        assert_eq!(Registry::build_step(&mut cfg, &plan, stage, outcome), BuildProgress::Stopped(err));
        assert!(!cfg.key_exists(Section::Build, &s("demo")));
    }
}

#[test]
fn build_clears_target_before_promoting() {
    let mut cfg = registered("demo", "/tmp/repo");
    let plan = Registry::build_cmd(&cfg, &s("demo"), "sh").unwrap();
    assert_eq!(
        Registry::build_step(&mut cfg, &plan, BuildStage::CheckRelease, StepOutcome::Succeeded),
        BuildProgress::Next(BuildStage::ClearTarget)
    );
    assert_eq!(
        Registry::build_step(&mut cfg, &plan, BuildStage::ClearTarget, StepOutcome::Succeeded),
        BuildProgress::Next(BuildStage::Promote)
    );
}

#[test]
fn building_twice_records_one_artifact() {
    let mut cfg = registered("demo", "/tmp/repo");
    assert_eq!(run_build(&mut cfg, "demo"), BuildProgress::Built);
    assert_eq!(run_build(&mut cfg, "demo"), BuildProgress::Built);
    assert_eq!(cfg.get_value(Section::Build, &s("demo")), Some(s("/opt/lubig/programs/demo")));
    assert_eq!(cfg.build.len(), 1);
}

#[test]
fn update_pass_skips_locked() {
    let mut cfg = registered("alpha", "/tmp/alpha");
    let plan = Registry::add_cmd(&cfg, &s("beta"), &s("/tmp/beta"), &s("/opt/lubig/sources"), true).unwrap();
    Registry::complete_add(&mut cfg, &s("beta"), &plan, true).unwrap();
    Registry::lock_cmd(&mut cfg, &s("alpha")).unwrap();
    assert_eq!(run_build(&mut cfg, "beta"), BuildProgress::Built);
    let items = Registry::update_cmd(&cfg);
    assert_eq!(items.len(), 2);
    assert!(matches!(&items[0], UpdateItem::Locked(n) if n == "alpha"));
    match &items[1] {
        UpdateItem::Due(t) => {
            assert_eq!(t.name, "beta");
            assert_eq!(t.path, "/opt/lubig/sources/beta");
            assert_eq!(t.branch, "main");
            assert_eq!(t.local_ref, "refs/heads/main");
            assert_eq!(t.remote_ref, "refs/remotes/origin/main");
            assert!(t.rebuild);
        }
        UpdateItem::Locked(_) => panic!("beta is unlocked"),
    }
}

#[test]
fn update_fast_forward_reaches_updated() {
    let mut stage = UpdateStage::Open;
    let events = [
        UpdateEvent::Succeeded,
        UpdateEvent::Succeeded,
        UpdateEvent::Succeeded,
        UpdateEvent::Succeeded,
        UpdateEvent::FastForward,
        UpdateEvent::Succeeded,
        UpdateEvent::Succeeded,
    ];
    for e in events {
        match Registry::update_step(stage, e) {
            UpdateProgress::Next(next) => stage = next,
            other => panic!("stopped early: {:?}", other),
        }
    }
    assert_eq!(stage, UpdateStage::Checkout);
    assert_eq!(Registry::update_step(stage, UpdateEvent::Succeeded), UpdateProgress::Updated);
}

#[test]
fn update_diverged_needs_manual_merge() {
    assert_eq!(Registry::update_step(UpdateStage::Analyze, UpdateEvent::NotFastForward), UpdateProgress::NeedsManualMerge);
    assert_eq!(Registry::update_step(UpdateStage::Fetch, UpdateEvent::Failed), UpdateProgress::Stopped(UpdateStage::Fetch));
    assert_eq!(Registry::update_step(UpdateStage::Analyze, UpdateEvent::Failed), UpdateProgress::Stopped(UpdateStage::Analyze));
}

#[test]
fn add_build_remove_end_to_end() {
    let mut cfg = fresh();
    let root = s("/opt/lubig/sources");
    let plan = Registry::add_cmd(&cfg, &s("demo"), &s("/tmp/repo"), &root, true).unwrap();
    assert!(plan.relocate);
    Registry::complete_add(&mut cfg, &s("demo"), &plan, true).unwrap();
    assert_eq!(cfg.get_value(Section::Added, &s("demo")), Some(s("/opt/lubig/sources/demo")));
    assert_eq!(cfg.get_value(Section::Unlocked, &s("demo")), Some(s("main")));
    let build = Registry::build_cmd(&cfg, &s("demo"), "sh").unwrap();
    assert_eq!(build.release, "/opt/lubig/sources/demo/release/demo");
    assert_eq!(run_build(&mut cfg, "demo"), BuildProgress::Built);
    assert_eq!(cfg.get_value(Section::Build, &s("demo")), Some(s("/opt/lubig/programs/demo")));
    let removal = Registry::remove_cmd(&mut cfg, &s("demo"), "sh").unwrap();
    assert_eq!(removal.source, "/opt/lubig/sources/demo");
    assert_eq!(removal.script, Some(s("/opt/lubig/profiles/demo.sh")));
    assert_eq!(removal.artifact, Some(s("/opt/lubig/programs/demo")));
    assert!(!cfg.key_exists(Section::Added, &s("demo")));
    assert!(!cfg.key_exists(Section::Unlocked, &s("demo")));
    assert!(!cfg.key_exists(Section::Build, &s("demo")));
}

#[test]
fn rebuild_only_after_update_of_built_repository() {
    let mut cfg = registered("demo", "/tmp/repo");
    assert_eq!(run_build(&mut cfg, "demo"), BuildProgress::Built);
    let plan = Registry::add_cmd(&cfg, &s("plain"), &s("/tmp/plain"), &s("/opt/lubig/sources"), true).unwrap();
    Registry::complete_add(&mut cfg, &s("plain"), &plan, true).unwrap();
    let items = Registry::update_cmd(&cfg);
    let (built, plain) = match (&items[0], &items[1]) {
        (UpdateItem::Due(a), UpdateItem::Due(b)) => (a, b),
        _ => panic!("both are unlocked"),
    };
    assert_eq!(built.name, "demo");
    assert!(Registry::rebuild_after(built, UpdateProgress::Updated));
    assert!(!Registry::rebuild_after(built, UpdateProgress::NeedsManualMerge));
    assert!(!Registry::rebuild_after(built, UpdateProgress::Stopped(UpdateStage::Fetch)));
    assert!(!Registry::rebuild_after(plain, UpdateProgress::Updated));
}

#[test]
fn update_pass_walks_names_in_order() {
    let mut cfg = fresh();
    for n in ["zeta", "alpha", "mid"] {
        let plan = Registry::add_cmd(&cfg, &s(n), &s("/tmp/x"), &s("/opt/lubig/sources"), true).unwrap();
        Registry::complete_add(&mut cfg, &s(n), &plan, true).unwrap();
    }
    let names: Vec<String> = Registry::update_cmd(&cfg)
        .iter()
        .map(|i| match i {
            UpdateItem::Due(t) => t.name.clone(),
            UpdateItem::Locked(n) => n.clone(),
        })
        .collect();
    assert_eq!(names, vec![s("alpha"), s("mid"), s("zeta")]);
}

#[test]
fn registration_drops_stale_build_entry() {
    let mut cfg = fresh();
    cfg.set_value(Section::Build, &s("demo"), &s("/old/demo"));
    let plan = Registry::add_cmd(&cfg, &s("demo"), &s("/tmp/repo"), &s("/opt/lubig/sources"), true).unwrap();
    Registry::complete_add(&mut cfg, &s("demo"), &plan, true).unwrap();
    assert!(!cfg.key_exists(Section::Build, &s("demo")));
    assert_eq!(Registry::status(&cfg, &s("demo")), Ok(RepoStatus { locked: false, built: false }));
}
