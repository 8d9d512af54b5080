use vstd::prelude::*;
use crate::conf::{Config, ConfigView};
use crate::paths::{child_of, child_path, is_subdir_of, LocalStuff};

verus! {

/// Why a lifecycle operation did not go through.
#[derive(Debug, PartialEq, Eq, Structural, Clone, Copy)]
pub enum RegistryError {
    /// The name is registered already.
    DuplicateName,
    /// The name is not registered.
    UnknownName,
    /// The directory is no working copy of a repository.
    NotAVersionControlRepository,
    /// Cloning or fetching from the remote failed.
    RemoteOperationFailed,
    /// A directory could not be moved into place.
    RelocationFailed,
    /// A directory setting that the operation needs is missing.
    ConfigurationIncomplete,
    /// There is no build script, or it could not be started.
    BuildScriptUnavailable,
    /// The build script ended with a failure.
    BuildFailed,
}

/// The branch that a repository follows when no other is named.
pub const DEFAULT_BRANCH: &'static str = "main";

/// The registry's lifecycle operations. Each works on the state it is handed
/// and says which directories to create, move or delete; the caller does that
/// on disk and persists the state.
pub struct Registry;

/// Where a repository goes when it is registered.
pub struct AddPlan {
    /// The working copy's location once registered.
    pub target: String,
    /// Whether the working copy must first be moved to `target`.
    pub relocate: bool,
}

/// Whether a lock changed anything.
#[derive(Debug, PartialEq, Eq, Structural, Clone, Copy)]
pub enum LockOutcome {
    Locked,
    AlreadyLocked,
}

/// A registered repository's lock and build state.
#[derive(Debug, PartialEq, Eq, Structural, Clone, Copy)]
pub struct RepoStatus {
    pub locked: bool,
    pub built: bool,
}

/// What to delete from disk when a repository is removed.
pub struct RemovalPlan {
    /// The last build's result, if there was one.
    pub artifact: Option<String>,
    /// The build script, where a profiles directory is configured.
    pub script: Option<String>,
    /// The working copy.
    pub source: String,
}

/// Where the location of an added repository ends up: the path itself when it
/// lies under the sources root, else the entry `name` of that root.
pub open spec fn add_target(sources_root: Seq<char>, path: Seq<char>, name: Seq<char>) -> Seq<char> {
    if is_subdir_of(sources_root, path) {
        path
    } else {
        child_of(sources_root, name)
    }
}

/// The state with `name` registered at `location`, following the default
/// branch and with no build.
pub open spec fn registered(c: ConfigView, name: Seq<char>, location: Seq<char>) -> ConfigView {
    ConfigView {
        added: c.added.insert(name, location),
        unlocked: c.unlocked.insert(name, DEFAULT_BRANCH@),
        build: c.build.remove(name),
        ..c
    }
}

/// The state with every trace of `name` gone from the tables.
pub open spec fn forgotten(c: ConfigView, name: Seq<char>) -> ConfigView {
    ConfigView {
        added: c.added.remove(name),
        unlocked: c.unlocked.remove(name),
        build: c.build.remove(name),
        ..c
    }
}

/// What a status query of `name` reports; `None` for an unknown name.
pub open spec fn status_of(c: ConfigView, name: Seq<char>) -> Option<RepoStatus> {
    if c.added.contains_key(name) {
        Some(RepoStatus { locked: !c.unlocked.contains_key(name), built: c.build.contains_key(name) })
    } else {
        None
    }
}

/// The file name of the build script of `name`.
pub open spec fn script_name(name: Seq<char>, ext: Seq<char>) -> Seq<char> {
    name + seq!['.'] + ext
}

/// An added repository lies under the sources root once registered.
pub proof fn lemma_registration_containment(sources_root: Seq<char>, path: Seq<char>, name: Seq<char>)
    ensures
        is_subdir_of(sources_root, add_target(sources_root, path, name)),
{
    if !is_subdir_of(sources_root, path) {
        crate::paths::lemma_child_is_subdir(sources_root, name);
    }
}

/// The state with `name` locked.
pub open spec fn locked(c: ConfigView, name: Seq<char>) -> ConfigView {
    ConfigView { unlocked: c.unlocked.remove(name), ..c }
}

/// The state with `name` following `branch`.
pub open spec fn unlocked_on(c: ConfigView, name: Seq<char>, branch: Seq<char>) -> ConfigView {
    ConfigView { unlocked: c.unlocked.insert(name, branch), ..c }
}

/// The branch named, or the default one.
pub open spec fn branch_or_default(branch: Option<&String>) -> Seq<char> {
    match branch {
        Some(b) => b@,
        None => DEFAULT_BRANCH@,
    }
}

/// Locking twice is locking once, and so is unlocking twice on one branch.
pub proof fn lemma_lock_idempotent(c: ConfigView, name: Seq<char>, branch: Seq<char>)
    ensures
        locked(locked(c, name), name) == locked(c, name),
        unlocked_on(unlocked_on(c, name, branch), name, branch) == unlocked_on(c, name, branch),
{
    assert(c.unlocked.remove(name) =~= c.unlocked.remove(name).remove(name));
    assert(c.unlocked.insert(name, branch) =~= c.unlocked.insert(name, branch).insert(name, branch));
}

/// After a removal, no table knows the name and a status query reports it unknown.
pub proof fn lemma_remove_terminal(c: ConfigView, name: Seq<char>)
    ensures
        !forgotten(c, name).added.contains_key(name),
        !forgotten(c, name).unlocked.contains_key(name),
        !forgotten(c, name).build.contains_key(name),
        status_of(forgotten(c, name), name).is_none(),
{
}

pub(crate) fn script_file(name: &String, ext: &str) -> (r: String)
    ensures
        r@ == script_name(name@, ext@),
{
    let mut r = name.clone();
    r.append(".");
    r.append(ext);
    proof {
        reveal_strlit(".");
    }
    r
}

impl Registry {
    /// Where `get` clones the repository `name` to.
    pub fn get_cmd(cfg: &Config, name: &String) -> (r: Result<String, RegistryError>)
        ensures
            cfg@.added.contains_key(name@) ==> r == Err::<String, RegistryError>(RegistryError::DuplicateName),
            !cfg@.added.contains_key(name@) && cfg@.sources.is_none()
                ==> r == Err::<String, RegistryError>(RegistryError::ConfigurationIncomplete),
            !cfg@.added.contains_key(name@) && cfg@.sources.is_some()
                ==> (r matches Ok(t) && t@ == child_of(cfg@.sources.unwrap(), name@)),
    {
        if cfg.added.contains_key(name) {
            return Err(RegistryError::DuplicateName);
        }
        match &cfg.directories.sources {
            Some(s) => Ok(child_path(s, name.as_str())),
            None => Err(RegistryError::ConfigurationIncomplete),
        }
    }

    /// Decides where the working copy at `path` goes when registered as
    /// `name`. `sources_root` must be the canonical form of the configured
    /// sources directory (the setting itself where it cannot be resolved on
    /// disk yet), and `path` the canonical form of the working copy's path:
    /// containment is judged, and the target placed, under that root.
    /// `is_repo` tells whether `path` opens as a repository.
    pub fn add_cmd(cfg: &Config, name: &String, path: &String, sources_root: &String, is_repo: bool) -> (r: Result<
        AddPlan,
        RegistryError,
    >)
        ensures
            !is_repo ==> (r matches Err(e) && e == RegistryError::NotAVersionControlRepository),
            is_repo && cfg@.added.contains_key(name@) ==> (r matches Err(e) && e == RegistryError::DuplicateName),
            is_repo && !cfg@.added.contains_key(name@) && cfg@.sources.is_none()
                ==> (r matches Err(e) && e == RegistryError::ConfigurationIncomplete),
            is_repo && !cfg@.added.contains_key(name@) && cfg@.sources.is_some() ==> (r matches Ok(p)
                && p.relocate == !is_subdir_of(sources_root@, path@)
                && p.target@ == add_target(sources_root@, path@, name@)),
            (r matches Ok(p) ==> is_subdir_of(sources_root@, p.target@)),
    {
        if !is_repo {
            return Err(RegistryError::NotAVersionControlRepository);
        }
        if cfg.added.contains_key(name) {
            return Err(RegistryError::DuplicateName);
        }
        if cfg.directories.sources.is_none() {
            return Err(RegistryError::ConfigurationIncomplete);
        }
        proof {
            lemma_registration_containment(sources_root@, path@, name@);
        }
        if LocalStuff::is_subdir(sources_root, path) {
            Ok(AddPlan { target: path.clone(), relocate: false })
        } else {
            Ok(AddPlan { target: child_path(sources_root, name.as_str()), relocate: true })
        }
    }

    /// Records `name` at the plan's target, following the default branch, once
    /// the working copy is in place: `moved` tells whether a move the plan
    /// asked for went through.
    pub fn complete_add(cfg: &mut Config, name: &String, plan: &AddPlan, moved: bool) -> (r: Result<(), RegistryError>)
        ensures
            old(cfg)@.added.contains_key(name@) ==> r == Err::<(), RegistryError>(RegistryError::DuplicateName),
            !old(cfg)@.added.contains_key(name@) && plan.relocate && !moved
                ==> r == Err::<(), RegistryError>(RegistryError::RelocationFailed),
            r is Err ==> final(cfg)@ == old(cfg)@,
            !old(cfg)@.added.contains_key(name@) && (!plan.relocate || moved) ==> r is Ok
                && final(cfg)@ == registered(old(cfg)@, name@, plan.target@),
            r is Ok ==> !final(cfg)@.build.contains_key(name@) && final(cfg)@.unlocked[name@] == DEFAULT_BRANCH@,
    {
        if cfg.added.contains_key(name) {
            return Err(RegistryError::DuplicateName);
        }
        if plan.relocate && !moved {
            return Err(RegistryError::RelocationFailed);
        }
        cfg.added.insert(name.clone(), plan.target.clone());
        cfg.unlocked.insert(name.clone(), DEFAULT_BRANCH.to_owned());
        cfg.build.remove(name);
        Ok(())
    }

    /// Stops `name` from following its remote.
    pub fn lock_cmd(cfg: &mut Config, name: &String) -> (r: Result<LockOutcome, RegistryError>)
        ensures
            !old(cfg)@.added.contains_key(name@) ==> r == Err::<LockOutcome, RegistryError>(RegistryError::UnknownName)
                && final(cfg)@ == old(cfg)@,
            old(cfg)@.added.contains_key(name@) && old(cfg)@.unlocked.contains_key(name@)
                ==> r == Ok::<LockOutcome, RegistryError>(LockOutcome::Locked)
                && final(cfg)@ == locked(old(cfg)@, name@),
            old(cfg)@.added.contains_key(name@) && !old(cfg)@.unlocked.contains_key(name@)
                ==> r == Ok::<LockOutcome, RegistryError>(LockOutcome::AlreadyLocked) && final(cfg)@ == old(cfg)@,
    {
        if !cfg.added.contains_key(name) {
            return Err(RegistryError::UnknownName);
        }
        if cfg.unlocked.contains_key(name) {
            cfg.unlocked.remove(name);
            Ok(LockOutcome::Locked)
        } else {
            Ok(LockOutcome::AlreadyLocked)
        }
    }

    /// Lets `name` follow `branch` of its remote, or the default branch.
    pub fn unlock_cmd(cfg: &mut Config, name: &String, branch: Option<&String>) -> (r: Result<(), RegistryError>)
        ensures
            !old(cfg)@.added.contains_key(name@) ==> r == Err::<(), RegistryError>(RegistryError::UnknownName)
                && final(cfg)@ == old(cfg)@,
            old(cfg)@.added.contains_key(name@) ==> r is Ok
                && final(cfg)@ == unlocked_on(old(cfg)@, name@, branch_or_default(branch)),
    {
        if !cfg.added.contains_key(name) {
            return Err(RegistryError::UnknownName);
        }
        let b = match branch {
            Some(b) => b.clone(),
            None => DEFAULT_BRANCH.to_owned(),
        };
        cfg.unlocked.insert(name.clone(), b);
        Ok(())
    }

    /// The lock and build state of `name`.
    pub fn status(cfg: &Config, name: &String) -> (r: Result<RepoStatus, RegistryError>)
        ensures
            match status_of(cfg@, name@) {
                Some(s) => r == Ok::<RepoStatus, RegistryError>(s),
                None => r == Err::<RepoStatus, RegistryError>(RegistryError::UnknownName),
            },
    {
        if !cfg.added.contains_key(name) {
            return Err(RegistryError::UnknownName);
        }
        Ok(RepoStatus { locked: !cfg.unlocked.contains_key(name), built: cfg.build.contains_key(name) })
    }

    /// Forgets `name` in every table and says what to delete from disk: the
    /// caller deletes each that exists, and a failed deletion changes nothing
    /// here. `ext` is the build scripts' file extension.
    pub fn remove_cmd(cfg: &mut Config, name: &String, ext: &str) -> (r: Result<RemovalPlan, RegistryError>)
        ensures
            !old(cfg)@.added.contains_key(name@) ==> (r matches Err(e) && e == RegistryError::UnknownName
                && final(cfg)@ == old(cfg)@),
            old(cfg)@.added.contains_key(name@) ==> (r matches Ok(p)
                && p.source@ == old(cfg)@.added[name@]
                && (match p.artifact {
                    Some(a) => old(cfg)@.build.contains_key(name@) && a@ == old(cfg)@.build[name@],
                    None => !old(cfg)@.build.contains_key(name@),
                })
                && (match p.script {
                    Some(s) => old(cfg)@.profiles.is_some()
                        && s@ == child_of(old(cfg)@.profiles.unwrap(), script_name(name@, ext@)),
                    None => old(cfg)@.profiles.is_none(),
                })
                && final(cfg)@ == forgotten(old(cfg)@, name@)),
    {
        let source = match cfg.added.get(name) {
            Some(s) => s,
            None => return Err(RegistryError::UnknownName),
        };
        let artifact = cfg.build.get(name);
        let script = match &cfg.directories.profiles {
            Some(p) => {
                let f = script_file(name, ext);
                Some(child_path(p, f.as_str()))
            },
            None => None,
        };
        cfg.build.remove(name);
        cfg.unlocked.remove(name);
        cfg.added.remove(name);
        Ok(RemovalPlan { artifact, script, source })
    }
}

} // verus!
