use vstd::prelude::*;
use crate::conf::{is_key, lemma_names_distinct, with_value, Config, ConfigView, Section};
use crate::paths::path_text_ok;
use crate::paths::{path_status_of, valid_path, LocalStuff, PathStatus};

verus! {

/// A command of the registry's command line, with its arguments.
pub enum Command {
    /// Set a directory: `key` is `sources`, `profiles` or `programs`.
    Conf { key: String, path: String },
    Get { url: String, name: String },
    Add { path: String, name: String },
    Lock { name: String },
    Unlock { name: String, branch: Option<String> },
    Upgrade,
    Build { name: String },
    List,
    Status { name: String },
    Remove { name: String },
    Help,
}

/// Why a command line was not taken.
#[derive(Debug, PartialEq, Eq, Structural, Clone, Copy)]
pub enum UsageError {
    TooFewArgs,
    TooManyArgs,
    Unrecognized,
}

/// What is wrong with the length of a command line that should have `n` words.
pub open spec fn arity_error(cmd: Seq<String>, n: int) -> Option<UsageError> {
    if cmd.len() > n {
        Some(UsageError::TooManyArgs)
    } else if cmd.len() < n {
        Some(UsageError::TooFewArgs)
    } else {
        None
    }
}

/// The directory setting that a `conf` word names.
pub open spec fn conf_key_of(word: Seq<char>) -> Option<Seq<char>> {
    if word == "src"@ {
        Some("sources"@)
    } else if word == "prof"@ {
        Some("profiles"@)
    } else if word == "prog"@ {
        Some("programs"@)
    } else {
        None
    }
}

/// `r` is what a command of `n` words gives: an arity error, or `ok`.
pub open spec fn with_arity(cmd: Seq<String>, n: int, r: Result<Command, UsageError>, ok: bool) -> bool {
    match arity_error(cmd, n) {
        Some(e) => r == Err::<Command, UsageError>(e),
        None => ok,
    }
}

/// What `conf <src|prof|prog> <path>` gives.
pub open spec fn conf_ok(cmd: Seq<String>, r: Result<Command, UsageError>) -> bool {
    with_arity(
        cmd,
        4,
        r,
        match conf_key_of(cmd[2]@) {
            Some(k) => r matches Ok(Command::Conf { key, path }) && key@ == k && path@ == cmd[3]@,
            None => r == Err::<Command, UsageError>(UsageError::Unrecognized),
        },
    )
}

/// What `get <url> <name>` gives.
pub open spec fn get_ok(cmd: Seq<String>, r: Result<Command, UsageError>) -> bool {
    with_arity(cmd, 4, r, r matches Ok(Command::Get { url, name }) && url@ == cmd[2]@ && name@ == cmd[3]@)
}

/// What `add <path> <name>` gives.
pub open spec fn add_ok(cmd: Seq<String>, r: Result<Command, UsageError>) -> bool {
    with_arity(cmd, 4, r, r matches Ok(Command::Add { path, name }) && path@ == cmd[2]@ && name@ == cmd[3]@)
}

/// What `lock <name>` gives.
pub open spec fn lock_ok(cmd: Seq<String>, r: Result<Command, UsageError>) -> bool {
    with_arity(cmd, 3, r, r matches Ok(Command::Lock { name }) && name@ == cmd[2]@)
}

/// What `unlock <name> [branch]` gives.
pub open spec fn unlock_ok(cmd: Seq<String>, r: Result<Command, UsageError>) -> bool {
    &&& (cmd.len() < 3 ==> r == Err::<Command, UsageError>(UsageError::TooFewArgs))
    &&& (cmd.len() > 4 ==> r == Err::<Command, UsageError>(UsageError::TooManyArgs))
    &&& (cmd.len() == 3 ==> (r matches Ok(Command::Unlock { name, branch: None }) && name@ == cmd[2]@))
    &&& (cmd.len() == 4 ==> (r matches Ok(Command::Unlock { name, branch: Some(b) }) && name@ == cmd[2]@
            && b@ == cmd[3]@))
}

/// What `upgrade` gives.
pub open spec fn upgrade_ok(cmd: Seq<String>, r: Result<Command, UsageError>) -> bool {
    with_arity(cmd, 2, r, r matches Ok(Command::Upgrade))
}

/// What `build <name>` gives.
pub open spec fn build_ok(cmd: Seq<String>, r: Result<Command, UsageError>) -> bool {
    with_arity(cmd, 3, r, r matches Ok(Command::Build { name }) && name@ == cmd[2]@)
}

/// What `list` gives.
pub open spec fn list_ok(cmd: Seq<String>, r: Result<Command, UsageError>) -> bool {
    with_arity(cmd, 2, r, r matches Ok(Command::List))
}

/// What `status <name>` gives.
pub open spec fn status_ok(cmd: Seq<String>, r: Result<Command, UsageError>) -> bool {
    with_arity(cmd, 3, r, r matches Ok(Command::Status { name }) && name@ == cmd[2]@)
}

/// What `remove <name>` gives.
pub open spec fn remove_ok(cmd: Seq<String>, r: Result<Command, UsageError>) -> bool {
    with_arity(cmd, 3, r, r matches Ok(Command::Remove { name }) && name@ == cmd[2]@)
}

/// What `help` gives.
pub open spec fn help_ok(cmd: Seq<String>, r: Result<Command, UsageError>) -> bool {
    with_arity(cmd, 2, r, r matches Ok(Command::Help))
}

/// What a whole command line gives.
pub open spec fn parsed(cmd: Seq<String>, r: Result<Command, UsageError>) -> bool {
    if cmd.len() < 2 {
        r == Err::<Command, UsageError>(UsageError::TooFewArgs)
    } else if cmd[1]@ == "conf"@ {
        conf_ok(cmd, r)
    } else if cmd[1]@ == "get"@ {
        get_ok(cmd, r)
    } else if cmd[1]@ == "add"@ {
        add_ok(cmd, r)
    } else if cmd[1]@ == "lock"@ {
        lock_ok(cmd, r)
    } else if cmd[1]@ == "unlock"@ {
        unlock_ok(cmd, r)
    } else if cmd[1]@ == "upgrade"@ {
        upgrade_ok(cmd, r)
    } else if cmd[1]@ == "build"@ {
        build_ok(cmd, r)
    } else if cmd[1]@ == "list"@ {
        list_ok(cmd, r)
    } else if cmd[1]@ == "status"@ {
        status_ok(cmd, r)
    } else if cmd[1]@ == "remove"@ {
        remove_ok(cmd, r)
    } else if cmd[1]@ == "help"@ {
        help_ok(cmd, r)
    } else {
        r == Err::<Command, UsageError>(UsageError::Unrecognized)
    }
}

fn check_arity(cmd: &Vec<String>, n: usize) -> (r: Option<UsageError>)
    ensures
        r == arity_error(cmd@, n as int),
{
    if cmd.len() > n {
        Some(UsageError::TooManyArgs)
    } else if cmd.len() < n {
        Some(UsageError::TooFewArgs)
    } else {
        None
    }
}

/// Checks a command line's words and turns them into a `Command`. The first
/// word is the program, the second the command.
pub struct Validate;

impl Validate {
    /// `conf <src|prof|prog> <path>`
    pub fn conf(cmd: &Vec<String>) -> (r: Result<Command, UsageError>)
        ensures
            conf_ok(cmd@, r),
    {
        if let Some(e) = check_arity(cmd, 4) {
            return Err(e);
        }
        let key = if is_key(&cmd[2], "src") {
            "sources".to_owned()
        } else if is_key(&cmd[2], "prof") {
            "profiles".to_owned()
        } else if is_key(&cmd[2], "prog") {
            "programs".to_owned()
        } else {
            return Err(UsageError::Unrecognized);
        };
        Ok(Command::Conf { key, path: cmd[3].clone() })
    }

    /// `get <url> <name>`
    pub fn get(cmd: &Vec<String>) -> (r: Result<Command, UsageError>)
        ensures
            get_ok(cmd@, r),
    {
        if let Some(e) = check_arity(cmd, 4) {
            return Err(e);
        }
        Ok(Command::Get { url: cmd[2].clone(), name: cmd[3].clone() })
    }

    /// `add <path> <name>`
    pub fn add(cmd: &Vec<String>) -> (r: Result<Command, UsageError>)
        ensures
            add_ok(cmd@, r),
    {
        if let Some(e) = check_arity(cmd, 4) {
            return Err(e);
        }
        Ok(Command::Add { path: cmd[2].clone(), name: cmd[3].clone() })
    }

    /// `lock <name>`
    pub fn lock(cmd: &Vec<String>) -> (r: Result<Command, UsageError>)
        ensures
            lock_ok(cmd@, r),
    {
        if let Some(e) = check_arity(cmd, 3) {
            return Err(e);
        }
        Ok(Command::Lock { name: cmd[2].clone() })
    }

    /// `unlock <name> [branch]`
    pub fn unlock(cmd: &Vec<String>) -> (r: Result<Command, UsageError>)
        ensures
            unlock_ok(cmd@, r),
    {
        if cmd.len() < 3 {
            return Err(UsageError::TooFewArgs);
        }
        if cmd.len() > 4 {
            return Err(UsageError::TooManyArgs);
        }
        let branch = if cmd.len() == 4 {
            Some(cmd[3].clone())
        } else {
            None
        };
        Ok(Command::Unlock { name: cmd[2].clone(), branch })
    }

    /// `upgrade`
    pub fn upgrade(cmd: &Vec<String>) -> (r: Result<Command, UsageError>)
        ensures
            upgrade_ok(cmd@, r),
    {
        if let Some(e) = check_arity(cmd, 2) {
            return Err(e);
        }
        Ok(Command::Upgrade)
    }

    /// `build <name>`
    pub fn build(cmd: &Vec<String>) -> (r: Result<Command, UsageError>)
        ensures
            build_ok(cmd@, r),
    {
        if let Some(e) = check_arity(cmd, 3) {
            return Err(e);
        }
        Ok(Command::Build { name: cmd[2].clone() })
    }

    /// `list`
    pub fn list(cmd: &Vec<String>) -> (r: Result<Command, UsageError>)
        ensures
            list_ok(cmd@, r),
    {
        if let Some(e) = check_arity(cmd, 2) {
            return Err(e);
        }
        Ok(Command::List)
    }

    /// `status <name>`
    pub fn status(cmd: &Vec<String>) -> (r: Result<Command, UsageError>)
        ensures
            status_ok(cmd@, r),
    {
        if let Some(e) = check_arity(cmd, 3) {
            return Err(e);
        }
        Ok(Command::Status { name: cmd[2].clone() })
    }

    /// `remove <name>`
    pub fn remove(cmd: &Vec<String>) -> (r: Result<Command, UsageError>)
        ensures
            remove_ok(cmd@, r),
    {
        if let Some(e) = check_arity(cmd, 3) {
            return Err(e);
        }
        Ok(Command::Remove { name: cmd[2].clone() })
    }

    /// `help`
    pub fn help(cmd: &Vec<String>) -> (r: Result<Command, UsageError>)
        ensures
            help_ok(cmd@, r),
    {
        if let Some(e) = check_arity(cmd, 2) {
            return Err(e);
        }
        Ok(Command::Help)
    }

    /// The command that a whole command line names, checked by the
    /// validator of that command.
    pub fn command(cmd: &Vec<String>) -> (r: Result<Command, UsageError>)
        ensures
            parsed(cmd@, r),
    {
        if cmd.len() < 2 {
            return Err(UsageError::TooFewArgs);
        }
        let word = &cmd[1];
        if is_key(word, "conf") {
            Validate::conf(cmd)
        } else if is_key(word, "get") {
            Validate::get(cmd)
        } else if is_key(word, "add") {
            Validate::add(cmd)
        } else if is_key(word, "lock") {
            Validate::lock(cmd)
        } else if is_key(word, "unlock") {
            Validate::unlock(cmd)
        } else if is_key(word, "upgrade") {
            Validate::upgrade(cmd)
        } else if is_key(word, "build") {
            Validate::build(cmd)
        } else if is_key(word, "list") {
            Validate::list(cmd)
        } else if is_key(word, "status") {
            Validate::status(cmd)
        } else if is_key(word, "remove") {
            Validate::remove(cmd)
        } else if is_key(word, "help") {
            Validate::help(cmd)
        } else {
            Err(UsageError::Unrecognized)
        }
    }
}

/// The state with the directory setting `key` at `path`, where the path is
/// free to take.
pub open spec fn conf_applied(c: ConfigView, key: Seq<char>, path: Seq<char>, on_disk: bool) -> ConfigView {
    if path_status_of(path, on_disk) == PathStatus::Available {
        if key == "sources"@ {
            ConfigView { sources: Some(path), ..c }
        } else if key == "profiles"@ {
            ConfigView { profiles: Some(path), ..c }
        } else {
            ConfigView { programs: Some(path), ..c }
        }
    } else {
        c
    }
}

/// Commands that set one of the three directories. Each takes a path that
/// names nothing on disk yet (`on_disk` tells) and reports how the path stands.
pub struct ConfCmd;

impl ConfCmd {
    /// The `conf` command: sets the directory setting `key` to `path` where
    /// the path is usable (an acceptable text naming nothing on disk yet, or
    /// an empty directory: `on_disk` and `has_entries` tell), and otherwise
    /// leaves the state as it is. Says whether the path was taken.
    pub fn conf_cmd(cfg: &mut Config, key: &String, path: &String, on_disk: bool, has_entries: bool) -> (r: bool)
        ensures
            r == (path_text_ok(path@) && (!on_disk || !has_entries)),
            r ==> final(cfg)@ == with_value(old(cfg)@, Section::Directories, key@, path@),
            !r ==> final(cfg)@ == old(cfg)@,
    {
        if !LocalStuff::usable_path(path, on_disk, has_entries) {
            return false;
        }
        cfg.set_value(Section::Directories, key, path);
        true
    }

    /// Sets the sources directory.
    pub fn src_cmd(cfg: &mut Config, path: &String, on_disk: bool) -> (r: PathStatus)
        ensures
            r == path_status_of(path@, on_disk),
            final(cfg)@ == conf_applied(old(cfg)@, "sources"@, path@, on_disk),
    {
        let r = valid_path(path, on_disk);
        if r == PathStatus::Available {
            cfg.directories.sources = Some(path.clone());
        }
        r
    }

    /// Sets the profiles directory, where the build scripts are.
    pub fn prof_cmd(cfg: &mut Config, path: &String, on_disk: bool) -> (r: PathStatus)
        ensures
            r == path_status_of(path@, on_disk),
            final(cfg)@ == conf_applied(old(cfg)@, "profiles"@, path@, on_disk),
    {
        proof {
            lemma_names_distinct();
        }
        let r = valid_path(path, on_disk);
        if r == PathStatus::Available {
            cfg.directories.profiles = Some(path.clone());
        }
        r
    }

    /// Sets the programs directory, where build results are kept.
    pub fn prog_cmd(cfg: &mut Config, path: &String, on_disk: bool) -> (r: PathStatus)
        ensures
            r == path_status_of(path@, on_disk),
            final(cfg)@ == conf_applied(old(cfg)@, "programs"@, path@, on_disk),
    {
        proof {
            lemma_names_distinct();
        }
        let r = valid_path(path, on_disk);
        if r == PathStatus::Available {
            cfg.directories.programs = Some(path.clone());
        }
        r
    }
}

} // verus!
