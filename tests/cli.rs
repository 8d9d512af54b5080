use lubig::{child_path, valid_path, Command, ConfCmd, Config, LocalStuff, PathStatus, Section, UsageError, Validate};

fn words(ws: &[&str]) -> Vec<String> {
    ws.iter().map(|w| w.to_string()).collect()
}

fn s(x: &str) -> String {
    x.to_string()
}

#[test]
fn parses_each_command() {
    assert!(matches!(Validate::command(&words(&["lubig", "get", "https://x/y.git", "y"])),
        Ok(Command::Get { url, name }) if url == "https://x/y.git" && name == "y"));
    assert!(matches!(Validate::command(&words(&["lubig", "add", "/tmp/repo", "demo"])),
        Ok(Command::Add { path, name }) if path == "/tmp/repo" && name == "demo"));
    assert!(matches!(Validate::command(&words(&["lubig", "lock", "demo"])), Ok(Command::Lock { name }) if name == "demo"));
    assert!(matches!(Validate::command(&words(&["lubig", "unlock", "demo"])),
        Ok(Command::Unlock { name, branch: None }) if name == "demo"));
    assert!(matches!(Validate::command(&words(&["lubig", "unlock", "demo", "dev"])),
        Ok(Command::Unlock { name, branch: Some(b) }) if name == "demo" && b == "dev"));
    assert!(matches!(Validate::command(&words(&["lubig", "upgrade"])), Ok(Command::Upgrade)));
    assert!(matches!(Validate::command(&words(&["lubig", "build", "demo"])), Ok(Command::Build { name }) if name == "demo"));
    assert!(matches!(Validate::command(&words(&["lubig", "list"])), Ok(Command::List)));
    assert!(matches!(Validate::command(&words(&["lubig", "status", "demo"])), Ok(Command::Status { name }) if name == "demo"));
    assert!(matches!(Validate::command(&words(&["lubig", "remove", "demo"])), Ok(Command::Remove { name }) if name == "demo"));
    assert!(matches!(Validate::command(&words(&["lubig", "help"])), Ok(Command::Help)));
}

#[test]
fn conf_maps_short_names() {
    assert!(matches!(Validate::conf(&words(&["lubig", "conf", "src", "/srv/src"])),
        Ok(Command::Conf { key, path }) if key == "sources" && path == "/srv/src"));
    assert!(matches!(Validate::conf(&words(&["lubig", "conf", "prof", "/p"])), Ok(Command::Conf { key, .. }) if key == "profiles"));
    assert!(matches!(Validate::conf(&words(&["lubig", "conf", "prog", "/p"])), Ok(Command::Conf { key, .. }) if key == "programs"));
    assert!(matches!(Validate::conf(&words(&["lubig", "conf", "bin", "/p"])), Err(UsageError::Unrecognized)));
}

#[test]
fn argument_counts() {
    assert!(matches!(Validate::command(&words(&["lubig"])), Err(UsageError::TooFewArgs)));
    assert!(matches!(Validate::command(&words(&["lubig", "frobnicate"])), Err(UsageError::Unrecognized)));
    assert!(matches!(Validate::get(&words(&["lubig", "get", "u"])), Err(UsageError::TooFewArgs)));
    assert!(matches!(Validate::add(&words(&["lubig", "add", "p", "n", "x"])), Err(UsageError::TooManyArgs)));
    assert!(matches!(Validate::unlock(&words(&["lubig", "unlock"])), Err(UsageError::TooFewArgs)));
    assert!(matches!(Validate::unlock(&words(&["lubig", "unlock", "a", "b", "c"])), Err(UsageError::TooManyArgs)));
    assert!(matches!(Validate::list(&words(&["lubig", "list", "x"])), Err(UsageError::TooManyArgs)));
    assert!(matches!(Validate::help(&words(&["lubig", "help", "x"])), Err(UsageError::TooManyArgs)));
    assert!(LocalStuff::cmd_len(&words(&["a", "b"]), 2));
    assert!(!LocalStuff::cmd_len(&words(&["a", "b"]), 3));
}

#[test]
fn path_classification() {
    assert_eq!(valid_path(&s("/srv/new"), false), PathStatus::Available);
    assert_eq!(valid_path(&s("/srv/old"), true), PathStatus::Exist);
    assert_eq!(valid_path(&s("   "), false), PathStatus::Invalid);
    assert_eq!(valid_path(&s(""), false), PathStatus::Invalid);
    assert_eq!(valid_path(&s("C:/x"), false), PathStatus::Invalid);
    assert_eq!(valid_path(&s("/a?b"), false), PathStatus::Invalid);
    assert_eq!(valid_path(&s("\u{3000}\t"), false), PathStatus::Invalid);
    assert_eq!(valid_path(&s(" /ok "), false), PathStatus::Available);
}

#[test]
fn usable_paths() {
    assert!(LocalStuff::usable_path(&s("/srv/new"), false, false));
    assert!(LocalStuff::usable_path(&s("/srv/empty"), true, false));
    assert!(!LocalStuff::usable_path(&s("/srv/full"), true, true));
    assert!(!LocalStuff::usable_path(&s("/srv/<x>"), false, false));
}

#[test]
fn subdirectories() {
    assert!(LocalStuff::is_subdir(&s("/a/b"), &s("/a/b")));
    assert!(LocalStuff::is_subdir(&s("/a/b"), &s("/a/b/c")));
    assert!(LocalStuff::is_subdir(&s("/a/b/"), &s("/a/b/c")));
    assert!(LocalStuff::is_subdir(&s("/"), &s("/x")));
    assert!(!LocalStuff::is_subdir(&s("/a/b"), &s("/a/bc")));
    assert!(!LocalStuff::is_subdir(&s("/a/b/c"), &s("/a/b")));
}

#[test]
fn child_paths() {
    assert_eq!(child_path(&s("/a"), "b"), "/a/b");
    assert_eq!(child_path(&s("/a/"), "b"), "/a/b");
    assert_eq!(child_path(&s(""), "b"), "/b");
}

#[test]
fn conf_commands_take_only_free_paths() {
    let mut cfg = Config::with_base(&s("/opt/lubig"));
    assert_eq!(ConfCmd::src_cmd(&mut cfg, &s("/srv/src"), false), PathStatus::Available);
    assert_eq!(cfg.get_value(Section::Directories, &s("sources")), Some(s("/srv/src")));
    assert_eq!(ConfCmd::prof_cmd(&mut cfg, &s("/srv/prof"), true), PathStatus::Exist);
    assert_eq!(cfg.get_value(Section::Directories, &s("profiles")), Some(s("/opt/lubig/profiles")));
    assert_eq!(ConfCmd::prog_cmd(&mut cfg, &s("/srv|prog"), false), PathStatus::Invalid);
    assert_eq!(cfg.get_value(Section::Directories, &s("programs")), Some(s("/opt/lubig/programs")));
    assert_eq!(ConfCmd::prog_cmd(&mut cfg, &s("/srv/prog"), false), PathStatus::Available);
    assert_eq!(cfg.get_value(Section::Directories, &s("programs")), Some(s("/srv/prog")));
}
