use vstd::prelude::*;
use crate::paths::{child_of, child_path};
use crate::table::Table;

verus! {

/// The three directories under which the registry keeps repositories, build
/// scripts and build results.
pub struct Directories {
    pub sources: Option<String>,
    pub profiles: Option<String>,
    pub programs: Option<String>,
}

/// What a `Config` holds, as mathematical values.
pub ghost struct ConfigView {
    pub sources: Option<Seq<char>>,
    pub profiles: Option<Seq<char>>,
    pub programs: Option<Seq<char>>,
    /// Registered repositories: name to working-copy location.
    pub added: Map<Seq<char>, Seq<char>>,
    /// Repositories that follow their remote: name to tracked branch.
    pub unlocked: Map<Seq<char>, Seq<char>>,
    /// Built repositories: name to where the last build went.
    pub build: Map<Seq<char>, Seq<char>>,
}

/// The registry's durable state.
pub struct Config {
    pub directories: Directories,
    pub added: Table,
    pub unlocked: Table,
    pub build: Table,
}

/// The part of the registry's state that a lookup goes to.
#[derive(Debug, PartialEq, Eq, Structural, Clone, Copy)]
pub enum Section {
    Directories,
    Added,
    Unlocked,
    Build,
}

pub open spec fn opt_view(o: Option<String>) -> Option<Seq<char>> {
    match o {
        Some(s) => Some(s@),
        None => None,
    }
}

impl View for Config {
    type V = ConfigView;

    open spec fn view(&self) -> ConfigView {
        ConfigView {
            sources: opt_view(self.directories.sources),
            profiles: opt_view(self.directories.profiles),
            programs: opt_view(self.directories.programs),
            added: self.added@,
            unlocked: self.unlocked@,
            build: self.build@,
        }
    }
}

/// The table that `section` names, for the three keyed sections.
pub open spec fn table_of(c: ConfigView, section: Section) -> Map<Seq<char>, Seq<char>> {
    match section {
        Section::Added => c.added,
        Section::Unlocked => c.unlocked,
        Section::Build => c.build,
        Section::Directories => Map::empty(),
    }
}

/// The setting that `key` names in the directories section.
pub open spec fn dir_setting(c: ConfigView, key: Seq<char>) -> Option<Seq<char>> {
    if key == "sources"@ {
        c.sources
    } else if key == "profiles"@ {
        c.profiles
    } else if key == "programs"@ {
        c.programs
    } else {
        None
    }
}

/// What a lookup of `key` in `section` finds.
pub open spec fn value_of(c: ConfigView, section: Section, key: Seq<char>) -> Option<Seq<char>> {
    match section {
        Section::Directories => dir_setting(c, key),
        _ => if table_of(c, section).contains_key(key) {
            Some(table_of(c, section)[key])
        } else {
            None
        },
    }
}

/// The state with `key` of `section` set to `val`. A key that names no
/// directory setting changes nothing.
pub open spec fn with_value(c: ConfigView, section: Section, key: Seq<char>, val: Seq<char>) -> ConfigView {
    match section {
        Section::Directories => if key == "sources"@ {
            ConfigView { sources: Some(val), ..c }
        } else if key == "profiles"@ {
            ConfigView { profiles: Some(val), ..c }
        } else if key == "programs"@ {
            ConfigView { programs: Some(val), ..c }
        } else {
            c
        },
        Section::Added => ConfigView { added: c.added.insert(key, val), ..c },
        Section::Unlocked => ConfigView { unlocked: c.unlocked.insert(key, val), ..c },
        Section::Build => ConfigView { build: c.build.insert(key, val), ..c },
    }
}

/// The state with `key` taken out of `section`; directory settings stay.
pub open spec fn without_key(c: ConfigView, section: Section, key: Seq<char>) -> ConfigView {
    match section {
        Section::Directories => c,
        Section::Added => ConfigView { added: c.added.remove(key), ..c },
        Section::Unlocked => ConfigView { unlocked: c.unlocked.remove(key), ..c },
        Section::Build => ConfigView { build: c.build.remove(key), ..c },
    }
}

/// The directories that a fresh registry uses: three entries of `base`.
pub open spec fn default_config(base: Seq<char>) -> ConfigView {
    ConfigView {
        sources: Some(child_of(base, "sources"@)),
        profiles: Some(child_of(base, "profiles"@)),
        programs: Some(child_of(base, "programs"@)),
        added: Map::empty(),
        unlocked: Map::empty(),
        build: Map::empty(),
    }
}

/// The names of the three directory settings and of the four sections differ.
pub proof fn lemma_names_distinct()
    ensures
        "profiles"@ != "sources"@,
        "programs"@ != "sources"@,
        "programs"@ != "profiles"@,
        "added"@ != "directories"@,
        "unlocked"@ != "directories"@,
        "unlocked"@ != "added"@,
        "build"@ != "directories"@,
        "build"@ != "added"@,
        "build"@ != "unlocked"@,
{
    reveal_strlit("sources");
    reveal_strlit("profiles");
    reveal_strlit("programs");
    reveal_strlit("directories");
    reveal_strlit("added");
    reveal_strlit("unlocked");
    reveal_strlit("build");
    assert("profiles"@[0] != "sources"@[0]);
    assert("programs"@[0] != "sources"@[0]);
    assert("programs"@[3] != "profiles"@[3]);
    assert("added"@[0] != "directories"@[0]);
    assert("unlocked"@[0] != "directories"@[0] && "unlocked"@[0] != "added"@[0]);
    assert("build"@[0] != "directories"@[0] && "build"@[0] != "added"@[0] && "build"@[0] != "unlocked"@[0]);
}

pub(crate) fn is_key(key: &String, name: &str) -> (r: bool)
    ensures
        r == (key@ == name@),
{
    *key == name.to_owned()
}

impl Directories {
    /// The three directories as entries of `base`.
    pub fn at(base: &String) -> (r: Directories)
        ensures
            opt_view(r.sources) == Some(child_of(base@, "sources"@)),
            opt_view(r.profiles) == Some(child_of(base@, "profiles"@)),
            opt_view(r.programs) == Some(child_of(base@, "programs"@)),
    {
        Directories {
            sources: Some(child_path(base, "sources")),
            profiles: Some(child_path(base, "profiles")),
            programs: Some(child_path(base, "programs")),
        }
    }
}

impl Config {
    /// A registry with nothing registered and its directories under `base`.
    pub fn with_base(base: &String) -> (r: Config)
        ensures
            r@ == default_config(base@),
    {
        Config { directories: Directories::at(base), added: Table::new(), unlocked: Table::new(), build: Table::new() }
    }

    fn table(&self, section: Section) -> (r: &Table)
        requires
            section != Section::Directories,
        ensures
            r@ == table_of(self@, section),
    {
        match section {
            Section::Added => &self.added,
            Section::Unlocked => &self.unlocked,
            _ => &self.build,
        }
    }

    /// Looks up `key` in `section`.
    pub fn get_value(&self, section: Section, key: &String) -> (r: Option<String>)
        ensures
            opt_view(r) == value_of(self@, section, key@),
    {
        match section {
            Section::Directories => {
                if is_key(key, "sources") {
                    self.directories.sources.clone()
                } else if is_key(key, "profiles") {
                    self.directories.profiles.clone()
                } else if is_key(key, "programs") {
                    self.directories.programs.clone()
                } else {
                    None
                }
            },
            _ => self.table(section).get(key),
        }
    }

    /// Whether `section` has a value under `key`.
    pub fn key_exists(&self, section: Section, key: &String) -> (r: bool)
        ensures
            r == value_of(self@, section, key@).is_some(),
    {
        match section {
            Section::Directories => {
                if is_key(key, "sources") {
                    self.directories.sources.is_some()
                } else if is_key(key, "profiles") {
                    self.directories.profiles.is_some()
                } else if is_key(key, "programs") {
                    self.directories.programs.is_some()
                } else {
                    false
                }
            },
            _ => self.table(section).contains_key(key),
        }
    }

    /// Sets `key` of `section` to `val`.
    pub fn set_value(&mut self, section: Section, key: &String, val: &String)
        ensures
            final(self)@ == with_value(old(self)@, section, key@, val@),
    {
        match section {
            Section::Directories => {
                if is_key(key, "sources") {
                    self.directories.sources = Some(val.clone());
                } else if is_key(key, "profiles") {
                    self.directories.profiles = Some(val.clone());
                } else if is_key(key, "programs") {
                    self.directories.programs = Some(val.clone());
                }
            },
            Section::Added => self.added.insert(key.clone(), val.clone()),
            Section::Unlocked => self.unlocked.insert(key.clone(), val.clone()),
            Section::Build => self.build.insert(key.clone(), val.clone()),
        }
    }

    /// Takes `key` out of `section`.
    pub fn remove_value(&mut self, section: Section, key: &String)
        ensures
            final(self)@ == without_key(old(self)@, section, key@),
    {
        match section {
            Section::Directories => {},
            Section::Added => self.added.remove(key),
            Section::Unlocked => self.unlocked.remove(key),
            Section::Build => self.build.remove(key),
        }
    }
}

} // verus!
