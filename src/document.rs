use vstd::prelude::*;
use crate::conf::{default_config, is_key, lemma_names_distinct, Config, ConfigView, Directories};
use crate::table::{entries_map, keys_unique, Table};

verus! {

/// The mathematical form of a configuration document: named sections, each
/// a map of string entries.
pub type DocView = Seq<(Seq<char>, Map<Seq<char>, Seq<char>>)>;

/// A configuration document as executable values: named sections of entries.
pub type Document = Vec<(String, Vec<(String, String)>)>;

pub open spec fn doc_view(d: Seq<(String, Vec<(String, String)>)>) -> DocView {
    d.map_values(|s: (String, Vec<(String, String)>)| (s.0@, entries_map(s.1@)))
}

/// Section names are distinct and so are the keys within each section.
pub open spec fn doc_well_formed(d: Seq<(String, Vec<(String, String)>)>) -> bool {
    &&& forall|i: int, j: int|
        0 <= i < d.len() && 0 <= j < d.len() && i != j ==> (#[trigger] d[i]).0@ != (#[trigger] d[j]).0@
    &&& forall|i: int| 0 <= i < d.len() ==> keys_unique((#[trigger] d[i]).1@)
}

/// What TOML text a document renders to.
pub uninterp spec fn toml_text_of(doc: DocView) -> Seq<char>;

/// The document that a TOML text holds, if it is TOML whose top-level
/// values are all tables of strings.
pub uninterp spec fn toml_document_of(text: Seq<char>) -> Option<DocView>;

/// toml's error from rendering a document, carried opaque.
#[verifier::external_type_specification]
#[verifier::external_body]
pub struct ExTomlSerError(toml::ser::Error);

/// toml's error from reading a text, carried opaque.
#[verifier::external_type_specification]
#[verifier::external_body]
pub struct ExTomlDeError(toml::de::Error);

/// Relies on toml::to_string_pretty: the text depends on the sections and
/// their entries alone, and tables of strings under string keys always render.
#[verifier::external_body]
fn render_toml(doc: &Document) -> (r: Result<String, toml::ser::Error>)
    requires
        doc_well_formed(doc@),
    ensures
        r is Ok,
        r matches Ok(t) ==> t@ == toml_text_of(doc_view(doc@)),
{
    let tables: std::collections::BTreeMap<&String, std::collections::BTreeMap<&String, &String>> =
        doc.iter().map(|(n, e)| (n, e.iter().map(|(k, v)| (k, v)).collect())).collect();
    toml::to_string_pretty(&tables)
}

/// Relies on toml::from_str into string tables: an error exactly when the
/// text holds no such document.
#[verifier::external_body]
fn parse_toml(text: &str) -> (r: Result<Document, toml::de::Error>)
    ensures
        match r {
            Ok(d) => toml_document_of(text@) == Some(doc_view(d@)),
            Err(_) => toml_document_of(text@).is_none(),
        },
{
    let tables: std::collections::BTreeMap<String, std::collections::BTreeMap<String, String>> =
        toml::from_str(text)?;
    Ok(tables.into_iter().map(|(n, e)| (n, e.into_iter().collect())).collect())
}

/// The value under `key`, if the map has one.
pub open spec fn lookup(m: Map<Seq<char>, Seq<char>>, key: Seq<char>) -> Option<Seq<char>> {
    if m.contains_key(key) {
        Some(m[key])
    } else {
        None
    }
}

/// The directories section of a state: the settings that are there.
pub open spec fn dir_entries(c: ConfigView) -> Map<Seq<char>, Seq<char>> {
    Map::new(
        |k: Seq<char>| (k == "sources"@ && c.sources.is_some()) || (k == "profiles"@ && c.profiles.is_some())
            || (k == "programs"@ && c.programs.is_some()),
        |k: Seq<char>| if k == "sources"@ {
            c.sources.unwrap()
        } else if k == "profiles"@ {
            c.profiles.unwrap()
        } else {
            c.programs.unwrap()
        },
    )
}

/// The document that stores a state.
pub open spec fn doc_of_config(c: ConfigView) -> DocView {
    seq![
        ("directories"@, dir_entries(c)),
        ("added"@, c.added),
        ("unlocked"@, c.unlocked),
        ("build"@, c.build),
    ]
}

/// A state after reading one section: the directories section sets all three
/// directories, a table section adds its entries, any other section is ignored.
pub open spec fn apply_section(c: ConfigView, name: Seq<char>, m: Map<Seq<char>, Seq<char>>) -> ConfigView {
    if name == "directories"@ {
        ConfigView {
            sources: lookup(m, "sources"@),
            profiles: lookup(m, "profiles"@),
            programs: lookup(m, "programs"@),
            ..c
        }
    } else if name == "added"@ {
        ConfigView { added: c.added.union_prefer_right(m), ..c }
    } else if name == "unlocked"@ {
        ConfigView { unlocked: c.unlocked.union_prefer_right(m), ..c }
    } else if name == "build"@ {
        ConfigView { build: c.build.union_prefer_right(m), ..c }
    } else {
        c
    }
}

/// The state that a document stores; without a directories section the
/// directories are those under `base`.
pub open spec fn config_of_doc(d: DocView, base: Seq<char>) -> ConfigView
    decreases d.len(),
{
    if d.len() == 0 {
        default_config(base)
    } else {
        apply_section(config_of_doc(d.drop_last(), base), d.last().0, d.last().1)
    }
}

/// Reading back the document of a state gives that state again.
pub proof fn lemma_document_round_trip(c: ConfigView, base: Seq<char>)
    ensures
        config_of_doc(doc_of_config(c), base) == c,
{
    lemma_names_distinct();
    let d = doc_of_config(c);
    let d0 = Seq::<(Seq<char>, Map<Seq<char>, Seq<char>>)>::empty();
    let d1 = d0.push(d[0]);
    let d2 = d1.push(d[1]);
    let d3 = d2.push(d[2]);
    assert(d1.drop_last() =~= d0);
    assert(d2.drop_last() =~= d1);
    assert(d3.drop_last() =~= d2);
    assert(d.drop_last() =~= d3);
    assert(d[0] == ("directories"@, dir_entries(c)));
    assert(d1.last() == d[0]);
    assert(config_of_doc(d0, base) == default_config(base));
    let c1 = config_of_doc(d1, base);
    assert(c1 == apply_section(default_config(base), "directories"@, dir_entries(c)));
    assert(c1.sources == c.sources);
    assert(c1.profiles == c.profiles);
    assert(c1.programs == c.programs);
    assert(Map::<Seq<char>, Seq<char>>::empty().union_prefer_right(c.added) =~= c.added);
    assert(Map::<Seq<char>, Seq<char>>::empty().union_prefer_right(c.unlocked) =~= c.unlocked);
    assert(Map::<Seq<char>, Seq<char>>::empty().union_prefer_right(c.build) =~= c.build);
    assert(d2.last() == d[1] && d3.last() == d[2] && d.last() == d[3]);
    let c2 = config_of_doc(d2, base);
    assert(c2 == apply_section(c1, "added"@, c.added));
    let c3 = config_of_doc(d3, base);
    assert(c3 == apply_section(c2, "unlocked"@, c.unlocked));
    assert(config_of_doc(d, base) == apply_section(c3, "build"@, c.build));
}

/// Why the stored text and the registry's state could not be turned into each other.
#[derive(Debug, PartialEq, Eq, Structural, Clone, Copy)]
pub enum ConfigError {
    /// The text is no TOML document of string tables.
    Unreadable,
    /// The state could not be rendered as TOML.
    Unwritable,
}

/// Adds every entry of `entries` to `t`, a later entry winning over an earlier one.
fn insert_all(t: &mut Table, entries: &Vec<(String, String)>)
    ensures
        final(t)@ == old(t)@.union_prefer_right(entries_map(entries@)),
{
    let ghost t0 = t@;
    let mut i: usize = 0;
    while i < entries.len()
        invariant
            i <= entries@.len(),
            t@ == t0.union_prefer_right(entries_map(entries@.take(i as int))),
        decreases entries@.len() - i,
    {
        let ghost before = entries_map(entries@.take(i as int));
        t.insert(entries[i].0.clone(), entries[i].1.clone());
        proof {
            let s = entries@.take(i + 1);
            assert(s.drop_last() =~= entries@.take(i as int));
            assert(entries_map(s) == before.insert(entries@[i as int].0@, entries@[i as int].1@));
            assert(t@ =~= t0.union_prefer_right(entries_map(s)));
        }
        i = i + 1;
    }
    assert(entries@.take(i as int) =~= entries@);
}

fn dir_entry_vec(c: &Config) -> (r: Vec<(String, String)>)
    ensures
        entries_map(r@) == dir_entries(c@),
        keys_unique(r@),
{
    proof {
        lemma_names_distinct();
    }
    let mut t = Table::new();
    if let Some(s) = &c.directories.sources {
        t.insert("sources".to_owned(), s.clone());
    }
    if let Some(s) = &c.directories.profiles {
        t.insert("profiles".to_owned(), s.clone());
    }
    if let Some(s) = &c.directories.programs {
        t.insert("programs".to_owned(), s.clone());
    }
    let r = t.pairs();
    assert(entries_map(r@) =~= dir_entries(c@));
    r
}

impl Config {
    /// The document that stores this state.
    pub fn to_document(&self) -> (r: Document)
        ensures
            doc_view(r@) == doc_of_config(self@),
            doc_well_formed(r@),
    {
        proof {
            lemma_names_distinct();
        }
        let mut r: Document = Vec::new();
        r.push(("directories".to_owned(), dir_entry_vec(self)));
        r.push(("added".to_owned(), self.added.pairs()));
        r.push(("unlocked".to_owned(), self.unlocked.pairs()));
        r.push(("build".to_owned(), self.build.pairs()));
        assert(doc_view(r@) =~= doc_of_config(self@));
        r
    }

    fn read_section(&mut self, name: &String, entries: &Vec<(String, String)>)
        ensures
            final(self)@ == apply_section(old(self)@, name@, entries_map(entries@)),
    {
        if is_key(name, "directories") {
            let mut t = Table::new();
            insert_all(&mut t, entries);
            assert(t@ =~= entries_map(entries@));
            self.directories = Directories {
                sources: t.get(&"sources".to_owned()),
                profiles: t.get(&"profiles".to_owned()),
                programs: t.get(&"programs".to_owned()),
            };
        } else if is_key(name, "added") {
            insert_all(&mut self.added, entries);
        } else if is_key(name, "unlocked") {
            insert_all(&mut self.unlocked, entries);
        } else if is_key(name, "build") {
            insert_all(&mut self.build, entries);
        }
    }

    /// The state that a document stores, with the directories under `base`
    /// where the document has no directories section.
    pub fn from_document(doc: &Document, base: &String) -> (r: Config)
        ensures
            r@ == config_of_doc(doc_view(doc@), base@),
    {
        let mut c = Config::with_base(base);
        let mut i: usize = 0;
        while i < doc.len()
            invariant
                i <= doc@.len(),
                c@ == config_of_doc(doc_view(doc@.take(i as int)), base@),
            decreases doc@.len() - i,
        {
            c.read_section(&doc[i].0, &doc[i].1);
            proof {
                let s = doc_view(doc@.take(i + 1));
                assert(s.drop_last() =~= doc_view(doc@.take(i as int)));
                assert(s.last() == (doc@[i as int].0@, entries_map(doc@[i as int].1@)));
            }
            i = i + 1;
        }
        assert(doc@.take(i as int) =~= doc@);
        c
    }

    /// Reads the state from its stored text.
    pub fn from_text(text: &String, base: &String) -> (r: Result<Config, ConfigError>)
        ensures
            match toml_document_of(text@) {
                Some(d) => r matches Ok(c) && c@ == config_of_doc(d, base@),
                None => r == Err::<Config, ConfigError>(ConfigError::Unreadable),
            },
    {
        match parse_toml(text.as_str()) {
            Ok(d) => Ok(Config::from_document(&d, base)),
            Err(_) => Err(ConfigError::Unreadable),
        }
    }

    /// The state to work on: the stored one, or a fresh registry under `base`
    /// where nothing is stored or the stored text cannot be read.
    pub fn load_config(text: Option<&String>, base: &String) -> (r: Config)
        ensures
            r@ == match text {
                Some(t) => match toml_document_of(t@) {
                    Some(d) => config_of_doc(d, base@),
                    None => default_config(base@),
                },
                None => default_config(base@),
            },
    {
        match text {
            Some(t) => match Config::from_text(t, base) {
                Ok(c) => c,
                Err(_) => Config::with_base(base),
            },
            None => Config::with_base(base),
        }
    }

    /// The text that stores this state.
    pub fn to_text(&self) -> (r: Result<String, ConfigError>)
        ensures
            r matches Ok(t) && t@ == toml_text_of(doc_of_config(self@)),
    {
        let d = self.to_document();
        match render_toml(&d) {
            Ok(t) => Ok(t),
            Err(_) => Err(ConfigError::Unwritable),
        }
    }
}

/// The text of a fresh registry whose directories lie under `base`.
pub fn generate_config(base: &String) -> (r: Result<String, ConfigError>)
    ensures
        r matches Ok(t) && t@ == toml_text_of(doc_of_config(default_config(base@))),
{
    Config::with_base(base).to_text()
}

} // verus!
