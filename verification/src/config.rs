//! The configuration of a project: where its contracts, its libraries and
//! its output lie, how imports are remapped, and which paths are left out.
//!
//! Paths are texts with `/` between their parts.

use vstd::prelude::*;
use vstd::string::*;
use crate::gas::same_text;
use crate::toml_tree::{
    toml_array_of, toml_as_array, toml_as_str, toml_get, toml_get_of, toml_of, toml_parse,
    toml_str_of,
};

verus! {

/// The configuration of a project.
#[derive(Clone, Debug)]
pub struct R55Config {
    /// The directories of the contracts.
    pub src: Vec<String>,
    /// The directory for the compiled bytecode.
    pub out: String,
    /// The directories of the libraries.
    pub libs: Vec<String>,
    /// The directories of the test contracts.
    pub test: Vec<String>,
    /// The directories of the scripts.
    pub script: Vec<String>,
    /// The remappings of imports, each as `from=to`.
    pub remappings: Vec<String>,
    /// The patterns of the paths that are left out.
    pub exclude: Vec<String>,
}

/// The directories in which contracts are looked for by default.
pub fn default_src_dirs() -> (dirs: Vec<String>)
    ensures
        dirs@.len() == 2,
        dirs@[0]@ == "src"@,
        dirs@[1]@ == "contracts"@,
{
    let mut dirs: Vec<String> = Vec::new();
    dirs.push(String::from_str("src"));
    dirs.push(String::from_str("contracts"));
    dirs
}

/// The directory to which the bytecode goes by default.
pub fn default_out_dir() -> (dir: String)
    ensures
        dir@ == "out"@,
{
    String::from_str("out")
}

/// The directories in which libraries are looked for by default.
pub fn default_lib_dirs() -> (dirs: Vec<String>)
    ensures
        dirs@.len() == 1,
        dirs@[0]@ == "lib"@,
{
    let mut dirs: Vec<String> = Vec::new();
    dirs.push(String::from_str("lib"));
    dirs
}

/// The directories in which test contracts are looked for by default.
pub fn default_test_dirs() -> (dirs: Vec<String>)
    ensures
        dirs@.len() == 1,
        dirs@[0]@ == "test"@,
{
    let mut dirs: Vec<String> = Vec::new();
    dirs.push(String::from_str("test"));
    dirs
}

/// The directories in which scripts are looked for by default.
pub fn default_script_dirs() -> (dirs: Vec<String>)
    ensures
        dirs@.len() == 1,
        dirs@[0]@ == "script"@,
{
    let mut dirs: Vec<String> = Vec::new();
    dirs.push(String::from_str("script"));
    dirs
}

impl Default for R55Config {
    fn default() -> (config: R55Config)
        ensures
            config.src@.len() == 2,
            config.src@[0]@ == "src"@,
            config.src@[1]@ == "contracts"@,
            config.out@ == "out"@,
            config.libs@.len() == 1,
            config.libs@[0]@ == "lib"@,
            config.test@.len() == 1,
            config.test@[0]@ == "test"@,
            config.script@.len() == 1,
            config.script@[0]@ == "script"@,
            config.remappings@.len() == 0,
            config.exclude@.len() == 0,
    {
        R55Config {
            src: default_src_dirs(),
            out: default_out_dir(),
            libs: default_lib_dirs(),
            test: default_test_dirs(),
            script: default_script_dirs(),
            remappings: Vec::new(),
            exclude: Vec::new(),
        }
    }
}

/// Whether a path begins at the root.
pub open spec fn is_absolute(path: Seq<char>) -> bool {
    path.len() > 0 && path[0] == '/'
}

/// The path `dir` as seen from `root`: `dir` itself where it begins at the
/// root or `root` is empty, and otherwise `root`, a `/` unless `root` ends
/// with one, and `dir`.
pub open spec fn resolved(root: Seq<char>, dir: Seq<char>) -> Seq<char> {
    if is_absolute(dir) || root.len() == 0 {
        dir
    } else if root.last() == '/' {
        root + dir
    } else {
        root + seq!['/'] + dir
    }
}

/// The path `dir` as seen from `root`.
pub fn resolve_path(root: &str, dir: &str) -> (path: String)
    ensures
        path@ == resolved(root@, dir@),
{
    let root_len = root.unicode_len();
    if (dir.unicode_len() > 0 && dir.get_char(0) == '/') || root_len == 0 {
        return String::from_str(dir);
    }
    let mut path = String::from_str(root);
    if root.get_char(root_len - 1) != '/' {
        proof {
            reveal_strlit("/");
        }
        path.append("/");
        assert("/"@ =~= seq!['/']);
    }
    path.append(dir);
    path
}

/// Each of `dirs` as seen from `root`, in the same order.
pub fn resolve_all(dirs: &Vec<String>, root: &str) -> (paths: Vec<String>)
    ensures
        paths@.len() == dirs@.len(),
        forall|i: int| 0 <= i < dirs@.len() ==> (#[trigger] paths@[i])@ == resolved(root@, dirs@[i]@),
{
    let mut paths: Vec<String> = Vec::new();
    let mut i: usize = 0;
    while i < dirs.len()
        invariant
            i <= dirs@.len(),
            paths@.len() == i,
            forall|j: int| 0 <= j < i ==> (#[trigger] paths@[j])@ == resolved(root@, dirs@[j]@),
        decreases dirs@.len() - i,
    {
        paths.push(resolve_path(root, dirs[i].as_str()));
        i += 1;
    }
    paths
}

/// The index of the first `c` in `s` at or after `from`, or the length of
/// `s` where there is none.
pub open spec fn find_char(s: Seq<char>, c: char, from: int) -> int
    decreases s.len() - from,
{
    if from < 0 || from >= s.len() {
        s.len() as int
    } else if s[from] == c {
        from
    } else {
        find_char(s, c, from + 1)
    }
}

/// The two sides of a remapping: what stands before its first `=`, and what
/// stands after it. A text without `=` is no remapping.
pub open spec fn remapping_of(s: Seq<char>) -> Option<(Seq<char>, Seq<char>)> {
    let at = find_char(s, '=', 0);
    if at == s.len() {
        None
    } else {
        Some((s.subrange(0, at), s.subrange(at + 1, s.len() as int)))
    }
}

/// Takes a remapping apart at its first `=`.
pub fn parse_remapping(s: &str) -> (r: Option<(String, String)>)
    ensures
        match remapping_of(s@) {
            Some((from, to)) => r matches Some((f, t)) && f@ == from && t@ == to,
            None => r.is_none(),
        },
{
    let n = s.unicode_len();
    let mut i: usize = 0;
    while i < n
        invariant
            i <= n,
            n == s@.len(),
            find_char(s@, '=', 0) == find_char(s@, '=', i as int),
        decreases n - i,
    {
        if s.get_char(i) == '=' {
            let from = String::from_str(s.substring_char(0, i));
            let to = String::from_str(s.substring_char(i + 1, n));
            return Some((from, to));
        }
        i += 1;
    }
    None
}

/// The remappings of a configuration: for each text before a `=`, the text
/// after it. Where two remappings begin alike, the later one counts.
pub struct Remappings {
    /// The remappings in the order of the configuration.
    pub entries: Vec<(String, String)>,
}

/// The map that a list of remappings stands for.
pub open spec fn entries_map(entries: Seq<(String, String)>) -> Map<Seq<char>, Seq<char>>
    decreases entries.len(),
{
    if entries.len() == 0 {
        Map::empty()
    } else {
        entries_map(entries.drop_last()).insert(entries.last().0@, entries.last().1@)
    }
}

/// The map that the remappings of a configuration stand for: texts that are
/// no remapping are passed over.
pub open spec fn remappings_map(remappings: Seq<String>) -> Map<Seq<char>, Seq<char>>
    decreases remappings.len(),
{
    if remappings.len() == 0 {
        Map::empty()
    } else {
        let before = remappings_map(remappings.drop_last());
        match remapping_of(remappings.last()@) {
            Some((from, to)) => before.insert(from, to),
            None => before,
        }
    }
}

impl Remappings {
    /// The remappings as a map.
    pub open spec fn view(&self) -> Map<Seq<char>, Seq<char>> {
        entries_map(self.entries@)
    }

    /// How many remappings there are, those that were overridden included.
    pub fn len(&self) -> (n: usize)
        ensures
            n == self.entries@.len(),
    {
        self.entries.len()
    }

    /// What `from` is remapped to, if it is remapped.
    pub fn get(&self, from: &str) -> (r: Option<&String>)
        ensures
            r.is_some() == self@.dom().contains(from@),
            r matches Some(to) ==> to@ == self@[from@],
    {
        lookup(&self.entries, from)
    }
}

/// What the last of `entries` under `key` holds, if there is one.
pub fn lookup<'a>(entries: &'a Vec<(String, String)>, key: &str) -> (r: Option<&'a String>)
    ensures
        r.is_some() == entries_map(entries@).dom().contains(key@),
        r matches Some(value) ==> value@ == entries_map(entries@)[key@],
{
    let mut i: usize = entries.len();
    assert(entries@.subrange(0, i as int) =~= entries@);
    while i > 0
        invariant
            i <= entries@.len(),
            entries_map(entries@).dom().contains(key@) == entries_map(
                entries@.subrange(0, i as int),
            ).dom().contains(key@),
            entries_map(entries@).dom().contains(key@) ==> entries_map(entries@)[key@]
                == entries_map(entries@.subrange(0, i as int))[key@],
        decreases i,
    {
        proof {
            let upto = entries@.subrange(0, i as int);
            assert(upto.drop_last() =~= entries@.subrange(0, i - 1));
            assert(upto.last() == entries@[i - 1]);
        }
        if same_text(entries[i - 1].0.as_str(), key) {
            return Some(&entries[i - 1].1);
        }
        i -= 1;
    }
    None
}

impl R55Config {
    /// The directories of the contracts as seen from the root of the
    /// project, in the order of the configuration.
    pub fn get_src_paths(&self, project_root: &str) -> (paths: Vec<String>)
        ensures
            paths@.len() == self.src@.len(),
            forall|i: int|
                0 <= i < self.src@.len() ==> (#[trigger] paths@[i])@ == resolved(
                    project_root@,
                    self.src@[i]@,
                ),
    {
        resolve_all(&self.src, project_root)
    }

    /// The directory for the bytecode as seen from the root of the project.
    pub fn get_out_path(&self, project_root: &str) -> (path: String)
        ensures
            path@ == resolved(project_root@, self.out@),
    {
        resolve_path(project_root, self.out.as_str())
    }

    /// The directories of the libraries as seen from the root of the
    /// project, in the order of the configuration.
    pub fn get_lib_paths(&self, project_root: &str) -> (paths: Vec<String>)
        ensures
            paths@.len() == self.libs@.len(),
            forall|i: int|
                0 <= i < self.libs@.len() ==> (#[trigger] paths@[i])@ == resolved(
                    project_root@,
                    self.libs@[i]@,
                ),
    {
        resolve_all(&self.libs, project_root)
    }

    /// The remappings of the configuration.
    pub fn get_remappings(&self) -> (mappings: Remappings)
        ensures
            mappings@ == remappings_map(self.remappings@),
    {
        let mut entries: Vec<(String, String)> = Vec::new();
        let mut i: usize = 0;
        while i < self.remappings.len()
            invariant
                i <= self.remappings@.len(),
                entries_map(entries@) == remappings_map(self.remappings@.subrange(0, i as int)),
            decreases self.remappings@.len() - i,
        {
            proof {
                let next = self.remappings@.subrange(0, i + 1);
                assert(next.drop_last() =~= self.remappings@.subrange(0, i as int));
                assert(next.last() == self.remappings@[i as int]);
            }
            match parse_remapping(self.remappings[i].as_str()) {
                Some((from, to)) => {
                    let ghost before = entries@;
                    entries.push((from, to));
                    assert(entries@.drop_last() =~= before);
                },
                None => {},
            }
            i += 1;
        }
        assert(self.remappings@.subrange(0, self.remappings@.len() as int) =~= self.remappings@);
        Remappings { entries }
    }
}

#[verifier::external_type_specification]
#[verifier::external_body]
pub struct ExGlobPattern(glob::Pattern);

/// The pattern that a text stands for, where it is one, as the `glob` crate
/// compiles it where `/` alone parts a path.
pub uninterp spec fn glob_pattern_of(pattern: Seq<char>) -> Option<glob::Pattern>;

/// Whether a pattern matches a path, as the `glob` crate decides it where
/// `/` alone parts a path.
pub uninterp spec fn glob_matches_of(pattern: glob::Pattern, path: Seq<char>) -> bool;

/// Calls `glob::Pattern::new`, which compiles a pattern. The contract only
/// gives the outcome its name.
#[verifier::external_body]
fn glob_pattern(pattern: &str) -> (r: Option<glob::Pattern>)
    ensures
        r == glob_pattern_of(pattern@),
{
    glob::Pattern::new(pattern).ok()
}

/// Calls `Pattern::matches_path` with the path. The contract only gives the
/// outcome its name.
#[verifier::external_body]
fn glob_matches_path(pattern: &glob::Pattern, path: &str) -> (r: bool)
    ensures
        r == glob_matches_of(*pattern, path@),
{
    pattern.matches_path(std::path::Path::new(path))
}

/// Whether a text is a pattern that matches the path.
pub open spec fn pattern_matches(pattern: Seq<char>, path: Seq<char>) -> bool {
    glob_pattern_of(pattern) matches Some(compiled) && glob_matches_of(compiled, path)
}

/// Whether one of the patterns matches the path. A text that is no pattern
/// matches nothing.
pub open spec fn excluded_by(patterns: Seq<String>, path: Seq<char>) -> bool {
    exists|i: int| 0 <= i < patterns.len() && pattern_matches((#[trigger] patterns[i])@, path)
}

impl R55Config {
    /// Whether the path is left out: whether one of the patterns of the
    /// configuration matches it.
    pub fn should_exclude(&self, path: &str) -> (r: bool)
        ensures
            r == excluded_by(self.exclude@, path@),
    {
        let mut i: usize = 0;
        while i < self.exclude.len()
            invariant
                i <= self.exclude@.len(),
                forall|j: int| 0 <= j < i ==> !pattern_matches((#[trigger] self.exclude@[j])@, path@),
            decreases self.exclude@.len() - i,
        {
            match glob_pattern(self.exclude[i].as_str()) {
                Some(compiled) => {
                    if glob_matches_path(&compiled, path) {
                        return true;
                    }
                },
                None => {},
            }
            i += 1;
        }
        false
    }
}

/// Why a configuration file cannot be used.
#[derive(Clone, Debug, PartialEq)]
pub enum ConfigError {
    /// The file is no TOML.
    NotToml,
    /// What stands under the key is not what the configuration expects
    /// there.
    WrongType(String),
}

/// The texts of a list.
pub open spec fn texts_view(list: Seq<String>) -> Seq<Seq<char>> {
    Seq::new(list.len(), |i: int| list[i]@)
}

/// What a configuration makes of the entry under one of its keys.
pub enum Field<T> {
    /// Something else stands under the key than the configuration expects.
    WrongType,
    /// The value of the key.
    Value(T),
}

/// Whether every item of a list is a text.
pub open spec fn all_texts(items: Seq<toml::Value>) -> bool {
    forall|i: int| 0 <= i < items.len() ==> toml_str_of(#[trigger] items[i]).is_some()
}

/// The list of texts under a key: `fallback` where nothing stands under the
/// key.
pub open spec fn list_field(file: toml::Value, key: Seq<char>, fallback: Seq<Seq<char>>) -> Field<
    Seq<Seq<char>>,
> {
    match toml_get_of(file, key) {
        None => Field::Value(fallback),
        Some(found) => match toml_array_of(found) {
            Some(items) => if all_texts(items) {
                Field::Value(Seq::new(items.len(), |i: int| toml_str_of(items[i])->0))
            } else {
                Field::WrongType
            },
            None => Field::WrongType,
        },
    }
}

/// The text under a key: `fallback` where nothing stands under the key.
pub open spec fn text_field(file: toml::Value, key: Seq<char>, fallback: Seq<char>) -> Field<
    Seq<char>,
> {
    match toml_get_of(file, key) {
        None => Field::Value(fallback),
        Some(found) => match toml_str_of(found) {
            Some(text) => Field::Value(text),
            None => Field::WrongType,
        },
    }
}

/// The texts of a list whose items are all texts.
pub fn texts_of(items: &Vec<toml::Value>) -> (r: Option<Vec<String>>)
    ensures
        r.is_some() == all_texts(items@),
        r matches Some(texts) ==> texts_view(texts@) == Seq::new(
            items@.len(),
            |i: int| toml_str_of(items@[i])->0,
        ),
{
    let mut texts: Vec<String> = Vec::new();
    let mut i: usize = 0;
    while i < items.len()
        invariant
            i <= items@.len(),
            texts@.len() == i,
            forall|j: int| 0 <= j < i ==> toml_str_of(#[trigger] items@[j]).is_some(),
            forall|j: int| 0 <= j < i ==> (#[trigger] texts@[j])@ == toml_str_of(items@[j])->0,
        decreases items@.len() - i,
    {
        match toml_as_str(&items[i]) {
            Some(text) => {
                texts.push(String::from_str(text));
            },
            None => {
                return None;
            },
        }
        i += 1;
    }
    assert(texts_view(texts@) =~= Seq::new(items@.len(), |i: int| toml_str_of(items@[i])->0));
    Some(texts)
}

/// The list of texts under a key of a configuration file: `fallback` where
/// nothing stands under the key, and an error where something else than a
/// list of texts stands there.
pub fn list_entry(file: &toml::Value, key: &str, fallback: Vec<String>) -> (r: Result<
    Vec<String>,
    ConfigError,
>)
    ensures
        match list_field(*file, key@, texts_view(fallback@)) {
            Field::WrongType => r matches Err(ConfigError::WrongType(k)) && k@ == key@,
            Field::Value(texts) => r matches Ok(list) && texts_view(list@) == texts,
        },
{
    match toml_get(file, key) {
        None => Ok(fallback),
        Some(found) => match toml_as_array(found) {
            Some(items) => match texts_of(items) {
                Some(list) => Ok(list),
                None => Err(ConfigError::WrongType(String::from_str(key))),
            },
            None => Err(ConfigError::WrongType(String::from_str(key))),
        },
    }
}

/// The text under a key of a configuration file: `fallback` where nothing
/// stands under the key, and an error where something else than a text
/// stands there.
pub fn text_entry(file: &toml::Value, key: &str, fallback: String) -> (r: Result<
    String,
    ConfigError,
>)
    ensures
        match text_field(*file, key@, fallback@) {
            Field::WrongType => r matches Err(ConfigError::WrongType(k)) && k@ == key@,
            Field::Value(text) => r matches Ok(found) && found@ == text,
        },
{
    match toml_get(file, key) {
        None => Ok(fallback),
        Some(found) => match toml_as_str(found) {
            Some(text) => Ok(String::from_str(text)),
            None => Err(ConfigError::WrongType(String::from_str(key))),
        },
    }
}

/// The seven entries of a configuration, as a file states them.
pub struct ConfigFields {
    pub src: Field<Seq<Seq<char>>>,
    pub out: Field<Seq<char>>,
    pub libs: Field<Seq<Seq<char>>>,
    pub test: Field<Seq<Seq<char>>>,
    pub script: Field<Seq<Seq<char>>>,
    pub remappings: Field<Seq<Seq<char>>>,
    pub exclude: Field<Seq<Seq<char>>>,
}

/// The seven entries of the configuration that a file states; what the file
/// leaves out is as in the default configuration.
pub open spec fn config_fields(file: toml::Value) -> ConfigFields {
    ConfigFields {
        src: list_field(file, "src"@, seq!["src"@, "contracts"@]),
        out: text_field(file, "out"@, "out"@),
        libs: list_field(file, "libs"@, seq!["lib"@]),
        test: list_field(file, "test"@, seq!["test"@]),
        script: list_field(file, "script"@, seq!["script"@]),
        remappings: list_field(file, "remappings"@, Seq::empty()),
        exclude: list_field(file, "exclude"@, Seq::empty()),
    }
}

/// Whether a result is the outcome of reading a configuration whose first
/// entries are in order, from the entry `field` under `key` on; `rest` says
/// what holds where that entry is in order too.
pub open spec fn or_else<T>(
    r: Result<R55Config, ConfigError>,
    field: Field<T>,
    key: Seq<char>,
    rest: bool,
) -> bool {
    match field {
        Field::WrongType => r matches Err(ConfigError::WrongType(k)) && k@ == key,
        Field::Value(_) => rest,
    }
}

/// Whether a configuration holds the values of the entries.
pub open spec fn holds_fields(config: R55Config, f: ConfigFields) -> bool {
    &&& Field::Value(texts_view(config.src@)) == f.src
    &&& Field::Value(config.out@) == f.out
    &&& Field::Value(texts_view(config.libs@)) == f.libs
    &&& Field::Value(texts_view(config.test@)) == f.test
    &&& Field::Value(texts_view(config.script@)) == f.script
    &&& Field::Value(texts_view(config.remappings@)) == f.remappings
    &&& Field::Value(texts_view(config.exclude@)) == f.exclude
}

/// Whether a result is the outcome of reading a configuration with the
/// given entries: the configuration of their values, or the error of the
/// first entry, in the order of the keys, that is not in order.
pub open spec fn config_result(r: Result<R55Config, ConfigError>, f: ConfigFields) -> bool {
    or_else(
        r,
        f.src,
        "src"@,
        or_else(
            r,
            f.out,
            "out"@,
            or_else(
                r,
                f.libs,
                "libs"@,
                or_else(
                    r,
                    f.test,
                    "test"@,
                    or_else(
                        r,
                        f.script,
                        "script"@,
                        or_else(
                            r,
                            f.remappings,
                            "remappings"@,
                            or_else(
                                r,
                                f.exclude,
                                "exclude"@,
                                r matches Ok(config) && holds_fields(config, f),
                            ),
                        ),
                    ),
                ),
            ),
        ),
    )
}

impl R55Config {
    /// The configuration that a file states. What the file leaves out is as
    /// in the default configuration; keys that the configuration does not
    /// know are passed over. A file that is no TOML is refused; after that the
    /// first key, in the order `src`, `out`, `libs`, `test`, `script`,
    /// `remappings`, `exclude`, under which something else stands than the
    /// configuration expects is the error.
    pub fn from_toml(content: &str) -> (r: Result<R55Config, ConfigError>)
        ensures
            match toml_of(content@) {
                None => r matches Err(ConfigError::NotToml),
                Some(file) => config_result(r, config_fields(file)),
            },
    {
        let file = match toml_parse(content) {
            Some(file) => file,
            None => {
                return Err(ConfigError::NotToml);
            },
        };
        let src_default = default_src_dirs();
        let libs_default = default_lib_dirs();
        let test_default = default_test_dirs();
        let script_default = default_script_dirs();
        let none: Vec<String> = Vec::new();
        let none_too: Vec<String> = Vec::new();
        proof {
            assert(texts_view(src_default@) =~= seq!["src"@, "contracts"@]);
            assert(texts_view(libs_default@) =~= seq!["lib"@]);
            assert(texts_view(test_default@) =~= seq!["test"@]);
            assert(texts_view(script_default@) =~= seq!["script"@]);
            assert(texts_view(none@) =~= Seq::<Seq<char>>::empty());
            assert(texts_view(none_too@) =~= Seq::<Seq<char>>::empty());
        }
        let src = match list_entry(&file, "src", src_default) {
            Ok(list) => list,
            Err(e) => {
                return Err(e);
            },
        };
        let out = match text_entry(&file, "out", default_out_dir()) {
            Ok(text) => text,
            Err(e) => {
                return Err(e);
            },
        };
        let libs = match list_entry(&file, "libs", libs_default) {
            Ok(list) => list,
            Err(e) => {
                return Err(e);
            },
        };
        let test = match list_entry(&file, "test", test_default) {
            Ok(list) => list,
            Err(e) => {
                return Err(e);
            },
        };
        let script = match list_entry(&file, "script", script_default) {
            Ok(list) => list,
            Err(e) => {
                return Err(e);
            },
        };
        let remappings = match list_entry(&file, "remappings", none) {
            Ok(list) => list,
            Err(e) => {
                return Err(e);
            },
        };
        let exclude = match list_entry(&file, "exclude", none_too) {
            Ok(list) => list,
            Err(e) => {
                return Err(e);
            },
        };
        Ok(R55Config { src, out, libs, test, script, remappings, exclude })
    }
}

} // verus!
