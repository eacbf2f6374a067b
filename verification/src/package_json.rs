//! The normalized view of one `package.json`: loading (parse and validate),
//! field accessors, and the package-scope locator that walks ancestor
//! directories for the nearest governing `package.json`.

use vstd::prelude::*;
use vstd::string::*;
use crate::errors::{err_invalid_package_config, msg_invalid_package_config, ErrorKind,
    ResolveError, SpecErr};
use crate::fs::{fs_read, spec_read, Fs};
use crate::json::{json_of, obj_get, parse_json, spec_obj_get, JsonValue};
use crate::strings::{join_rel, last_segment, parent_dir, spec_join, spec_last_segment,
    spec_parent_dir, str_eq};

verus! {

/// The module system a package declares through its "type" field;
/// unrecognized values normalize to `Unknown` for forward compatibility.
#[derive(Clone, Copy, Debug, PartialEq, Eq, Structural)]
pub enum ModuleType {
    Module,
    CommonJs,
    Unknown,
}

/// One `package.json`, kept as the raw entries of its top-level object (in
/// document order) together with the path it was loaded from. A missing file
/// gives `exists == false` and no entries; a document that is valid JSON but
/// not an object gives `exists == true` and no entries.
#[derive(Debug)]
pub struct PackageJson {
    pub path: String,
    pub exists: bool,
    pub root: Option<Vec<(String, JsonValue)>>,
}

/// A subpath key: non-empty and beginning with `.`.
pub open spec fn spec_is_dotted(k: Seq<char>) -> bool {
    k.len() > 0 && k[0] == '.'
}

/// Every key of the object is a subpath key.
pub open spec fn spec_all_dotted(entries: Seq<(String, JsonValue)>) -> bool {
    forall|i: int| 0 <= i < entries.len() ==> spec_is_dotted(#[trigger] entries[i].0@)
}

/// No key of the object is a subpath key.
pub open spec fn spec_none_dotted(entries: Seq<(String, JsonValue)>) -> bool {
    forall|i: int| 0 <= i < entries.len() ==> !spec_is_dotted(#[trigger] entries[i].0@)
}

/// An exports object that mixes subpath keys and condition keys: an invalid
/// package config.
pub open spec fn spec_mixed_keys(entries: Seq<(String, JsonValue)>) -> bool {
    !spec_all_dotted(entries) && !spec_none_dotted(entries)
}

/// A key is a subpath key.
pub fn is_dotted(k: &str) -> (r: bool)
    ensures
        r == spec_is_dotted(k@),
{
    k.unicode_len() > 0 && k.get_char(0) == '.'
}

/// Whether every key of the object is a subpath key.
pub fn all_dotted_keys(entries: &Vec<(String, JsonValue)>) -> (r: bool)
    ensures
        r == spec_all_dotted(entries@),
{
    let n = entries.len();
    let mut all: bool = true;
    let mut i: usize = 0;
    while i < n
        invariant
            i <= n,
            n == entries@.len(),
            all == (forall|j: int| 0 <= j < i ==> spec_is_dotted(#[trigger] entries@[j].0@)),
        decreases n - i,
    {
        if !is_dotted(entries[i].0.as_str()) {
            all = false;
        }
        i += 1;
    }
    all
}

/// Whether an exports object mixes subpath keys and condition keys.
pub fn has_mixed_keys(entries: &Vec<(String, JsonValue)>) -> (r: bool)
    ensures
        r == spec_mixed_keys(entries@),
{
    let n = entries.len();
    let mut all: bool = true;
    let mut none: bool = true;
    let mut i: usize = 0;
    while i < n
        invariant
            i <= n,
            n == entries@.len(),
            all == (forall|j: int| 0 <= j < i ==> spec_is_dotted(#[trigger] entries@[j].0@)),
            none == (forall|j: int| 0 <= j < i ==> !spec_is_dotted(#[trigger] entries@[j].0@)),
        decreases n - i,
    {
        if is_dotted(entries[i].0.as_str()) {
            none = false;
        } else {
            all = false;
        }
        i += 1;
    }
    !all && !none
}

/// What loading a `package.json` document's text yields: its top-level object
/// entries, or one of the two load failures.
pub enum SpecLoad {
    /// The document loaded; the payload is the top-level object's entries, or
    /// `None` where the document is not an object.
    Loaded(Option<Vec<(String, JsonValue)>>),
    /// The text is not valid JSON.
    BadJson,
    /// The document's "exports" object mixes subpath and condition keys.
    MixedKeys,
}

/// Mathematical image of loading a document from its text.
pub open spec fn spec_load(text: Seq<char>) -> SpecLoad {
    match json_of(text) {
        Option::None => SpecLoad::BadJson,
        Option::Some(j) => match j {
            JsonValue::Obj(entries) => {
                let mixed = match spec_obj_get(entries@, "exports"@) {
                    Option::Some(JsonValue::Obj(ee)) => spec_mixed_keys(ee@),
                    _ => false,
                };
                if mixed {
                    SpecLoad::MixedKeys
                } else {
                    SpecLoad::Loaded(Option::Some(entries))
                }
            },
            _ => SpecLoad::Loaded(Option::None),
        },
    }
}

/// The message that a mixed-key exports object is rejected with.
pub open spec fn spec_mixed_keys_reason() -> Seq<char> {
    "\"exports\" cannot contains some keys starting with '.' and some not. The exports object must either be an object of package subpath keys or an object of main entry condition name keys only."@
}

/// The message that a mixed-key exports object is rejected with.
pub fn mixed_keys_reason() -> (r: &'static str)
    ensures
        r@ == spec_mixed_keys_reason(),
{
    "\"exports\" cannot contains some keys starting with '.' and some not. The exports object must either be an object of package subpath keys or an object of main entry condition name keys only."
}

impl PackageJson {
    /// Load a package config from the text of the `package.json` at `path`:
    /// parse the document and validate its "exports" object, per
    /// [`spec_load`].
    pub fn load(path: String, source: &str) -> (r: Result<PackageJson, ResolveError>)
        ensures
            match spec_load(source@) {
                SpecLoad::Loaded(root) => r matches Ok(p) && p.path == path && p.exists && p.root
                    == root,
                SpecLoad::BadJson => r matches Err(e) && e.kind == ErrorKind::InvalidPackageConfig
                    && e.message@ == msg_invalid_package_config(
                    path@,
                    Option::None,
                    Option::Some("malformed package.json"@),
                ),
                SpecLoad::MixedKeys => r matches Err(e) && e.kind
                    == ErrorKind::InvalidPackageConfig && e.message@ == msg_invalid_package_config(
                    path@,
                    Option::None,
                    Option::Some(spec_mixed_keys_reason()),
                ),
            },
    {
        match parse_json(source) {
            None => Err(
                err_invalid_package_config(path.as_str(), None, Some("malformed package.json")),
            ),
            Some(j) => match j {
                JsonValue::Obj(entries) => {
                    let mixed: bool = match obj_get(&entries, "exports") {
                        Some(JsonValue::Obj(ee)) => has_mixed_keys(ee),
                        _ => false,
                    };
                    if mixed {
                        Err(
                            err_invalid_package_config(
                                path.as_str(),
                                None,
                                Some(mixed_keys_reason()),
                            ),
                        )
                    } else {
                        Ok(PackageJson { path, exists: true, root: Some(entries) })
                    }
                },
                _ => Ok(PackageJson { path, exists: true, root: None }),
            },
        }
    }
}

/// The raw value of a top-level field of the config.
pub open spec fn spec_root_get(root: Option<Vec<(String, JsonValue)>>, key: Seq<char>) -> Option<
    JsonValue,
> {
    match root {
        Option::Some(entries) => spec_obj_get(entries@, key),
        Option::None => Option::None,
    }
}

/// The declared package name, where "name" is a string.
pub open spec fn spec_config_name(root: Option<Vec<(String, JsonValue)>>) -> Option<String> {
    match spec_root_get(root, "name"@) {
        Option::Some(JsonValue::Str(s)) => Option::Some(s),
        _ => Option::None,
    }
}

/// The declared entry point, where "main" is a string.
pub open spec fn spec_config_main(root: Option<Vec<(String, JsonValue)>>) -> Option<String> {
    match spec_root_get(root, "main"@) {
        Option::Some(JsonValue::Str(s)) => Option::Some(s),
        _ => Option::None,
    }
}

/// The raw "exports" value, if the field is present.
pub open spec fn spec_config_exports(root: Option<Vec<(String, JsonValue)>>) -> Option<JsonValue> {
    spec_root_get(root, "exports"@)
}

/// The "imports" map's entries, where the field is present and an object.
pub open spec fn spec_config_imports(root: Option<Vec<(String, JsonValue)>>) -> Option<
    Vec<(String, JsonValue)>,
> {
    match spec_root_get(root, "imports"@) {
        Option::Some(JsonValue::Obj(entries)) => Option::Some(entries),
        _ => Option::None,
    }
}

/// The declared module system (see [`ModuleType`]).
pub open spec fn spec_config_module_type(root: Option<Vec<(String, JsonValue)>>) -> ModuleType {
    match spec_root_get(root, "type"@) {
        Option::Some(JsonValue::Str(s)) => if s@ == "module"@ {
            ModuleType::Module
        } else if s@ == "commonjs"@ {
            ModuleType::CommonJs
        } else {
            ModuleType::Unknown
        },
        _ => ModuleType::Unknown,
    }
}

impl PackageJson {
    /// A top-level field's raw value.
    pub fn get<'a>(&'a self, key: &str) -> (r: Option<&'a JsonValue>)
        ensures
            match r {
                Option::Some(v) => spec_root_get(self.root, key@) == Option::Some(*v),
                Option::None => spec_root_get(self.root, key@) is None,
            },
    {
        match &self.root {
            Some(entries) => obj_get(entries, key),
            None => None,
        }
    }

    /// The declared package name, where "name" is a string.
    pub fn name<'a>(&'a self) -> (r: Option<&'a String>)
        ensures
            match r {
                Option::Some(s) => spec_config_name(self.root) == Option::Some(*s),
                Option::None => spec_config_name(self.root) is None,
            },
    {
        match self.get("name") {
            Some(JsonValue::Str(s)) => Some(s),
            _ => None,
        }
    }

    /// The declared entry point, where "main" is a string.
    pub fn main<'a>(&'a self) -> (r: Option<&'a String>)
        ensures
            match r {
                Option::Some(s) => spec_config_main(self.root) == Option::Some(*s),
                Option::None => spec_config_main(self.root) is None,
            },
    {
        match self.get("main") {
            Some(JsonValue::Str(s)) => Some(s),
            _ => None,
        }
    }

    /// The raw "exports" value, if the field is present.
    pub fn exports<'a>(&'a self) -> (r: Option<&'a JsonValue>)
        ensures
            match r {
                Option::Some(v) => spec_config_exports(self.root) == Option::Some(*v),
                Option::None => spec_config_exports(self.root) is None,
            },
    {
        self.get("exports")
    }

    /// The "imports" map's entries, where the field is present and an object.
    pub fn imports<'a>(&'a self) -> (r: Option<&'a Vec<(String, JsonValue)>>)
        ensures
            match r {
                Option::Some(v) => spec_config_imports(self.root) == Option::Some(*v),
                Option::None => spec_config_imports(self.root) is None,
            },
    {
        match self.get("imports") {
            Some(JsonValue::Obj(entries)) => Some(entries),
            _ => None,
        }
    }

    /// The declared module system (see [`ModuleType`]).
    pub fn module_type(&self) -> (r: ModuleType)
        ensures
            r == spec_config_module_type(self.root),
    {
        match self.get("type") {
            Some(JsonValue::Str(s)) => {
                if str_eq(s.as_str(), "module") {
                    ModuleType::Module
                } else if str_eq(s.as_str(), "commonjs") {
                    ModuleType::CommonJs
                } else {
                    ModuleType::Unknown
                }
            },
            _ => ModuleType::Unknown,
        }
    }
}

/// What the package-scope locator produced.
pub enum ConfigStep {
    /// The nearest governing config, or the absent sentinel
    /// (`exists == false`).
    Found(PackageJson),
    /// A present but malformed config: a hard error.
    Failed(ResolveError),
    /// The snapshot lacks a read answer for this path.
    NeedRead(String),
}

/// Mathematical image of a located package config.
pub struct SpecConfig {
    pub path: Seq<char>,
    pub exists: bool,
    pub root: Option<Vec<(String, JsonValue)>>,
}

/// Mathematical image of a [`ConfigStep`].
pub enum SpecConfigStep {
    Found(SpecConfig),
    Failed(SpecErr),
    NeedRead(Seq<char>),
}

/// The executable config step is the image of the given mathematical one.
pub open spec fn config_step_matches(e: ConfigStep, g: SpecConfigStep) -> bool {
    match (e, g) {
        (ConfigStep::Found(p), SpecConfigStep::Found(c)) => p.path@ == c.path && p.exists
            == c.exists && p.root == c.root,
        (ConfigStep::Failed(x), SpecConfigStep::Failed(y)) => x.kind == y.kind && x.message@
            == y.message,
        (ConfigStep::NeedRead(s), SpecConfigStep::NeedRead(t)) => s@ == t,
        _ => false,
    }
}

/// The absent sentinel: no governing `package.json` was found.
pub open spec fn spec_absent_config() -> SpecConfig {
    SpecConfig { path: Seq::empty(), exists: false, root: Option::None }
}

/// Mathematical image of the scope walk from directory `dir` upward: stop
/// with the absent sentinel at a `node_modules` directory or at the
/// filesystem root; a missing or unreadable candidate steps up; a present but
/// malformed candidate is a hard error.
pub open spec fn spec_scope_walk(dir: Seq<char>, fs: Fs) -> SpecConfigStep
    decreases dir.len(),
{
    if spec_last_segment(dir) == "node_modules"@ {
        SpecConfigStep::Found(spec_absent_config())
    } else {
        let candidate = spec_join(dir, "package.json"@);
        match spec_read(fs, candidate) {
            Option::None => SpecConfigStep::NeedRead(candidate),
            Option::Some(Option::None) => {
                let parent = spec_parent_dir(dir);
                if parent.len() < dir.len() {
                    spec_scope_walk(parent, fs)
                } else {
                    SpecConfigStep::Found(spec_absent_config())
                }
            },
            Option::Some(Option::Some(text)) => match spec_load(text@) {
                SpecLoad::Loaded(root) => SpecConfigStep::Found(
                    SpecConfig { path: candidate, exists: true, root },
                ),
                SpecLoad::BadJson => SpecConfigStep::Failed(
                    SpecErr {
                        kind: ErrorKind::InvalidPackageConfig,
                        message: msg_invalid_package_config(
                            candidate,
                            Option::None,
                            Option::Some("malformed package.json"@),
                        ),
                    },
                ),
                SpecLoad::MixedKeys => SpecConfigStep::Failed(
                    SpecErr {
                        kind: ErrorKind::InvalidPackageConfig,
                        message: msg_invalid_package_config(
                            candidate,
                            Option::None,
                            Option::Some(spec_mixed_keys_reason()),
                        ),
                    },
                ),
            },
        }
    }
}

/// Mathematical image of [`get_package_scope_config`]: the walk starts at the
/// referrer itself (whose own `package.json` sibling candidate never exists
/// for a file referrer, so the first hit is in its directory).
pub open spec fn spec_scope_config(referrer: Seq<char>, fs: Fs) -> SpecConfigStep {
    spec_scope_walk(referrer, fs)
}

/// One step of the scope walk (see [`spec_scope_walk`]).
fn scope_walk(dir: &str, fs: &Fs) -> (r: ConfigStep)
    ensures
        config_step_matches(r, spec_scope_walk(dir@, *fs)),
    decreases dir@.len(),
{
    if str_eq(last_segment(dir), "node_modules") {
        return ConfigStep::Found(
            PackageJson { path: String::new(), exists: false, root: None },
        );
    }
    let candidate = join_rel(dir, "package.json");
    match fs_read(fs, candidate.as_str()) {
        None => ConfigStep::NeedRead(candidate),
        Some(None) => {
            let parent = parent_dir(dir);
            if parent.unicode_len() < dir.unicode_len() {
                scope_walk(parent, fs)
            } else {
                ConfigStep::Found(PackageJson { path: String::new(), exists: false, root: None })
            }
        },
        Some(Some(text)) => match PackageJson::load(candidate, text.as_str()) {
            Ok(p) => ConfigStep::Found(p),
            Err(e) => ConfigStep::Failed(e),
        },
    }
}

/// Walk ancestor directories upward from the referrer to the nearest
/// governing `package.json`, per [`spec_scope_config`]; never searches inside
/// a `node_modules` directory, and never fails on a merely missing file.
pub fn get_package_scope_config(referrer: &str, fs: &Fs) -> (r: ConfigStep)
    ensures
        config_step_matches(r, spec_scope_config(referrer@, *fs)),
{
    scope_walk(referrer, fs)
}

} // verus!
