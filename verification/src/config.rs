//! The configuration model: the root record, its items, the error
//! taxonomy, the built-in defaults, and the name-uniqueness check.

use vstd::prelude::*;

use crate::scheme::SchemeSystem;

verus! {

/// One integration target: where it lives and how its themes are applied.
#[derive(Debug)]
pub struct ConfigItem {
    pub name: String,
    pub path: String,
    pub hook: Option<String>,
    pub themes_dir: String,
    pub supported_systems: Option<Vec<SchemeSystem>>,
    pub theme_file_extension: Option<String>,
}

/// The root configuration record.
#[derive(Debug)]
pub struct Config {
    pub shell: Option<String>,
    pub default_scheme: Option<String>,
    pub items: Option<Vec<ConfigItem>>,
    pub hooks: Option<Vec<String>>,
}

/// The mathematical value of a `ConfigItem`.
#[verifier::ext_equal]
pub struct ConfigItemView {
    pub name: Seq<char>,
    pub path: Seq<char>,
    pub hook: Option<Seq<char>>,
    pub themes_dir: Seq<char>,
    pub supported_systems: Option<Seq<SchemeSystem>>,
    pub theme_file_extension: Option<Seq<char>>,
}

/// The mathematical value of a `Config`.
#[verifier::ext_equal]
pub struct ConfigView {
    pub shell: Option<Seq<char>>,
    pub default_scheme: Option<Seq<char>>,
    pub items: Option<Seq<ConfigItemView>>,
    pub hooks: Option<Seq<Seq<char>>>,
}

pub open spec fn view_opt_string(o: Option<String>) -> Option<Seq<char>> {
    match o {
        Some(s) => Some(s@),
        None => None,
    }
}

pub open spec fn view_strings(v: Seq<String>) -> Seq<Seq<char>> {
    v.map_values(|s: String| s@)
}

pub open spec fn view_items(v: Seq<ConfigItem>) -> Seq<ConfigItemView> {
    v.map_values(|it: ConfigItem| it@)
}

impl View for ConfigItem {
    type V = ConfigItemView;

    open spec fn view(&self) -> ConfigItemView {
        ConfigItemView {
            name: self.name@,
            path: self.path@,
            hook: view_opt_string(self.hook),
            themes_dir: self.themes_dir@,
            supported_systems: match self.supported_systems {
                Some(v) => Some(v@),
                None => None,
            },
            theme_file_extension: view_opt_string(self.theme_file_extension),
        }
    }
}

impl View for Config {
    type V = ConfigView;

    open spec fn view(&self) -> ConfigView {
        ConfigView {
            shell: view_opt_string(self.shell),
            default_scheme: view_opt_string(self.default_scheme),
            items: match self.items {
                Some(v) => Some(view_items(v@)),
                None => None,
            },
            hooks: match self.hooks {
                Some(v) => Some(view_strings(v@)),
                None => None,
            },
        }
    }
}

/// Why a load failed. Every failure is terminal: no partial `Config` is
/// ever returned.
#[derive(Debug)]
pub enum ConfigError {
    /// The config path exists but is a directory.
    PathIsDirectory(String),
    /// The text is not well-formed TOML, or a field has the wrong shape;
    /// carries the diagnostic.
    ParseError(String),
    /// Two items share this name.
    DuplicateItemName(String),
    /// This `~/`-prefixed path was given but no home directory was found.
    HomeDirUnresolvable(String),
    /// This path is neither a well-formed URL nor an existing directory.
    InvalidItemPath { name: String, path: String },
    /// The effective shell template lacks the `{}` placeholder.
    MissingShellPlaceholder,
}

pub open spec fn spec_message(e: ConfigError) -> Seq<char> {
    match e {
        ConfigError::PathIsDirectory(p) => "the provided config path is a directory and not a file: "@
            + p@,
        ConfigError::ParseError(d) => "could not parse the configuration file: "@ + d@,
        ConfigError::DuplicateItemName(n) => "config items should have unique names, but \""@ + n@
            + "\" is used for more than one item"@,
        ConfigError::HomeDirUnresolvable(p) => "unable to determine a home directory for \""@ + p@
            + "\", please use an absolute path instead"@,
        ConfigError::InvalidItemPath { name, path } => "config item \""@ + name@
            + "\" has an invalid path: \""@ + path@
            + "\" is not a valid url and is not a path to an existing local directory"@,
        ConfigError::MissingShellPlaceholder => "the configured shell does not contain the required command placeholder '{}'"@,
    }
}

impl ConfigError {
    /// A human-readable account of the failure, naming the offending value.
    pub fn message(&self) -> (r: String)
        ensures
            r@ == spec_message(*self),
    {
        match self {
            ConfigError::PathIsDirectory(p) => {
                let mut s = "the provided config path is a directory and not a file: ".to_owned();
                s.append(p.as_str());
                s
            },
            ConfigError::ParseError(d) => {
                let mut s = "could not parse the configuration file: ".to_owned();
                s.append(d.as_str());
                s
            },
            ConfigError::DuplicateItemName(n) => {
                let mut s = "config items should have unique names, but \"".to_owned();
                s.append(n.as_str());
                s.append("\" is used for more than one item");
                s
            },
            ConfigError::HomeDirUnresolvable(p) => {
                let mut s = "unable to determine a home directory for \"".to_owned();
                s.append(p.as_str());
                s.append("\", please use an absolute path instead");
                s
            },
            ConfigError::InvalidItemPath { name, path } => {
                let mut s = "config item \"".to_owned();
                s.append(name.as_str());
                s.append("\" has an invalid path: \"");
                s.append(path.as_str());
                s.append("\" is not a valid url and is not a path to an existing local directory");
                s
            },
            ConfigError::MissingShellPlaceholder => {
                "the configured shell does not contain the required command placeholder '{}'".to_owned()
            },
        }
    }
}

/// The shell template used when the file names none.
pub open spec fn spec_default_shell() -> Seq<char> {
    "sh -c '{}'"@
}

pub fn default_shell() -> (r: String)
    ensures
        r@ == spec_default_shell(),
{
    "sh -c '{}'".to_owned()
}

/// The built-in item substituted when the file lists no items at all: the
/// reference shell-theming integration.
pub open spec fn spec_default_item() -> ConfigItemView {
    ConfigItemView {
        name: "tinted-shell"@,
        path: "https://github.com/tinted-theming/tinted-shell"@,
        hook: Some(". %f"@),
        themes_dir: "scripts"@,
        supported_systems: Some(seq![SchemeSystem::Base16]),
        theme_file_extension: None,
    }
}

pub fn default_item() -> (r: ConfigItem)
    ensures
        r@ =~= spec_default_item(),
{
    let mut systems: Vec<SchemeSystem> = Vec::new();
    systems.push(SchemeSystem::Base16);
    proof {
        assert(systems@ =~= seq![SchemeSystem::Base16]);
    }
    ConfigItem {
        name: "tinted-shell".to_owned(),
        path: "https://github.com/tinted-theming/tinted-shell".to_owned(),
        hook: Some(". %f".to_owned()),
        themes_dir: "scripts".to_owned(),
        supported_systems: Some(systems),
        theme_file_extension: None,
    }
}

/// The items' names, in order.
pub open spec fn spec_names(items: Seq<ConfigItemView>) -> Seq<Seq<char>> {
    items.map_values(|it: ConfigItemView| it.name)
}

/// No two positions hold the same name.
pub open spec fn spec_unique_names(names: Seq<Seq<char>>) -> bool {
    forall|i: int, j: int| 0 <= i < j < names.len() ==> names[i] != names[j]
}

/// Position `j` holds the first duplicated name: some earlier position
/// repeats it, and no pair before `j` collides.
pub open spec fn spec_first_dup_at(names: Seq<Seq<char>>, j: int) -> bool {
    &&& 0 <= j < names.len()
    &&& exists|i: int| 0 <= i < j && names[i] == names[j]
    &&& forall|i2: int, j2: int| 0 <= i2 < j2 < j ==> names[i2] != names[j2]
}

/// The single-pass uniqueness check: `Ok` exactly when all names differ;
/// on failure the first duplicated name is reported.
pub fn ensure_item_name_is_unique(items: &Vec<ConfigItem>) -> (r: Result<(), ConfigError>)
    ensures
        r is Ok <==> spec_unique_names(spec_names(view_items(items@))),
        r matches Err(e) ==> e matches ConfigError::DuplicateItemName(n) && exists|j: int|
            #[trigger] spec_first_dup_at(spec_names(view_items(items@)), j) && n@ == spec_names(
            view_items(items@),
        )[j],
{
    let ghost ns = spec_names(view_items(items@));
    let n = items.len();
    proof {
        assert(ns.len() == n);
    }
    for j in 0..n
        invariant
            n == items@.len(),
            ns == spec_names(view_items(items@)),
            ns.len() == n,
            forall|i2: int, j2: int| 0 <= i2 < j2 < j ==> ns[i2] != ns[j2],
    {
        for i in 0..j
            invariant
                j < n,
                n == items@.len(),
                ns == spec_names(view_items(items@)),
                ns.len() == n,
                forall|i2: int, j2: int| 0 <= i2 < j2 < j ==> ns[i2] != ns[j2],
                forall|i2: int| 0 <= i2 < i ==> ns[i2] != ns[j as int],
        {
            if crate::text::str_eq(items[i].name.as_str(), items[j].name.as_str()) {
                proof {
                    assert(ns[i as int] == items@[i as int]@.name);
                    assert(ns[j as int] == items@[j as int]@.name);
                    assert(spec_first_dup_at(ns, j as int));
                }
                return Err(ConfigError::DuplicateItemName(items[j].name.clone()));
            }
        }
    }
    proof {
        assert(spec_unique_names(ns));
    }
    Ok(())
}

} // verus!
