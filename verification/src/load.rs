//! Reading the configuration out of a parsed TOML document: field
//! extraction, defaulting, name uniqueness, home expansion, path and
//! shell validation.

use vstd::prelude::*;

use crate::config::{
    Config, ConfigError, ConfigItem, ConfigItemView, ConfigView, default_item, default_shell,
    ensure_item_name_is_unique, spec_default_item, spec_default_shell, spec_first_dup_at,
    spec_names, spec_unique_names, view_items, view_opt_string, view_strings,
};
use crate::sys::url_parseable;
use crate::text::{spec_has_placeholder, spec_starts_tilde_slash, spec_trim};
use crate::scheme::SchemeSystem;
use crate::toml_doc::{TomlValue, lookup, spec_lookup};

verus! {

/// An optional string field: absent is fine, any non-string value is a
/// schema error.
pub open spec fn spec_opt_str(es: Seq<(String, TomlValue)>, key: Seq<char>) -> Result<
    Option<Seq<char>>,
    (),
> {
    match spec_lookup(es, key) {
        None => Ok(None),
        Some(v) => if v is Str {
            Ok(Some(v->Str_0@))
        } else {
            Err(())
        },
    }
}

/// A required string field: absent or non-string is a schema error.
pub open spec fn spec_req_str(es: Seq<(String, TomlValue)>, key: Seq<char>) -> Result<
    Seq<char>,
    (),
> {
    match spec_lookup(es, key) {
        None => Err(()),
        Some(v) => if v is Str {
            Ok(v->Str_0@)
        } else {
            Err(())
        },
    }
}

pub open spec fn spec_all_str(vs: Seq<TomlValue>) -> bool {
    forall|k: int| 0 <= k < vs.len() ==> (#[trigger] vs[k]) is Str
}

pub open spec fn spec_strs(vs: Seq<TomlValue>) -> Seq<Seq<char>> {
    Seq::new(vs.len(), |k: int| vs[k]->Str_0@)
}

pub open spec fn spec_all_system_names(vs: Seq<TomlValue>) -> bool {
    forall|k: int| 0 <= k < vs.len() ==> (#[trigger] vs[k]) is Str
        && SchemeSystem::spec_of_name(vs[k]->Str_0@) is Some
}

pub open spec fn spec_systems(vs: Seq<TomlValue>) -> Seq<SchemeSystem> {
    Seq::new(vs.len(), |k: int| SchemeSystem::spec_of_name(vs[k]->Str_0@)->Some_0)
}

/// The optional `supported-systems` field: an array of recognized system
/// names.
pub open spec fn spec_opt_systems(es: Seq<(String, TomlValue)>) -> Result<
    Option<Seq<SchemeSystem>>,
    (),
> {
    match spec_lookup(es, "supported-systems"@) {
        None => Ok(None),
        Some(v) => if v is Arr && spec_all_system_names(v->Arr_0@) {
            Ok(Some(spec_systems(v->Arr_0@)))
        } else {
            Err(())
        },
    }
}

/// The optional root `hooks` field: an array of strings.
pub open spec fn spec_opt_hooks(es: Seq<(String, TomlValue)>) -> Result<
    Option<Seq<Seq<char>>>,
    (),
> {
    match spec_lookup(es, "hooks"@) {
        None => Ok(None),
        Some(v) => if v is Arr && spec_all_str(v->Arr_0@) {
            Ok(Some(spec_strs(v->Arr_0@)))
        } else {
            Err(())
        },
    }
}

/// One item read from a table of the `items` array. Unknown keys are
/// ignored, as the loader ignores them everywhere.
pub open spec fn spec_extract_item(v: TomlValue) -> Result<ConfigItemView, ()> {
    if !(v is Table) {
        Err(())
    } else {
        let es = v->Table_0@;
        match spec_req_str(es, "name"@) {
            Err(u) => Err(u),
            Ok(name) => match spec_req_str(es, "path"@) {
                Err(u) => Err(u),
                Ok(path) => match spec_opt_str(es, "hook"@) {
                    Err(u) => Err(u),
                    Ok(hook) => match spec_req_str(es, "themes-dir"@) {
                        Err(u) => Err(u),
                        Ok(themes_dir) => match spec_opt_systems(es) {
                            Err(u) => Err(u),
                            Ok(supported_systems) => match spec_opt_str(
                                es,
                                "theme-file-extension"@,
                            ) {
                                Err(u) => Err(u),
                                Ok(theme_file_extension) => Ok(
                                    ConfigItemView {
                                        name,
                                        path,
                                        hook,
                                        themes_dir,
                                        supported_systems,
                                        theme_file_extension,
                                    },
                                ),
                            },
                        },
                    },
                },
            },
        }
    }
}

pub open spec fn spec_all_items_ok(vs: Seq<TomlValue>) -> bool {
    forall|k: int| 0 <= k < vs.len() ==> spec_extract_item(#[trigger] vs[k]) is Ok
}

pub open spec fn spec_item_views(vs: Seq<TomlValue>) -> Seq<ConfigItemView> {
    Seq::new(vs.len(), |k: int| spec_extract_item(vs[k])->Ok_0)
}

/// The optional root `items` field: an array of item tables.
pub open spec fn spec_opt_items(es: Seq<(String, TomlValue)>) -> Result<
    Option<Seq<ConfigItemView>>,
    (),
> {
    match spec_lookup(es, "items"@) {
        None => Ok(None),
        Some(v) => if v is Arr && spec_all_items_ok(v->Arr_0@) {
            Ok(Some(spec_item_views(v->Arr_0@)))
        } else {
            Err(())
        },
    }
}

/// The draft configuration a document denotes, before defaulting and
/// validation; `Err` is a schema mismatch.
pub open spec fn spec_extract(doc: TomlValue) -> Result<ConfigView, ()> {
    if !(doc is Table) {
        Err(())
    } else {
        let es = doc->Table_0@;
        match spec_opt_str(es, "shell"@) {
            Err(u) => Err(u),
            Ok(shell) => match spec_opt_str(es, "default-scheme"@) {
                Err(u) => Err(u),
                Ok(default_scheme) => match spec_opt_hooks(es) {
                    Err(u) => Err(u),
                    Ok(hooks) => match spec_opt_items(es) {
                        Err(u) => Err(u),
                        Ok(items) => Ok(ConfigView { shell, default_scheme, items, hooks }),
                    },
                },
            },
        }
    }
}

fn opt_str_field(es: &Vec<(String, TomlValue)>, key: &str) -> (r: Result<Option<String>, ()>)
    ensures
        r matches Ok(o) ==> spec_opt_str(es@, key@) == Ok::<Option<Seq<char>>, ()>(
            view_opt_string(o),
        ),
        r is Err <==> spec_opt_str(es@, key@) is Err,
{
    match lookup(es, key) {
        None => Ok(None),
        Some(v) => match v {
            TomlValue::Str(s) => Ok(Some(s.clone())),
            _ => Err(()),
        },
    }
}

fn req_str_field(es: &Vec<(String, TomlValue)>, key: &str) -> (r: Result<String, ()>)
    ensures
        r matches Ok(s) ==> spec_req_str(es@, key@) == Ok::<Seq<char>, ()>(s@),
        r is Err <==> spec_req_str(es@, key@) is Err,
{
    match lookup(es, key) {
        None => Err(()),
        Some(v) => match v {
            TomlValue::Str(s) => Ok(s.clone()),
            _ => Err(()),
        },
    }
}

fn strs_field(vs: &Vec<TomlValue>) -> (r: Result<Vec<String>, ()>)
    ensures
        r is Ok <==> spec_all_str(vs@),
        r matches Ok(out) ==> view_strings(out@) =~= spec_strs(vs@),
{
    let n = vs.len();
    let mut out: Vec<String> = Vec::new();
    for k in 0..n
        invariant
            n == vs@.len(),
            out@.len() == k,
            forall|j: int| 0 <= j < k ==> (#[trigger] vs@[j]) is Str,
            forall|j: int| 0 <= j < k ==> (#[trigger] out@[j])@ == vs@[j]->Str_0@,
    {
        match &vs[k] {
            TomlValue::Str(s) => out.push(s.clone()),
            _ => {
                return Err(());
            },
        }
    }
    proof {
        assert(view_strings(out@) =~= spec_strs(vs@));
    }
    Ok(out)
}

fn systems_field(vs: &Vec<TomlValue>) -> (r: Result<Vec<SchemeSystem>, ()>)
    ensures
        r is Ok <==> spec_all_system_names(vs@),
        r matches Ok(out) ==> out@ =~= spec_systems(vs@),
{
    let n = vs.len();
    let mut out: Vec<SchemeSystem> = Vec::new();
    for k in 0..n
        invariant
            n == vs@.len(),
            out@.len() == k,
            forall|j: int| 0 <= j < k ==> (#[trigger] vs@[j]) is Str
                && SchemeSystem::spec_of_name(vs@[j]->Str_0@) is Some,
            forall|j: int| 0 <= j < k ==> #[trigger] out@[j] == SchemeSystem::spec_of_name(
                vs@[j]->Str_0@,
            )->Some_0,
    {
        match &vs[k] {
            TomlValue::Str(s) => match SchemeSystem::of_name(s.as_str()) {
                Some(sys) => out.push(sys),
                None => {
                    return Err(());
                },
            },
            _ => {
                return Err(());
            },
        }
    }
    proof {
        assert(out@ =~= spec_systems(vs@));
    }
    Ok(out)
}

fn extract_item(v: &TomlValue) -> (r: Result<ConfigItem, ()>)
    ensures
        r is Ok <==> spec_extract_item(*v) is Ok,
        r matches Ok(it) ==> spec_extract_item(*v) == Ok::<ConfigItemView, ()>(it@),
{
    let es = match v {
        TomlValue::Table(es) => es,
        _ => {
            return Err(());
        },
    };
    let name = match req_str_field(es, "name") {
        Ok(s) => s,
        Err(u) => {
            return Err(u);
        },
    };
    let path = match req_str_field(es, "path") {
        Ok(s) => s,
        Err(u) => {
            return Err(u);
        },
    };
    let hook = match opt_str_field(es, "hook") {
        Ok(o) => o,
        Err(u) => {
            return Err(u);
        },
    };
    let themes_dir = match req_str_field(es, "themes-dir") {
        Ok(s) => s,
        Err(u) => {
            return Err(u);
        },
    };
    let supported_systems = match lookup(es, "supported-systems") {
        None => None,
        Some(sv) => match sv {
            TomlValue::Arr(vs) => match systems_field(vs) {
                Ok(out) => Some(out),
                Err(u) => {
                    return Err(u);
                },
            },
            _ => {
                return Err(());
            },
        },
    };
    let theme_file_extension = match opt_str_field(es, "theme-file-extension") {
        Ok(o) => o,
        Err(u) => {
            return Err(u);
        },
    };
    let it = ConfigItem { name, path, hook, themes_dir, supported_systems, theme_file_extension };
    proof {
        assert(spec_extract_item(*v) matches Ok(iv) && iv =~= it@);
    }
    Ok(it)
}

/// Turns a parsed document into the draft configuration, reporting any
/// schema mismatch as a parse error naming the shape that was expected.
#[verifier::loop_isolation(false)]
pub fn extract_config(doc: &TomlValue) -> (r: Result<Config, ConfigError>)
    ensures
        r is Ok <==> spec_extract(*doc) is Ok,
        r matches Ok(c) ==> spec_extract(*doc) == Ok::<ConfigView, ()>(c@),
        r matches Err(e) ==> e is ParseError,
{
    let es = match doc {
        TomlValue::Table(es) => es,
        _ => {
            return Err(ConfigError::ParseError("the document root is not a table".to_owned()));
        },
    };
    let shell = match opt_str_field(es, "shell") {
        Ok(o) => o,
        Err(_) => {
            return Err(ConfigError::ParseError("`shell` must be a string".to_owned()));
        },
    };
    let default_scheme = match opt_str_field(es, "default-scheme") {
        Ok(o) => o,
        Err(_) => {
            return Err(ConfigError::ParseError("`default-scheme` must be a string".to_owned()));
        },
    };
    let hooks = match lookup(es, "hooks") {
        None => None,
        Some(hv) => match hv {
            TomlValue::Arr(vs) => match strs_field(vs) {
                Ok(out) => Some(out),
                Err(_) => {
                    return Err(
                        ConfigError::ParseError("`hooks` must be an array of strings".to_owned()),
                    );
                },
            },
            _ => {
                return Err(
                    ConfigError::ParseError("`hooks` must be an array of strings".to_owned()),
                );
            },
        },
    };
    let items = match lookup(es, "items") {
        None => None,
        Some(iv) => match iv {
            TomlValue::Arr(vs) => {
                let n = vs.len();
                let mut out: Vec<ConfigItem> = Vec::new();
                for k in 0..n
                    invariant
                        n == vs@.len(),
                        out@.len() == k,
                        forall|j: int| 0 <= j < k ==> spec_extract_item(#[trigger] vs@[j]) is Ok,
                        forall|j: int| 0 <= j < k ==> spec_extract_item(vs@[j])
                            == Ok::<ConfigItemView, ()>((#[trigger] out@[j])@),
                {
                    match extract_item(&vs[k]) {
                        Ok(it) => out.push(it),
                        Err(_) => {
                            proof {
                                assert(!spec_all_items_ok(vs@)) by {
                                    assert(spec_extract_item(vs@[k as int]) is Err);
                                }
                            }
                            return Err(
                                ConfigError::ParseError(
                                    "an entry of `items` is missing a required field or holds a wrongly shaped one".to_owned(),
                                ),
                            );
                        },
                    }
                }
                proof {
                    assert(view_items(out@) =~= spec_item_views(vs@));
                }
                Some(out)
            },
            _ => {
                return Err(
                    ConfigError::ParseError("`items` must be an array of tables".to_owned()),
                );
            },
        },
    };
    let c = Config { shell, default_scheme, items, hooks };
    proof {
        assert(spec_extract(*doc) matches Ok(cv) && cv =~= c@);
    }
    Ok(c)
}

/// Whether home expansion applies: the trimmed path begins with `~/`.
pub open spec fn spec_needs_home(path: Seq<char>) -> bool {
    spec_starts_tilde_slash(spec_trim(path))
}

/// The trimmed path with its `~/` prefix replaced by the home directory
/// and a separating slash.
pub open spec fn spec_expand_path(path: Seq<char>, home: Seq<char>) -> Seq<char> {
    home + "/"@ + spec_trim(path).subrange(2, spec_trim(path).len() as int)
}

/// Expands a `~/`-prefixed path against a resolved home directory.
pub fn expand_home_path(path: &str, home: &str) -> (r: String)
    requires
        spec_needs_home(path@),
    ensures
        r@ == spec_expand_path(path@, home@),
{
    let t = crate::text::trim_str(path);
    let tail = t.substring_char(2, t.unicode_len());
    let mut np = home.to_owned();
    np.append("/");
    np.append(tail);
    np
}

/// An item with its `supported_systems` defaulted to the single default
/// system when the file named none.
pub open spec fn spec_norm_systems(it: ConfigItemView) -> ConfigItemView {
    ConfigItemView {
        name: it.name,
        path: it.path,
        hook: it.hook,
        themes_dir: it.themes_dir,
        supported_systems: match it.supported_systems {
            Some(ss) => Some(ss),
            None => Some(seq![SchemeSystem::Base16]),
        },
        theme_file_extension: it.theme_file_extension,
    }
}

/// A fully normalized item: systems defaulted, home expanded. `Err` means
/// the path needs a home directory and none was resolved.
pub open spec fn spec_norm_item(it: ConfigItemView, home: Option<Seq<char>>) -> Result<
    ConfigItemView,
    (),
> {
    let it2 = spec_norm_systems(it);
    if spec_needs_home(it2.path) {
        match home {
            Some(h) => Ok(
                ConfigItemView {
                    name: it2.name,
                    path: spec_expand_path(it2.path, h),
                    hook: it2.hook,
                    themes_dir: it2.themes_dir,
                    supported_systems: it2.supported_systems,
                    theme_file_extension: it2.theme_file_extension,
                },
            ),
            None => Err(()),
        }
    } else {
        Ok(it2)
    }
}

pub open spec fn spec_all_norm_ok(items: Seq<ConfigItemView>, home: Option<Seq<char>>) -> bool {
    forall|k: int| 0 <= k < items.len() ==> spec_norm_item(#[trigger] items[k], home) is Ok
}

pub open spec fn spec_norm_items(items: Seq<ConfigItemView>, home: Option<Seq<char>>) -> Seq<
    ConfigItemView,
> {
    Seq::new(items.len(), |k: int| spec_norm_item(items[k], home)->Ok_0)
}

/// Position `k` holds the first item whose normalization fails.
pub open spec fn spec_home_fail_at(
    items: Seq<ConfigItemView>,
    home: Option<Seq<char>>,
    k: int,
) -> bool {
    &&& 0 <= k < items.len()
    &&& spec_norm_item(items[k], home) is Err
    &&& forall|j: int| 0 <= j < k ==> spec_norm_item(#[trigger] items[j], home) is Ok
}

/// The items the validator starts from: those of the draft, or the single
/// built-in default when the draft has none.
pub open spec fn spec_initial_items(c: ConfigView) -> Seq<ConfigItemView> {
    match c.items {
        Some(its) => its,
        None => seq![spec_default_item()],
    }
}

/// The effective shell template: the draft's, or the built-in default.
pub open spec fn spec_shell_of(c: ConfigView) -> Seq<char> {
    match c.shell {
        Some(s) => s,
        None => spec_default_shell(),
    }
}

/// The draft a text denotes: parsed, then extracted. `Err` covers both
/// ill-formed TOML and a schema mismatch.
pub open spec fn spec_draft(text: Seq<char>) -> Result<ConfigView, ()> {
    match crate::toml_doc::toml_document(text) {
        None => Err(()),
        Some(doc) => spec_extract(doc),
    }
}

/// The uniqueness check applies only to items the draft provides.
pub open spec fn spec_dup_check_fails(c: ConfigView) -> bool {
    c.items matches Some(its) && !spec_unique_names(spec_names(its))
}

/// The configuration a successful load returns.
pub open spec fn spec_loaded(c: ConfigView, home: Option<Seq<char>>) -> ConfigView {
    ConfigView {
        shell: Some(spec_shell_of(c)),
        default_scheme: c.default_scheme,
        items: Some(spec_norm_items(spec_initial_items(c), home)),
        hooks: c.hooks,
    }
}

/// What every loaded configuration satisfies: an effective shell holding
/// the placeholder, and items whose supported systems are filled in.
pub open spec fn spec_wf(cv: ConfigView) -> bool {
    &&& cv.shell matches Some(s) && spec_has_placeholder(s)
    &&& cv.items matches Some(its) && forall|k: int|
        0 <= k < its.len() ==> (#[trigger] its[k]).supported_systems is Some
}

pub open spec fn view_opt_str_ref(o: Option<&str>) -> Option<Seq<char>> {
    match o {
        Some(s) => Some(s@),
        None => None,
    }
}

/// Every normalized path is URL-parseable, so the load cannot fail on the
/// directory check.
pub open spec fn spec_all_urls_ok(items: Seq<ConfigItemView>, home: Option<Seq<char>>) -> bool {
    forall|k: int|
        0 <= k < items.len() ==> url_parseable(
            spec_norm_item(#[trigger] items[k], home)->Ok_0.path,
        )
}

impl Config {
    /// Loads and validates a configuration from its text, with the home
    /// directory the caller resolved (or failed to). Defaulting, the
    /// uniqueness check, home expansion, path validation and the shell
    /// placeholder check run in that order; any failure is terminal.
    #[verifier::loop_isolation(false)]
    pub fn load_from_str(text: &str, home: Option<&str>) -> (r: Result<Config, ConfigError>)
        ensures
            (r matches Err(e) && e is ParseError) <==> spec_draft(text@) is Err,
            r matches Err(e) ==> !(e is PathIsDirectory),
            spec_draft(text@) matches Ok(c) ==> ((r matches Err(e) && e is DuplicateItemName)
                <==> spec_dup_check_fails(c)),
            r matches Err(ConfigError::DuplicateItemName(nm)) ==> (spec_draft(text@)
                matches Ok(c) && c.items matches Some(its) && exists|j: int|
                #[trigger] spec_first_dup_at(spec_names(its), j) && nm@ == spec_names(its)[j]),
            r matches Err(ConfigError::HomeDirUnresolvable(p)) ==> (spec_draft(
                text@,
            ) matches Ok(c) && view_opt_str_ref(home) is None && exists|k: int|
                #[trigger] spec_home_fail_at(
                    spec_initial_items(c),
                    view_opt_str_ref(home),
                    k,
                ) && p@ == spec_initial_items(c)[k].path),
            r matches Err(ConfigError::InvalidItemPath { name, path }) ==> (
            spec_draft(text@) matches Ok(c) && exists|k: int|
                {
                    &&& 0 <= k < spec_initial_items(c).len()
                    &&& #[trigger] spec_norm_item(
                        spec_initial_items(c)[k],
                        view_opt_str_ref(home),
                    ) matches Ok(nit)
                    &&& name@ == nit.name
                    &&& path@ == nit.path
                    &&& !url_parseable(path@)
                }),
            r matches Err(ConfigError::MissingShellPlaceholder) ==> (spec_draft(text@) matches Ok(c)
                && !spec_has_placeholder(spec_shell_of(c))),
            spec_draft(text@) matches Ok(c) && !spec_dup_check_fails(c) && !spec_all_norm_ok(
                spec_initial_items(c),
                view_opt_str_ref(home),
            ) ==> r is Err,
            spec_draft(text@) matches Ok(c) && !spec_dup_check_fails(c) && !spec_has_placeholder(
                spec_shell_of(c),
            ) ==> r is Err,
            r matches Ok(cfg) ==> (spec_draft(text@) matches Ok(c) && !spec_dup_check_fails(c)
                && spec_all_norm_ok(spec_initial_items(c), view_opt_str_ref(home))
                && spec_has_placeholder(spec_shell_of(c)) && cfg@ == spec_loaded(
                c,
                view_opt_str_ref(home),
            )),
            r matches Ok(cfg) ==> spec_wf(cfg@),
            spec_draft(text@) matches Ok(c) && !spec_dup_check_fails(c) && spec_all_norm_ok(
                spec_initial_items(c),
                view_opt_str_ref(home),
            ) && spec_has_placeholder(spec_shell_of(c)) && spec_all_urls_ok(
                spec_initial_items(c),
                view_opt_str_ref(home),
            ) ==> r is Ok,
            text@.len() == 0 ==> (spec_draft(text@) matches Ok(c) && c =~= ConfigView {
                shell: None,
                default_scheme: None,
                items: None,
                hooks: None,
            }),
    {
        let ghost hv = view_opt_str_ref(home);
        let doc = match crate::toml_doc::parse_toml(text) {
            Ok(d) => d,
            Err(msg) => {
                return Err(ConfigError::ParseError(msg));
            },
        };
        proof {
            if text@.len() == 0 {
                let es = doc->Table_0@;
                assert(es.len() == 0);
                assert(spec_lookup(es, "shell"@) is None);
                assert(spec_lookup(es, "default-scheme"@) is None);
                assert(spec_lookup(es, "hooks"@) is None);
                assert(spec_lookup(es, "items"@) is None);
                assert(spec_extract(doc) matches Ok(c0) && c0 =~= ConfigView {
                    shell: None,
                    default_scheme: None,
                    items: None,
                    hooks: None,
                });
            }
        }
        let draft = match extract_config(&doc) {
            Ok(c) => c,
            Err(e) => {
                return Err(e);
            },
        };
        let ghost c = draft@;
        proof {
            assert(spec_draft(text@) == Ok::<ConfigView, ()>(c));
        }
        let Config { shell: shell_opt, default_scheme, items: items_opt, hooks } = draft;
        let shell: String = match shell_opt {
            Some(s) => s,
            None => default_shell(),
        };
        proof {
            assert(shell@ == spec_shell_of(c));
        }
        let mut items: Vec<ConfigItem> = match items_opt {
            Some(its) => {
                match ensure_item_name_is_unique(&its) {
                    Ok(_) => its,
                    Err(e) => {
                        return Err(e);
                    },
                }
            },
            None => {
                let mut v: Vec<ConfigItem> = Vec::new();
                v.push(default_item());
                v
            },
        };
        let ghost its0 = spec_initial_items(c);
        proof {
            assert(view_items(items@) =~= its0);
        }
        let mut out: Vec<ConfigItem> = Vec::new();
        while items.len() > 0
            invariant
                out@.len() + items@.len() == its0.len(),
                forall|j: int|
                    0 <= j < out@.len() ==> spec_norm_item(#[trigger] its0[j], hv) is Ok,
                forall|j: int|
                    0 <= j < out@.len() ==> Ok::<ConfigItemView, ()>(
                        (#[trigger] out@[j])@,
                    ) == spec_norm_item(its0[j], hv),
                view_items(items@) =~= its0.skip(out@.len() as int),
            decreases items@.len(),
        {
            let ghost g = out@.len() as int;
            let ghost pre = items@;
            let it = items.remove(0);
            proof {
                assert(view_items(pre)[0] == its0.skip(g)[0]);
                assert(it@ == its0[g]);
                assert forall|j: int| 0 <= j < items@.len() implies (#[trigger] items@[j])@
                    == its0.skip(g + 1)[j] by {
                    assert(items@[j] == pre[j + 1]);
                    assert(view_items(pre)[j + 1] == its0.skip(g)[j + 1]);
                }
                assert(view_items(items@) =~= its0.skip(g + 1));
            }
            let ConfigItem {
                name,
                path,
                hook,
                themes_dir,
                supported_systems,
                theme_file_extension,
            } = it;
            let supported_systems: Option<Vec<SchemeSystem>> = match supported_systems {
                Some(v) => Some(v),
                None => {
                    let mut sv: Vec<SchemeSystem> = Vec::new();
                    sv.push(SchemeSystem::Base16);
                    proof {
                        assert(sv@ =~= seq![SchemeSystem::Base16]);
                    }
                    Some(sv)
                },
            };
            let t: String = crate::text::trim_str(path.as_str()).to_owned();
            let path2: String = if crate::text::starts_tilde_slash(t.as_str()) {
                match home {
                    Some(h) => {
                        let tail = t.as_str().substring_char(2, t.as_str().unicode_len());
                        let mut np = h.to_owned();
                        np.append("/");
                        np.append(tail);
                        np
                    },
                    None => {
                        proof {
                            assert(spec_norm_item(its0[g], hv) is Err);
                            assert(spec_home_fail_at(its0, hv, g));
                            assert(!spec_all_norm_ok(its0, hv)) by {
                                assert(spec_norm_item(its0[g], hv) is Err);
                            }
                        }
                        return Err(ConfigError::HomeDirUnresolvable(path));
                    },
                }
            } else {
                path
            };
            let ghost nit = spec_norm_item(its0[g], hv)->Ok_0;
            proof {
                assert(spec_norm_item(its0[g], hv) is Ok);
                assert(path2@ == nit.path);
                assert(name@ == nit.name);
            }
            if !crate::sys::url_parses(path2.as_str()) {
                if !crate::sys::path_is_dir(path2.as_str()) {
                    proof {
                        assert(!spec_all_urls_ok(its0, hv)) by {
                            assert(!url_parseable(spec_norm_item(its0[g], hv)->Ok_0.path));
                        }
                    }
                    return Err(ConfigError::InvalidItemPath { name, path: path2 });
                }
            }
            let nit_exec = ConfigItem {
                name,
                path: path2,
                hook,
                themes_dir,
                supported_systems,
                theme_file_extension,
            };
            proof {
                assert(nit_exec@ =~= nit);
            }
            out.push(nit_exec);
        }
        proof {
            assert(out@.len() == its0.len());
            assert(spec_all_norm_ok(its0, hv));
        }
        if !crate::text::has_placeholder(shell.as_str()) {
            return Err(ConfigError::MissingShellPlaceholder);
        }
        let cfg = Config { shell: Some(shell), default_scheme, items: Some(out), hooks };
        proof {
            assert(view_items(cfg.items->Some_0@) =~= spec_norm_items(its0, hv));
            assert(cfg@ =~= spec_loaded(c, hv));
            assert forall|k: int|
                0 <= k < spec_norm_items(its0, hv).len() implies (#[trigger] spec_norm_items(
                its0,
                hv,
            )[k]).supported_systems is Some by {
                assert(spec_norm_item(its0[k], hv) is Ok);
            }
            assert(spec_wf(cfg@));
        }
        Ok(cfg)
    }

    /// Loads and validates a configuration from its text, resolving the
    /// home directory through the platform lookup.
    pub fn load(text: &str) -> (r: Result<Config, ConfigError>)
        ensures
            (r matches Err(e) && e is ParseError) <==> spec_draft(text@) is Err,
            r matches Err(e) ==> !(e is PathIsDirectory),
            spec_draft(text@) matches Ok(c) ==> ((r matches Err(e) && e is DuplicateItemName)
                <==> spec_dup_check_fails(c)),
            r matches Err(ConfigError::DuplicateItemName(nm)) ==> (spec_draft(text@)
                matches Ok(c) && c.items matches Some(its) && exists|j: int|
                #[trigger] spec_first_dup_at(spec_names(its), j) && nm@ == spec_names(its)[j]),
            r matches Err(ConfigError::MissingShellPlaceholder) ==> (spec_draft(text@) matches Ok(c)
                && !spec_has_placeholder(spec_shell_of(c))),
            spec_draft(text@) matches Ok(c) && !spec_dup_check_fails(c) && !spec_has_placeholder(
                spec_shell_of(c),
            ) ==> r is Err,
            r matches Err(ConfigError::HomeDirUnresolvable(p)) ==> (spec_draft(text@) matches Ok(c)
                && exists|k: int|
                {
                    &&& 0 <= k < spec_initial_items(c).len()
                    &&& spec_needs_home((#[trigger] spec_initial_items(c)[k]).path)
                    &&& p@ == spec_initial_items(c)[k].path
                }),
            r matches Err(ConfigError::InvalidItemPath { name, path }) ==> (spec_draft(text@)
                matches Ok(c) && !url_parseable(path@) && exists|k: int, hvx: Option<Seq<char>>|
                {
                    &&& 0 <= k < spec_initial_items(c).len()
                    &&& #[trigger] spec_norm_item(spec_initial_items(c)[k], hvx) matches Ok(nit)
                    &&& name@ == nit.name
                    &&& path@ == nit.path
                }),
            r matches Ok(cfg) ==> spec_wf(cfg@),
            r matches Ok(cfg) ==> (spec_draft(text@) matches Ok(c) && !spec_dup_check_fails(c)
                && spec_has_placeholder(spec_shell_of(c)) && exists|hv: Option<Seq<char>>|
                cfg@ == spec_loaded(c, hv)),
            text@.len() == 0 ==> (spec_draft(text@) matches Ok(c) && c =~= ConfigView {
                shell: None,
                default_scheme: None,
                items: None,
                hooks: None,
            }),
    {
        let home = crate::sys::home_dir_string();
        let home_ref: Option<&str> = match &home {
            Some(s) => Some(s.as_str()),
            None => None,
        };
        let r = Config::load_from_str(text, home_ref);
        proof {
            if r is Ok {
                assert((r->Ok_0)@ == spec_loaded(spec_draft(text@)->Ok_0, view_opt_str_ref(home_ref)));
            }
        }
        r
    }
}

} // verus!
