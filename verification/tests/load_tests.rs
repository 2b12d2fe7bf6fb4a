use tinty_config::config::{Config, ConfigError};
use tinty_config::scheme::SchemeSystem;

fn load(text: &str, home: Option<&str>) -> Result<Config, ConfigError> {
    Config::load_from_str(text, home)
}

#[test]
fn empty_text_loads_all_defaults() {
    let cfg = load("", None).unwrap();
    assert_eq!(cfg.shell.as_deref(), Some("sh -c '{}'"));
    assert!(cfg.default_scheme.is_none());
    assert!(cfg.hooks.is_none());
    let items = cfg.items.as_ref().unwrap();
    assert_eq!(items.len(), 1);
    let it = &items[0];
    assert_eq!(it.name, "tinted-shell");
    assert_eq!(it.path, "https://github.com/tinted-theming/tinted-shell");
    assert_eq!(it.themes_dir, "scripts");
    assert_eq!(it.hook.as_deref(), Some(". %f"));
    assert_eq!(it.supported_systems.as_deref(), Some(&[SchemeSystem::Base16][..]));
    assert!(it.theme_file_extension.is_none());
}

#[test]
fn missing_items_key_yields_single_default_item() {
    let cfg = load("default-scheme = \"gruvbox\"\n", None).unwrap();
    assert_eq!(cfg.default_scheme.as_deref(), Some("gruvbox"));
    let items = cfg.items.as_ref().unwrap();
    assert_eq!(items.len(), 1);
    assert_eq!(items[0].name, "tinted-shell");
    assert_eq!(items[0].path, "https://github.com/tinted-theming/tinted-shell");
}

#[test]
fn duplicate_item_names_are_fatal() {
    let text = "\
[[items]]
name = \"x\"
path = \"https://example.com/a\"
themes-dir = \"t\"

[[items]]
name = \"x\"
path = \"https://example.com/b\"
themes-dir = \"u\"
";
    let err = load(text, None).unwrap_err();
    match &err {
        ConfigError::DuplicateItemName(n) => assert_eq!(n, "x"),
        other => panic!("expected DuplicateItemName, got {:?}", other),
    }
    assert!(err.message().contains("\"x\""));
}

#[test]
fn shell_without_placeholder_is_fatal() {
    let text = "\
shell = \"sh -c\"

[[items]]
name = \"a\"
path = \"https://example.com/a\"
themes-dir = \"t\"
";
    let err = load(text, None).unwrap_err();
    assert!(matches!(err, ConfigError::MissingShellPlaceholder));
}

#[test]
fn shell_with_placeholder_is_stored_verbatim() {
    let text = "\
shell = \"bash --norc -c '{}'\"

[[items]]
name = \"a\"
path = \"https://example.com/a\"
themes-dir = \"t\"
";
    let cfg = load(text, None).unwrap();
    assert_eq!(cfg.shell.as_deref(), Some("bash --norc -c '{}'"));
}

#[test]
fn tilde_path_expands_against_home() {
    let expanded = tinty_config::load::expand_home_path("~/themes", "/home/u");
    assert_eq!(expanded, "/home/u/themes");
}

#[test]
fn tilde_path_is_trimmed_then_expanded() {
    let text = "\
[[items]]
name = \"a\"
path = \"  ~/sub  \"
themes-dir = \"t\"
";
    let err = load(text, Some("/home/u")).unwrap_err();
    match &err {
        ConfigError::InvalidItemPath { name, path } => {
            assert_eq!(name, "a");
            assert_eq!(path, "/home/u/sub");
        },
        other => panic!("expected InvalidItemPath, got {:?}", other),
    }
}

#[test]
fn tilde_path_without_home_is_fatal() {
    let text = "\
[[items]]
name = \"a\"
path = \"~/sub\"
themes-dir = \"t\"
";
    let err = load(text, None).unwrap_err();
    match &err {
        ConfigError::HomeDirUnresolvable(p) => assert_eq!(p, "~/sub"),
        other => panic!("expected HomeDirUnresolvable, got {:?}", other),
    }
}

#[test]
fn path_neither_url_nor_directory_is_fatal() {
    let text = "\
[[items]]
name = \"a\"
path = \"not a url and not a dir\"
themes-dir = \"t\"
";
    let err = load(text, None).unwrap_err();
    match &err {
        ConfigError::InvalidItemPath { name, path } => {
            assert_eq!(name, "a");
            assert_eq!(path, "not a url and not a dir");
        },
        other => panic!("expected InvalidItemPath, got {:?}", other),
    }
    assert!(err.message().contains("not a url and not a dir"));
}

#[test]
fn existing_directory_path_is_accepted() {
    let text = "\
[[items]]
name = \"a\"
path = \"/\"
themes-dir = \"t\"
";
    let cfg = load(text, None).unwrap();
    assert_eq!(cfg.items.as_ref().unwrap()[0].path, "/");
}

#[test]
fn supported_systems_are_parsed() {
    let text = "\
[[items]]
name = \"a\"
path = \"https://example.com/a\"
themes-dir = \"t\"
supported-systems = [\"base24\", \"tinted8\", \"base16\"]
";
    let cfg = load(text, None).unwrap();
    assert_eq!(
        cfg.items.as_ref().unwrap()[0].supported_systems.as_deref(),
        Some(&[SchemeSystem::Base24, SchemeSystem::Tinted8, SchemeSystem::Base16][..])
    );
}

#[test]
fn unknown_supported_system_is_a_parse_error() {
    let text = "\
[[items]]
name = \"a\"
path = \"https://example.com/a\"
themes-dir = \"t\"
supported-systems = [\"base20\"]
";
    let err = load(text, None).unwrap_err();
    assert!(matches!(err, ConfigError::ParseError(_)));
}

#[test]
fn absent_supported_systems_default_to_base16() {
    let text = "\
[[items]]
name = \"a\"
path = \"https://example.com/a\"
themes-dir = \"t\"
";
    let cfg = load(text, None).unwrap();
    assert_eq!(
        cfg.items.as_ref().unwrap()[0].supported_systems.as_deref(),
        Some(&[SchemeSystem::Base16][..])
    );
}

#[test]
fn malformed_toml_is_a_parse_error() {
    let err = load("shell = [", None).unwrap_err();
    assert!(matches!(err, ConfigError::ParseError(_)));
}

#[test]
fn wrongly_typed_shell_is_a_parse_error() {
    let err = load("shell = 3", None).unwrap_err();
    assert!(matches!(err, ConfigError::ParseError(_)));
}

#[test]
fn item_missing_required_field_is_a_parse_error() {
    let text = "\
[[items]]
name = \"a\"
themes-dir = \"t\"
";
    let err = load(text, None).unwrap_err();
    assert!(matches!(err, ConfigError::ParseError(_)));
}

#[test]
fn root_hooks_are_kept() {
    let text = "hooks = [\"echo one\", \"echo two\"]\n";
    let cfg = load(text, None).unwrap();
    assert_eq!(
        cfg.hooks.as_deref(),
        Some(&["echo one".to_string(), "echo two".to_string()][..])
    );
}

#[test]
fn theme_file_extension_is_kept() {
    let text = "\
[[items]]
name = \"a\"
path = \"https://example.com/a\"
themes-dir = \"t\"
theme-file-extension = \".sh\"
";
    let cfg = load(text, None).unwrap();
    assert_eq!(cfg.items.as_ref().unwrap()[0].theme_file_extension.as_deref(), Some(".sh"));
}

#[test]
fn path_is_directory_message_names_the_path() {
    let err = ConfigError::PathIsDirectory("/some/dir".to_string());
    assert!(err.message().contains("/some/dir"));
}
