use tinty_config::config::{Config, ConfigItem};
use tinty_config::scheme::SchemeSystem;

#[test]
fn item_renders_in_file_format() {
    let item = ConfigItem {
        name: "a".to_string(),
        path: "https://example.com/a".to_string(),
        hook: Some(". %f".to_string()),
        themes_dir: "t".to_string(),
        supported_systems: Some(vec![SchemeSystem::Base16, SchemeSystem::Base24]),
        theme_file_extension: None,
    };
    assert_eq!(
        item.to_toml_string(),
        "\n[[items]]\nname = \"a\"\npath = \"https://example.com/a\"\nhook = \". %f\"\nsupported-systems = [\"base16\", \"base24\"]\nthemes-dir = \"t\""
    );
}

#[test]
fn item_render_omits_empty_hook_and_defaults_systems() {
    let item = ConfigItem {
        name: "a".to_string(),
        path: "p".to_string(),
        hook: None,
        themes_dir: "t".to_string(),
        supported_systems: None,
        theme_file_extension: None,
    };
    assert_eq!(
        item.to_toml_string(),
        "\n[[items]]\nname = \"a\"\npath = \"p\"\nsupported-systems = [\"base16\"]\nthemes-dir = \"t\""
    );
}

#[test]
fn config_render_uses_none_placeholder_for_unset_shell() {
    let cfg = Config { shell: None, default_scheme: None, items: None, hooks: None };
    assert_eq!(cfg.to_toml_string(), "shell = \"None\"\n");
}

#[test]
fn rendering_then_reloading_round_trips() {
    let text = "\
shell = \"bash -c '{}'\"
default-scheme = \"ocean\"

[[items]]
name = \"a\"
path = \"https://example.com/a\"
hook = \". %f\"
themes-dir = \"t\"
supported-systems = [\"base24\"]
";
    let first = Config::load_from_str(text, None).unwrap();
    let rendered = first.to_toml_string();
    let second = Config::load_from_str(&rendered, None).unwrap();
    assert_eq!(second.shell, first.shell);
    assert_eq!(second.default_scheme, first.default_scheme);
    assert_eq!(second.hooks, first.hooks);
    let a = first.items.as_ref().unwrap();
    let b = second.items.as_ref().unwrap();
    assert_eq!(a.len(), b.len());
    for (x, y) in a.iter().zip(b.iter()) {
        assert_eq!(x.name, y.name);
        assert_eq!(x.path, y.path);
        assert_eq!(x.hook, y.hook);
        assert_eq!(x.themes_dir, y.themes_dir);
        assert_eq!(x.supported_systems, y.supported_systems);
        assert_eq!(x.theme_file_extension, y.theme_file_extension);
    }
}

#[test]
fn scheme_names_match_the_builder_crate() {
    assert_eq!(SchemeSystem::Base16.name(), tinted_builder::SchemeSystem::Base16.as_str());
    assert_eq!(SchemeSystem::Base24.name(), tinted_builder::SchemeSystem::Base24.as_str());
    assert_eq!(SchemeSystem::Tinted8.name(), tinted_builder::SchemeSystem::Tinted8.as_str());
    assert_eq!(
        SchemeSystem::default().name(),
        tinted_builder::SchemeSystem::default().as_str()
    );
}

#[test]
fn scheme_names_round_trip_through_of_name() {
    for sys in [SchemeSystem::Base16, SchemeSystem::Base24, SchemeSystem::Tinted8] {
        assert_eq!(SchemeSystem::of_name(sys.name()), Some(sys));
    }
    assert_eq!(SchemeSystem::of_name("base20"), None);
}
