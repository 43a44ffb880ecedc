use jvm_launcher::config::{
    default_config_path, override_config_path, resolve, Config, ConfigError, ConfigLayer,
};
use jvm_launcher::path::json_file_name;
use jvm_launcher::plan::internal_class_name;
use jvm_launcher::platform::Os;

fn strings(v: &[&str]) -> Vec<String> {
    v.iter().map(|s| s.to_string()).collect()
}

fn full_layer() -> ConfigLayer {
    ConfigLayer {
        class_path: Some(strings(&["base.jar"])),
        main_class: Some("org.example.App".to_string()),
        vm_args: Some(strings(&["-Xmx1g"])),
        args: Some(strings(&["--base"])),
        use_zgc_if_supported_os: Some(true),
        use_main_as_context_class_loader: Some(true),
        run_on_first_thread: Some(true),
    }
}

fn resolved(base: Option<ConfigLayer>, over: Option<ConfigLayer>) -> Config {
    resolve(base, over).expect("configuration should resolve")
}

#[test]
fn merge_takes_present_fields_from_override() {
    let mut base = ConfigLayer::empty();
    base.class_path = Some(strings(&["a.jar"]));
    let mut over = ConfigLayer::empty();
    over.main_class = Some("com.foo.Main".to_string());
    let c = resolved(Some(base), Some(over));
    assert_eq!(c.class_path, strings(&["a.jar"]));
    assert_eq!(c.main_class, "com.foo.Main");
    assert_eq!(internal_class_name(&c.main_class), "com/foo/Main");
}

#[test]
fn merge_explicit_empty_and_false_override_default() {
    let mut over = ConfigLayer::empty();
    over.vm_args = Some(Vec::new());
    over.args = Some(Vec::new());
    over.use_zgc_if_supported_os = Some(false);
    over.use_main_as_context_class_loader = Some(false);
    over.run_on_first_thread = Some(false);
    let c = resolved(Some(full_layer()), Some(over));
    assert!(c.vm_args.is_empty());
    assert!(c.args.is_empty());
    assert!(!c.use_zgc_if_supported_os);
    assert!(!c.use_main_as_context_class_loader);
    assert!(!c.run_on_first_thread);
    assert_eq!(c.class_path, strings(&["base.jar"]));
}

#[test]
fn merge_unset_fields_inherit_default() {
    let c = resolved(Some(full_layer()), Some(ConfigLayer::empty()));
    assert_eq!(c.class_path, strings(&["base.jar"]));
    assert_eq!(c.main_class, "org.example.App");
    assert_eq!(c.vm_args, strings(&["-Xmx1g"]));
    assert_eq!(c.args, strings(&["--base"]));
    assert!(c.use_zgc_if_supported_os);
    assert!(c.use_main_as_context_class_loader);
    assert!(c.run_on_first_thread);
}

#[test]
fn override_values_replace_default_values() {
    let mut over = ConfigLayer::empty();
    over.class_path = Some(strings(&["x.jar", "y.jar"]));
    over.main_class = Some("x.Main".to_string());
    let c = resolved(Some(full_layer()), Some(over));
    assert_eq!(c.class_path, strings(&["x.jar", "y.jar"]));
    assert_eq!(c.main_class, "x.Main");
    assert_eq!(c.vm_args, strings(&["-Xmx1g"]));
}

#[test]
fn missing_override_uses_default_alone() {
    let c = resolved(Some(full_layer()), None);
    assert_eq!(c.main_class, "org.example.App");
}

#[test]
fn optional_fields_default_to_empty_and_false() {
    let mut base = ConfigLayer::empty();
    base.class_path = Some(Vec::new());
    base.main_class = Some("Main".to_string());
    let c = resolved(Some(base), None);
    assert!(c.class_path.is_empty());
    assert!(c.vm_args.is_empty());
    assert!(c.args.is_empty());
    assert!(!c.use_zgc_if_supported_os);
    assert!(!c.use_main_as_context_class_loader);
    assert!(!c.run_on_first_thread);
}

#[test]
fn missing_main_class_in_both_layers_fails() {
    let mut base = ConfigLayer::empty();
    base.class_path = Some(strings(&["a.jar"]));
    let r = resolve(Some(base), Some(ConfigLayer::empty()));
    assert_eq!(r.err(), Some(ConfigError::MissingMainClass));
}

#[test]
fn missing_class_path_fails() {
    let mut base = ConfigLayer::empty();
    base.main_class = Some("Main".to_string());
    let r = resolve(Some(base), None);
    assert_eq!(r.err(), Some(ConfigError::MissingClassPath));
}

#[test]
fn unreadable_default_fails_even_with_override() {
    let r = resolve(None, Some(full_layer()));
    assert_eq!(r.err(), Some(ConfigError::DefaultUnavailable));
}

#[test]
fn json_file_name_replaces_extension() {
    assert_eq!(json_file_name("launcher.exe"), "launcher.json");
    assert_eq!(json_file_name("launcher"), "launcher.json");
    assert_eq!(json_file_name("my.app.bin"), "my.app.json");
    assert_eq!(json_file_name(".hidden"), ".hidden.json");
    assert_eq!(json_file_name("trailing."), "trailing.json");
    assert_eq!(json_file_name(""), ".json");
}

#[test]
fn config_locations() {
    assert_eq!(
        default_config_path(Os::Linux, "/opt/app", "launcher"),
        "/opt/app/app/launcher.json"
    );
    assert_eq!(
        override_config_path(Os::Linux, "/opt/app", "launcher"),
        "/opt/app/launcher.json"
    );
    assert_eq!(
        default_config_path(Os::Windows, "C:\\Tools", "launcher.exe"),
        "C:\\Tools\\app\\launcher.json"
    );
    assert_eq!(
        override_config_path(Os::Windows, "C:\\Tools\\", "launcher.exe"),
        "C:\\Tools\\launcher.json"
    );
}
