use ocomp::config::{
    check_version, classify_config_version, config_dir_path, config_file_path,
    default_config_text, is_yes_answer, migration_confirmed, migration_step, BuildConfig, Config, MigrationStep,
    VersionCheck,
};

fn target(build: &str, output: &str) -> BuildConfig {
    BuildConfig { build: build.to_string(), output: output.to_string() }
}

#[test]
fn version_one_zero_loads_and_two_zero_prompts() {
    assert_eq!(classify_config_version("1.0.0"), VersionCheck::Current);
    assert_eq!(classify_config_version("2.0.0"), VersionCheck::Mismatch);
}

#[test]
fn patch_differences_are_ignored() {
    assert_eq!(classify_config_version("1.0.9"), VersionCheck::Current);
    assert_eq!(classify_config_version("1.1.0"), VersionCheck::Mismatch);
    assert_eq!(classify_config_version("0.0.1"), VersionCheck::Mismatch);
}

#[test]
fn invalid_version_text() {
    assert_eq!(classify_config_version("one"), VersionCheck::Invalid);
    assert_eq!(classify_config_version(""), VersionCheck::Invalid);
    assert_eq!(check_version(None), VersionCheck::Invalid);
    assert_eq!(check_version(Some((1, 0, 3))), VersionCheck::Current);
    assert_eq!(check_version(Some((1, 2, 0))), VersionCheck::Mismatch);
}

#[test]
fn migration_answers() {
    assert!(migration_confirmed("y\n"));
    assert!(migration_confirmed("  Y \r\n"));
    assert!(!migration_confirmed("\n"));
    assert!(!migration_confirmed("n\n"));
    assert!(!migration_confirmed("yes\n"));
    assert!(is_yes_answer("y"));
    assert!(!is_yes_answer(" y"));
}

#[test]
fn config_locations() {
    assert_eq!(config_dir_path("/home/u", false), "/home/u/.config/ocomp");
    assert_eq!(config_dir_path("", false), ".config/ocomp");
    assert_eq!(config_dir_path("C:/Users/u/AppData/Roaming", true), "C:/Users/u/AppData/Roaming/ocomp");
    assert_eq!(config_file_path("/home/u/.config/ocomp"), "/home/u/.config/ocomp/config.toml");
}

#[test]
fn default_config_has_version_and_rust_section() {
    let text = default_config_text();
    let table: toml::Table = toml::from_str(&text).expect("default config parses");
    assert_eq!(table["version"].as_str(), Some("1.0.0"));
    let rust = table["rust"].as_table().expect("rust section");
    assert_eq!(rust["build"].as_str(), Some("cargo build --release"));
    assert_eq!(rust["output"].as_str(), Some("target/release/*.exe"));
    assert_eq!(table.len(), 2);
    assert_eq!(classify_config_version(table["version"].as_str().unwrap()), VersionCheck::Current);
}

#[test]
fn duplicate_target_names_rejected() {
    let ok = Config::from_sections(
        "1.0.0".to_string(),
        vec![("rust".to_string(), target("cargo build", "*.exe")), ("go".to_string(), target("go build", "app"))],
    );
    let ok = ok.expect("unique names");
    assert_eq!(ok.version(), "1.0.0");
    assert_eq!(ok.sections().len(), 2);
    assert_eq!(ok.sections()[1].0, "go");
    let dup = Config::from_sections(
        "1.0.0".to_string(),
        vec![("rust".to_string(), target("a", "b")), ("rust".to_string(), target("c", "d"))],
    );
    assert!(dup.is_none());
}

#[test]
fn migration_steps() {
    assert_eq!(migration_step("y\n"), MigrationStep::Regenerate);
    assert_eq!(migration_step("N\n"), MigrationStep::Exit);
    assert_eq!(migration_step(""), MigrationStep::Exit);
}
