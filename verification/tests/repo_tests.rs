use ign::models::TemplateCategory;
use ign::repo::{extract_clean_name, resolve_smart_alias};

#[test]
fn test_extract_clean_name() {
    assert_eq!(extract_clean_name("Rust.gitignore"), "Rust");
    assert_eq!(extract_clean_name("Global/macOS.gitignore"), "Global/macOS");
    assert_eq!(
        extract_clean_name("community/Elixir/Phoenix.gitignore"),
        "community/Elixir/Phoenix"
    );
}

#[test]
fn test_smart_aliases() {
    assert_eq!(resolve_smart_alias("macos"), Some("Global/macOS"));
    assert_eq!(resolve_smart_alias("mac"), Some("Global/macOS"));
    assert_eq!(resolve_smart_alias("vscode"), Some("Global/Visual_Studio_Code"));
    assert_eq!(resolve_smart_alias("idea"), Some("Global/JetBrains"));
    assert_eq!(resolve_smart_alias("rust"), Some("Rust"));
    assert_eq!(resolve_smart_alias("python"), Some("Python"));
}

#[test]
fn test_category_from_path() {
    assert_eq!(
        TemplateCategory::from_relative_path("Rust.gitignore"),
        TemplateCategory::Language
    );
    assert_eq!(
        TemplateCategory::from_relative_path("Global/macOS.gitignore"),
        TemplateCategory::Global
    );
    assert_eq!(
        TemplateCategory::from_relative_path("community/Elixir/Phoenix.gitignore"),
        TemplateCategory::Community
    );
    assert_eq!(
        TemplateCategory::from_relative_path("community/DotNet/WPF.gitignore"),
        TemplateCategory::Community
    );
}
