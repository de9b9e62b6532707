use oviec::branding::{BrandingConfig, ProjectTemplate};

#[test]
fn test_branding_config_creation() {
    let config = BrandingConfig::new();
    assert_eq!(config.project_name, "Ovie");
    assert_eq!(config.icon_path, "ovie.png");
    assert!(!config.project_version.is_empty());
}

#[test]
fn test_branding_config_customization() {
    let config = BrandingConfig::new()
        .with_project_name("My Ovie Project".to_string())
        .with_icon_path("custom/icon.png");

    assert_eq!(config.project_name, "My Ovie Project");
    assert_eq!(config.icon_path, "custom/icon.png");
}

#[test]
fn test_project_template_creation() {
    let template = ProjectTemplate::new();
    assert_eq!(template.branding.project_name, "Ovie");
}

#[test]
fn test_project_metadata_generation() {
    let config = BrandingConfig::new();
    let metadata = config.project_metadata("/opt/ovie/ovie.png".to_string());
    assert_eq!(metadata.name, "Ovie");
    assert!(!metadata.version.is_empty());
    assert!(metadata.icon_exists);
    assert_eq!(metadata.icon_path, "/opt/ovie/ovie.png");
}

#[test]
fn default_branding_values() {
    let config = BrandingConfig::default();
    assert_eq!(config.project_version, "2.3.0");
    assert_eq!(config.project_description, "The Ovie Programming Language");
    assert_eq!(config.project_website, "https://github.com/ovie-lang/ovie");
}

#[test]
fn project_config_text() {
    let template = ProjectTemplate::new();
    let text = template.project_config("demo");
    assert!(text.starts_with("[project]\nname = \"demo\"\nversion = \"0.1.0\"\n"));
    assert!(text.ends_with("project_url = \"https://github.com/ovie-lang/ovie\"\n"));
}

#[test]
fn readme_text_mentions_project_and_site() {
    let template = ProjectTemplate::with_branding(BrandingConfig::new());
    let text = template.readme("demo");
    assert!(text.starts_with("# demo\n\n![Ovie Logo](ovie.png)\n"));
    assert!(text.contains("Learn more at [https://github.com/ovie-lang/ovie](https://github.com/ovie-lang/ovie)."));
}

#[test]
fn branding_file_text() {
    let template = ProjectTemplate::with_branding(BrandingConfig::new().with_project_name("Proj".to_string()));
    let text = template.branding_file();
    assert_eq!(
        text,
        "[branding]\nicon = \"ovie.png\"\nproject_name = \"Proj\"\nproject_description = \"The Ovie Programming Language\"\nproject_version = \"2.3.0\"\nproject_website = \"https://github.com/ovie-lang/ovie\"\n\n[icon]\npath = \"ovie.png\"\nformat = \"PNG\"\nsize = \"256x256\"\n"
    );
}
