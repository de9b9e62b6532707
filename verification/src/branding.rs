//! Ovie branding: the project's name, description, version, website and
//! icon, and the text of the files a new project is given.

use vstd::prelude::*;
use crate::build_config::{compiler_version, compiler_version_text};
use crate::text::{append, owned};

verus! {

/// Branding configuration as plain values.
pub struct BrandingView {
    pub icon_path: Seq<char>,
    pub project_name: Seq<char>,
    pub project_description: Seq<char>,
    pub project_version: Seq<char>,
    pub project_website: Seq<char>,
}

/// Ovie branding configuration. The icon path is kept as text.
#[derive(Debug, Clone)]
pub struct BrandingConfig {
    /// Path to the main Ovie icon
    pub icon_path: String,
    /// Project name
    pub project_name: String,
    /// Project description
    pub project_description: String,
    /// Project version
    pub project_version: String,
    /// Project website
    pub project_website: String,
}

impl View for BrandingConfig {
    type V = BrandingView;

    open spec fn view(&self) -> BrandingView {
        BrandingView {
            icon_path: self.icon_path@,
            project_name: self.project_name@,
            project_description: self.project_description@,
            project_version: self.project_version@,
            project_website: self.project_website@,
        }
    }
}

/// The default branding: the `ovie.png` icon, the Ovie project, this
/// compiler's version and the project's website.
pub open spec fn default_branding() -> BrandingView {
    BrandingView {
        icon_path: "ovie.png"@,
        project_name: "Ovie"@,
        project_description: "The Ovie Programming Language"@,
        project_version: compiler_version_text(),
        project_website: "https://github.com/ovie-lang/ovie"@,
    }
}

impl Default for BrandingConfig {
    fn default() -> (r: Self)
        ensures
            r@ == default_branding(),
    {
        BrandingConfig {
            icon_path: owned("ovie.png"),
            project_name: owned("Ovie"),
            project_description: owned("The Ovie Programming Language"),
            project_version: owned(compiler_version()),
            project_website: owned("https://github.com/ovie-lang/ovie"),
        }
    }
}

impl BrandingConfig {
    /// Create a new branding configuration with the defaults.
    pub fn new() -> (r: Self)
        ensures
            r@ == default_branding(),
    {
        BrandingConfig::default()
    }

    /// Set custom icon path.
    pub fn with_icon_path(self, path: &str) -> (r: Self)
        ensures
            r@ == (BrandingView { icon_path: path@, ..self@ }),
    {
        BrandingConfig { icon_path: owned(path), ..self }
    }

    /// Set project name.
    pub fn with_project_name(self, name: String) -> (r: Self)
        ensures
            r@ == (BrandingView { project_name: name@, ..self@ }),
    {
        BrandingConfig { project_name: name, ..self }
    }

    /// The project metadata of this branding, with the icon found at
    /// `icon_path`.
    pub fn project_metadata(&self, icon_path: String) -> (r: ProjectMetadata)
        ensures
            r.name@ == self.project_name@,
            r.description@ == self.project_description@,
            r.version@ == self.project_version@,
            r.website@ == self.project_website@,
            r.icon_path@ == icon_path@,
            r.icon_exists,
    {
        ProjectMetadata {
            name: self.project_name.clone(),
            description: self.project_description.clone(),
            version: self.project_version.clone(),
            website: self.project_website.clone(),
            icon_path,
            icon_exists: true,
        }
    }
}

/// Project metadata including branding information.
#[derive(Debug, Clone)]
pub struct ProjectMetadata {
    pub name: String,
    pub description: String,
    pub version: String,
    pub website: String,
    pub icon_path: String,
    pub icon_exists: bool,
}

/// Project template generator with branding.
#[derive(Debug, Clone)]
pub struct ProjectTemplate {
    pub branding: BrandingConfig,
}

/// The `ovie.toml` of a new project.
pub open spec fn project_config_text(project_name: Seq<char>, website: Seq<char>) -> Seq<char> {
    "[project]\nname = \""@ + project_name
        + "\"\nversion = \"0.1.0\"\ndescription = \"An Ovie project\"\nicon = \"ovie.png\"\n\n[build]\ntarget = \"interpreter\"\noptimize = false\n\n[dependencies]\n# Add your dependencies here\n\n[branding]\nicon = \"ovie.png\"\nproject_url = \""@
        + website + "\"\n"@
}

/// The `README.md` of a new project.
pub open spec fn readme_text(project_name: Seq<char>, website: Seq<char>) -> Seq<char> {
    "# "@ + project_name + "\n\n![Ovie Logo](ovie.png)\n\nA project built with the [Ovie Programming Language]("@
        + website
        + ").\n\n## Getting Started\n\n```bash\n# Run the project\novie run main.ov\n\n# Build the project\novie build\n\n# Run tests\novie test\n```\n\n## About Ovie\n\nOvie is a modern programming language designed for clarity, safety, and performance.\nLearn more at ["@
        + website + "]("@ + website
        + ").\n\n## Project Structure\n\n- `main.ov` - Main application file\n- `ovie.toml` - Project configuration\n- `ovie.png` - Ovie language icon\n- `tests/` - Test files\n\n## License\n\nThis project is licensed under the same terms as the Ovie programming language.\n"@
}

/// The `.ovie/branding.toml` of a new project.
pub open spec fn branding_file_text(b: BrandingView) -> Seq<char> {
    "[branding]\nicon = \"ovie.png\"\nproject_name = \""@ + b.project_name + "\"\nproject_description = \""@
        + b.project_description + "\"\nproject_version = \""@ + b.project_version
        + "\"\nproject_website = \""@ + b.project_website
        + "\"\n\n[icon]\npath = \"ovie.png\"\nformat = \"PNG\"\nsize = \"256x256\"\n"@
}

impl ProjectTemplate {
    /// Create a new project template with default branding.
    pub fn new() -> (r: Self)
        ensures
            r.branding@ == default_branding(),
    {
        ProjectTemplate { branding: BrandingConfig::new() }
    }

    /// Create a new project template with custom branding.
    pub fn with_branding(branding: BrandingConfig) -> (r: Self)
        ensures
            r.branding@ == branding@,
    {
        ProjectTemplate { branding }
    }

    /// The `ovie.toml` of a new project of this template.
    pub fn project_config(&self, project_name: &str) -> (r: String)
        ensures
            r@ == project_config_text(project_name@, self.branding.project_website@),
    {
        let mut out = owned("[project]\nname = \"");
        append(&mut out, project_name);
        append(
            &mut out,
            "\"\nversion = \"0.1.0\"\ndescription = \"An Ovie project\"\nicon = \"ovie.png\"\n\n[build]\ntarget = \"interpreter\"\noptimize = false\n\n[dependencies]\n# Add your dependencies here\n\n[branding]\nicon = \"ovie.png\"\nproject_url = \"",
        );
        append(&mut out, self.branding.project_website.as_str());
        append(&mut out, "\"\n");
        out
    }

    /// The `README.md` of a new project of this template.
    pub fn readme(&self, project_name: &str) -> (r: String)
        ensures
            r@ == readme_text(project_name@, self.branding.project_website@),
    {
        let website = self.branding.project_website.as_str();
        let mut out = owned("# ");
        append(&mut out, project_name);
        append(&mut out, "\n\n![Ovie Logo](ovie.png)\n\nA project built with the [Ovie Programming Language](");
        append(&mut out, website);
        append(
            &mut out,
            ").\n\n## Getting Started\n\n```bash\n# Run the project\novie run main.ov\n\n# Build the project\novie build\n\n# Run tests\novie test\n```\n\n## About Ovie\n\nOvie is a modern programming language designed for clarity, safety, and performance.\nLearn more at [",
        );
        append(&mut out, website);
        append(&mut out, "](");
        append(&mut out, website);
        append(
            &mut out,
            ").\n\n## Project Structure\n\n- `main.ov` - Main application file\n- `ovie.toml` - Project configuration\n- `ovie.png` - Ovie language icon\n- `tests/` - Test files\n\n## License\n\nThis project is licensed under the same terms as the Ovie programming language.\n",
        );
        out
    }

    /// The `.ovie/branding.toml` of a new project of this template.
    pub fn branding_file(&self) -> (r: String)
        ensures
            r@ == branding_file_text(self.branding@),
    {
        let mut out = owned("[branding]\nicon = \"ovie.png\"\nproject_name = \"");
        append(&mut out, self.branding.project_name.as_str());
        append(&mut out, "\"\nproject_description = \"");
        append(&mut out, self.branding.project_description.as_str());
        append(&mut out, "\"\nproject_version = \"");
        append(&mut out, self.branding.project_version.as_str());
        append(&mut out, "\"\nproject_website = \"");
        append(&mut out, self.branding.project_website.as_str());
        append(&mut out, "\"\n\n[icon]\npath = \"ovie.png\"\nformat = \"PNG\"\nsize = \"256x256\"\n");
        out
    }
}

impl Default for ProjectTemplate {
    fn default() -> (r: Self)
        ensures
            r.branding@ == default_branding(),
    {
        ProjectTemplate::new()
    }
}

} // verus!
