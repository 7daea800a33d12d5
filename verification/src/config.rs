//! The run configuration.

use vstd::prelude::*;

verus! {

/// What the user asked for: the project's name and the toggles that shape the
/// generated project. Built once and never changed afterwards.
#[derive(Clone, Debug, PartialEq, Eq)]
pub struct Config {
    /// Name of the project, and of the directory that is created for it.
    pub project_name: String,
    /// Generate a TypeScript project rather than a JavaScript one.
    pub typescript: bool,
    /// Set the project up with Tailwind CSS.
    pub tailwind: bool,
    /// Set the project up with ESLint.
    pub eslint: bool,
    /// Use the App Router.
    pub app: bool,
    /// Skip the installation prompt of the generator.
    pub skip_install: bool,
}

/// The mathematical value of a [`Config`].
pub struct ConfigView {
    pub project_name: Seq<char>,
    pub typescript: bool,
    pub tailwind: bool,
    pub eslint: bool,
    pub app: bool,
    pub skip_install: bool,
}

impl View for Config {
    type V = ConfigView;

    open spec fn view(&self) -> ConfigView {
        ConfigView {
            project_name: self.project_name@,
            typescript: self.typescript,
            tailwind: self.tailwind,
            eslint: self.eslint,
            app: self.app,
            skip_install: self.skip_install,
        }
    }
}

impl Config {
    /// The configuration for `project_name` with every toggle at its default:
    /// all four project options on, the installation prompt not skipped.
    pub fn new(project_name: String) -> (config: Config)
        ensures
            config@ == (ConfigView {
                project_name: project_name@,
                typescript: true,
                tailwind: true,
                eslint: true,
                app: true,
                skip_install: false,
            }),
    {
        Config {
            project_name,
            typescript: true,
            tailwind: true,
            eslint: true,
            app: true,
            skip_install: false,
        }
    }
}

} // verus!
