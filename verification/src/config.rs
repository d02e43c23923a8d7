//! Project configuration: its default value, and what is to be done on
//! disk to load, initialise or save it.

use crate::filesystem::DirectoryRequest;
use crate::filesystem::DirectoryRequestView;
use crate::filesystem::ProjectPaths;
use crate::filesystem::ProjectPathsView;
use crate::filesystem::DIRECTORY_MODE;
use crate::platform::host_name;
use crate::platform::now;
use crate::platform::project_dirs;
use crate::types::clone_text;
use crate::types::ProjectMetadata;
use crate::types::ProjectMetadataView;
use chrono::NaiveDateTime;
use directories::ProjectDirs;
use vstd::prelude::*;
use vstd::string::*;

verus! {

/// Permissions of the configuration file: owner may read and write.
pub const CONFIG_FILE_MODE: u32 = 0o600;

/// What is stored in `config.toml`.
#[derive(Debug)]
pub struct MiyabiConfig {
    pub project: ProjectMetadata,
    pub github_token: Option<String>,
}

/// Mathematical view of a [`MiyabiConfig`].
pub struct MiyabiConfigView {
    pub project: ProjectMetadataView,
    pub github_token: Option<Seq<char>>,
}

impl View for MiyabiConfig {
    type V = MiyabiConfigView;

    open spec fn view(&self) -> MiyabiConfigView {
        MiyabiConfigView { project: self.project@, github_token: self.github_token.deep_view() }
    }
}

impl Clone for MiyabiConfig {
    fn clone(&self) -> (copy: Self)
        ensures
            copy@ == self@,
    {
        MiyabiConfig {
            project: self.project.clone(),
            github_token: clone_text(&self.github_token),
        }
    }
}

/// The device identifier of a machine whose host name is `host`: the host
/// name, or `unknown-device` where there is none.
pub open spec fn device_identifier(host: Option<Seq<char>>) -> Seq<char> {
    match host {
        Some(name) => name,
        None => "unknown-device"@,
    }
}

/// The configuration of a project that has just been created at
/// `created_at` on the device `device`.
pub open spec fn initial_config(created_at: NaiveDateTime, device: Seq<char>) -> MiyabiConfigView {
    MiyabiConfigView {
        project: ProjectMetadataView {
            name: "miyabi-project"@,
            repository: None,
            created_at,
            device_identifier: device,
        },
        github_token: None,
    }
}

impl MiyabiConfig {
    /// The configuration of a project created at `created_at` on a machine
    /// whose host name is `host`.
    pub fn initial(created_at: NaiveDateTime, host: Option<String>) -> (config: Self)
        ensures
            config@ == initial_config(created_at, device_identifier(host.deep_view())),
    {
        let device = match host {
            Some(name) => name,
            None => String::from_str("unknown-device"),
        };
        MiyabiConfig {
            project: ProjectMetadata {
                name: String::from_str("miyabi-project"),
                repository: None,
                created_at,
                device_identifier: device,
            },
            github_token: None,
        }
    }
}

impl Default for MiyabiConfig {
    /// The initial configuration as of now, on this machine.
    fn default() -> (config: Self)
        ensures
            config@ == initial_config(
                config.project.created_at,
                config.project.device_identifier@,
            ),
    {
        MiyabiConfig::initial(now(), host_name())
    }
}

/// Why a configuration step could not be taken.
#[derive(Debug, Clone, Copy, PartialEq, Eq, Structural)]
pub enum ConfigError {
    /// No per-user directories could be determined for the application.
    NoProjectDirectories,
}

impl ConfigError {
    /// The text shown to the user for this failure.
    pub open spec fn spec_message(self) -> Seq<char> {
        match self {
            ConfigError::NoProjectDirectories => "failed to determine project directories"@,
        }
    }

    /// The text shown to the user for this failure.
    pub fn message(&self) -> (text: String)
        ensures
            text@ == self.spec_message(),
    {
        match self {
            ConfigError::NoProjectDirectories => String::from_str(
                "failed to determine project directories",
            ),
        }
    }
}

/// What is to be done on disk to store a configuration: create the
/// directories in order, then write the serialised configuration to `file`
/// and give the file the permissions `file_mode`.
#[derive(Debug, Clone)]
pub struct SavePlan {
    pub directories: Vec<DirectoryRequest>,
    pub file: String,
    pub file_mode: u32,
}

/// Mathematical view of a [`SavePlan`].
pub struct SavePlanView {
    pub directories: Seq<DirectoryRequestView>,
    pub file: Seq<char>,
    pub file_mode: u32,
}

impl View for SavePlan {
    type V = SavePlanView;

    open spec fn view(&self) -> SavePlanView {
        SavePlanView {
            directories: self.directories.deep_view(),
            file: self.file@,
            file_mode: self.file_mode,
        }
    }
}

/// The plan for storing a configuration in the workspace `paths`.
pub open spec fn save_plan(paths: ProjectPathsView) -> SavePlanView {
    SavePlanView {
        directories: paths.structure(),
        file: paths.config_file(),
        file_mode: CONFIG_FILE_MODE,
    }
}

/// A fresh configuration together with the plan for storing it.
#[derive(Debug)]
pub struct InitPlan {
    pub config: MiyabiConfig,
    pub save: SavePlan,
}

/// How to obtain the configuration of a workspace.
#[derive(Debug)]
pub enum ConfigStep {
    /// Read and parse the file at `path`.
    Load { path: String },
    /// Store the fresh configuration as planned, and use it.
    Init(InitPlan),
}

/// Decides what is to be done about the configuration of one workspace.
#[derive(Debug, Clone)]
pub struct MiyabiConfigManager {
    paths: ProjectPaths,
}

impl View for MiyabiConfigManager {
    type V = ProjectPathsView;

    closed spec fn view(&self) -> ProjectPathsView {
        self.paths@
    }
}

impl MiyabiConfigManager {
    /// The manager of the workspace rooted at `root`. Never fails.
    pub fn new(root: &str) -> (result: Result<Self, ConfigError>)
        ensures
            result matches Ok(manager) && manager@ == crate::filesystem::layout(root@),
    {
        Ok(MiyabiConfigManager { paths: ProjectPaths::new(root) })
    }

    /// The manager of the workspace with the given paths.
    pub fn from_paths(paths: ProjectPaths) -> (manager: Self)
        ensures
            manager@ == paths@,
    {
        MiyabiConfigManager { paths }
    }

    /// The paths of the workspace.
    pub fn paths(&self) -> (paths: &ProjectPaths)
        ensures
            paths@ == self@,
    {
        &self.paths
    }

    /// Loading where the configuration file is present, initialising with
    /// defaults where it is not.
    pub fn load_or_init(&self, config_file_present: bool) -> (step: ConfigStep)
        ensures
            config_file_present ==> (step matches ConfigStep::Load { path } && path@
                == self@.config_file()),
            !config_file_present ==> (step matches ConfigStep::Init(plan) && plan.save@
                == save_plan(self@) && plan.config@ == initial_config(
                plan.config.project.created_at,
                plan.config.project.device_identifier@,
            )),
    {
        if config_file_present {
            ConfigStep::Load { path: self.paths.config_file() }
        } else {
            ConfigStep::Init(self.init_with_defaults())
        }
    }

    /// The default configuration as of now, with the plan for storing it.
    pub fn init_with_defaults(&self) -> (plan: InitPlan)
        ensures
            plan.save@ == save_plan(self@),
            plan.config@ == initial_config(
                plan.config.project.created_at,
                plan.config.project.device_identifier@,
            ),
    {
        InitPlan { config: MiyabiConfig::default(), save: self.save() }
    }

    /// The plan for storing a configuration: the workspace directories,
    /// then `config.toml`, readable and writable by the owner only.
    pub fn save(&self) -> (plan: SavePlan)
        ensures
            plan@ == save_plan(self@),
    {
        SavePlan {
            directories: self.paths.ensure_structure(),
            file: self.paths.config_file(),
            file_mode: CONFIG_FILE_MODE,
        }
    }

    /// The directory that holds everything the tool stores.
    pub fn config_dir(&self) -> (path: &String)
        ensures
            path@ == self@.config,
    {
        &self.paths.config
    }

    /// The logs directory, as a request to create it before use.
    pub fn logs_dir(&self) -> (request: DirectoryRequest)
        ensures
            request@ == (DirectoryRequestView { path: self@.logs, mode: DIRECTORY_MODE }),
    {
        DirectoryRequest { path: self.paths.logs.clone(), mode: DIRECTORY_MODE }
    }

    /// The reports directory, as a request to create it before use.
    pub fn reports_dir(&self) -> (request: DirectoryRequest)
        ensures
            request@ == (DirectoryRequestView { path: self@.reports, mode: DIRECTORY_MODE }),
    {
        DirectoryRequest { path: self.paths.reports.clone(), mode: DIRECTORY_MODE }
    }

    /// The per-user directories of the application, or
    /// [`ConfigError::NoProjectDirectories`] where the system has none to
    /// offer.
    pub fn global_dirs() -> (result: Result<ProjectDirs, ConfigError>)
        ensures
            result matches Err(error) ==> error == ConfigError::NoProjectDirectories,
    {
        directories_or_error(project_dirs("dev", "Miyabi", "miyabi"))
    }
}

/// The directories that were found, or the error that says none were.
pub fn directories_or_error(found: Option<ProjectDirs>) -> (result: Result<
    ProjectDirs,
    ConfigError,
>)
    ensures
        result == match found {
            Some(dirs) => Ok::<ProjectDirs, ConfigError>(dirs),
            None => Err::<ProjectDirs, ConfigError>(ConfigError::NoProjectDirectories),
        },
{
    match found {
        Some(dirs) => Ok(dirs),
        None => Err(ConfigError::NoProjectDirectories),
    }
}

} // verus!
