//! Workload packaging: templated package descriptions, their compilation into
//! resolved packages, and the command lines and service units derived from them.

pub mod cli;
pub mod config;
pub mod error;
pub mod globals;
pub mod input;
pub mod package;
pub mod prompt;
pub mod registry;
pub mod systemd;
pub mod text;

pub use cli::{
    generate_command, generate_container_command, generate_vm_command, vm_image_download,
    vm_ping, vm_quit, vm_shutdown, ImageDownload, MonitorSession,
};
pub use config::{Client, Config, LogLevel, RegistryConfig, Server};
pub use error::Error;
pub use globals::{Global, Variables};
pub use input::{Input, InputType, SelectOption, TemplatedInput};
pub use package::{
    CompiledNetworking, CompiledPackage, CompiledResources, CompiledSource, CompiledStorage,
    CompiledSystem, CompiledVolume, Networking, PackageTitle, Resources, Source, SourcePackage,
    Storage, System, Volume,
};
pub use prompt::{Prompt, PromptCollection, PromptParser, PromptResponse, PromptResponses};
pub use registry::{GlobalRegistry, Registry, ResponseRegistry};
pub use systemd::SystemdUnit;
