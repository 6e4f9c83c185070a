//! Core resource model for generating Quadlet unit files: a closed set of
//! resource kinds sharing textual rendering, host-path access and
//! version-gated downgrading, plus the compatibility engine that decides
//! which options a given target Podman version supports.

pub mod autoupdate;
pub mod blocks;
pub mod container;
pub mod downgrade;
pub mod file;
pub mod globals;
pub mod hostpaths;
pub mod image;
pub mod kind;
pub mod kube;
pub mod laws;
pub mod network;
pub mod pod;
pub mod render;
pub mod resource;
pub mod version;
pub mod volume;

pub use autoupdate::AutoUpdate;
pub use autoupdate::ParseAutoUpdateError;
pub use downgrade::Downgrade;
pub use downgrade::DowngradeError;
pub use file::File;
pub use hostpaths::HostPaths;
pub use kind::ResourceKind;
pub use resource::Resource;
pub use version::PodmanVersion;
