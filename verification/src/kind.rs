//! The closed set of Quadlet resource kinds.

use vstd::prelude::*;
use crate::version::PodmanVersion;

verus! {

/// Quadlet resource kinds.
#[derive(Debug, Clone, Copy, PartialEq, Eq, Structural)]
pub enum ResourceKind {
    Container,
    Pod,
    Kube,
    Network,
    Volume,
    Image,
}

impl ResourceKind {
    /// The kind's lowercase name, used as the generated unit file's extension.
    pub open spec fn spec_str(self) -> Seq<char> {
        match self {
            ResourceKind::Container => "container"@,
            ResourceKind::Pod => "pod"@,
            ResourceKind::Kube => "kube"@,
            ResourceKind::Network => "network"@,
            ResourceKind::Volume => "volume"@,
            ResourceKind::Image => "image"@,
        }
    }

    /// Resource kind as a lowercase static string slice.
    pub fn as_str(self) -> (r: &'static str)
        ensures
            r@ == self.spec_str(),
    {
        match self {
            ResourceKind::Container => "container",
            ResourceKind::Pod => "pod",
            ResourceKind::Kube => "kube",
            ResourceKind::Network => "network",
            ResourceKind::Volume => "volume",
            ResourceKind::Image => "image",
        }
    }

    /// The first Podman version that understands Quadlet files of this kind.
    /// `.image` units appeared in v4.8 and `.pod` units in v5.0; the other
    /// kinds have been supported since Quadlet itself was added in v4.4.
    pub open spec fn spec_min_version(self) -> PodmanVersion {
        match self {
            ResourceKind::Pod => PodmanVersion::V5_0,
            ResourceKind::Image => PodmanVersion::V4_8,
            _ => PodmanVersion::V4_4,
        }
    }

    /// First Podman version supporting this kind; agrees with
    /// [`Self::spec_min_version`].
    pub fn min_version(self) -> (r: PodmanVersion)
        ensures
            r == self.spec_min_version(),
    {
        match self {
            ResourceKind::Pod => PodmanVersion::V5_0,
            ResourceKind::Image => PodmanVersion::V4_8,
            _ => PodmanVersion::V4_4,
        }
    }

    /// The service-name suffix that Quadlet inserts before `.service` for
    /// units of this kind.
    pub open spec fn spec_service_suffix(self) -> Seq<char> {
        match self {
            ResourceKind::Container => ""@,
            ResourceKind::Kube => ""@,
            ResourceKind::Pod => "-pod"@,
            ResourceKind::Network => "-network"@,
            ResourceKind::Volume => "-volume"@,
            ResourceKind::Image => "-image"@,
        }
    }

    /// Service-name suffix for this kind; agrees with
    /// [`Self::spec_service_suffix`].
    pub fn service_suffix(self) -> (r: &'static str)
        ensures
            r@ == self.spec_service_suffix(),
    {
        match self {
            ResourceKind::Container => "",
            ResourceKind::Kube => "",
            ResourceKind::Pod => "-pod",
            ResourceKind::Network => "-network",
            ResourceKind::Volume => "-volume",
            ResourceKind::Image => "-image",
        }
    }
}

} // verus!
