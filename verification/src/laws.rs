//! Laws of the compatibility engine, proved over the abstract states that
//! the executable functions' contracts are stated with.

use vstd::prelude::*;
use crate::downgrade::Downgrade;
use crate::downgrade::DowngradeErrorView;
use crate::file::File;
use crate::file::FileView;
use crate::globals::Globals;
use crate::hostpaths::HostPaths;
use crate::kind::ResourceKind;
use crate::kube::KubeView;
use crate::network::NetworkView;
use crate::resource::Resource;
use crate::resource::ResourceView;
use crate::version::PodmanVersion;

verus! {

/// Downgrading never re-adds options: after a file downgrades to `v1`
/// without error, downgrading the result to any version `v2` at or above
/// `v1` succeeds and changes nothing, so the result of downgrading to `v1`
/// then `v2` is the result of downgrading directly to `v1`.
pub proof fn lemma_downgrade_then_higher_is_noop(f: FileView, v1: PodmanVersion, v2: PodmanVersion)
    requires
        v1.ord() <= v2.ord(),
        File::spec_downgrade_err(f, v1) is None,
    ensures
        File::spec_downgrade(File::spec_downgrade(f, v1), v2) == File::spec_downgrade(f, v1),
        File::spec_downgrade_err(File::spec_downgrade(f, v1), v2) is None,
{
}

/// The file's kind and every option it uses that downgrading can reject
/// have been supported since version `v`. Options that downgrading
/// neutralizes instead of rejecting place no demand here.
pub open spec fn spec_supported_since(f: FileView, v: PodmanVersion) -> bool {
    &&& f.resource.spec_kind().spec_min_version().ord() <= v.ord()
    &&& (match f.resource {
        ResourceView::Kube(k) => k.auto_update is Some ==> PodmanVersion::V4_5.ord() <= v.ord(),
        ResourceView::Network(n) => n.ipam_driver is Some ==> PodmanVersion::V4_5.ord() <= v.ord(),
        ResourceView::Volume(vo) => vo.image is Some ==> PodmanVersion::V4_8.ord() <= v.ord(),
        _ => true,
    })
    &&& (f.globals.containers_conf_modules.len() > 0 ==> PodmanVersion::V4_7.ord() <= v.ord())
}

/// Downgrading to `v` succeeds exactly on the files whose kind and
/// rejectable options are supported since `v`.
pub proof fn lemma_supported_since_iff_accepted(f: FileView, v: PodmanVersion)
    ensures
        spec_supported_since(f, v) <==> File::spec_downgrade_err(f, v) is None,
{
}

/// A file that uses only options supported since `v0` downgrades without
/// error to every version at or above `v0`.
pub proof fn lemma_downgrade_success_monotone(f: FileView, v0: PodmanVersion, v: PodmanVersion)
    requires
        v0.ord() <= v.ord(),
        spec_supported_since(f, v0),
    ensures
        File::spec_downgrade_err(f, v) is None,
{
}

/// A resource whose kind the target version does not know is rejected with
/// the kind and the first version that supports it, and is left unchanged.
pub proof fn lemma_kind_gated(r: ResourceView, v: PodmanVersion)
    requires
        v.ord() < r.spec_kind().spec_min_version().ord(),
    ensures
        Resource::spec_downgrade_err(r, v) == Some(
            DowngradeErrorView::Kind {
                kind: r.spec_kind(),
                supported_version: r.spec_kind().spec_min_version(),
            },
        ),
        Resource::spec_downgrade(r, v) == r,
{
}

/// A Kube unit using `AutoUpdate=`, downgraded below Podman v4.5, is
/// rejected with that option's name, its value, and v4.5.
pub proof fn lemma_kube_auto_update_gated(f: FileView, k: KubeView, v: PodmanVersion)
    requires
        f.resource == ResourceView::Kube(k),
        k.auto_update is Some,
        v.ord() < PodmanVersion::V4_5.ord(),
    ensures
        File::spec_downgrade_err(f, v) == Some(
            DowngradeErrorView::Option {
                quadlet_option: "AutoUpdate"@,
                value: k.auto_update->0.spec_str(),
                supported_version: PodmanVersion::V4_5,
            },
        ),
        File::spec_downgrade(f, v) == f,
{
}

/// A file whose globals use `ContainersConfModule=`, downgraded below
/// Podman v4.7 past a resource that downgrading accepts, is rejected with
/// that option's name, the first module, and v4.7.
pub proof fn lemma_globals_module_gated(f: FileView, v: PodmanVersion)
    requires
        Resource::spec_downgrade_err(f.resource, v) is None,
        f.globals.containers_conf_modules.len() > 0,
        v.ord() < PodmanVersion::V4_7.ord(),
    ensures
        File::spec_downgrade_err(f, v) == Some(
            DowngradeErrorView::Option {
                quadlet_option: "ContainersConfModule"@,
                value: f.globals.containers_conf_modules[0],
                supported_version: PodmanVersion::V4_7,
            },
        ),
{
}

/// For every resource and every base name, the service name is the base
/// name, the kind's documented suffix, then `.service`, exactly.
pub proof fn lemma_service_name_suffix_per_kind(r: ResourceView, name: Seq<char>)
    ensures
        Resource::spec_service_name(r, name) == name + r.spec_kind().spec_service_suffix()
            + ".service"@,
        r.spec_kind() == ResourceKind::Container ==> r.spec_kind().spec_service_suffix() == ""@,
        r.spec_kind() == ResourceKind::Kube ==> r.spec_kind().spec_service_suffix() == ""@,
        r.spec_kind() == ResourceKind::Pod ==> r.spec_kind().spec_service_suffix() == "-pod"@,
        r.spec_kind() == ResourceKind::Network ==> r.spec_kind().spec_service_suffix()
            == "-network"@,
        r.spec_kind() == ResourceKind::Volume ==> r.spec_kind().spec_service_suffix()
            == "-volume"@,
        r.spec_kind() == ResourceKind::Image ==> r.spec_kind().spec_service_suffix() == "-image"@,
{
}

/// A network resource exposes no host paths.
pub proof fn lemma_network_host_paths_empty(n: NetworkView)
    ensures
        Resource::spec_host_paths(ResourceView::Network(n)) == Seq::<Seq<char>>::empty(),
{
}

/// The host paths of a file are the resource's followed by the globals'.
pub proof fn lemma_file_host_paths_concat(f: FileView)
    ensures
        File::spec_host_paths(f) == Resource::spec_host_paths(f.resource)
            + Globals::spec_host_paths(f.globals),
{
}

} // verus!
