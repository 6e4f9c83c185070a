//! The tagged union over the concrete resource kinds: the dispatch point for
//! rendering, host-path access and downgrading.

use vstd::prelude::*;
use vstd::string::StringExecFns;
use crate::container::Container;
use crate::container::ContainerView;
use crate::downgrade::Downgrade;
use crate::downgrade::DowngradeError;
use crate::downgrade::DowngradeErrorView;
use crate::hostpaths::HostPaths;
use crate::image::Image;
use crate::image::ImageView;
use crate::kind::ResourceKind;
use crate::kube::Kube;
use crate::kube::KubeView;
use crate::network::Network;
use crate::network::NetworkView;
use crate::pod::Pod;
use crate::pod::PodView;
use crate::version::PodmanVersion;
use crate::volume::Volume;
use crate::volume::VolumeView;

verus! {

/// One Quadlet resource, whichever kind it is.
///
/// The container payload is boxed so the union's footprint stays close to
/// the other variants'.
#[derive(Debug, Clone, PartialEq)]
pub enum Resource {
    Container(Box<Container>),
    Pod(Pod),
    Kube(Kube),
    Network(Network),
    Volume(Volume),
    Image(Image),
}

/// Abstract state of a [`Resource`].
pub enum ResourceView {
    Container(ContainerView),
    Pod(PodView),
    Kube(KubeView),
    Network(NetworkView),
    Volume(VolumeView),
    Image(ImageView),
}

impl View for Resource {
    type V = ResourceView;

    open spec fn view(&self) -> ResourceView {
        match self {
            Resource::Container(c) => ResourceView::Container(c@),
            Resource::Pod(p) => ResourceView::Pod(p@),
            Resource::Kube(k) => ResourceView::Kube(k@),
            Resource::Network(n) => ResourceView::Network(n@),
            Resource::Volume(v) => ResourceView::Volume(v@),
            Resource::Image(i) => ResourceView::Image(i@),
        }
    }
}

impl ResourceView {
    /// The kind tag of the active variant.
    pub open spec fn spec_kind(self) -> ResourceKind {
        match self {
            ResourceView::Container(_) => ResourceKind::Container,
            ResourceView::Pod(_) => ResourceKind::Pod,
            ResourceView::Kube(_) => ResourceKind::Kube,
            ResourceView::Network(_) => ResourceKind::Network,
            ResourceView::Volume(_) => ResourceKind::Volume,
            ResourceView::Image(_) => ResourceKind::Image,
        }
    }
}

impl Resource {
    /// The kind tag of the active variant.
    pub fn kind(&self) -> (r: ResourceKind)
        ensures
            r == self@.spec_kind(),
    {
        match self {
            Resource::Container(_) => ResourceKind::Container,
            Resource::Pod(_) => ResourceKind::Pod,
            Resource::Kube(_) => ResourceKind::Kube,
            Resource::Network(_) => ResourceKind::Network,
            Resource::Volume(_) => ResourceKind::Volume,
            Resource::Image(_) => ResourceKind::Image,
        }
    }

    /// The extension that should be used for the generated file.
    pub fn extension(&self) -> (r: &'static str)
        ensures
            r@ == self@.spec_kind().spec_str(),
    {
        self.kind().as_str()
    }

    /// What [`Self::name_to_service`] returns: the base name, the kind's
    /// suffix, then `.service`.
    pub open spec fn spec_service_name(v: ResourceView, name: Seq<char>) -> Seq<char> {
        name + v.spec_kind().spec_service_suffix() + ".service"@
    }

    /// Takes a file name (no extension) and returns the corresponding
    /// service file name generated by Quadlet.
    pub fn name_to_service(&self, name: &str) -> (r: String)
        ensures
            r@ == Self::spec_service_name(self@, name@),
    {
        let mut service = String::from_str(name);
        service.append(self.kind().service_suffix());
        service.append(".service");
        proof {
            assert(service@ =~= Self::spec_service_name(self@, name@));
        }
        service
    }

    /// What [`Self::render`] returns: the active variant's section.
    pub open spec fn spec_render(v: ResourceView) -> Seq<char> {
        match v {
            ResourceView::Container(c) => Container::spec_render(c),
            ResourceView::Pod(p) => Pod::spec_render(p),
            ResourceView::Kube(k) => Kube::spec_render(k),
            ResourceView::Network(n) => Network::spec_render(n),
            ResourceView::Volume(vo) => Volume::spec_render(vo),
            ResourceView::Image(i) => Image::spec_render(i),
        }
    }

    /// Renders the active variant's section as unit-file text.
    pub fn render(&self) -> (r: String)
        ensures
            r@ == Self::spec_render(self@),
    {
        match self {
            Resource::Container(c) => c.render(),
            Resource::Pod(p) => p.render(),
            Resource::Kube(k) => k.render(),
            Resource::Network(n) => n.render(),
            Resource::Volume(v) => v.render(),
            Resource::Image(i) => i.render(),
        }
    }
}

impl From<Box<Container>> for Resource {
    fn from(value: Box<Container>) -> (r: Self) {
        Resource::Container(value)
    }
}

impl vstd::std_specs::convert::FromSpecImpl<Box<Container>> for Resource {
    open spec fn obeys_from_spec() -> bool {
        true
    }

    open spec fn from_spec(value: Box<Container>) -> Self {
        Resource::Container(value)
    }
}

impl From<Pod> for Resource {
    fn from(value: Pod) -> (r: Self) {
        Resource::Pod(value)
    }
}

impl vstd::std_specs::convert::FromSpecImpl<Pod> for Resource {
    open spec fn obeys_from_spec() -> bool {
        true
    }

    open spec fn from_spec(value: Pod) -> Self {
        Resource::Pod(value)
    }
}

impl From<Kube> for Resource {
    fn from(value: Kube) -> (r: Self) {
        Resource::Kube(value)
    }
}

impl vstd::std_specs::convert::FromSpecImpl<Kube> for Resource {
    open spec fn obeys_from_spec() -> bool {
        true
    }

    open spec fn from_spec(value: Kube) -> Self {
        Resource::Kube(value)
    }
}

impl From<Network> for Resource {
    fn from(value: Network) -> (r: Self) {
        Resource::Network(value)
    }
}

impl vstd::std_specs::convert::FromSpecImpl<Network> for Resource {
    open spec fn obeys_from_spec() -> bool {
        true
    }

    open spec fn from_spec(value: Network) -> Self {
        Resource::Network(value)
    }
}

impl From<Volume> for Resource {
    fn from(value: Volume) -> (r: Self) {
        Resource::Volume(value)
    }
}

impl vstd::std_specs::convert::FromSpecImpl<Volume> for Resource {
    open spec fn obeys_from_spec() -> bool {
        true
    }

    open spec fn from_spec(value: Volume) -> Self {
        Resource::Volume(value)
    }
}

impl From<Image> for Resource {
    fn from(value: Image) -> (r: Self) {
        Resource::Image(value)
    }
}

impl vstd::std_specs::convert::FromSpecImpl<Image> for Resource {
    open spec fn obeys_from_spec() -> bool {
        true
    }

    open spec fn from_spec(value: Image) -> Self {
        Resource::Image(value)
    }
}

impl Downgrade for Resource {
    /// A kind the target version does not know is rejected before the
    /// variant is consulted, so the state is then left as it stands;
    /// otherwise the active variant downgrades itself.
    open spec fn spec_downgrade(v: ResourceView, version: PodmanVersion) -> ResourceView {
        if version.ord() < v.spec_kind().spec_min_version().ord() {
            v
        } else {
            match v {
                ResourceView::Container(c) => ResourceView::Container(
                    Container::spec_downgrade(c, version),
                ),
                ResourceView::Pod(p) => ResourceView::Pod(Pod::spec_downgrade(p, version)),
                ResourceView::Kube(k) => ResourceView::Kube(Kube::spec_downgrade(k, version)),
                ResourceView::Network(n) => ResourceView::Network(
                    Network::spec_downgrade(n, version),
                ),
                ResourceView::Volume(vo) => ResourceView::Volume(
                    Volume::spec_downgrade(vo, version),
                ),
                ResourceView::Image(i) => ResourceView::Image(Image::spec_downgrade(i, version)),
            }
        }
    }

    open spec fn spec_downgrade_err(v: ResourceView, version: PodmanVersion) -> Option<
        DowngradeErrorView,
    > {
        if version.ord() < v.spec_kind().spec_min_version().ord() {
            Some(
                DowngradeErrorView::Kind {
                    kind: v.spec_kind(),
                    supported_version: v.spec_kind().spec_min_version(),
                },
            )
        } else {
            match v {
                ResourceView::Container(c) => Container::spec_downgrade_err(c, version),
                ResourceView::Pod(p) => Pod::spec_downgrade_err(p, version),
                ResourceView::Kube(k) => Kube::spec_downgrade_err(k, version),
                ResourceView::Network(n) => Network::spec_downgrade_err(n, version),
                ResourceView::Volume(vo) => Volume::spec_downgrade_err(vo, version),
                ResourceView::Image(i) => Image::spec_downgrade_err(i, version),
            }
        }
    }

    fn downgrade(&mut self, version: PodmanVersion) -> (r: Result<(), DowngradeError>) {
        let kind = self.kind();
        if version.lt(kind.min_version()) {
            return Err(DowngradeError::Kind { kind, supported_version: kind.min_version() });
        }
        match self {
            Resource::Container(c) => c.downgrade(version),
            Resource::Pod(p) => p.downgrade(version),
            Resource::Kube(k) => k.downgrade(version),
            Resource::Network(n) => n.downgrade(version),
            Resource::Volume(v) => v.downgrade(version),
            Resource::Image(i) => i.downgrade(version),
        }
    }
}

impl HostPaths for Resource {
    /// The active variant's host paths.
    open spec fn spec_host_paths(v: ResourceView) -> Seq<Seq<char>> {
        match v {
            ResourceView::Container(c) => Container::spec_host_paths(c),
            ResourceView::Pod(p) => Pod::spec_host_paths(p),
            ResourceView::Kube(k) => Kube::spec_host_paths(k),
            ResourceView::Network(n) => Network::spec_host_paths(n),
            ResourceView::Volume(vo) => Volume::spec_host_paths(vo),
            ResourceView::Image(i) => Image::spec_host_paths(i),
        }
    }

    open spec fn spec_with_host_paths(v: ResourceView, paths: Seq<Seq<char>>) -> ResourceView {
        match v {
            ResourceView::Container(c) => ResourceView::Container(
                Container::spec_with_host_paths(c, paths),
            ),
            ResourceView::Pod(p) => ResourceView::Pod(Pod::spec_with_host_paths(p, paths)),
            ResourceView::Kube(k) => ResourceView::Kube(Kube::spec_with_host_paths(k, paths)),
            ResourceView::Network(n) => ResourceView::Network(
                Network::spec_with_host_paths(n, paths),
            ),
            ResourceView::Volume(vo) => ResourceView::Volume(
                Volume::spec_with_host_paths(vo, paths),
            ),
            ResourceView::Image(i) => ResourceView::Image(Image::spec_with_host_paths(i, paths)),
        }
    }

    fn host_paths(&self) -> (r: Vec<String>) {
        match self {
            Resource::Container(c) => c.host_paths(),
            Resource::Pod(p) => p.host_paths(),
            Resource::Kube(k) => k.host_paths(),
            Resource::Network(n) => n.host_paths(),
            Resource::Volume(v) => v.host_paths(),
            Resource::Image(i) => i.host_paths(),
        }
    }

    fn set_host_paths(&mut self, paths: Vec<String>) {
        match self {
            Resource::Container(c) => c.set_host_paths(paths),
            Resource::Pod(p) => p.set_host_paths(paths),
            Resource::Kube(k) => k.set_host_paths(paths),
            Resource::Network(n) => n.set_host_paths(paths),
            Resource::Volume(v) => v.set_host_paths(paths),
            Resource::Image(i) => i.set_host_paths(paths),
        }
    }
}

} // verus!
