//! The `[Pod]` section of a Quadlet file.

use vstd::prelude::*;
use vstd::string::StringExecFns;
use crate::downgrade::Downgrade;
use crate::downgrade::DowngradeError;
use crate::downgrade::DowngradeErrorView;
use crate::hostpaths::HostPaths;
use crate::render::append_lines;
use crate::render::spec_lines;
use crate::version::PodmanVersion;

verus! {

/// A pod unit: a group of containers sharing network and volumes.
#[derive(Debug, Clone, PartialEq)]
pub struct Pod {
    /// `PublishPort=` entries.
    pub publish_ports: Vec<String>,
    /// `Volume=` entries; each is a path on the host.
    pub volumes: Vec<String>,
}

/// Abstract state of a [`Pod`].
pub struct PodView {
    pub publish_ports: Seq<Seq<char>>,
    pub volumes: Seq<Seq<char>>,
}

impl View for Pod {
    type V = PodView;

    open spec fn view(&self) -> PodView {
        PodView {
            publish_ports: self.publish_ports.deep_view(),
            volumes: self.volumes.deep_view(),
        }
    }
}

impl Pod {
    /// What [`Self::render`] returns.
    pub open spec fn spec_render(v: PodView) -> Seq<char> {
        "[Pod]\n"@ + spec_lines("PublishPort"@, v.publish_ports) + spec_lines(
            "Volume"@,
            v.volumes,
        )
    }

    /// Renders the section as unit-file text.
    pub fn render(&self) -> (r: String)
        ensures
            r@ == Self::spec_render(self@),
    {
        let mut out = String::from_str("[Pod]\n");
        append_lines(&mut out, "PublishPort", &self.publish_ports);
        append_lines(&mut out, "Volume", &self.volumes);
        proof {
            assert(out@ =~= Self::spec_render(self@));
        }
        out
    }
}

impl Downgrade for Pod {
    /// No pod option is version-gated: gating for pods happens at the kind
    /// level, since `.pod` units themselves require Podman v5.0.
    open spec fn spec_downgrade(v: PodView, version: PodmanVersion) -> PodView {
        v
    }

    open spec fn spec_downgrade_err(v: PodView, version: PodmanVersion) -> Option<
        DowngradeErrorView,
    > {
        None
    }

    fn downgrade(&mut self, version: PodmanVersion) -> (r: Result<(), DowngradeError>) {
        Ok(())
    }
}

impl HostPaths for Pod {
    /// The pod's host paths are the host sides of its volumes.
    open spec fn spec_host_paths(v: PodView) -> Seq<Seq<char>> {
        v.volumes
    }

    open spec fn spec_with_host_paths(v: PodView, paths: Seq<Seq<char>>) -> PodView {
        PodView { volumes: paths, ..v }
    }

    fn host_paths(&self) -> (r: Vec<String>) {
        self.volumes.clone()
    }

    fn set_host_paths(&mut self, paths: Vec<String>) {
        self.volumes = paths;
    }
}

} // verus!
