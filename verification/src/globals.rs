//! Global options: rendered into the resource's section whatever its kind.

use vstd::prelude::*;
use vstd::string::StringExecFns;
use crate::downgrade::Downgrade;
use crate::downgrade::DowngradeError;
use crate::downgrade::DowngradeErrorView;
use crate::hostpaths::HostPaths;
use crate::render::append_lines;
use crate::render::spec_lines;
use crate::version::PodmanVersion;

verus! {

/// Options that apply to every resource kind.
#[derive(Debug, Clone, PartialEq)]
pub struct Globals {
    /// `ContainersConfModule=` entries; each is a path on the host. First
    /// supported by Quadlet in Podman v4.7.
    pub containers_conf_modules: Vec<String>,
    /// `PodmanArgs=` entries: raw global arguments handed to `podman`.
    pub global_args: Vec<String>,
}

/// Abstract state of a [`Globals`].
pub struct GlobalsView {
    pub containers_conf_modules: Seq<Seq<char>>,
    pub global_args: Seq<Seq<char>>,
}

impl View for Globals {
    type V = GlobalsView;

    open spec fn view(&self) -> GlobalsView {
        GlobalsView {
            containers_conf_modules: self.containers_conf_modules.deep_view(),
            global_args: self.global_args.deep_view(),
        }
    }
}

impl Globals {
    /// What [`Self::render`] returns: no section header of its own, since
    /// the lines join the resource's section.
    pub open spec fn spec_render(v: GlobalsView) -> Seq<char> {
        spec_lines("ContainersConfModule"@, v.containers_conf_modules) + spec_lines(
            "PodmanArgs"@,
            v.global_args,
        )
    }

    /// Renders the options as unit-file text.
    pub fn render(&self) -> (r: String)
        ensures
            r@ == Self::spec_render(self@),
    {
        let mut out = String::new();
        append_lines(&mut out, "ContainersConfModule", &self.containers_conf_modules);
        append_lines(&mut out, "PodmanArgs", &self.global_args);
        proof {
            assert(out@ =~= Self::spec_render(self@));
        }
        out
    }
}

impl Downgrade for Globals {
    /// Downgrading never rewrites the globals: their one gated option has
    /// no older equivalent, so an incompatibility is an error instead.
    open spec fn spec_downgrade(v: GlobalsView, version: PodmanVersion) -> GlobalsView {
        v
    }

    /// `ContainersConfModule=` first appeared in Podman v4.7; older targets
    /// reject it.
    open spec fn spec_downgrade_err(v: GlobalsView, version: PodmanVersion) -> Option<
        DowngradeErrorView,
    > {
        if version.ord() < PodmanVersion::V4_7.ord() && v.containers_conf_modules.len() > 0 {
            Some(
                DowngradeErrorView::Option {
                    quadlet_option: "ContainersConfModule"@,
                    value: v.containers_conf_modules[0],
                    supported_version: PodmanVersion::V4_7,
                },
            )
        } else {
            None
        }
    }

    fn downgrade(&mut self, version: PodmanVersion) -> (r: Result<(), DowngradeError>) {
        if version.lt(PodmanVersion::V4_7) && self.containers_conf_modules.len() > 0 {
            return Err(
                DowngradeError::Option {
                    quadlet_option: "ContainersConfModule",
                    value: self.containers_conf_modules[0].clone(),
                    supported_version: PodmanVersion::V4_7,
                },
            );
        }
        Ok(())
    }
}

impl HostPaths for Globals {
    /// The globals' host paths are the configuration modules.
    open spec fn spec_host_paths(v: GlobalsView) -> Seq<Seq<char>> {
        v.containers_conf_modules
    }

    open spec fn spec_with_host_paths(v: GlobalsView, paths: Seq<Seq<char>>) -> GlobalsView {
        GlobalsView { containers_conf_modules: paths, ..v }
    }

    fn host_paths(&self) -> (r: Vec<String>) {
        self.containers_conf_modules.clone()
    }

    fn set_host_paths(&mut self, paths: Vec<String>) {
        self.containers_conf_modules = paths;
    }
}

} // verus!
