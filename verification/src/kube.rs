//! The `[Kube]` section of a Quadlet file.

use vstd::prelude::*;
use vstd::string::StringExecFns;
use crate::autoupdate::AutoUpdate;
use crate::downgrade::Downgrade;
use crate::downgrade::DowngradeError;
use crate::downgrade::DowngradeErrorView;
use crate::hostpaths::HostPaths;
use crate::render::append_line;
use crate::render::append_lines;
use crate::render::spec_line;
use crate::render::spec_lines;
use crate::version::PodmanVersion;

verus! {

/// A Kubernetes-manifest unit: runs the objects a YAML file describes.
#[derive(Debug, Clone, PartialEq)]
pub struct Kube {
    /// `Yaml=`: the manifest's path on the host.
    pub yaml: String,
    /// `ConfigMap=` entries; each is a path on the host.
    pub config_maps: Vec<String>,
    /// `AutoUpdate=`: first supported by Quadlet in Podman v4.5.
    pub auto_update: Option<AutoUpdate>,
}

/// Abstract state of a [`Kube`].
pub struct KubeView {
    pub yaml: Seq<char>,
    pub config_maps: Seq<Seq<char>>,
    pub auto_update: Option<AutoUpdate>,
}

impl View for Kube {
    type V = KubeView;

    open spec fn view(&self) -> KubeView {
        KubeView {
            yaml: self.yaml@,
            config_maps: self.config_maps.deep_view(),
            auto_update: self.auto_update,
        }
    }
}

impl Kube {
    /// What [`Self::render`] returns.
    pub open spec fn spec_render(v: KubeView) -> Seq<char> {
        "[Kube]\n"@ + spec_line("Yaml"@, v.yaml) + spec_lines("ConfigMap"@, v.config_maps)
            + (match v.auto_update {
            Some(au) => spec_line("AutoUpdate"@, au.spec_str()),
            None => Seq::empty(),
        })
    }

    /// Renders the section as unit-file text.
    pub fn render(&self) -> (r: String)
        ensures
            r@ == Self::spec_render(self@),
    {
        let mut out = String::from_str("[Kube]\n");
        append_line(&mut out, "Yaml", self.yaml.as_str());
        append_lines(&mut out, "ConfigMap", &self.config_maps);
        match self.auto_update {
            Some(au) => append_line(&mut out, "AutoUpdate", au.as_str()),
            None => (),
        }
        proof {
            assert(out@ =~= Self::spec_render(self@));
        }
        out
    }
}

impl Downgrade for Kube {
    /// Downgrading never rewrites a Kube unit: its one gated option has no
    /// older equivalent, so an incompatibility is an error instead.
    open spec fn spec_downgrade(v: KubeView, version: PodmanVersion) -> KubeView {
        v
    }

    /// `AutoUpdate=` first appeared in Podman v4.5; older targets reject it.
    open spec fn spec_downgrade_err(v: KubeView, version: PodmanVersion) -> Option<
        DowngradeErrorView,
    > {
        if version.ord() < PodmanVersion::V4_5.ord() && v.auto_update is Some {
            Some(
                DowngradeErrorView::Option {
                    quadlet_option: "AutoUpdate"@,
                    value: v.auto_update->0.spec_str(),
                    supported_version: PodmanVersion::V4_5,
                },
            )
        } else {
            None
        }
    }

    fn downgrade(&mut self, version: PodmanVersion) -> (r: Result<(), DowngradeError>) {
        if version.lt(PodmanVersion::V4_5) {
            if let Some(au) = self.auto_update {
                return Err(
                    DowngradeError::Option {
                        quadlet_option: "AutoUpdate",
                        value: String::from_str(au.as_str()),
                        supported_version: PodmanVersion::V4_5,
                    },
                );
            }
        }
        Ok(())
    }
}

impl HostPaths for Kube {
    /// The manifest itself, then the config maps.
    open spec fn spec_host_paths(v: KubeView) -> Seq<Seq<char>> {
        seq![v.yaml] + v.config_maps
    }

    open spec fn spec_with_host_paths(v: KubeView, paths: Seq<Seq<char>>) -> KubeView {
        KubeView { yaml: paths[0], config_maps: paths.skip(1), ..v }
    }

    fn host_paths(&self) -> (r: Vec<String>) {
        let mut r: Vec<String> = Vec::new();
        r.push(self.yaml.clone());
        let mut i: usize = 0;
        while i < self.config_maps.len()
            invariant
                i <= self.config_maps.len(),
                r@ == seq![self.yaml] + self.config_maps@.take(i as int),
            decreases self.config_maps.len() - i,
        {
            r.push(self.config_maps[i].clone());
            proof {
                assert(r@ =~= seq![self.yaml] + self.config_maps@.take(i + 1 as int));
            }
            i = i + 1;
        }
        proof {
            assert(self.config_maps@.take(self.config_maps.len() as int) =~= self.config_maps@);
            assert(r.deep_view() =~= Self::spec_host_paths(self@));
        }
        r
    }

    fn set_host_paths(&mut self, paths: Vec<String>) {
        self.yaml = paths[0].clone();
        let mut rest: Vec<String> = Vec::new();
        let mut i: usize = 1;
        while i < paths.len()
            invariant
                1 <= i <= paths.len(),
                rest@ == paths@.subrange(1, i as int),
            decreases paths.len() - i,
        {
            rest.push(paths[i].clone());
            proof {
                assert(rest@ =~= paths@.subrange(1, i + 1 as int));
            }
            i = i + 1;
        }
        self.config_maps = rest;
        proof {
            assert(paths@.subrange(1, paths.len() as int) =~= paths@.skip(1));
            assert(self.config_maps.deep_view() =~= paths.deep_view().skip(1));
            assert(Self::spec_host_paths(self@) =~= paths.deep_view());
        }
    }
}

} // verus!
