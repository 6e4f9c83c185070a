//! The `[Network]` section of a Quadlet file.

use vstd::prelude::*;
use vstd::string::StringExecFns;
use crate::downgrade::Downgrade;
use crate::downgrade::DowngradeError;
use crate::downgrade::DowngradeErrorView;
use crate::hostpaths::HostPaths;
use crate::render::append_line;
use crate::render::append_lines;
use crate::render::append_opt_line;
use crate::render::spec_line;
use crate::render::spec_lines;
use crate::render::spec_opt_line;
use crate::version::PodmanVersion;

verus! {

/// A network unit: a named container network.
#[derive(Debug, Clone, PartialEq)]
pub struct Network {
    /// `Subnet=` entries.
    pub subnets: Vec<String>,
    /// `Internal=`: whether the network is isolated from the host's.
    pub internal: bool,
    /// `IPAMDriver=`: first supported by Quadlet in Podman v4.5.
    pub ipam_driver: Option<String>,
}

/// Abstract state of a [`Network`].
pub struct NetworkView {
    pub subnets: Seq<Seq<char>>,
    pub internal: bool,
    pub ipam_driver: Option<Seq<char>>,
}

impl View for Network {
    type V = NetworkView;

    open spec fn view(&self) -> NetworkView {
        NetworkView {
            subnets: self.subnets.deep_view(),
            internal: self.internal,
            ipam_driver: self.ipam_driver.deep_view(),
        }
    }
}

impl Network {
    /// What [`Self::render`] returns.
    pub open spec fn spec_render(v: NetworkView) -> Seq<char> {
        "[Network]\n"@ + spec_lines("Subnet"@, v.subnets) + (if v.internal {
            spec_line("Internal"@, "true"@)
        } else {
            Seq::empty()
        }) + spec_opt_line("IPAMDriver"@, v.ipam_driver)
    }

    /// Renders the section as unit-file text.
    pub fn render(&self) -> (r: String)
        ensures
            r@ == Self::spec_render(self@),
    {
        let mut out = String::from_str("[Network]\n");
        append_lines(&mut out, "Subnet", &self.subnets);
        if self.internal {
            append_line(&mut out, "Internal", "true");
        }
        append_opt_line(&mut out, "IPAMDriver", &self.ipam_driver);
        proof {
            assert(out@ =~= Self::spec_render(self@));
        }
        out
    }
}

impl Downgrade for Network {
    /// Downgrading never rewrites a network unit: its one gated option has
    /// no older equivalent, so an incompatibility is an error instead.
    open spec fn spec_downgrade(v: NetworkView, version: PodmanVersion) -> NetworkView {
        v
    }

    /// `IPAMDriver=` first appeared in Podman v4.5; older targets reject it.
    open spec fn spec_downgrade_err(v: NetworkView, version: PodmanVersion) -> Option<
        DowngradeErrorView,
    > {
        if version.ord() < PodmanVersion::V4_5.ord() && v.ipam_driver is Some {
            Some(
                DowngradeErrorView::Option {
                    quadlet_option: "IPAMDriver"@,
                    value: v.ipam_driver->0,
                    supported_version: PodmanVersion::V4_5,
                },
            )
        } else {
            None
        }
    }

    fn downgrade(&mut self, version: PodmanVersion) -> (r: Result<(), DowngradeError>) {
        if version.lt(PodmanVersion::V4_5) {
            if let Some(driver) = &self.ipam_driver {
                return Err(
                    DowngradeError::Option {
                        quadlet_option: "IPAMDriver",
                        value: driver.clone(),
                        supported_version: PodmanVersion::V4_5,
                    },
                );
            }
        }
        Ok(())
    }
}

impl HostPaths for Network {
    /// A network stores no paths on the host.
    open spec fn spec_host_paths(v: NetworkView) -> Seq<Seq<char>> {
        Seq::empty()
    }

    open spec fn spec_with_host_paths(v: NetworkView, paths: Seq<Seq<char>>) -> NetworkView {
        v
    }

    fn host_paths(&self) -> (r: Vec<String>) {
        let r: Vec<String> = Vec::new();
        proof {
            assert(r.deep_view() =~= Self::spec_host_paths(self@));
        }
        r
    }

    fn set_host_paths(&mut self, paths: Vec<String>) {
    }
}

} // verus!
