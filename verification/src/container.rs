//! The `[Container]` section of a Quadlet file.

use vstd::prelude::*;
use vstd::string::StringExecFns;
use crate::downgrade::Downgrade;
use crate::downgrade::DowngradeError;
use crate::downgrade::DowngradeErrorView;
use crate::hostpaths::HostPaths;
use crate::render::append_line;
use crate::render::append_lines;
use crate::render::append_opt_line;
use crate::render::spec_line;
use crate::render::spec_lines;
use crate::render::spec_opt_line;
use crate::version::PodmanVersion;

verus! {

/// A container unit: runs one container from an image.
#[derive(Debug, Clone, PartialEq)]
pub struct Container {
    /// `Image=`: the image the container runs.
    pub image: String,
    /// `Label=` entries attached to the container.
    pub labels: Vec<String>,
    /// `EnvironmentFile=` entries; each is a path on the host.
    pub environment_files: Vec<String>,
    /// `UserNS=`: the user namespace mode. The dedicated Quadlet option
    /// first appeared in Podman v4.6; older versions take it through
    /// `PodmanArgs=`.
    pub user_ns: Option<String>,
    /// `PodmanArgs=` entries: raw arguments handed to `podman run`.
    pub podman_args: Vec<String>,
}

/// Abstract state of a [`Container`].
pub struct ContainerView {
    pub image: Seq<char>,
    pub labels: Seq<Seq<char>>,
    pub environment_files: Seq<Seq<char>>,
    pub user_ns: Option<Seq<char>>,
    pub podman_args: Seq<Seq<char>>,
}

impl View for Container {
    type V = ContainerView;

    open spec fn view(&self) -> ContainerView {
        ContainerView {
            image: self.image@,
            labels: self.labels.deep_view(),
            environment_files: self.environment_files.deep_view(),
            user_ns: self.user_ns.deep_view(),
            podman_args: self.podman_args.deep_view(),
        }
    }
}

impl Container {
    /// What [`Self::render`] returns: the `[Container]` section, one
    /// newline-terminated `Key=Value` line per option.
    pub open spec fn spec_render(v: ContainerView) -> Seq<char> {
        "[Container]\n"@ + spec_line("Image"@, v.image) + spec_lines("Label"@, v.labels)
            + spec_lines("EnvironmentFile"@, v.environment_files)
            + spec_opt_line("UserNS"@, v.user_ns) + spec_lines("PodmanArgs"@, v.podman_args)
    }

    /// Renders the section as unit-file text.
    pub fn render(&self) -> (r: String)
        ensures
            r@ == Self::spec_render(self@),
    {
        let mut out = String::from_str("[Container]\n");
        append_line(&mut out, "Image", self.image.as_str());
        append_lines(&mut out, "Label", &self.labels);
        append_lines(&mut out, "EnvironmentFile", &self.environment_files);
        append_opt_line(&mut out, "UserNS", &self.user_ns);
        append_lines(&mut out, "PodmanArgs", &self.podman_args);
        proof {
            assert(out@ =~= Self::spec_render(self@));
        }
        out
    }
}

impl Downgrade for Container {
    /// Versions before v4.6 lack `UserNS=`: the option is neutralized by
    /// handing it to `podman run` through `PodmanArgs=` instead.
    open spec fn spec_downgrade(v: ContainerView, version: PodmanVersion) -> ContainerView {
        if version.ord() < PodmanVersion::V4_6.ord() && v.user_ns is Some {
            ContainerView {
                user_ns: None,
                podman_args: v.podman_args.push("--userns"@).push(v.user_ns->0),
                ..v
            }
        } else {
            v
        }
    }

    /// Every container option survives every version: none is rejected.
    open spec fn spec_downgrade_err(v: ContainerView, version: PodmanVersion) -> Option<
        DowngradeErrorView,
    > {
        None
    }

    fn downgrade(&mut self, version: PodmanVersion) -> (r: Result<(), DowngradeError>) {
        if version.lt(PodmanVersion::V4_6) {
            let taken: Option<String> = match &self.user_ns {
                Some(value) => Some(value.clone()),
                None => None,
            };
            if let Some(value) = taken {
                self.podman_args.push(String::from_str("--userns"));
                self.podman_args.push(value);
                self.user_ns = None;
                proof {
                    assert(self.podman_args.deep_view() =~= old(self)@.podman_args.push(
                        "--userns"@,
                    ).push(old(self)@.user_ns->0));
                }
            }
        }
        Ok(())
    }
}

impl HostPaths for Container {
    /// The container's host paths are its environment files.
    open spec fn spec_host_paths(v: ContainerView) -> Seq<Seq<char>> {
        v.environment_files
    }

    open spec fn spec_with_host_paths(v: ContainerView, paths: Seq<Seq<char>>) -> ContainerView {
        ContainerView { environment_files: paths, ..v }
    }

    fn host_paths(&self) -> (r: Vec<String>) {
        self.environment_files.clone()
    }

    fn set_host_paths(&mut self, paths: Vec<String>) {
        self.environment_files = paths;
    }
}

} // verus!
