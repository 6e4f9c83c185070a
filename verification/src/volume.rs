//! The `[Volume]` section of a Quadlet file.

use vstd::prelude::*;
use vstd::string::StringExecFns;
use crate::downgrade::Downgrade;
use crate::downgrade::DowngradeError;
use crate::downgrade::DowngradeErrorView;
use crate::hostpaths::HostPaths;
use crate::render::append_opt_line;
use crate::render::spec_opt_line;
use crate::version::PodmanVersion;

verus! {

/// A volume unit: a named container volume.
#[derive(Debug, Clone, PartialEq)]
pub struct Volume {
    /// `Driver=`: the volume driver.
    pub driver: Option<String>,
    /// `Device=`: the backing device; a path on the host.
    pub device: Option<String>,
    /// `Image=`: the image backing an image-driver volume; first supported
    /// by Quadlet in Podman v4.8.
    pub image: Option<String>,
}

/// Abstract state of a [`Volume`].
pub struct VolumeView {
    pub driver: Option<Seq<char>>,
    pub device: Option<Seq<char>>,
    pub image: Option<Seq<char>>,
}

impl View for Volume {
    type V = VolumeView;

    open spec fn view(&self) -> VolumeView {
        VolumeView {
            driver: self.driver.deep_view(),
            device: self.device.deep_view(),
            image: self.image.deep_view(),
        }
    }
}

impl Volume {
    /// What [`Self::render`] returns.
    pub open spec fn spec_render(v: VolumeView) -> Seq<char> {
        "[Volume]\n"@ + spec_opt_line("Driver"@, v.driver) + spec_opt_line("Device"@, v.device)
            + spec_opt_line("Image"@, v.image)
    }

    /// Renders the section as unit-file text.
    pub fn render(&self) -> (r: String)
        ensures
            r@ == Self::spec_render(self@),
    {
        let mut out = String::from_str("[Volume]\n");
        append_opt_line(&mut out, "Driver", &self.driver);
        append_opt_line(&mut out, "Device", &self.device);
        append_opt_line(&mut out, "Image", &self.image);
        proof {
            assert(out@ =~= Self::spec_render(self@));
        }
        out
    }
}

impl Downgrade for Volume {
    /// Downgrading never rewrites a volume unit: its one gated option has
    /// no older equivalent, so an incompatibility is an error instead.
    open spec fn spec_downgrade(v: VolumeView, version: PodmanVersion) -> VolumeView {
        v
    }

    /// `Image=` first appeared in Podman v4.8; older targets reject it.
    open spec fn spec_downgrade_err(v: VolumeView, version: PodmanVersion) -> Option<
        DowngradeErrorView,
    > {
        if version.ord() < PodmanVersion::V4_8.ord() && v.image is Some {
            Some(
                DowngradeErrorView::Option {
                    quadlet_option: "Image"@,
                    value: v.image->0,
                    supported_version: PodmanVersion::V4_8,
                },
            )
        } else {
            None
        }
    }

    fn downgrade(&mut self, version: PodmanVersion) -> (r: Result<(), DowngradeError>) {
        if version.lt(PodmanVersion::V4_8) {
            if let Some(image) = &self.image {
                return Err(
                    DowngradeError::Option {
                        quadlet_option: "Image",
                        value: image.clone(),
                        supported_version: PodmanVersion::V4_8,
                    },
                );
            }
        }
        Ok(())
    }
}

impl HostPaths for Volume {
    /// The backing device, when one is set.
    open spec fn spec_host_paths(v: VolumeView) -> Seq<Seq<char>> {
        match v.device {
            Some(device) => seq![device],
            None => Seq::empty(),
        }
    }

    open spec fn spec_with_host_paths(v: VolumeView, paths: Seq<Seq<char>>) -> VolumeView {
        match v.device {
            Some(device) => VolumeView { device: Some(paths[0]), ..v },
            None => v,
        }
    }

    fn host_paths(&self) -> (r: Vec<String>) {
        let mut r: Vec<String> = Vec::new();
        match &self.device {
            Some(device) => r.push(device.clone()),
            None => (),
        }
        proof {
            assert(r.deep_view() =~= Self::spec_host_paths(self@));
        }
        r
    }

    fn set_host_paths(&mut self, paths: Vec<String>) {
        if self.device.is_some() {
            self.device = Some(paths[0].clone());
        }
        proof {
            assert(Self::spec_host_paths(self@) =~= paths.deep_view());
        }
    }
}

} // verus!
