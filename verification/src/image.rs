//! The `[Image]` section of a Quadlet file.

use vstd::prelude::*;
use vstd::string::StringExecFns;
use crate::downgrade::Downgrade;
use crate::downgrade::DowngradeError;
use crate::downgrade::DowngradeErrorView;
use crate::hostpaths::HostPaths;
use crate::render::append_line;
use crate::render::append_opt_line;
use crate::render::spec_line;
use crate::render::spec_opt_line;
use crate::version::PodmanVersion;

verus! {

/// An image unit: pulls an image ahead of the units that run it.
#[derive(Debug, Clone, PartialEq)]
pub struct Image {
    /// `Image=`: the image to pull.
    pub image: String,
    /// `AuthFile=`: the registry credentials file; a path on the host.
    pub auth_file: Option<String>,
}

/// Abstract state of an [`Image`].
pub struct ImageView {
    pub image: Seq<char>,
    pub auth_file: Option<Seq<char>>,
}

impl View for Image {
    type V = ImageView;

    open spec fn view(&self) -> ImageView {
        ImageView { image: self.image@, auth_file: self.auth_file.deep_view() }
    }
}

impl Image {
    /// What [`Self::render`] returns.
    pub open spec fn spec_render(v: ImageView) -> Seq<char> {
        "[Image]\n"@ + spec_line("Image"@, v.image) + spec_opt_line("AuthFile"@, v.auth_file)
    }

    /// Renders the section as unit-file text.
    pub fn render(&self) -> (r: String)
        ensures
            r@ == Self::spec_render(self@),
    {
        let mut out = String::from_str("[Image]\n");
        append_line(&mut out, "Image", self.image.as_str());
        append_opt_line(&mut out, "AuthFile", &self.auth_file);
        proof {
            assert(out@ =~= Self::spec_render(self@));
        }
        out
    }
}

impl Downgrade for Image {
    /// No image option is version-gated: gating for images happens at the
    /// kind level, since `.image` units themselves require Podman v4.8.
    open spec fn spec_downgrade(v: ImageView, version: PodmanVersion) -> ImageView {
        v
    }

    open spec fn spec_downgrade_err(v: ImageView, version: PodmanVersion) -> Option<
        DowngradeErrorView,
    > {
        None
    }

    fn downgrade(&mut self, version: PodmanVersion) -> (r: Result<(), DowngradeError>) {
        Ok(())
    }
}

impl HostPaths for Image {
    /// The credentials file, when one is set.
    open spec fn spec_host_paths(v: ImageView) -> Seq<Seq<char>> {
        match v.auth_file {
            Some(auth_file) => seq![auth_file],
            None => Seq::empty(),
        }
    }

    open spec fn spec_with_host_paths(v: ImageView, paths: Seq<Seq<char>>) -> ImageView {
        match v.auth_file {
            Some(auth_file) => ImageView { auth_file: Some(paths[0]), ..v },
            None => v,
        }
    }

    fn host_paths(&self) -> (r: Vec<String>) {
        let mut r: Vec<String> = Vec::new();
        match &self.auth_file {
            Some(auth_file) => r.push(auth_file.clone()),
            None => (),
        }
        proof {
            assert(r.deep_view() =~= Self::spec_host_paths(self@));
        }
        r
    }

    fn set_host_paths(&mut self, paths: Vec<String>) {
        if self.auth_file.is_some() {
            self.auth_file = Some(paths[0].clone());
        }
        proof {
            assert(Self::spec_host_paths(self@) =~= paths.deep_view());
        }
    }
}

} // verus!
