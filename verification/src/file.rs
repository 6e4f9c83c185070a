//! The top-level aggregate: a named resource with its systemd blocks and
//! global options, the unit of rendering and downgrading.

use vstd::prelude::*;
use vstd::string::StringExecFns;
use crate::blocks::Install;
use crate::blocks::InstallView;
use crate::blocks::Service;
use crate::blocks::ServiceView;
use crate::blocks::Unit;
use crate::blocks::UnitView;
use crate::downgrade::Downgrade;
use crate::downgrade::DowngradeError;
use crate::downgrade::DowngradeErrorView;
use crate::globals::Globals;
use crate::globals::GlobalsView;
use crate::hostpaths::HostPaths;
use crate::resource::Resource;
use crate::resource::ResourceView;
use crate::version::PodmanVersion;

verus! {

/// One Quadlet file: a named resource plus optional unit metadata, global
/// options, service overrides and install directives.
#[derive(Debug, Clone, PartialEq)]
pub struct File {
    /// The generated file's name, without extension.
    pub name: String,
    /// The `[Unit]` block, if any.
    pub unit: Option<Unit>,
    /// The resource the file describes.
    pub resource: Resource,
    /// Options that apply regardless of the resource's kind.
    pub globals: Globals,
    /// The `[Service]` block, if any.
    pub service: Option<Service>,
    /// The `[Install]` block, if any.
    pub install: Option<Install>,
}

/// Abstract state of a [`File`].
pub struct FileView {
    pub name: Seq<char>,
    pub unit: Option<UnitView>,
    pub resource: ResourceView,
    pub globals: GlobalsView,
    pub service: Option<ServiceView>,
    pub install: Option<InstallView>,
}

impl View for File {
    type V = FileView;

    open spec fn view(&self) -> FileView {
        FileView {
            name: self.name@,
            unit: match self.unit {
                Some(u) => Some(u@),
                None => None,
            },
            resource: self.resource@,
            globals: self.globals@,
            service: match self.service {
                Some(s) => Some(s@),
                None => None,
            },
            install: match self.install {
                Some(i) => Some(i@),
                None => None,
            },
        }
    }
}

impl File {
    /// Returns the corresponding service file name generated by Quadlet.
    pub fn service_name(&self) -> (r: String)
        ensures
            r@ == Resource::spec_service_name(self@.resource, self@.name),
    {
        self.resource.name_to_service(self.name.as_str())
    }

    /// What [`Self::render`] returns, in the fixed section order: unit
    /// metadata, then the resource's section with the globals merged into
    /// it, then the service and install blocks, each after a blank line.
    pub open spec fn spec_render(v: FileView) -> Seq<char> {
        (match v.unit {
            Some(u) => Unit::spec_render(u) + "\n"@,
            None => Seq::empty(),
        }) + Resource::spec_render(v.resource) + Globals::spec_render(v.globals) + (
        match v.service {
            Some(s) => "\n"@ + Service::spec_render(s),
            None => Seq::empty(),
        }) + (match v.install {
            Some(i) => "\n"@ + Install::spec_render(i),
            None => Seq::empty(),
        })
    }

    /// Renders the whole file as unit-file text.
    pub fn render(&self) -> (r: String)
        ensures
            r@ == Self::spec_render(self@),
    {
        let mut out = String::new();
        match &self.unit {
            Some(u) => {
                let unit_text = u.render();
                out.append(unit_text.as_str());
                out.append("\n");
            },
            None => (),
        }
        let resource_text = self.resource.render();
        out.append(resource_text.as_str());
        let globals_text = self.globals.render();
        out.append(globals_text.as_str());
        match &self.service {
            Some(s) => {
                out.append("\n");
                let service_text = s.render();
                out.append(service_text.as_str());
            },
            None => (),
        }
        match &self.install {
            Some(i) => {
                out.append("\n");
                let install_text = i.render();
                out.append(install_text.as_str());
            },
            None => (),
        }
        proof {
            assert(out@ =~= Self::spec_render(self@));
        }
        out
    }
}

impl Downgrade for File {
    /// The resource downgrades first, then the globals; a failure stops the
    /// walk there, leaving what came before it downgraded.
    open spec fn spec_downgrade(v: FileView, version: PodmanVersion) -> FileView {
        let resource = Resource::spec_downgrade(v.resource, version);
        if Resource::spec_downgrade_err(v.resource, version) is Some {
            FileView { resource, ..v }
        } else {
            FileView {
                resource,
                globals: Globals::spec_downgrade(v.globals, version),
                ..v
            }
        }
    }

    open spec fn spec_downgrade_err(v: FileView, version: PodmanVersion) -> Option<
        DowngradeErrorView,
    > {
        match Resource::spec_downgrade_err(v.resource, version) {
            Some(e) => Some(e),
            None => Globals::spec_downgrade_err(v.globals, version),
        }
    }

    fn downgrade(&mut self, version: PodmanVersion) -> (r: Result<(), DowngradeError>) {
        match self.resource.downgrade(version) {
            Ok(_) => self.globals.downgrade(version),
            Err(e) => Err(e),
        }
    }
}

impl HostPaths for File {
    /// The resource's host paths first, then the globals'.
    open spec fn spec_host_paths(v: FileView) -> Seq<Seq<char>> {
        Resource::spec_host_paths(v.resource) + Globals::spec_host_paths(v.globals)
    }

    open spec fn spec_with_host_paths(v: FileView, paths: Seq<Seq<char>>) -> FileView {
        let k = Resource::spec_host_paths(v.resource).len() as int;
        FileView {
            resource: Resource::spec_with_host_paths(v.resource, paths.take(k)),
            globals: Globals::spec_with_host_paths(v.globals, paths.skip(k)),
            ..v
        }
    }

    fn host_paths(&self) -> (r: Vec<String>) {
        let mut r = self.resource.host_paths();
        let mut globals_paths = self.globals.host_paths();
        r.append(&mut globals_paths);
        proof {
            assert(r.deep_view() =~= Self::spec_host_paths(self@));
        }
        r
    }

    fn set_host_paths(&mut self, paths: Vec<String>) {
        let k = self.resource.host_paths().len();
        let mut first: Vec<String> = Vec::new();
        let mut i: usize = 0;
        while i < k
            invariant
                i <= k,
                k <= paths.len(),
                first@ == paths@.take(i as int),
            decreases k - i,
        {
            first.push(paths[i].clone());
            proof {
                assert(first@ =~= paths@.take(i + 1 as int));
            }
            i = i + 1;
        }
        let mut second: Vec<String> = Vec::new();
        let mut j: usize = k;
        while j < paths.len()
            invariant
                k <= j <= paths.len(),
                second@ == paths@.subrange(k as int, j as int),
            decreases paths.len() - j,
        {
            second.push(paths[j].clone());
            proof {
                assert(second@ =~= paths@.subrange(k as int, j + 1 as int));
            }
            j = j + 1;
        }
        proof {
            assert(first.deep_view() =~= paths.deep_view().take(k as int));
            assert(second.deep_view() =~= paths.deep_view().skip(k as int));
        }
        self.resource.set_host_paths(first);
        self.globals.set_host_paths(second);
    }
}

} // verus!
