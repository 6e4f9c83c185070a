//! The systemd blocks that frame a Quadlet file: `[Unit]`, `[Service]` and
//! `[Install]`.

use vstd::prelude::*;
use vstd::string::StringExecFns;
use crate::render::append_lines;
use crate::render::append_opt_line;
use crate::render::spec_lines;
use crate::render::spec_opt_line;

verus! {

/// The `[Unit]` block: systemd metadata of the generated unit.
#[derive(Debug, Clone, PartialEq)]
pub struct Unit {
    /// `Description=`.
    pub description: Option<String>,
    /// `After=` entries.
    pub after: Vec<String>,
}

/// Abstract state of a [`Unit`].
pub struct UnitView {
    pub description: Option<Seq<char>>,
    pub after: Seq<Seq<char>>,
}

impl View for Unit {
    type V = UnitView;

    open spec fn view(&self) -> UnitView {
        UnitView { description: self.description.deep_view(), after: self.after.deep_view() }
    }
}

impl Unit {
    /// What [`Self::render`] returns.
    pub open spec fn spec_render(v: UnitView) -> Seq<char> {
        "[Unit]\n"@ + spec_opt_line("Description"@, v.description) + spec_lines("After"@, v.after)
    }

    /// Renders the block as unit-file text.
    pub fn render(&self) -> (r: String)
        ensures
            r@ == Self::spec_render(self@),
    {
        let mut out = String::from_str("[Unit]\n");
        append_opt_line(&mut out, "Description", &self.description);
        append_lines(&mut out, "After", &self.after);
        proof {
            assert(out@ =~= Self::spec_render(self@));
        }
        out
    }
}

/// The `[Service]` block: overrides for the generated service.
#[derive(Debug, Clone, PartialEq)]
pub struct Service {
    /// `Restart=`.
    pub restart: Option<String>,
}

/// Abstract state of a [`Service`].
pub struct ServiceView {
    pub restart: Option<Seq<char>>,
}

impl View for Service {
    type V = ServiceView;

    open spec fn view(&self) -> ServiceView {
        ServiceView { restart: self.restart.deep_view() }
    }
}

impl Service {
    /// What [`Self::render`] returns.
    pub open spec fn spec_render(v: ServiceView) -> Seq<char> {
        "[Service]\n"@ + spec_opt_line("Restart"@, v.restart)
    }

    /// Renders the block as unit-file text.
    pub fn render(&self) -> (r: String)
        ensures
            r@ == Self::spec_render(self@),
    {
        let mut out = String::from_str("[Service]\n");
        append_opt_line(&mut out, "Restart", &self.restart);
        proof {
            assert(out@ =~= Self::spec_render(self@));
        }
        out
    }
}

/// The `[Install]` block: when the generated unit is wanted.
#[derive(Debug, Clone, PartialEq)]
pub struct Install {
    /// `WantedBy=` entries.
    pub wanted_by: Vec<String>,
}

/// Abstract state of an [`Install`].
pub struct InstallView {
    pub wanted_by: Seq<Seq<char>>,
}

impl View for Install {
    type V = InstallView;

    open spec fn view(&self) -> InstallView {
        InstallView { wanted_by: self.wanted_by.deep_view() }
    }
}

impl Install {
    /// What [`Self::render`] returns.
    pub open spec fn spec_render(v: InstallView) -> Seq<char> {
        "[Install]\n"@ + spec_lines("WantedBy"@, v.wanted_by)
    }

    /// Renders the block as unit-file text.
    pub fn render(&self) -> (r: String)
        ensures
            r@ == Self::spec_render(self@),
    {
        let mut out = String::from_str("[Install]\n");
        append_lines(&mut out, "WantedBy", &self.wanted_by);
        proof {
            assert(out@ =~= Self::spec_render(self@));
        }
        out
    }
}

} // verus!
