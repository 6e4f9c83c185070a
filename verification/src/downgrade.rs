//! The compatibility engine's contract: restricting a value's configuration
//! to what a target Podman version supports, and the errors that reports.

use vstd::prelude::*;
use vstd::string::StringExecFns;
use crate::kind::ResourceKind;
use crate::version::PodmanVersion;

verus! {

/// Error returned when [downgrading](Downgrade::downgrade()) a Quadlet file
/// fails.
#[derive(Debug, Clone, PartialEq)]
pub enum DowngradeError {
    /// Unsupported Quadlet option used.
    Option {
        /// Name of the offending Quadlet option.
        quadlet_option: &'static str,
        /// The option's value in the model.
        value: String,
        /// First Podman version that supports the option.
        supported_version: PodmanVersion,
    },
    /// Unsupported Quadlet kind.
    Kind {
        /// The resource kind that the target version does not know.
        kind: ResourceKind,
        /// First Podman version that supports the kind.
        supported_version: PodmanVersion,
    },
}

/// Abstract form of a [`DowngradeError`], used in contracts.
pub enum DowngradeErrorView {
    Option { quadlet_option: Seq<char>, value: Seq<char>, supported_version: PodmanVersion },
    Kind { kind: ResourceKind, supported_version: PodmanVersion },
}

impl View for DowngradeError {
    type V = DowngradeErrorView;

    open spec fn view(&self) -> DowngradeErrorView {
        match self {
            DowngradeError::Option { quadlet_option, value, supported_version } => {
                DowngradeErrorView::Option {
                    quadlet_option: quadlet_option@,
                    value: value@,
                    supported_version: *supported_version,
                }
            },
            DowngradeError::Kind { kind, supported_version } => {
                DowngradeErrorView::Kind { kind: *kind, supported_version: *supported_version }
            },
        }
    }
}

impl DowngradeError {
    /// What [`Self::message`] returns.
    pub open spec fn spec_message(v: DowngradeErrorView) -> Seq<char> {
        match v {
            DowngradeErrorView::Option { quadlet_option, value, supported_version } => {
                "Quadlet option `"@ + quadlet_option + "="@ + value
                    + "` was not supported until Podman v"@ + supported_version.spec_str()
            },
            DowngradeErrorView::Kind { kind, supported_version } => {
                "`."@ + kind.spec_str() + "` Quadlet files were not supported until Podman v"@
                    + supported_version.spec_str()
            },
        }
    }

    /// A human-readable description of the error.
    pub fn message(&self) -> (r: String)
        ensures
            r@ == Self::spec_message(self@),
    {
        match self {
            DowngradeError::Option { quadlet_option, value, supported_version } => {
                let mut out = String::from_str("Quadlet option `");
                out.append(quadlet_option);
                out.append("=");
                out.append(value.as_str());
                out.append("` was not supported until Podman v");
                out.append(supported_version.as_str());
                proof {
                    assert(out@ =~= Self::spec_message(self@));
                }
                out
            },
            DowngradeError::Kind { kind, supported_version } => {
                let mut out = String::from_str("`.");
                out.append(kind.as_str());
                out.append("` Quadlet files were not supported until Podman v");
                out.append(supported_version.as_str());
                proof {
                    assert(out@ =~= Self::spec_message(self@));
                }
                out
            },
        }
    }
}

/// Trait for types which have varying levels of compatibility with different
/// [`PodmanVersion`]s.
pub trait Downgrade: View + Sized {
    /// The value's abstract state after downgrading to `version`: every
    /// option processed before the first incompatibility, neutralized.
    spec fn spec_downgrade(v: Self::V, version: PodmanVersion) -> Self::V;

    /// The first incompatibility that downgrading to `version` reports, if
    /// any.
    spec fn spec_downgrade_err(v: Self::V, version: PodmanVersion) -> Option<DowngradeErrorView>;

    /// Downgrade Podman compatibility to `version`.
    ///
    /// This is a one-way transformation, calling downgrade a second time with
    /// a higher version will not increase the Quadlet options used.
    ///
    /// # Errors
    ///
    /// Returns an error if the given [`PodmanVersion`] does not support a
    /// used Quadlet option or the kind of Quadlet file.
    fn downgrade(&mut self, version: PodmanVersion) -> (r: Result<(), DowngradeError>)
        ensures
            final(self)@ == Self::spec_downgrade(old(self)@, version),
            (match Self::spec_downgrade_err(old(self)@, version) {
                Some(e) => r matches Err(err) && err@ == e,
                None => r is Ok,
            }),
    ;
}

} // verus!
