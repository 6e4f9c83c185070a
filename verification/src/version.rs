//! Versions of Podman since Quadlet was added, ordered by release chronology.

use vstd::prelude::*;
use crate::render::str_eq;

verus! {

/// Versions of Podman since Quadlet was added.
///
/// Each version added new features to Quadlet.
#[derive(Debug, Clone, Copy, PartialEq, Eq, PartialOrd, Ord, Structural)]
pub enum PodmanVersion {
    /// Podman v4.4
    V4_4,
    /// Podman v4.5
    V4_5,
    /// Podman v4.6
    V4_6,
    /// Podman v4.7
    V4_7,
    /// Podman v4.8 and v4.9
    V4_8,
    /// Podman v5.0
    V5_0,
}

impl PodmanVersion {
    /// Chronological position of a version: later releases have larger ranks.
    pub open spec fn ord(self) -> int {
        match self {
            PodmanVersion::V4_4 => 0,
            PodmanVersion::V4_5 => 1,
            PodmanVersion::V4_6 => 2,
            PodmanVersion::V4_7 => 3,
            PodmanVersion::V4_8 => 4,
            PodmanVersion::V5_0 => 5,
        }
    }

    /// Latest supported version of Podman with regards to Quadlet.
    pub fn latest() -> (r: Self)
        ensures
            r == PodmanVersion::V5_0,
    {
        PodmanVersion::V5_0
    }

    /// Rank used to compare versions; agrees with [`Self::ord`].
    fn rank(self) -> (r: u8)
        ensures
            r as int == self.ord(),
    {
        match self {
            PodmanVersion::V4_4 => 0,
            PodmanVersion::V4_5 => 1,
            PodmanVersion::V4_6 => 2,
            PodmanVersion::V4_7 => 3,
            PodmanVersion::V4_8 => 4,
            PodmanVersion::V5_0 => 5,
        }
    }

    /// `self` is chronologically before `other`.
    pub fn lt(self, other: Self) -> (r: bool)
        ensures
            r == (self.ord() < other.ord()),
    {
        self.rank() < other.rank()
    }

    /// `self` is `other` or chronologically after it.
    pub fn ge(self, other: Self) -> (r: bool)
        ensures
            r == (self.ord() >= other.ord()),
    {
        self.rank() >= other.rank()
    }

    /// Podman version as a static string slice.
    pub fn as_str(self) -> (r: &'static str)
        ensures
            r@ == self.spec_str(),
    {
        match self {
            PodmanVersion::V4_4 => "4.4",
            PodmanVersion::V4_5 => "4.5",
            PodmanVersion::V4_6 => "4.6",
            PodmanVersion::V4_7 => "4.7",
            PodmanVersion::V4_8 => "4.8",
            PodmanVersion::V5_0 => "5.0",
        }
    }

    /// Canonical display string of a version.
    pub open spec fn spec_str(self) -> Seq<char> {
        match self {
            PodmanVersion::V4_4 => "4.4"@,
            PodmanVersion::V4_5 => "4.5"@,
            PodmanVersion::V4_6 => "4.6"@,
            PodmanVersion::V4_7 => "4.7"@,
            PodmanVersion::V4_8 => "4.8"@,
            PodmanVersion::V5_0 => "5.0"@,
        }
    }

    /// The version a configuration token names: each version's canonical
    /// dotted string and its patch-release aliases, with `latest` bound to
    /// the newest version. Podman v4.9 brought Quadlet nothing over v4.8,
    /// so its tokens name the v4.8 feature level.
    pub open spec fn spec_parse_token(s: Seq<char>) -> Option<PodmanVersion> {
        if s == "latest"@ || s == "5.0"@ || s == "5.0.0"@ || s == "5.0.1"@ || s == "5.0.2"@ {
            Some(PodmanVersion::V5_0)
        } else if s == "4.8"@ || s == "4.8.0"@ || s == "4.8.1"@ || s == "4.8.2"@ || s == "4.8.3"@
            || s == "4.9"@ || s == "4.9.0"@ || s == "4.9.1"@ || s == "4.9.2"@ || s == "4.9.3"@ || s
            == "4.9.4"@ {
            Some(PodmanVersion::V4_8)
        } else if s == "4.7"@ || s == "4.7.0"@ || s == "4.7.1"@ || s == "4.7.2"@ {
            Some(PodmanVersion::V4_7)
        } else if s == "4.6"@ || s == "4.6.0"@ || s == "4.6.1"@ || s == "4.6.2"@ {
            Some(PodmanVersion::V4_6)
        } else if s == "4.5"@ || s == "4.5.0"@ || s == "4.5.1"@ {
            Some(PodmanVersion::V4_5)
        } else if s == "4.4"@ || s == "4.4.0"@ || s == "4.4.1"@ || s == "4.4.2"@ || s == "4.4.3"@
            || s == "4.4.4"@ {
            Some(PodmanVersion::V4_4)
        } else {
            None
        }
    }

    /// Parses a version token as supplied in configuration; agrees with
    /// [`Self::spec_parse_token`].
    pub fn from_str(s: &str) -> (r: Option<PodmanVersion>)
        ensures
            r == Self::spec_parse_token(s@),
    {
        if str_eq(s, "latest") || str_eq(s, "5.0") || str_eq(s, "5.0.0") || str_eq(s, "5.0.1")
            || str_eq(s, "5.0.2") {
            Some(PodmanVersion::V5_0)
        } else if str_eq(s, "4.8") || str_eq(s, "4.8.0") || str_eq(s, "4.8.1") || str_eq(s, "4.8.2")
            || str_eq(s, "4.8.3") || str_eq(s, "4.9") || str_eq(s, "4.9.0") || str_eq(s, "4.9.1")
            || str_eq(s, "4.9.2") || str_eq(s, "4.9.3") || str_eq(s, "4.9.4") {
            Some(PodmanVersion::V4_8)
        } else if str_eq(s, "4.7") || str_eq(s, "4.7.0") || str_eq(s, "4.7.1") || str_eq(
            s,
            "4.7.2",
        ) {
            Some(PodmanVersion::V4_7)
        } else if str_eq(s, "4.6") || str_eq(s, "4.6.0") || str_eq(s, "4.6.1") || str_eq(
            s,
            "4.6.2",
        ) {
            Some(PodmanVersion::V4_6)
        } else if str_eq(s, "4.5") || str_eq(s, "4.5.0") || str_eq(s, "4.5.1") {
            Some(PodmanVersion::V4_5)
        } else if str_eq(s, "4.4") || str_eq(s, "4.4.0") || str_eq(s, "4.4.1") || str_eq(s, "4.4.2")
            || str_eq(s, "4.4.3") || str_eq(s, "4.4.4") {
            Some(PodmanVersion::V4_4)
        } else {
            None
        }
    }
}

impl Default for PodmanVersion {
    /// The default target is the latest supported version.
    fn default() -> (r: Self)
        ensures
            r == PodmanVersion::V5_0,
    {
        PodmanVersion::V5_0
    }
}

/// The ordering on versions is a total order, and the latest version is its
/// maximum element.
pub proof fn lemma_version_order_total(a: PodmanVersion, b: PodmanVersion, c: PodmanVersion)
    ensures
        a.ord() <= a.ord(),
        a.ord() <= b.ord() && b.ord() <= a.ord() ==> a == b,
        a.ord() <= b.ord() && b.ord() <= c.ord() ==> a.ord() <= c.ord(),
        a.ord() <= b.ord() || b.ord() <= a.ord(),
        a.ord() <= PodmanVersion::V5_0.ord(),
{
}

/// The `latest` token resolves to the newest version, the ordering's
/// maximum element.
pub proof fn lemma_latest_token_is_maximum(v: PodmanVersion)
    ensures
        PodmanVersion::spec_parse_token("latest"@) == Some(PodmanVersion::V5_0),
        v.ord() <= PodmanVersion::V5_0.ord(),
{
    reveal_strlit("latest");
}

} // verus!
