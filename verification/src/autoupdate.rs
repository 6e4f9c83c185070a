//! The `AutoUpdate=` Quadlet option and its label convention.

use vstd::prelude::*;
use vstd::seq_lib::group_seq_lib_default;
use vstd::string::StrSliceExecFns;
use vstd::string::StringExecFns;
use crate::render::str_eq;

verus! {

broadcast use group_seq_lib_default;

/// Valid values for the `AutoUpdate=` Quadlet option.
#[derive(Debug, Clone, Copy, PartialEq, Eq, Structural)]
pub enum AutoUpdate {
    Registry,
    Local,
}

impl AutoUpdate {
    /// The option's lowercase name.
    pub open spec fn spec_str(self) -> Seq<char> {
        match self {
            AutoUpdate::Registry => "registry"@,
            AutoUpdate::Local => "local"@,
        }
    }

    /// The option's value as a lowercase static string slice.
    pub fn as_str(self) -> (r: &'static str)
        ensures
            r@ == self.spec_str(),
    {
        match self {
            AutoUpdate::Registry => "registry",
            AutoUpdate::Local => "local",
        }
    }

    /// What parsing an option value yields: `registry` and `local` are the
    /// only valid values.
    pub open spec fn spec_parse(s: Seq<char>) -> Option<AutoUpdate> {
        if s == "registry"@ {
            Some(AutoUpdate::Registry)
        } else if s == "local"@ {
            Some(AutoUpdate::Local)
        } else {
            None
        }
    }

    /// Parses an `AutoUpdate=` option value.
    pub fn from_str(s: &str) -> (r: Result<AutoUpdate, ParseAutoUpdateError>)
        ensures
            (match Self::spec_parse(s@) {
                Some(value) => r == Ok::<AutoUpdate, ParseAutoUpdateError>(value),
                None => r matches Err(e) && e@ == s@,
            }),
    {
        if str_eq(s, "registry") {
            Ok(AutoUpdate::Registry)
        } else if str_eq(s, "local") {
            Ok(AutoUpdate::Local)
        } else {
            Err(ParseAutoUpdateError(String::from_str(s)))
        }
    }

    /// The value a label string carries: `Some` exactly when the label is
    /// the well-known `io.containers.autoupdate` key, an `=`, and a valid
    /// option value.
    pub open spec fn spec_label_value(s: Seq<char>) -> Option<AutoUpdate> {
        if s.len() >= 25 && s.take(25) == "io.containers.autoupdate="@ {
            Self::spec_parse(s.skip(25))
        } else {
            None
        }
    }

    /// The labels that extraction retains: those carrying no valid
    /// auto-update value.
    pub open spec fn spec_kept(labels: Seq<Seq<char>>) -> Seq<Seq<char>> {
        labels.filter(|l: Seq<char>| Self::spec_label_value(l) is None)
    }

    /// The value extraction returns: the last label with a valid value
    /// decides.
    pub open spec fn spec_extracted(labels: Seq<Seq<char>>) -> Option<AutoUpdate>
        decreases labels.len(),
    {
        if labels.len() == 0 {
            None
        } else {
            match Self::spec_label_value(labels.last()) {
                Some(value) => Some(value),
                None => Self::spec_extracted(labels.drop_last()),
            }
        }
    }

    /// The auto-update value a single label carries, if any.
    fn label_value(label: &str) -> (r: Option<AutoUpdate>)
        ensures
            r == Self::spec_label_value(label@),
    {
        let n = label.unicode_len();
        if n < 25 {
            return None;
        }
        let prefix = label.substring_char(0, 25);
        if !str_eq(prefix, "io.containers.autoupdate=") {
            return None;
        }
        let rest = label.substring_char(25, n);
        if str_eq(rest, "registry") {
            Some(AutoUpdate::Registry)
        } else if str_eq(rest, "local") {
            Some(AutoUpdate::Local)
        } else {
            None
        }
    }

    /// Extracts all valid values of the `io.containers.autoupdate` label
    /// from `labels`, the last value of which decides the result.
    ///
    /// Returns `None` if no valid `io.containers.autoupdate` label is found.
    ///
    /// `io.containers.autoupdate` labels with invalid values are retained in
    /// `labels`.
    pub fn extract_from_labels(labels: &mut Vec<String>) -> (r: Option<AutoUpdate>)
        ensures
            final(labels).deep_view() == Self::spec_kept(old(labels).deep_view()),
            r == Self::spec_extracted(old(labels).deep_view()),
    {
        let ghost all: Seq<Seq<char>> = labels.deep_view();
        let mut kept: Vec<String> = Vec::new();
        let mut found: Option<AutoUpdate> = None;
        let mut i: usize = 0;
        while i < labels.len()
            invariant
                i <= labels.len(),
                labels.deep_view() == all,
                kept.deep_view() == Self::spec_kept(all.take(i as int)),
                found == Self::spec_extracted(all.take(i as int)),
            decreases labels.len() - i,
        {
            let ghost prefix: Seq<Seq<char>> = all.take(i as int);
            proof {
                assert(all.take(i + 1 as int).drop_last() =~= prefix);
                assert(all.take(i + 1 as int).last() == all[i as int]);
                reveal(Seq::filter);
            }
            match Self::label_value(labels[i].as_str()) {
                Some(value) => {
                    found = Some(value);
                },
                None => {
                    kept.push(labels[i].clone());
                    proof {
                        assert(kept.deep_view() =~= Self::spec_kept(prefix).push(all[i as int]));
                        assert(Self::spec_kept(all.take(i + 1 as int)) =~= Self::spec_kept(
                            prefix,
                        ).push(all[i as int]));
                    }
                },
            }
            i = i + 1;
        }
        proof {
            assert(all.take(labels.len() as int) =~= all);
        }
        *labels = kept;
        found
    }
}

/// Error returned when attempting to parse an invalid [`AutoUpdate`]
/// variant, see [`AutoUpdate::from_str()`].
#[derive(Debug, Clone, PartialEq)]
pub struct ParseAutoUpdateError(pub String);

impl View for ParseAutoUpdateError {
    type V = Seq<char>;

    open spec fn view(&self) -> Seq<char> {
        self.0@
    }
}

impl ParseAutoUpdateError {
    /// What [`Self::message`] returns.
    pub open spec fn spec_message(v: Seq<char>) -> Seq<char> {
        "unknown auto update variant `"@ + v + "`, must be `registry` or `local`"@
    }

    /// A human-readable description of the error.
    pub fn message(&self) -> (r: String)
        ensures
            r@ == Self::spec_message(self@),
    {
        let mut out = String::from_str("unknown auto update variant `");
        out.append(self.0.as_str());
        out.append("`, must be `registry` or `local`");
        proof {
            assert(out@ =~= Self::spec_message(self@));
        }
        out
    }
}

} // verus!
