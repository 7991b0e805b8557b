use vstd::prelude::*;

use crate::error::{ErrorKind, Field, ResolutionError};
use crate::text::text_eq;

verus! {

/// How the algorithm treats competing traffic at the bottleneck.
#[derive(Clone, Copy, Debug, PartialEq, Eq, Structural)]
pub enum DeltaMode {
    /// No competing loss-based flows: keep the fixed tradeoff.
    NoCrossTraffic,
    /// Detect competing traffic at run time and adapt the tradeoff.
    Auto,
}

/// The mode that a label names; labels are matched case-sensitively.
pub open spec fn delta_mode_of(s: Seq<char>) -> Option<DeltaMode> {
    if s == "NoCrossTraffic"@ {
        Some(DeltaMode::NoCrossTraffic)
    } else if s == "Auto"@ {
        Some(DeltaMode::Auto)
    } else {
        None
    }
}

impl DeltaMode {
    pub open spec fn spec_label(self) -> Seq<char> {
        match self {
            DeltaMode::NoCrossTraffic => "NoCrossTraffic"@,
            DeltaMode::Auto => "Auto"@,
        }
    }

    /// The label that names this mode.
    pub fn label(&self) -> (r: &'static str)
        ensures
            r@ == self.spec_label(),
    {
        match self {
            DeltaMode::NoCrossTraffic => "NoCrossTraffic",
            DeltaMode::Auto => "Auto",
        }
    }

    /// The mode that `label` names, or `UnknownVariant` carrying the label.
    pub fn resolve(label: &str) -> (r: Result<DeltaMode, ResolutionError>)
        ensures
            match r {
                Ok(m) => delta_mode_of(label@) == Some(m),
                Err(e) => delta_mode_of(label@) is None && e@ == (
                    ErrorKind::UnknownVariant,
                    Field::DeltaMode,
                    label@,
                ),
            },
    {
        if text_eq(label, "NoCrossTraffic") {
            Ok(DeltaMode::NoCrossTraffic)
        } else if text_eq(label, "Auto") {
            Ok(DeltaMode::Auto)
        } else {
            Err(ResolutionError::new(ErrorKind::UnknownVariant, Field::DeltaMode, label))
        }
    }
}

/// Every mode is named by its own label.
pub proof fn lemma_label_round_trip(m: DeltaMode)
    ensures
        delta_mode_of(m.spec_label()) == Some(m),
{
    reveal_strlit("NoCrossTraffic");
    reveal_strlit("Auto");
    assert("NoCrossTraffic"@.len() != "Auto"@.len());
}

} // verus!
