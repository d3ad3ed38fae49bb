//! The enumerated settings of a camera and their names on the feature
//! protocol.

use vstd::prelude::*;
use vstd::string::*;
use crate::error::{Error, ErrorView, ValueKind};
use crate::text::str_eq;

verus! {

/// Whether a setting is fixed by hand, adjusted once, or adjusted all the time.
#[derive(Clone, Copy, Debug, PartialEq, Eq, Structural)]
pub enum AutoMode {
    Off,
    Once,
    Continuous,
}

/// Whether frames wait for a trigger.
#[derive(Clone, Copy, Debug, PartialEq, Eq, Structural)]
pub enum TriggerMode {
    Off,
    On,
}

/// What a trigger starts.
#[derive(Clone, Copy, Debug, PartialEq, Eq, Structural)]
pub enum TriggerSelector {
    AcquisitionStart,
    FrameBurstStart,
    FrameStart,
    ExposureActive,
}

/// How many frames an acquisition takes.
#[derive(Clone, Copy, Debug, PartialEq, Eq, Structural)]
pub enum AcquisitionMode {
    Continuous,
    SingleFrame,
    MultiFrame,
}

/// The name of an automatic mode on the feature protocol.
pub open spec fn auto_mode_name(mode: AutoMode) -> Seq<char> {
    match mode {
        AutoMode::Off => "Off"@,
        AutoMode::Once => "Once"@,
        AutoMode::Continuous => "Continuous"@,
    }
}

/// The automatic mode that a name stands for, if any.
pub open spec fn auto_mode_of(name: Seq<char>) -> Option<AutoMode> {
    if name == "Off"@ {
        Some(AutoMode::Off)
    } else if name == "Once"@ {
        Some(AutoMode::Once)
    } else if name == "Continuous"@ {
        Some(AutoMode::Continuous)
    } else {
        None
    }
}

/// Reads an automatic mode from its name. Any other text is refused, and the
/// error carries it.
pub fn str_to_auto_mode(val: &str) -> (r: Result<AutoMode, Error>)
    ensures
        match auto_mode_of(val@) {
            Some(mode) => r == Ok::<AutoMode, Error>(mode),
            None => r matches Err(e) && e@ == (ErrorView::ParseError {
                what: ValueKind::AutoMode,
                text: val@,
            }),
        },
{
    if str_eq(val, "Off") {
        Ok(AutoMode::Off)
    } else if str_eq(val, "Once") {
        Ok(AutoMode::Once)
    } else if str_eq(val, "Continuous") {
        Ok(AutoMode::Continuous)
    } else {
        Err(Error::ParseError { what: ValueKind::AutoMode, text: String::from_str(val) })
    }
}

/// The name of an automatic mode.
pub fn mode_to_str(value: AutoMode) -> (s: &'static str)
    ensures
        s@ == auto_mode_name(value),
{
    match value {
        AutoMode::Off => "Off",
        AutoMode::Once => "Once",
        AutoMode::Continuous => "Continuous",
    }
}

/// The three names of the automatic modes differ from one another.
pub proof fn lemma_auto_mode_names_differ()
    ensures
        "Off"@ != "Once"@,
        "Off"@ != "Continuous"@,
        "Once"@ != "Continuous"@,
{
    reveal_strlit("Off");
    reveal_strlit("Once");
    reveal_strlit("Continuous");
    assert("Off"@.len() == 3);
    assert("Once"@.len() == 4);
    assert("Continuous"@.len() == 10);
}

/// Every automatic mode is read back from its own name.
pub proof fn lemma_auto_mode_round_trip(mode: AutoMode)
    ensures
        auto_mode_of(auto_mode_name(mode)) == Some(mode),
{
    lemma_auto_mode_names_differ();
}

} // verus!
