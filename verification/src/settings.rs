//! The typed settings of a camera. Each is one call of the feature protocol
//! under a fixed name, or a fixed answer where the device has no such
//! setting.

use vstd::prelude::*;
use crate::camera::{
    enum_feature_of,
    float_feature_of,
    float_value,
    journaled,
    EnumFeature,
    FloatFeature,
    WrappedCamera,
    Write,
};
use crate::error::Error;
use crate::modes::{
    auto_mode_name,
    mode_to_str,
    str_to_auto_mode,
    AcquisitionMode,
    AutoMode,
    TriggerMode,
    TriggerSelector,
};

verus! {

/// The shortest exposure time that can be asked for, in microseconds.
pub const EXPOSURE_TIME_MIN: u32 = 1;

/// The longest exposure time that can be asked for, in microseconds.
pub const EXPOSURE_TIME_MAX: u32 = 10000;

/// The lowest gain that can be asked for, in decibels.
pub const GAIN_MIN: u32 = 0;

/// The highest gain that can be asked for, in decibels.
pub const GAIN_MAX: u32 = 100;

/// The lowest frame rate that can be asked for, in frames per second.
pub const FRAME_RATE_MIN: u32 = 1;

/// The highest frame rate that can be asked for, in frames per second.
pub const FRAME_RATE_MAX: u32 = 120;

/// The names under which the typed settings go to the feature protocol
/// stand for the features they are meant for.
pub proof fn lemma_setting_names()
    ensures
        float_feature_of("ExposureTime"@) == Some(FloatFeature::ExposureTime),
        float_feature_of("Gain"@) == Some(FloatFeature::Gain),
        float_feature_of("AcquisitionFrameRate"@) == Some(FloatFeature::AcquisitionFrameRate),
        enum_feature_of("ExposureAuto"@) == Some(EnumFeature::ExposureAuto),
        enum_feature_of("GainAuto"@) == Some(EnumFeature::GainAuto),
{
    reveal_strlit("ExposureTime");
    reveal_strlit("Gain");
    reveal_strlit("AcquisitionFrameRate");
    reveal_strlit("PixelFormat");
    reveal_strlit("TriggerMode");
    reveal_strlit("AcquisitionMode");
    reveal_strlit("TriggerSelector");
    reveal_strlit("ExposureAuto");
    reveal_strlit("GainAuto");
    assert("ExposureTime"@.len() == 12);
    assert("Gain"@.len() == 4);
    assert("AcquisitionFrameRate"@.len() == 20);
    assert("PixelFormat"@.len() == 11);
    assert("TriggerMode"@.len() == 11);
    assert("AcquisitionMode"@.len() == 15);
    assert("TriggerSelector"@.len() == 15);
    assert("ExposureAuto"@.len() == 12);
    assert("GainAuto"@.len() == 8);
}

impl WrappedCamera {
    /// The exposure time in microseconds: the float feature `ExposureTime`.
    pub fn exposure_time(&self) -> (r: Result<u32, Error>)
        ensures
            r == Ok::<u32, Error>(float_value(self@, FloatFeature::ExposureTime)),
    {
        proof {
            lemma_setting_names();
        }
        self.feature_float("ExposureTime")
    }

    /// The least and the greatest exposure time in microseconds. The device
    /// reports no bounds, and a range that suits webcams is given.
    pub fn exposure_time_range(&self) -> (r: Result<(u32, u32), Error>)
        ensures
            r == Ok::<(u32, u32), Error>((EXPOSURE_TIME_MIN, EXPOSURE_TIME_MAX)),
    {
        Ok((EXPOSURE_TIME_MIN, EXPOSURE_TIME_MAX))
    }

    /// Writes the exposure time, given by the bits of its IEEE 754 form: a
    /// write of the float feature `ExposureTime`.
    pub fn set_exposure_time(&mut self, bits: u64) -> (r: Result<(), Error>)
        ensures
            r is Ok,
            final(self)@ == journaled(old(self)@, Write::Float { name: "ExposureTime"@, bits }),
    {
        proof {
            lemma_setting_names();
        }
        self.feature_float_set("ExposureTime", bits)
    }

    /// Whether the exposure is automatic: the enumerated feature
    /// `ExposureAuto`, read as a mode. It is always off.
    pub fn exposure_auto(&self) -> (r: Result<AutoMode, Error>)
        ensures
            r == Ok::<AutoMode, Error>(AutoMode::Off),
    {
        proof {
            lemma_setting_names();
        }
        match self.feature_enum("ExposureAuto") {
            Ok(val) => str_to_auto_mode(val.as_str()),
            Err(e) => Err(e),
        }
    }

    /// Writes the automatic exposure mode: a write of the enumerated feature
    /// `ExposureAuto` with the mode's name. It needs nothing of the device.
    pub fn set_exposure_auto(&mut self, value: AutoMode) -> (r: Result<(), Error>)
        ensures
            r is Ok,
            final(self)@ == journaled(
                old(self)@,
                Write::Enum { name: "ExposureAuto"@, value: auto_mode_name(value) },
            ),
    {
        proof {
            lemma_setting_names();
        }
        let sval = mode_to_str(value);
        self.feature_enum_set("ExposureAuto", sval, Ok(()))
    }

    /// The gain in decibels: the float feature `Gain`.
    pub fn gain(&self) -> (r: Result<u32, Error>)
        ensures
            r == Ok::<u32, Error>(float_value(self@, FloatFeature::Gain)),
    {
        proof {
            lemma_setting_names();
        }
        self.feature_float("Gain")
    }

    /// The least and the greatest gain in decibels. The device reports no
    /// bounds, and a range that suits webcams is given.
    pub fn gain_range(&self) -> (r: Result<(u32, u32), Error>)
        ensures
            r == Ok::<(u32, u32), Error>((GAIN_MIN, GAIN_MAX)),
    {
        Ok((GAIN_MIN, GAIN_MAX))
    }

    /// Writes the gain, given by the bits of its IEEE 754 form: a write of
    /// the float feature `Gain`.
    pub fn set_gain(&mut self, bits: u64) -> (r: Result<(), Error>)
        ensures
            r is Ok,
            final(self)@ == journaled(old(self)@, Write::Float { name: "Gain"@, bits }),
    {
        proof {
            lemma_setting_names();
        }
        self.feature_float_set("Gain", bits)
    }

    /// Whether the gain is automatic: the enumerated feature `GainAuto`,
    /// read as a mode. It is always off.
    pub fn gain_auto(&self) -> (r: Result<AutoMode, Error>)
        ensures
            r == Ok::<AutoMode, Error>(AutoMode::Off),
    {
        proof {
            lemma_setting_names();
        }
        match self.feature_enum("GainAuto") {
            Ok(val) => str_to_auto_mode(val.as_str()),
            Err(e) => Err(e),
        }
    }

    /// Writes the automatic gain mode: a write of the enumerated feature
    /// `GainAuto` with the mode's name. It needs nothing of the device.
    pub fn set_gain_auto(&mut self, value: AutoMode) -> (r: Result<(), Error>)
        ensures
            r is Ok,
            final(self)@ == journaled(
                old(self)@,
                Write::Enum { name: "GainAuto"@, value: auto_mode_name(value) },
            ),
    {
        proof {
            lemma_setting_names();
        }
        let sval = mode_to_str(value);
        self.feature_enum_set("GainAuto", sval, Ok(()))
    }

    /// The trigger mode. The device has no trigger: it is always off.
    pub fn trigger_mode(&self) -> (r: Result<TriggerMode, Error>)
        ensures
            r == Ok::<TriggerMode, Error>(TriggerMode::Off),
    {
        Ok(TriggerMode::Off)
    }

    /// The trigger selector. The device has no trigger: the selector is
    /// always the start of a frame.
    pub fn trigger_selector(&self) -> (r: Result<TriggerSelector, Error>)
        ensures
            r == Ok::<TriggerSelector, Error>(TriggerSelector::FrameStart),
    {
        Ok(TriggerSelector::FrameStart)
    }

    /// The acquisition mode. The device always takes frames continuously.
    pub fn acquisition_mode(&self) -> (r: Result<AcquisitionMode, Error>)
        ensures
            r == Ok::<AcquisitionMode, Error>(AcquisitionMode::Continuous),
    {
        Ok(AcquisitionMode::Continuous)
    }

    /// Whether the frame rate is limited. It always is.
    pub fn acquisition_frame_rate_enable(&self) -> (r: Result<bool, Error>)
        ensures
            r == Ok::<bool, Error>(true),
    {
        Ok(true)
    }

    /// The frame rate in frames per second: the float feature
    /// `AcquisitionFrameRate`.
    pub fn acquisition_frame_rate(&self) -> (r: Result<u32, Error>)
        ensures
            r == Ok::<u32, Error>(float_value(self@, FloatFeature::AcquisitionFrameRate)),
    {
        proof {
            lemma_setting_names();
        }
        self.feature_float("AcquisitionFrameRate")
    }

    /// The least and the greatest frame rate in frames per second. The
    /// device reports no bounds, and a range that suits webcams is given.
    pub fn acquisition_frame_rate_range(&self) -> (r: Result<(u32, u32), Error>)
        ensures
            r == Ok::<(u32, u32), Error>((FRAME_RATE_MIN, FRAME_RATE_MAX)),
    {
        Ok((FRAME_RATE_MIN, FRAME_RATE_MAX))
    }

    /// Writes the frame rate, given by the bits of its IEEE 754 form: a
    /// write of the float feature `AcquisitionFrameRate`.
    pub fn set_acquisition_frame_rate(&mut self, bits: u64) -> (r: Result<(), Error>)
        ensures
            r is Ok,
            final(self)@ == journaled(
                old(self)@,
                Write::Float { name: "AcquisitionFrameRate"@, bits },
            ),
    {
        proof {
            lemma_setting_names();
        }
        self.feature_float_set("AcquisitionFrameRate", bits)
    }

    /// Sets the camera up for an external trigger on each frame: first the
    /// trigger selector is written, then the trigger mode. The journal
    /// shows the two writes in this order, with nothing between them.
    pub fn start_default_external_triggering(&mut self) -> (r: Result<(), Error>)
        ensures
            r is Ok,
            final(self)@ == journaled(
                journaled(
                    old(self)@,
                    Write::TriggerSelector { value: TriggerSelector::FrameStart },
                ),
                Write::TriggerMode { value: TriggerMode::On },
            ),
    {
        match self.set_trigger_selector(TriggerSelector::FrameStart) {
            Ok(_) => self.set_trigger_mode(TriggerMode::On),
            Err(e) => Err(e),
        }
    }

    /// Limits the frame rate to the number given by the bits of its IEEE 754
    /// form: first the limit is switched on, then the frame rate is written.
    pub fn set_software_frame_rate_limit(&mut self, bits: u64) -> (r: Result<(), Error>)
        ensures
            r is Ok,
            final(self)@ == journaled(
                journaled(old(self)@, Write::FrameRateEnable { value: true }),
                Write::Float { name: "AcquisitionFrameRate"@, bits },
            ),
    {
        match self.set_acquisition_frame_rate_enable(true) {
            Ok(_) => self.set_acquisition_frame_rate(bits),
            Err(e) => Err(e),
        }
    }
}

} // verus!
