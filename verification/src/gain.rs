//! Gain settings of each model in each sampling mode.
//!
//! A gain is carried as the bit pattern of a single-precision number of
//! decibels: it is stored, looked up and handed back, and never computed with.
use vstd::prelude::*;

use crate::interface::RadioModel;

verus! {

/// A gain in decibels, as the bit pattern of a single-precision number.
#[derive(Debug, Clone, Copy, PartialEq, Eq, Structural)]
pub struct Gain {
    pub bits: u32,
}

/// The gains that one model offers in one sampling mode.
pub struct GainProfile {
    pub if_range: (Gain, Gain),
    pub if_steps: Vec<Gain>,
    pub rf_range: (Gain, Gain),
    pub rf_steps: Vec<Gain>,
}

/// The gains that one model offers.
pub struct ModelGains {
    /// With the ADC fed directly.
    pub direct: GainProfile,
    /// Through the tuner.
    pub tuner: GainProfile,
}

/// The gains that every model offers.
pub struct GainCatalog {
    pub noradio: ModelGains,
    pub rx888: ModelGains,
    pub rx888r2: ModelGains,
    pub rx888plus: ModelGains,
    pub rx888pro: ModelGains,
}

impl GainCatalog {
    /// The gains of `model` in direct sampling or through the tuner.
    pub open spec fn at(self, model: RadioModel, direct_sampling: bool) -> GainProfile {
        let gains = match model {
            RadioModel::NORADIO => self.noradio,
            RadioModel::RX888 => self.rx888,
            RadioModel::RX888r2 => self.rx888r2,
            RadioModel::RX888plus => self.rx888plus,
            RadioModel::RX888pro => self.rx888pro,
        };
        if direct_sampling {
            gains.direct
        } else {
            gains.tuner
        }
    }

    /// Looks up the gains of `model` in direct sampling or through the tuner.
    pub fn profile(&self, model: RadioModel, direct_sampling: bool) -> (profile: &GainProfile)
        ensures
            *profile == self.at(model, direct_sampling),
            match model {
                RadioModel::NORADIO => *profile == if direct_sampling {
                    self.noradio.direct
                } else {
                    self.noradio.tuner
                },
                RadioModel::RX888 => *profile == if direct_sampling {
                    self.rx888.direct
                } else {
                    self.rx888.tuner
                },
                RadioModel::RX888r2 => *profile == if direct_sampling {
                    self.rx888r2.direct
                } else {
                    self.rx888r2.tuner
                },
                RadioModel::RX888plus => *profile == if direct_sampling {
                    self.rx888plus.direct
                } else {
                    self.rx888plus.tuner
                },
                RadioModel::RX888pro => *profile == if direct_sampling {
                    self.rx888pro.direct
                } else {
                    self.rx888pro.tuner
                },
            },
    {
        let gains = match model {
            RadioModel::NORADIO => &self.noradio,
            RadioModel::RX888 => &self.rx888,
            RadioModel::RX888r2 => &self.rx888r2,
            RadioModel::RX888plus => &self.rx888plus,
            RadioModel::RX888pro => &self.rx888pro,
        };
        if direct_sampling {
            &gains.direct
        } else {
            &gains.tuner
        }
    }
}

/// The gains of a model in a sampling mode are those that the catalog holds for
/// that very model and that very mode.
pub proof fn models_have_their_own_gains(gains: GainCatalog)
    ensures
        gains.at(RadioModel::NORADIO, true) == gains.noradio.direct,
        gains.at(RadioModel::NORADIO, false) == gains.noradio.tuner,
        gains.at(RadioModel::RX888, true) == gains.rx888.direct,
        gains.at(RadioModel::RX888, false) == gains.rx888.tuner,
        gains.at(RadioModel::RX888r2, true) == gains.rx888r2.direct,
        gains.at(RadioModel::RX888r2, false) == gains.rx888r2.tuner,
        gains.at(RadioModel::RX888plus, true) == gains.rx888plus.direct,
        gains.at(RadioModel::RX888plus, false) == gains.rx888plus.tuner,
        gains.at(RadioModel::RX888pro, true) == gains.rx888pro.direct,
        gains.at(RadioModel::RX888pro, false) == gains.rx888pro.tuner,
{
}

} // verus!
