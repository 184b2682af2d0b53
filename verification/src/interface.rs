//! What the host knows of the device: models, registers and the constants of a
//! board and its firmware.
use vstd::prelude::*;

verus! {

/// Radio models, as the firmware reports them.
#[derive(Debug, Clone, Copy, PartialEq, Eq, Structural)]
pub enum RadioModel {
    /// A model that this driver does not know.
    NORADIO,
    RX888,
    RX888r2,
    RX888plus,
    RX888pro,
}

impl RadioModel {
    /// The model behind the byte that the firmware reports.
    pub open spec fn of_byte(byte: u8) -> RadioModel {
        if byte == 0x03 {
            RadioModel::RX888
        } else if byte == 0x04 {
            RadioModel::RX888r2
        } else if byte == 0x05 {
            RadioModel::RX888plus
        } else if byte == 0x07 {
            RadioModel::RX888pro
        } else {
            RadioModel::NORADIO
        }
    }

    /// Reads the model byte that the firmware reports.
    pub fn from_byte(byte: u8) -> (model: RadioModel)
        ensures
            model == RadioModel::of_byte(byte),
    {
        match byte {
            0x03 => RadioModel::RX888,
            0x04 => RadioModel::RX888r2,
            0x05 => RadioModel::RX888plus,
            0x07 => RadioModel::RX888pro,
            _ => RadioModel::NORADIO,
        }
    }
}

/// Firmware registers.
#[allow(non_camel_case_types)]
#[derive(Debug, Clone, Copy, PartialEq, Eq, Structural)]
pub enum Register {
    REG_INFO_RESET,
    REG_ADC,
    REG_ADCFREQ,
    REG_TUNER,
    REG_TUNER_CENTER_FREQ_HIGH,
    REG_TUNER_CENTER_FREQ_LOW,
    REG_TUNER_IF_GAIN,
    REG_TUNER_RF_GAIN,
    REG_TUNER_ANT_BIAS,
    REG_TUNER_PREAMP,
    REG_DIRECT_IF_GAIN,
    REG_DIRECT_RF_GAIN,
    REG_DIRECT_ANT_BIAS,
    REG_DIRECT_PREAMP,
    REG_DIRECT_ADC_FILTER,
    REG_EXT_GPIO,
}

impl Register {
    /// The register's name.
    pub open spec fn text(self) -> Seq<char> {
        match self {
            Register::REG_INFO_RESET => "REG_INFO_RESET"@,
            Register::REG_ADC => "REG_ADC"@,
            Register::REG_ADCFREQ => "REG_ADCFREQ"@,
            Register::REG_TUNER => "REG_TUNER"@,
            Register::REG_TUNER_CENTER_FREQ_HIGH => "REG_TUNER_CENTER_FREQ_HIGH"@,
            Register::REG_TUNER_CENTER_FREQ_LOW => "REG_TUNER_CENTER_FREQ_LOW"@,
            Register::REG_TUNER_IF_GAIN => "REG_TUNER_IF_GAIN"@,
            Register::REG_TUNER_RF_GAIN => "REG_TUNER_RF_GAIN"@,
            Register::REG_TUNER_ANT_BIAS => "REG_TUNER_ANT_BIAS"@,
            Register::REG_TUNER_PREAMP => "REG_TUNER_PREAMP"@,
            Register::REG_DIRECT_IF_GAIN => "REG_DIRECT_IF_GAIN"@,
            Register::REG_DIRECT_RF_GAIN => "REG_DIRECT_RF_GAIN"@,
            Register::REG_DIRECT_ANT_BIAS => "REG_DIRECT_ANT_BIAS"@,
            Register::REG_DIRECT_PREAMP => "REG_DIRECT_PREAMP"@,
            Register::REG_DIRECT_ADC_FILTER => "REG_DIRECT_ADC_FILTER"@,
            Register::REG_EXT_GPIO => "REG_EXT_GPIO"@,
        }
    }

    /// Names the register.
    pub fn name(&self) -> (name: &'static str)
        ensures
            name@ == self.text(),
    {
        match self {
            Register::REG_INFO_RESET => "REG_INFO_RESET",
            Register::REG_ADC => "REG_ADC",
            Register::REG_ADCFREQ => "REG_ADCFREQ",
            Register::REG_TUNER => "REG_TUNER",
            Register::REG_TUNER_CENTER_FREQ_HIGH => "REG_TUNER_CENTER_FREQ_HIGH",
            Register::REG_TUNER_CENTER_FREQ_LOW => "REG_TUNER_CENTER_FREQ_LOW",
            Register::REG_TUNER_IF_GAIN => "REG_TUNER_IF_GAIN",
            Register::REG_TUNER_RF_GAIN => "REG_TUNER_RF_GAIN",
            Register::REG_TUNER_ANT_BIAS => "REG_TUNER_ANT_BIAS",
            Register::REG_TUNER_PREAMP => "REG_TUNER_PREAMP",
            Register::REG_DIRECT_IF_GAIN => "REG_DIRECT_IF_GAIN",
            Register::REG_DIRECT_RF_GAIN => "REG_DIRECT_RF_GAIN",
            Register::REG_DIRECT_ANT_BIAS => "REG_DIRECT_ANT_BIAS",
            Register::REG_DIRECT_PREAMP => "REG_DIRECT_PREAMP",
            Register::REG_DIRECT_ADC_FILTER => "REG_DIRECT_ADC_FILTER",
            Register::REG_EXT_GPIO => "REG_EXT_GPIO",
        }
    }
}

/// Where the firmware keeps each register.
#[derive(Debug, Clone, Copy, PartialEq, Eq, Structural)]
pub struct RegisterMap {
    pub info_reset: u16,
    pub adc: u16,
    pub adcfreq: u16,
    pub tuner: u16,
    pub tuner_center_freq_high: u16,
    pub tuner_center_freq_low: u16,
    pub tuner_if_gain: u16,
    pub tuner_rf_gain: u16,
    pub tuner_ant_bias: u16,
    pub tuner_preamp: u16,
    pub direct_if_gain: u16,
    pub direct_rf_gain: u16,
    pub direct_ant_bias: u16,
    pub direct_preamp: u16,
    pub direct_adc_filter: u16,
    pub ext_gpio: u16,
}

impl RegisterMap {
    /// The number under which the firmware knows a register.
    pub open spec fn at(self, reg: Register) -> u16 {
        match reg {
            Register::REG_INFO_RESET => self.info_reset,
            Register::REG_ADC => self.adc,
            Register::REG_ADCFREQ => self.adcfreq,
            Register::REG_TUNER => self.tuner,
            Register::REG_TUNER_CENTER_FREQ_HIGH => self.tuner_center_freq_high,
            Register::REG_TUNER_CENTER_FREQ_LOW => self.tuner_center_freq_low,
            Register::REG_TUNER_IF_GAIN => self.tuner_if_gain,
            Register::REG_TUNER_RF_GAIN => self.tuner_rf_gain,
            Register::REG_TUNER_ANT_BIAS => self.tuner_ant_bias,
            Register::REG_TUNER_PREAMP => self.tuner_preamp,
            Register::REG_DIRECT_IF_GAIN => self.direct_if_gain,
            Register::REG_DIRECT_RF_GAIN => self.direct_rf_gain,
            Register::REG_DIRECT_ANT_BIAS => self.direct_ant_bias,
            Register::REG_DIRECT_PREAMP => self.direct_preamp,
            Register::REG_DIRECT_ADC_FILTER => self.direct_adc_filter,
            Register::REG_EXT_GPIO => self.ext_gpio,
        }
    }

    /// Looks up the number of a register.
    pub fn number(&self, reg: Register) -> (number: u16)
        ensures
            number == self.at(reg),
    {
        match reg {
            Register::REG_INFO_RESET => self.info_reset,
            Register::REG_ADC => self.adc,
            Register::REG_ADCFREQ => self.adcfreq,
            Register::REG_TUNER => self.tuner,
            Register::REG_TUNER_CENTER_FREQ_HIGH => self.tuner_center_freq_high,
            Register::REG_TUNER_CENTER_FREQ_LOW => self.tuner_center_freq_low,
            Register::REG_TUNER_IF_GAIN => self.tuner_if_gain,
            Register::REG_TUNER_RF_GAIN => self.tuner_rf_gain,
            Register::REG_TUNER_ANT_BIAS => self.tuner_ant_bias,
            Register::REG_TUNER_PREAMP => self.tuner_preamp,
            Register::REG_DIRECT_IF_GAIN => self.direct_if_gain,
            Register::REG_DIRECT_RF_GAIN => self.direct_rf_gain,
            Register::REG_DIRECT_ANT_BIAS => self.direct_ant_bias,
            Register::REG_DIRECT_PREAMP => self.direct_preamp,
            Register::REG_DIRECT_ADC_FILTER => self.direct_adc_filter,
            Register::REG_EXT_GPIO => self.ext_gpio,
        }
    }
}

/// The bits of the ADC control register.
#[derive(Debug, Clone, Copy, PartialEq, Eq, Structural)]
pub struct AdcBits {
    pub enable: u8,
    pub dither: u8,
    pub pga: u8,
    pub rando: u8,
    pub hf_highz: u8,
    pub ext_clock: u8,
}

impl AdcBits {
    /// Whether no two switches share a bit.
    pub open spec fn disjoint(self) -> bool {
        &&& self.enable & self.dither == 0
        &&& self.enable & self.pga == 0
        &&& self.enable & self.rando == 0
        &&& self.enable & self.hf_highz == 0
        &&& self.enable & self.ext_clock == 0
        &&& self.dither & self.pga == 0
        &&& self.dither & self.rando == 0
        &&& self.dither & self.hf_highz == 0
        &&& self.dither & self.ext_clock == 0
        &&& self.pga & self.rando == 0
        &&& self.pga & self.hf_highz == 0
        &&& self.pga & self.ext_clock == 0
        &&& self.rando & self.hf_highz == 0
        &&& self.rando & self.ext_clock == 0
        &&& self.hf_highz & self.ext_clock == 0
    }
}

/// USB identity of the device, with its firmware running and without.
#[derive(Debug, Clone, Copy, PartialEq, Eq, Structural)]
pub struct UsbIds {
    /// Vendor of both.
    pub vendor: u16,
    /// Product once the firmware runs.
    pub firmware: u16,
    /// Product of the boot loader that waits for firmware.
    pub bootloader: u16,
}

/// The constants of a board and of the firmware built for it.
#[derive(Debug, Clone, Copy, PartialEq, Eq, Structural)]
pub struct Hardware {
    pub ids: UsbIds,
    /// Vendor request that reads and writes registers.
    pub register_request: u8,
    pub registers: RegisterMap,
    pub adc: AdcBits,
    /// Firmware version that the driver works with.
    pub firmware_major: u8,
    pub firmware_minor: u8,
}

/// Each known model has one byte of its own, and every other byte stands for no
/// known model.
pub proof fn model_bytes_are_told_apart(byte: u8)
    ensures
        RadioModel::of_byte(byte) == RadioModel::RX888 <==> byte == 0x03,
        RadioModel::of_byte(byte) == RadioModel::RX888r2 <==> byte == 0x04,
        RadioModel::of_byte(byte) == RadioModel::RX888plus <==> byte == 0x05,
        RadioModel::of_byte(byte) == RadioModel::RX888pro <==> byte == 0x07,
        RadioModel::of_byte(byte) == RadioModel::NORADIO <==> byte < 3 || byte == 6 || byte > 7,
{
}

/// Each register is reached under the number that the map has for that very
/// register.
pub proof fn registers_have_their_own_numbers(map: RegisterMap)
    ensures
        map.at(Register::REG_INFO_RESET) == map.info_reset,
        map.at(Register::REG_ADC) == map.adc,
        map.at(Register::REG_ADCFREQ) == map.adcfreq,
        map.at(Register::REG_TUNER) == map.tuner,
        map.at(Register::REG_TUNER_CENTER_FREQ_HIGH) == map.tuner_center_freq_high,
        map.at(Register::REG_TUNER_CENTER_FREQ_LOW) == map.tuner_center_freq_low,
        map.at(Register::REG_TUNER_IF_GAIN) == map.tuner_if_gain,
        map.at(Register::REG_TUNER_RF_GAIN) == map.tuner_rf_gain,
        map.at(Register::REG_TUNER_ANT_BIAS) == map.tuner_ant_bias,
        map.at(Register::REG_TUNER_PREAMP) == map.tuner_preamp,
        map.at(Register::REG_DIRECT_IF_GAIN) == map.direct_if_gain,
        map.at(Register::REG_DIRECT_RF_GAIN) == map.direct_rf_gain,
        map.at(Register::REG_DIRECT_ANT_BIAS) == map.direct_ant_bias,
        map.at(Register::REG_DIRECT_PREAMP) == map.direct_preamp,
        map.at(Register::REG_DIRECT_ADC_FILTER) == map.direct_adc_filter,
        map.at(Register::REG_EXT_GPIO) == map.ext_gpio,
{
}

/// Each register goes by its own name in messages.
pub proof fn registers_have_their_own_names()
    ensures
        Register::REG_INFO_RESET.text() == "REG_INFO_RESET"@,
        Register::REG_ADC.text() == "REG_ADC"@,
        Register::REG_ADCFREQ.text() == "REG_ADCFREQ"@,
        Register::REG_TUNER.text() == "REG_TUNER"@,
        Register::REG_TUNER_CENTER_FREQ_HIGH.text() == "REG_TUNER_CENTER_FREQ_HIGH"@,
        Register::REG_TUNER_CENTER_FREQ_LOW.text() == "REG_TUNER_CENTER_FREQ_LOW"@,
        Register::REG_TUNER_IF_GAIN.text() == "REG_TUNER_IF_GAIN"@,
        Register::REG_TUNER_RF_GAIN.text() == "REG_TUNER_RF_GAIN"@,
        Register::REG_TUNER_ANT_BIAS.text() == "REG_TUNER_ANT_BIAS"@,
        Register::REG_TUNER_PREAMP.text() == "REG_TUNER_PREAMP"@,
        Register::REG_DIRECT_IF_GAIN.text() == "REG_DIRECT_IF_GAIN"@,
        Register::REG_DIRECT_RF_GAIN.text() == "REG_DIRECT_RF_GAIN"@,
        Register::REG_DIRECT_ANT_BIAS.text() == "REG_DIRECT_ANT_BIAS"@,
        Register::REG_DIRECT_PREAMP.text() == "REG_DIRECT_PREAMP"@,
        Register::REG_DIRECT_ADC_FILTER.text() == "REG_DIRECT_ADC_FILTER"@,
        Register::REG_EXT_GPIO.text() == "REG_EXT_GPIO"@,
{
}

/// Switches are disjoint exactly when any two of the six parts of the control
/// register have no bit in common.
pub proof fn disjoint_bits_are_pairwise_apart(adc: AdcBits)
    ensures
        ({
            let parts = seq![
                adc.enable,
                adc.dither,
                adc.pga,
                adc.rando,
                adc.hf_highz,
                adc.ext_clock,
            ];
            adc.disjoint() <==> forall|i: int, j: int|
                0 <= i < j < 6 ==> #[trigger] parts[i] & #[trigger] parts[j] == 0
        }),
{
    let parts = seq![adc.enable, adc.dither, adc.pga, adc.rando, adc.hf_highz, adc.ext_clock];
    if forall|i: int, j: int| 0 <= i < j < 6 ==> #[trigger] parts[i] & #[trigger] parts[j] == 0 {
        assert(parts[0] & parts[1] == 0 && parts[0] & parts[2] == 0 && parts[0] & parts[3] == 0
            && parts[0] & parts[4] == 0 && parts[0] & parts[5] == 0);
        assert(parts[1] & parts[2] == 0 && parts[1] & parts[3] == 0 && parts[1] & parts[4] == 0
            && parts[1] & parts[5] == 0);
        assert(parts[2] & parts[3] == 0 && parts[2] & parts[4] == 0 && parts[2] & parts[5] == 0);
        assert(parts[3] & parts[4] == 0 && parts[3] & parts[5] == 0 && parts[4] & parts[5] == 0);
    }
}

} // verus!
