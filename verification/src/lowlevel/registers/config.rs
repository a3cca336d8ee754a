//! Configuration registers, their reset values and their fields.

use vstd::prelude::*;
use crate::lowlevel::access::{Access, Mode};
use crate::lowlevel::traits::{
    lemma_cut_keeps, lemma_write_keeps_other_bits, lemma_write_keeps_other_fields,
    lemma_write_then_read, lemma_writes_commute, Field,
};

verus! {

/// A configuration register.
#[allow(non_camel_case_types)]
#[derive(Copy, Clone, Debug, PartialEq, Eq, Structural)]
pub enum Config {
    /// GDO2 output pin configuration
    IOCFG2,
    /// GDO1 output pin configuration
    IOCFG1,
    /// GDO0 output pin configuration
    IOCFG0,
    /// RX FIFO and TX FIFO thresholds
    FIFOTHR,
    /// Sync word, high byte
    SYNC1,
    /// Sync word, low byte
    SYNC0,
    /// Packet length
    PKTLEN,
    /// Packet automation control
    PKTCTRL1,
    /// Packet automation control
    PKTCTRL0,
    /// Device address
    ADDR,
    /// Channel number
    CHANNR,
    /// Frequency synthesizer control
    FSCTRL1,
    /// Frequency synthesizer control
    FSCTRL0,
    /// Frequency control word, high byte
    FREQ2,
    /// Frequency control word, middle byte
    FREQ1,
    /// Frequency control word, low byte
    FREQ0,
    /// Modem configuration
    MDMCFG4,
    /// Modem configuration
    MDMCFG3,
    /// Modem configuration
    MDMCFG2,
    /// Modem configuration
    MDMCFG1,
    /// Modem configuration
    MDMCFG0,
    /// Modem deviation setting
    DEVIATN,
    /// Main Radio Cntrl State Machine config
    MCSM2,
    /// Main Radio Cntrl State Machine config
    MCSM1,
    /// Main Radio Cntrl State Machine config
    MCSM0,
    /// Frequency Offset Compensation config
    FOCCFG,
    /// Bit Synchronization configuration
    BSCFG,
    /// AGC control
    AGCCTRL2,
    /// AGC control
    AGCCTRL1,
    /// AGC control
    AGCCTRL0,
    /// High byte Event 0 timeout
    WOREVT1,
    /// Low byte Event 0 timeout
    WOREVT0,
    /// Wake On Radio control
    WORCTRL,
    /// Front end RX configuration
    FREND1,
    /// Front end TX configuration
    FREND0,
    /// Frequency synthesizer calibration
    FSCAL3,
    /// Frequency synthesizer calibration
    FSCAL2,
    /// Frequency synthesizer calibration
    FSCAL1,
    /// Frequency synthesizer calibration
    FSCAL0,
    /// RC oscillator configuration
    RCCTRL1,
    /// RC oscillator configuration
    RCCTRL0,
    /// Frequency synthesizer cal control
    FSTEST,
    /// Production test
    PTEST,
    /// AGC test
    AGCTEST,
    /// Various test settings
    TEST2,
    /// Various test settings
    TEST1,
    /// Various test settings
    TEST0,
}

impl Config {
    /// The register's address, without direction and mode bits.
    pub open spec fn spec_base(self) -> u8 {
        match self {
            Config::IOCFG2 => 0x00,
            Config::IOCFG1 => 0x01,
            Config::IOCFG0 => 0x02,
            Config::FIFOTHR => 0x03,
            Config::SYNC1 => 0x04,
            Config::SYNC0 => 0x05,
            Config::PKTLEN => 0x06,
            Config::PKTCTRL1 => 0x07,
            Config::PKTCTRL0 => 0x08,
            Config::ADDR => 0x09,
            Config::CHANNR => 0x0A,
            Config::FSCTRL1 => 0x0B,
            Config::FSCTRL0 => 0x0C,
            Config::FREQ2 => 0x0D,
            Config::FREQ1 => 0x0E,
            Config::FREQ0 => 0x0F,
            Config::MDMCFG4 => 0x10,
            Config::MDMCFG3 => 0x11,
            Config::MDMCFG2 => 0x12,
            Config::MDMCFG1 => 0x13,
            Config::MDMCFG0 => 0x14,
            Config::DEVIATN => 0x15,
            Config::MCSM2 => 0x16,
            Config::MCSM1 => 0x17,
            Config::MCSM0 => 0x18,
            Config::FOCCFG => 0x19,
            Config::BSCFG => 0x1A,
            Config::AGCCTRL2 => 0x1B,
            Config::AGCCTRL1 => 0x1C,
            Config::AGCCTRL0 => 0x1D,
            Config::WOREVT1 => 0x1E,
            Config::WOREVT0 => 0x1F,
            Config::WORCTRL => 0x20,
            Config::FREND1 => 0x21,
            Config::FREND0 => 0x22,
            Config::FSCAL3 => 0x23,
            Config::FSCAL2 => 0x24,
            Config::FSCAL1 => 0x25,
            Config::FSCAL0 => 0x26,
            Config::RCCTRL1 => 0x27,
            Config::RCCTRL0 => 0x28,
            Config::FSTEST => 0x29,
            Config::PTEST => 0x2A,
            Config::AGCTEST => 0x2B,
            Config::TEST2 => 0x2C,
            Config::TEST1 => 0x2D,
            Config::TEST0 => 0x2E,
        }
    }

    /// See [`Config::spec_base`].
    #[verifier::when_used_as_spec(spec_base)]
    pub fn base(self) -> (b: u8)
        ensures
            b == self.spec_base(),
            b < 0x40,
    {
        match self {
            Config::IOCFG2 => 0x00,
            Config::IOCFG1 => 0x01,
            Config::IOCFG0 => 0x02,
            Config::FIFOTHR => 0x03,
            Config::SYNC1 => 0x04,
            Config::SYNC0 => 0x05,
            Config::PKTLEN => 0x06,
            Config::PKTCTRL1 => 0x07,
            Config::PKTCTRL0 => 0x08,
            Config::ADDR => 0x09,
            Config::CHANNR => 0x0A,
            Config::FSCTRL1 => 0x0B,
            Config::FSCTRL0 => 0x0C,
            Config::FREQ2 => 0x0D,
            Config::FREQ1 => 0x0E,
            Config::FREQ0 => 0x0F,
            Config::MDMCFG4 => 0x10,
            Config::MDMCFG3 => 0x11,
            Config::MDMCFG2 => 0x12,
            Config::MDMCFG1 => 0x13,
            Config::MDMCFG0 => 0x14,
            Config::DEVIATN => 0x15,
            Config::MCSM2 => 0x16,
            Config::MCSM1 => 0x17,
            Config::MCSM0 => 0x18,
            Config::FOCCFG => 0x19,
            Config::BSCFG => 0x1A,
            Config::AGCCTRL2 => 0x1B,
            Config::AGCCTRL1 => 0x1C,
            Config::AGCCTRL0 => 0x1D,
            Config::WOREVT1 => 0x1E,
            Config::WOREVT0 => 0x1F,
            Config::WORCTRL => 0x20,
            Config::FREND1 => 0x21,
            Config::FREND0 => 0x22,
            Config::FSCAL3 => 0x23,
            Config::FSCAL2 => 0x24,
            Config::FSCAL1 => 0x25,
            Config::FSCAL0 => 0x26,
            Config::RCCTRL1 => 0x27,
            Config::RCCTRL0 => 0x28,
            Config::FSTEST => 0x29,
            Config::PTEST => 0x2A,
            Config::AGCTEST => 0x2B,
            Config::TEST2 => 0x2C,
            Config::TEST1 => 0x2D,
            Config::TEST0 => 0x2E,
        }
    }

    /// The header byte for the given direction and mode: the three parts
    /// combined by bitwise or.
    pub open spec fn spec_addr(self, access: Access, mode: Mode) -> u8 {
        access.spec_bits() | mode.spec_bits() | self.spec_base()
    }

    /// See [`Config::spec_addr`].
    #[verifier::when_used_as_spec(spec_addr)]
    pub fn addr(self, access: Access, mode: Mode) -> (a: u8)
        ensures
            a == self.spec_addr(access, mode),
    {
        access.bits() | mode.bits() | self.base()
    }

    /// The value that the register holds after a reset.
    pub open spec fn spec_reset_value(self) -> u8 {
        match self {
            Config::IOCFG2 => 0x29,
            Config::IOCFG1 => 0x2E,
            Config::IOCFG0 => 0x3F,
            Config::FIFOTHR => 0x07,
            Config::SYNC1 => 0xD3,
            Config::SYNC0 => 0x91,
            Config::PKTLEN => 0xFF,
            Config::PKTCTRL1 => 0x04,
            Config::PKTCTRL0 => 0x45,
            Config::ADDR => 0x00,
            Config::CHANNR => 0x00,
            Config::FSCTRL1 => 0x0F,
            Config::FSCTRL0 => 0x00,
            Config::FREQ2 => 0x1E,
            Config::FREQ1 => 0xC4,
            Config::FREQ0 => 0xEC,
            Config::MDMCFG4 => 0x8C,
            Config::MDMCFG3 => 0x22,
            Config::MDMCFG2 => 0x02,
            Config::MDMCFG1 => 0x22,
            Config::MDMCFG0 => 0xF8,
            Config::DEVIATN => 0x47,
            Config::MCSM2 => 0x07,
            Config::MCSM1 => 0x30,
            Config::MCSM0 => 0x04,
            Config::FOCCFG => 0x36,
            Config::BSCFG => 0x6C,
            Config::AGCCTRL2 => 0x03,
            Config::AGCCTRL1 => 0x40,
            Config::AGCCTRL0 => 0x91,
            Config::WOREVT1 => 0x87,
            Config::WOREVT0 => 0x6B,
            Config::WORCTRL => 0xF8,
            Config::FREND1 => 0x56,
            Config::FREND0 => 0x10,
            Config::FSCAL3 => 0xA9,
            Config::FSCAL2 => 0x0A,
            Config::FSCAL1 => 0x20,
            Config::FSCAL0 => 0x0D,
            Config::RCCTRL1 => 0x41,
            Config::RCCTRL0 => 0x00,
            Config::FSTEST => 0x59,
            Config::PTEST => 0x7F,
            Config::AGCTEST => 0x3F,
            Config::TEST2 => 0x88,
            Config::TEST1 => 0x31,
            Config::TEST0 => 0x0B,
        }
    }

    /// See [`Config::spec_reset_value`].
    #[verifier::when_used_as_spec(spec_reset_value)]
    pub fn reset_value(self) -> (v: u8)
        ensures
            v == self.spec_reset_value(),
    {
        match self {
            Config::IOCFG2 => 0x29,
            Config::IOCFG1 => 0x2E,
            Config::IOCFG0 => 0x3F,
            Config::FIFOTHR => 0x07,
            Config::SYNC1 => 0xD3,
            Config::SYNC0 => 0x91,
            Config::PKTLEN => 0xFF,
            Config::PKTCTRL1 => 0x04,
            Config::PKTCTRL0 => 0x45,
            Config::ADDR => 0x00,
            Config::CHANNR => 0x00,
            Config::FSCTRL1 => 0x0F,
            Config::FSCTRL0 => 0x00,
            Config::FREQ2 => 0x1E,
            Config::FREQ1 => 0xC4,
            Config::FREQ0 => 0xEC,
            Config::MDMCFG4 => 0x8C,
            Config::MDMCFG3 => 0x22,
            Config::MDMCFG2 => 0x02,
            Config::MDMCFG1 => 0x22,
            Config::MDMCFG0 => 0xF8,
            Config::DEVIATN => 0x47,
            Config::MCSM2 => 0x07,
            Config::MCSM1 => 0x30,
            Config::MCSM0 => 0x04,
            Config::FOCCFG => 0x36,
            Config::BSCFG => 0x6C,
            Config::AGCCTRL2 => 0x03,
            Config::AGCCTRL1 => 0x40,
            Config::AGCCTRL0 => 0x91,
            Config::WOREVT1 => 0x87,
            Config::WOREVT0 => 0x6B,
            Config::WORCTRL => 0xF8,
            Config::FREND1 => 0x56,
            Config::FREND0 => 0x10,
            Config::FSCAL3 => 0xA9,
            Config::FSCAL2 => 0x0A,
            Config::FSCAL1 => 0x20,
            Config::FSCAL0 => 0x0D,
            Config::RCCTRL1 => 0x41,
            Config::RCCTRL0 => 0x00,
            Config::FSTEST => 0x59,
            Config::PTEST => 0x7F,
            Config::AGCTEST => 0x3F,
            Config::TEST2 => 0x88,
            Config::TEST1 => 0x31,
            Config::TEST0 => 0x0B,
        }
    }
}

/// The named fields of the configuration registers.
#[allow(non_camel_case_types)]
#[derive(Copy, Clone, Debug, PartialEq, Eq, Structural)]
pub enum ConfigField {
    /// Invert output, i.e. select active low (1) / high (0).
    IOCFG2_GDO2_INV,
    /// Default is CHP_RDYn (See Table 41 on page 62).
    IOCFG2_GDO2_CFG,
    /// Set high (1) or low (0) output drive strength on the GDO pins.
    IOCFG1_GDO1_DS,
    /// Invert output, i.e. select active low (1) / high (0).
    IOCFG1_GDO1_INV,
    /// Default is 3-state (See Table 41 on page 62).
    IOCFG1_GDO1_CFG,
    /// Enable analog temperature sensor. Write 0 in all other register bits when
    /// using temperature sensor.
    IOCFG0_TEMP_SENSOR_ENABLE,
    /// Invert output, i.e. select active low (1) / high (0).
    IOCFG0_GDO0_INV,
    /// Default is CLK_XOSC/192 (See Table 41 on page 62).
    IOCFG0_GDO0_CFG,
    /// Analog to Digital Converter retention.
    FIFOTHR_ADC_RETENTION,
    /// RX Attenuation, see DN010 for more details.
    FIFOTHR_CLOSE_IN_RX,
    /// Set the threshold for the TX FIFO and RX FIFO.
    FIFOTHR_FIFO_THR,
    /// 8 MSB of 16-bit sync word.
    SYNC1_SYNC,
    /// 8 LSB of 16-bit sync word.
    SYNC0_SYNC,
    /// Packet length if mode is fixed, or max length if variable.
    PKTLEN_PACKET_LENGTH,
    /// Preamble quality estimator threshold.
    PKTCTRL1_PQT,
    /// Enable automatic flush of RX FIFO when CRC is not OK.
    PKTCTRL1_CRC_AUTOFLUSH,
    /// Append RSSI and LQI to RX payload.
    PKTCTRL1_APPEND_STATUS,
    /// Address check configuration of received packages.
    PKTCTRL1_ADR_CHK,
    /// Turn data whitening on / off.
    PKTCTRL0_WHITE_DATA,
    /// Format of RX and TX data.
    PKTCTRL0_PKT_FORMAT,
    /// CRC calculation on / off.
    PKTCTRL0_CRC_EN,
    /// Packet length configuration.
    PKTCTRL0_LENGTH_CONFIG,
    /// Address used for packet filtration.
    ADDR_DEVICE_ADDR,
    /// Channel number, which is multiplied by the channel spacing setting and added
    /// to the base frequency.
    CHANNR_CHAN,
    /// The desired IF frequency to employ in RX.
    FSCTRL1_FREQ_IF,
    /// Frequency offset added to the base frequency before being used by the
    /// frequency synthesizer. (2-comp).
    FSCTRL0_FREQOFF,
    /// FREQ\[23:0\] is the base frequency for the frequency synthesiser.
    FREQ2_FREQ,
    /// FREQ\[15:8\], see FREQ2.
    FREQ1_FREQ,
    /// FREQ\[7:0\], see FREQ2.
    FREQ0_FREQ,
    /// Exponent of channel bandwidth.
    MDMCFG4_CHANBW_E,
    /// Mantissa of channel bandwidth.
    MDMCFG4_CHANBW_M,
    /// Exponent of symbol rate.
    MDMCFG4_DRATE_E,
    /// Mantissa of symbol rate.
    MDMCFG3_DRATE_M,
    /// Disable digital DC blocking filter before demodulator.
    MDMCFG2_DEM_DCFILT_OFF,
    /// The modulation format of the radio signal.
    MDMCFG2_MOD_FORMAT,
    /// Enables Manchester encoding/decoding.
    MDMCFG2_MANCHESTER_EN,
    /// Combined sync-word qualifier mode.
    MDMCFG2_SYNC_MODE,
    /// Enable Forward Error Correction.
    MDMCFG1_FEC_EN,
    /// Sets the minimum number of preamble bytes to be transmitted.
    MDMCFG1_NUM_PREAMBLE,
    /// Exponent of channel spacing.
    MDMCFG1_CHANSPC_E,
    /// Mantissa of channel spacing.
    MDMCFG0_CHANSPC_M,
    /// Exponent of deviation.
    DEVIATN_DEVIATION_E,
    /// Mantissa of deviation.
    DEVIATN_DEVIATION_M,
    /// Direct RX termination based on RSSI measurement.
    MCSM2_RX_TIME_RSSI,
    /// When RX_TIME expires, check sync_word (0), or either sync_word/PQI (1).
    MCSM2_RX_TIME_QUAL,
    /// Timeout for sync word search in RX for both WOR mode and normal RX operation.
    MCSM2_RX_TIME,
    /// Selects CCA_MODE; Reflected in CCA signal.
    MCSM1_CCA_MODE,
    /// Select what should happen when a packet has been received.
    MCSM1_RXOFF_MODE,
    /// Select what should happen when a packet has been sent.
    MCSM1_TXOFF_MODE,
    /// Automatically calibrate when going to RX or TX, or back to IDLE.
    MCSM0_FS_AUTOCAL,
    /// Programs the number of times the six-bit ripple counter must expire after
    /// XOSC has stabilized before CHP_RDYn goes low.
    MCSM0_PO_TIMEOUT,
    /// Enables the pin radio control option.
    MCSM0_PIN_CTRL_EN,
    /// Force the XOSC to stay on in the SLEEP state.
    MCSM0_XOSC_FORCE_ON,
    /// If set, the demodulator freezes the frequency offset compensation and clock
    /// recovery feedback loops until the CS signal goes high.
    FOCCFG_FOC_BS_CS_GATE,
    /// The frequency compensation loop gain to be used before a sync word is detected.
    FOCCFG_FOC_PRE_K,
    /// The frequency compensation loop gain to be used after a sync word is detected.
    FOCCFG_FOC_POST_K,
    /// The saturation point for the frequency offset compensation algorithm.
    FOCCFG_FOC_LIMIT,
    /// The clock recovery feedback loop integral gain to be used before a sync word is detected.
    BSCFG_BS_PRE_KI,
    /// The clock recovery feedback loop proportional gain to be used before a sync
    /// word is detected.
    BSCFG_BS_PRE_KP,
    /// The clock recovery feedback loop integral gain to be used after a sync word is detected.
    BSCFG_BS_POST_KI,
    /// The clock recovery feedback loop proportional gain to be used after a sync word is detected.
    BSCFG_BS_POST_KP,
    /// The saturation point for the data rate offset compensation algorithm.
    BSCFG_BS_LIMIT,
    /// Reduces the maximum allowable DVGA gain.
    AGCCTRL2_MAX_DVGA_GAIN,
    /// Sets the maximum allowable LNA + LNA 2 gain relative to the maximum possible gain.
    AGCCTRL2_MAX_LNA_GAIN,
    /// These bits set the target value for the averaged amplitude from the digital channel filter.
    AGCCTRL2_MAGN_TARGET,
    /// Selects between two different strategies for LNA and LNA 2 gain adjustment.
    AGCCTRL1_AGC_LNA_PRIORITY,
    /// Sets the relative change threshold for asserting carrier sense.
    AGCCTRL1_CARRIER_SENSE_REL_THR,
    /// Sets the absolute RSSI threshold for asserting carrier sense.
    AGCCTRL1_CARRIER_SENSE_ABS_THR,
    /// Sets the level of hysteresis on the magnitude deviation.
    AGCCTRL0_HYST_LEVEL,
    /// Sets the number of channel filter samples from a gain adjustment has been
    /// made until the AGC algorithm starts accumulating new samples.
    AGCCTRL0_WAIT_TIME,
    /// Control when the AGC gain should be frozen.
    AGCCTRL0_AGC_FREEZE,
    /// Filter length, in relation to MOD_FORMAT.
    AGCCTRL0_FILTER_LENGTH,
    /// High byte of EVENT0 timeout register.
    WOREVT1_EVENT,
    /// Low byte of EVENT0 timeout register.
    WOREVT0_EVENT,
    /// Power down signal to RC oscillator.
    WORCTRL_RC_PD,
    /// Timeout setting from register block.
    WORCTRL_EVENT,
    /// Enables (1) or disables (0) the RC oscillator calibration.
    WORCTRL_RC_CAL,
    /// Controls the Event 0 resolution as well as maximum timeout of the WOR module
    /// and maximum timeout under normal RX operation.
    WORCTRL_WOR_RES,
    /// Adjusts front-end LNA PTAT current output.
    FREND1_LNA_CURRENT,
    /// Adjusts front-end PTAT outputs.
    FREND1_LNA2MIX_CURRENT,
    /// Adjusts current in RX LO buffer (LO input to mixer).
    FREND1_LODIV_BUF_CURRENT_RX,
    /// Adjusts current in mixer.
    FREND1_MIX_CURRENT,
    /// Adjusts current TX LO buffer (input to PA).
    FREND0_LODIV_BUF_CURRENT_TX,
    /// Selects PA power setting.
    FREND0_PA_POWER,
    /// Frequency synthesizer calibration configuration.
    FSCAL3_FSCAL3,
    /// Disable charge pump calibration stage when 0.
    FSCAL3_CHP_CURR_CAL_EN,
    /// Frequency synthesizer calibration result register.
    FSCAL3_FSCAL3_RESULT,
    /// Choose high (1) / low (0) VCO.
    FSCAL2_VCO_CORE_H_EN,
    /// Frequency synthesizer calibration result register, VCO current calibration
    /// result and override value.
    FSCAL2_FSCAL2,
    /// Frequency synthesizer calibration result register, capacitor array setting
    /// for VCO coarse tuning.
    FSCAL1_FSCAL1,
    /// Frequency synthesizer calibration control.
    FSCAL0_FSCAL0,
    /// RC oscillator configuration.
    RCCTRL1_RCCTRL1,
    /// RC oscillator configuration.
    RCCTRL0_RCCTRL0,
    /// For test only. Do not write to this register.
    FSTEST_FSTEST,
    /// Writing 0xBF to this register makes the on-chip temperature sensor available
    /// in the IDLE state.
    PTEST_PTEST,
    /// For test only. Do not write to this register.
    AGCTEST_AGCTEST,
    /// The value to use in this register is given by the SmartRF Studio software.
    TEST2_TEST2,
    /// The value to use in this register is given by the SmartRF Studio software.
    TEST1_TEST1,
    /// The value to use in this register is given by the SmartRF Studio software.
    TEST0_TEST0_1,
    /// Enable VCO selection calibration stage when 1.
    TEST0_VCO_SEL_CAL_EN,
    /// The value to use in this register is given by the SmartRF Studio software.
    TEST0_TEST0_0,
}

impl ConfigField {
    /// The register that holds the field.
    pub open spec fn spec_register(self) -> Config {
        match self {
            ConfigField::IOCFG2_GDO2_INV => Config::IOCFG2,
            ConfigField::IOCFG2_GDO2_CFG => Config::IOCFG2,
            ConfigField::IOCFG1_GDO1_DS => Config::IOCFG1,
            ConfigField::IOCFG1_GDO1_INV => Config::IOCFG1,
            ConfigField::IOCFG1_GDO1_CFG => Config::IOCFG1,
            ConfigField::IOCFG0_TEMP_SENSOR_ENABLE => Config::IOCFG0,
            ConfigField::IOCFG0_GDO0_INV => Config::IOCFG0,
            ConfigField::IOCFG0_GDO0_CFG => Config::IOCFG0,
            ConfigField::FIFOTHR_ADC_RETENTION => Config::FIFOTHR,
            ConfigField::FIFOTHR_CLOSE_IN_RX => Config::FIFOTHR,
            ConfigField::FIFOTHR_FIFO_THR => Config::FIFOTHR,
            ConfigField::SYNC1_SYNC => Config::SYNC1,
            ConfigField::SYNC0_SYNC => Config::SYNC0,
            ConfigField::PKTLEN_PACKET_LENGTH => Config::PKTLEN,
            ConfigField::PKTCTRL1_PQT => Config::PKTCTRL1,
            ConfigField::PKTCTRL1_CRC_AUTOFLUSH => Config::PKTCTRL1,
            ConfigField::PKTCTRL1_APPEND_STATUS => Config::PKTCTRL1,
            ConfigField::PKTCTRL1_ADR_CHK => Config::PKTCTRL1,
            ConfigField::PKTCTRL0_WHITE_DATA => Config::PKTCTRL0,
            ConfigField::PKTCTRL0_PKT_FORMAT => Config::PKTCTRL0,
            ConfigField::PKTCTRL0_CRC_EN => Config::PKTCTRL0,
            ConfigField::PKTCTRL0_LENGTH_CONFIG => Config::PKTCTRL0,
            ConfigField::ADDR_DEVICE_ADDR => Config::ADDR,
            ConfigField::CHANNR_CHAN => Config::CHANNR,
            ConfigField::FSCTRL1_FREQ_IF => Config::FSCTRL1,
            ConfigField::FSCTRL0_FREQOFF => Config::FSCTRL0,
            ConfigField::FREQ2_FREQ => Config::FREQ2,
            ConfigField::FREQ1_FREQ => Config::FREQ1,
            ConfigField::FREQ0_FREQ => Config::FREQ0,
            ConfigField::MDMCFG4_CHANBW_E => Config::MDMCFG4,
            ConfigField::MDMCFG4_CHANBW_M => Config::MDMCFG4,
            ConfigField::MDMCFG4_DRATE_E => Config::MDMCFG4,
            ConfigField::MDMCFG3_DRATE_M => Config::MDMCFG3,
            ConfigField::MDMCFG2_DEM_DCFILT_OFF => Config::MDMCFG2,
            ConfigField::MDMCFG2_MOD_FORMAT => Config::MDMCFG2,
            ConfigField::MDMCFG2_MANCHESTER_EN => Config::MDMCFG2,
            ConfigField::MDMCFG2_SYNC_MODE => Config::MDMCFG2,
            ConfigField::MDMCFG1_FEC_EN => Config::MDMCFG1,
            ConfigField::MDMCFG1_NUM_PREAMBLE => Config::MDMCFG1,
            ConfigField::MDMCFG1_CHANSPC_E => Config::MDMCFG1,
            ConfigField::MDMCFG0_CHANSPC_M => Config::MDMCFG0,
            ConfigField::DEVIATN_DEVIATION_E => Config::DEVIATN,
            ConfigField::DEVIATN_DEVIATION_M => Config::DEVIATN,
            ConfigField::MCSM2_RX_TIME_RSSI => Config::MCSM2,
            ConfigField::MCSM2_RX_TIME_QUAL => Config::MCSM2,
            ConfigField::MCSM2_RX_TIME => Config::MCSM2,
            ConfigField::MCSM1_CCA_MODE => Config::MCSM1,
            ConfigField::MCSM1_RXOFF_MODE => Config::MCSM1,
            ConfigField::MCSM1_TXOFF_MODE => Config::MCSM1,
            ConfigField::MCSM0_FS_AUTOCAL => Config::MCSM0,
            ConfigField::MCSM0_PO_TIMEOUT => Config::MCSM0,
            ConfigField::MCSM0_PIN_CTRL_EN => Config::MCSM0,
            ConfigField::MCSM0_XOSC_FORCE_ON => Config::MCSM0,
            ConfigField::FOCCFG_FOC_BS_CS_GATE => Config::FOCCFG,
            ConfigField::FOCCFG_FOC_PRE_K => Config::FOCCFG,
            ConfigField::FOCCFG_FOC_POST_K => Config::FOCCFG,
            ConfigField::FOCCFG_FOC_LIMIT => Config::FOCCFG,
            ConfigField::BSCFG_BS_PRE_KI => Config::BSCFG,
            ConfigField::BSCFG_BS_PRE_KP => Config::BSCFG,
            ConfigField::BSCFG_BS_POST_KI => Config::BSCFG,
            ConfigField::BSCFG_BS_POST_KP => Config::BSCFG,
            ConfigField::BSCFG_BS_LIMIT => Config::BSCFG,
            ConfigField::AGCCTRL2_MAX_DVGA_GAIN => Config::AGCCTRL2,
            ConfigField::AGCCTRL2_MAX_LNA_GAIN => Config::AGCCTRL2,
            ConfigField::AGCCTRL2_MAGN_TARGET => Config::AGCCTRL2,
            ConfigField::AGCCTRL1_AGC_LNA_PRIORITY => Config::AGCCTRL1,
            ConfigField::AGCCTRL1_CARRIER_SENSE_REL_THR => Config::AGCCTRL1,
            ConfigField::AGCCTRL1_CARRIER_SENSE_ABS_THR => Config::AGCCTRL1,
            ConfigField::AGCCTRL0_HYST_LEVEL => Config::AGCCTRL0,
            ConfigField::AGCCTRL0_WAIT_TIME => Config::AGCCTRL0,
            ConfigField::AGCCTRL0_AGC_FREEZE => Config::AGCCTRL0,
            ConfigField::AGCCTRL0_FILTER_LENGTH => Config::AGCCTRL0,
            ConfigField::WOREVT1_EVENT => Config::WOREVT1,
            ConfigField::WOREVT0_EVENT => Config::WOREVT0,
            ConfigField::WORCTRL_RC_PD => Config::WORCTRL,
            ConfigField::WORCTRL_EVENT => Config::WORCTRL,
            ConfigField::WORCTRL_RC_CAL => Config::WORCTRL,
            ConfigField::WORCTRL_WOR_RES => Config::WORCTRL,
            ConfigField::FREND1_LNA_CURRENT => Config::FREND1,
            ConfigField::FREND1_LNA2MIX_CURRENT => Config::FREND1,
            ConfigField::FREND1_LODIV_BUF_CURRENT_RX => Config::FREND1,
            ConfigField::FREND1_MIX_CURRENT => Config::FREND1,
            ConfigField::FREND0_LODIV_BUF_CURRENT_TX => Config::FREND0,
            ConfigField::FREND0_PA_POWER => Config::FREND0,
            ConfigField::FSCAL3_FSCAL3 => Config::FSCAL3,
            ConfigField::FSCAL3_CHP_CURR_CAL_EN => Config::FSCAL3,
            ConfigField::FSCAL3_FSCAL3_RESULT => Config::FSCAL3,
            ConfigField::FSCAL2_VCO_CORE_H_EN => Config::FSCAL2,
            ConfigField::FSCAL2_FSCAL2 => Config::FSCAL2,
            ConfigField::FSCAL1_FSCAL1 => Config::FSCAL1,
            ConfigField::FSCAL0_FSCAL0 => Config::FSCAL0,
            ConfigField::RCCTRL1_RCCTRL1 => Config::RCCTRL1,
            ConfigField::RCCTRL0_RCCTRL0 => Config::RCCTRL0,
            ConfigField::FSTEST_FSTEST => Config::FSTEST,
            ConfigField::PTEST_PTEST => Config::PTEST,
            ConfigField::AGCTEST_AGCTEST => Config::AGCTEST,
            ConfigField::TEST2_TEST2 => Config::TEST2,
            ConfigField::TEST1_TEST1 => Config::TEST1,
            ConfigField::TEST0_TEST0_1 => Config::TEST0,
            ConfigField::TEST0_VCO_SEL_CAL_EN => Config::TEST0,
            ConfigField::TEST0_TEST0_0 => Config::TEST0,
        }
    }

    /// See [`ConfigField::spec_register`].
    #[verifier::when_used_as_spec(spec_register)]
    pub fn register(self) -> (r: Config)
        ensures
            r == self.spec_register(),
    {
        match self {
            ConfigField::IOCFG2_GDO2_INV => Config::IOCFG2,
            ConfigField::IOCFG2_GDO2_CFG => Config::IOCFG2,
            ConfigField::IOCFG1_GDO1_DS => Config::IOCFG1,
            ConfigField::IOCFG1_GDO1_INV => Config::IOCFG1,
            ConfigField::IOCFG1_GDO1_CFG => Config::IOCFG1,
            ConfigField::IOCFG0_TEMP_SENSOR_ENABLE => Config::IOCFG0,
            ConfigField::IOCFG0_GDO0_INV => Config::IOCFG0,
            ConfigField::IOCFG0_GDO0_CFG => Config::IOCFG0,
            ConfigField::FIFOTHR_ADC_RETENTION => Config::FIFOTHR,
            ConfigField::FIFOTHR_CLOSE_IN_RX => Config::FIFOTHR,
            ConfigField::FIFOTHR_FIFO_THR => Config::FIFOTHR,
            ConfigField::SYNC1_SYNC => Config::SYNC1,
            ConfigField::SYNC0_SYNC => Config::SYNC0,
            ConfigField::PKTLEN_PACKET_LENGTH => Config::PKTLEN,
            ConfigField::PKTCTRL1_PQT => Config::PKTCTRL1,
            ConfigField::PKTCTRL1_CRC_AUTOFLUSH => Config::PKTCTRL1,
            ConfigField::PKTCTRL1_APPEND_STATUS => Config::PKTCTRL1,
            ConfigField::PKTCTRL1_ADR_CHK => Config::PKTCTRL1,
            ConfigField::PKTCTRL0_WHITE_DATA => Config::PKTCTRL0,
            ConfigField::PKTCTRL0_PKT_FORMAT => Config::PKTCTRL0,
            ConfigField::PKTCTRL0_CRC_EN => Config::PKTCTRL0,
            ConfigField::PKTCTRL0_LENGTH_CONFIG => Config::PKTCTRL0,
            ConfigField::ADDR_DEVICE_ADDR => Config::ADDR,
            ConfigField::CHANNR_CHAN => Config::CHANNR,
            ConfigField::FSCTRL1_FREQ_IF => Config::FSCTRL1,
            ConfigField::FSCTRL0_FREQOFF => Config::FSCTRL0,
            ConfigField::FREQ2_FREQ => Config::FREQ2,
            ConfigField::FREQ1_FREQ => Config::FREQ1,
            ConfigField::FREQ0_FREQ => Config::FREQ0,
            ConfigField::MDMCFG4_CHANBW_E => Config::MDMCFG4,
            ConfigField::MDMCFG4_CHANBW_M => Config::MDMCFG4,
            ConfigField::MDMCFG4_DRATE_E => Config::MDMCFG4,
            ConfigField::MDMCFG3_DRATE_M => Config::MDMCFG3,
            ConfigField::MDMCFG2_DEM_DCFILT_OFF => Config::MDMCFG2,
            ConfigField::MDMCFG2_MOD_FORMAT => Config::MDMCFG2,
            ConfigField::MDMCFG2_MANCHESTER_EN => Config::MDMCFG2,
            ConfigField::MDMCFG2_SYNC_MODE => Config::MDMCFG2,
            ConfigField::MDMCFG1_FEC_EN => Config::MDMCFG1,
            ConfigField::MDMCFG1_NUM_PREAMBLE => Config::MDMCFG1,
            ConfigField::MDMCFG1_CHANSPC_E => Config::MDMCFG1,
            ConfigField::MDMCFG0_CHANSPC_M => Config::MDMCFG0,
            ConfigField::DEVIATN_DEVIATION_E => Config::DEVIATN,
            ConfigField::DEVIATN_DEVIATION_M => Config::DEVIATN,
            ConfigField::MCSM2_RX_TIME_RSSI => Config::MCSM2,
            ConfigField::MCSM2_RX_TIME_QUAL => Config::MCSM2,
            ConfigField::MCSM2_RX_TIME => Config::MCSM2,
            ConfigField::MCSM1_CCA_MODE => Config::MCSM1,
            ConfigField::MCSM1_RXOFF_MODE => Config::MCSM1,
            ConfigField::MCSM1_TXOFF_MODE => Config::MCSM1,
            ConfigField::MCSM0_FS_AUTOCAL => Config::MCSM0,
            ConfigField::MCSM0_PO_TIMEOUT => Config::MCSM0,
            ConfigField::MCSM0_PIN_CTRL_EN => Config::MCSM0,
            ConfigField::MCSM0_XOSC_FORCE_ON => Config::MCSM0,
            ConfigField::FOCCFG_FOC_BS_CS_GATE => Config::FOCCFG,
            ConfigField::FOCCFG_FOC_PRE_K => Config::FOCCFG,
            ConfigField::FOCCFG_FOC_POST_K => Config::FOCCFG,
            ConfigField::FOCCFG_FOC_LIMIT => Config::FOCCFG,
            ConfigField::BSCFG_BS_PRE_KI => Config::BSCFG,
            ConfigField::BSCFG_BS_PRE_KP => Config::BSCFG,
            ConfigField::BSCFG_BS_POST_KI => Config::BSCFG,
            ConfigField::BSCFG_BS_POST_KP => Config::BSCFG,
            ConfigField::BSCFG_BS_LIMIT => Config::BSCFG,
            ConfigField::AGCCTRL2_MAX_DVGA_GAIN => Config::AGCCTRL2,
            ConfigField::AGCCTRL2_MAX_LNA_GAIN => Config::AGCCTRL2,
            ConfigField::AGCCTRL2_MAGN_TARGET => Config::AGCCTRL2,
            ConfigField::AGCCTRL1_AGC_LNA_PRIORITY => Config::AGCCTRL1,
            ConfigField::AGCCTRL1_CARRIER_SENSE_REL_THR => Config::AGCCTRL1,
            ConfigField::AGCCTRL1_CARRIER_SENSE_ABS_THR => Config::AGCCTRL1,
            ConfigField::AGCCTRL0_HYST_LEVEL => Config::AGCCTRL0,
            ConfigField::AGCCTRL0_WAIT_TIME => Config::AGCCTRL0,
            ConfigField::AGCCTRL0_AGC_FREEZE => Config::AGCCTRL0,
            ConfigField::AGCCTRL0_FILTER_LENGTH => Config::AGCCTRL0,
            ConfigField::WOREVT1_EVENT => Config::WOREVT1,
            ConfigField::WOREVT0_EVENT => Config::WOREVT0,
            ConfigField::WORCTRL_RC_PD => Config::WORCTRL,
            ConfigField::WORCTRL_EVENT => Config::WORCTRL,
            ConfigField::WORCTRL_RC_CAL => Config::WORCTRL,
            ConfigField::WORCTRL_WOR_RES => Config::WORCTRL,
            ConfigField::FREND1_LNA_CURRENT => Config::FREND1,
            ConfigField::FREND1_LNA2MIX_CURRENT => Config::FREND1,
            ConfigField::FREND1_LODIV_BUF_CURRENT_RX => Config::FREND1,
            ConfigField::FREND1_MIX_CURRENT => Config::FREND1,
            ConfigField::FREND0_LODIV_BUF_CURRENT_TX => Config::FREND0,
            ConfigField::FREND0_PA_POWER => Config::FREND0,
            ConfigField::FSCAL3_FSCAL3 => Config::FSCAL3,
            ConfigField::FSCAL3_CHP_CURR_CAL_EN => Config::FSCAL3,
            ConfigField::FSCAL3_FSCAL3_RESULT => Config::FSCAL3,
            ConfigField::FSCAL2_VCO_CORE_H_EN => Config::FSCAL2,
            ConfigField::FSCAL2_FSCAL2 => Config::FSCAL2,
            ConfigField::FSCAL1_FSCAL1 => Config::FSCAL1,
            ConfigField::FSCAL0_FSCAL0 => Config::FSCAL0,
            ConfigField::RCCTRL1_RCCTRL1 => Config::RCCTRL1,
            ConfigField::RCCTRL0_RCCTRL0 => Config::RCCTRL0,
            ConfigField::FSTEST_FSTEST => Config::FSTEST,
            ConfigField::PTEST_PTEST => Config::PTEST,
            ConfigField::AGCTEST_AGCTEST => Config::AGCTEST,
            ConfigField::TEST2_TEST2 => Config::TEST2,
            ConfigField::TEST1_TEST1 => Config::TEST1,
            ConfigField::TEST0_TEST0_1 => Config::TEST0,
            ConfigField::TEST0_VCO_SEL_CAL_EN => Config::TEST0,
            ConfigField::TEST0_TEST0_0 => Config::TEST0,
        }
    }

    /// Where the field lies in its register.
    pub open spec fn spec_field(self) -> Field {
        match self {
            ConfigField::IOCFG2_GDO2_INV => Field { offset: 6, width: 1 },
            ConfigField::IOCFG2_GDO2_CFG => Field { offset: 0, width: 6 },
            ConfigField::IOCFG1_GDO1_DS => Field { offset: 7, width: 1 },
            ConfigField::IOCFG1_GDO1_INV => Field { offset: 6, width: 1 },
            ConfigField::IOCFG1_GDO1_CFG => Field { offset: 0, width: 6 },
            ConfigField::IOCFG0_TEMP_SENSOR_ENABLE => Field { offset: 7, width: 1 },
            ConfigField::IOCFG0_GDO0_INV => Field { offset: 6, width: 1 },
            ConfigField::IOCFG0_GDO0_CFG => Field { offset: 0, width: 6 },
            ConfigField::FIFOTHR_ADC_RETENTION => Field { offset: 6, width: 1 },
            ConfigField::FIFOTHR_CLOSE_IN_RX => Field { offset: 4, width: 2 },
            ConfigField::FIFOTHR_FIFO_THR => Field { offset: 0, width: 4 },
            ConfigField::SYNC1_SYNC => Field { offset: 0, width: 8 },
            ConfigField::SYNC0_SYNC => Field { offset: 0, width: 8 },
            ConfigField::PKTLEN_PACKET_LENGTH => Field { offset: 0, width: 8 },
            ConfigField::PKTCTRL1_PQT => Field { offset: 5, width: 3 },
            ConfigField::PKTCTRL1_CRC_AUTOFLUSH => Field { offset: 3, width: 1 },
            ConfigField::PKTCTRL1_APPEND_STATUS => Field { offset: 2, width: 1 },
            ConfigField::PKTCTRL1_ADR_CHK => Field { offset: 0, width: 2 },
            ConfigField::PKTCTRL0_WHITE_DATA => Field { offset: 6, width: 1 },
            ConfigField::PKTCTRL0_PKT_FORMAT => Field { offset: 4, width: 2 },
            ConfigField::PKTCTRL0_CRC_EN => Field { offset: 2, width: 1 },
            ConfigField::PKTCTRL0_LENGTH_CONFIG => Field { offset: 0, width: 2 },
            ConfigField::ADDR_DEVICE_ADDR => Field { offset: 0, width: 8 },
            ConfigField::CHANNR_CHAN => Field { offset: 0, width: 8 },
            ConfigField::FSCTRL1_FREQ_IF => Field { offset: 0, width: 5 },
            ConfigField::FSCTRL0_FREQOFF => Field { offset: 0, width: 8 },
            ConfigField::FREQ2_FREQ => Field { offset: 0, width: 6 },
            ConfigField::FREQ1_FREQ => Field { offset: 0, width: 8 },
            ConfigField::FREQ0_FREQ => Field { offset: 0, width: 8 },
            ConfigField::MDMCFG4_CHANBW_E => Field { offset: 6, width: 2 },
            ConfigField::MDMCFG4_CHANBW_M => Field { offset: 4, width: 2 },
            ConfigField::MDMCFG4_DRATE_E => Field { offset: 0, width: 4 },
            ConfigField::MDMCFG3_DRATE_M => Field { offset: 0, width: 8 },
            ConfigField::MDMCFG2_DEM_DCFILT_OFF => Field { offset: 7, width: 1 },
            ConfigField::MDMCFG2_MOD_FORMAT => Field { offset: 4, width: 3 },
            ConfigField::MDMCFG2_MANCHESTER_EN => Field { offset: 3, width: 1 },
            ConfigField::MDMCFG2_SYNC_MODE => Field { offset: 0, width: 3 },
            ConfigField::MDMCFG1_FEC_EN => Field { offset: 7, width: 1 },
            ConfigField::MDMCFG1_NUM_PREAMBLE => Field { offset: 4, width: 3 },
            ConfigField::MDMCFG1_CHANSPC_E => Field { offset: 0, width: 2 },
            ConfigField::MDMCFG0_CHANSPC_M => Field { offset: 0, width: 8 },
            ConfigField::DEVIATN_DEVIATION_E => Field { offset: 4, width: 3 },
            ConfigField::DEVIATN_DEVIATION_M => Field { offset: 0, width: 3 },
            ConfigField::MCSM2_RX_TIME_RSSI => Field { offset: 4, width: 1 },
            ConfigField::MCSM2_RX_TIME_QUAL => Field { offset: 3, width: 1 },
            ConfigField::MCSM2_RX_TIME => Field { offset: 0, width: 3 },
            ConfigField::MCSM1_CCA_MODE => Field { offset: 4, width: 2 },
            ConfigField::MCSM1_RXOFF_MODE => Field { offset: 2, width: 2 },
            ConfigField::MCSM1_TXOFF_MODE => Field { offset: 0, width: 2 },
            ConfigField::MCSM0_FS_AUTOCAL => Field { offset: 4, width: 2 },
            ConfigField::MCSM0_PO_TIMEOUT => Field { offset: 2, width: 2 },
            ConfigField::MCSM0_PIN_CTRL_EN => Field { offset: 1, width: 1 },
            ConfigField::MCSM0_XOSC_FORCE_ON => Field { offset: 0, width: 1 },
            ConfigField::FOCCFG_FOC_BS_CS_GATE => Field { offset: 5, width: 1 },
            ConfigField::FOCCFG_FOC_PRE_K => Field { offset: 3, width: 2 },
            ConfigField::FOCCFG_FOC_POST_K => Field { offset: 2, width: 1 },
            ConfigField::FOCCFG_FOC_LIMIT => Field { offset: 0, width: 2 },
            ConfigField::BSCFG_BS_PRE_KI => Field { offset: 6, width: 2 },
            ConfigField::BSCFG_BS_PRE_KP => Field { offset: 4, width: 2 },
            ConfigField::BSCFG_BS_POST_KI => Field { offset: 3, width: 1 },
            ConfigField::BSCFG_BS_POST_KP => Field { offset: 2, width: 1 },
            ConfigField::BSCFG_BS_LIMIT => Field { offset: 0, width: 2 },
            ConfigField::AGCCTRL2_MAX_DVGA_GAIN => Field { offset: 6, width: 2 },
            ConfigField::AGCCTRL2_MAX_LNA_GAIN => Field { offset: 3, width: 3 },
            ConfigField::AGCCTRL2_MAGN_TARGET => Field { offset: 0, width: 3 },
            ConfigField::AGCCTRL1_AGC_LNA_PRIORITY => Field { offset: 6, width: 1 },
            ConfigField::AGCCTRL1_CARRIER_SENSE_REL_THR => Field { offset: 4, width: 2 },
            ConfigField::AGCCTRL1_CARRIER_SENSE_ABS_THR => Field { offset: 0, width: 4 },
            ConfigField::AGCCTRL0_HYST_LEVEL => Field { offset: 6, width: 2 },
            ConfigField::AGCCTRL0_WAIT_TIME => Field { offset: 4, width: 2 },
            ConfigField::AGCCTRL0_AGC_FREEZE => Field { offset: 2, width: 2 },
            ConfigField::AGCCTRL0_FILTER_LENGTH => Field { offset: 0, width: 2 },
            ConfigField::WOREVT1_EVENT => Field { offset: 0, width: 8 },
            ConfigField::WOREVT0_EVENT => Field { offset: 0, width: 8 },
            ConfigField::WORCTRL_RC_PD => Field { offset: 7, width: 1 },
            ConfigField::WORCTRL_EVENT => Field { offset: 4, width: 3 },
            ConfigField::WORCTRL_RC_CAL => Field { offset: 3, width: 1 },
            ConfigField::WORCTRL_WOR_RES => Field { offset: 0, width: 2 },
            ConfigField::FREND1_LNA_CURRENT => Field { offset: 6, width: 2 },
            ConfigField::FREND1_LNA2MIX_CURRENT => Field { offset: 4, width: 2 },
            ConfigField::FREND1_LODIV_BUF_CURRENT_RX => Field { offset: 2, width: 2 },
            ConfigField::FREND1_MIX_CURRENT => Field { offset: 0, width: 2 },
            ConfigField::FREND0_LODIV_BUF_CURRENT_TX => Field { offset: 4, width: 2 },
            ConfigField::FREND0_PA_POWER => Field { offset: 0, width: 3 },
            ConfigField::FSCAL3_FSCAL3 => Field { offset: 6, width: 2 },
            ConfigField::FSCAL3_CHP_CURR_CAL_EN => Field { offset: 4, width: 2 },
            ConfigField::FSCAL3_FSCAL3_RESULT => Field { offset: 0, width: 4 },
            ConfigField::FSCAL2_VCO_CORE_H_EN => Field { offset: 5, width: 1 },
            ConfigField::FSCAL2_FSCAL2 => Field { offset: 0, width: 5 },
            ConfigField::FSCAL1_FSCAL1 => Field { offset: 0, width: 6 },
            ConfigField::FSCAL0_FSCAL0 => Field { offset: 0, width: 7 },
            ConfigField::RCCTRL1_RCCTRL1 => Field { offset: 0, width: 7 },
            ConfigField::RCCTRL0_RCCTRL0 => Field { offset: 0, width: 7 },
            ConfigField::FSTEST_FSTEST => Field { offset: 0, width: 8 },
            ConfigField::PTEST_PTEST => Field { offset: 0, width: 8 },
            ConfigField::AGCTEST_AGCTEST => Field { offset: 0, width: 8 },
            ConfigField::TEST2_TEST2 => Field { offset: 0, width: 8 },
            ConfigField::TEST1_TEST1 => Field { offset: 0, width: 8 },
            ConfigField::TEST0_TEST0_1 => Field { offset: 2, width: 6 },
            ConfigField::TEST0_VCO_SEL_CAL_EN => Field { offset: 1, width: 1 },
            ConfigField::TEST0_TEST0_0 => Field { offset: 0, width: 1 },
        }
    }

    /// See [`ConfigField::spec_field`]. Every field of the table is a non-empty run
    /// of bits inside one byte.
    #[verifier::when_used_as_spec(spec_field)]
    pub fn field(self) -> (f: Field)
        ensures
            f == self.spec_field(),
            f.wf(),
    {
        match self {
            ConfigField::IOCFG2_GDO2_INV => Field { offset: 6, width: 1 },
            ConfigField::IOCFG2_GDO2_CFG => Field { offset: 0, width: 6 },
            ConfigField::IOCFG1_GDO1_DS => Field { offset: 7, width: 1 },
            ConfigField::IOCFG1_GDO1_INV => Field { offset: 6, width: 1 },
            ConfigField::IOCFG1_GDO1_CFG => Field { offset: 0, width: 6 },
            ConfigField::IOCFG0_TEMP_SENSOR_ENABLE => Field { offset: 7, width: 1 },
            ConfigField::IOCFG0_GDO0_INV => Field { offset: 6, width: 1 },
            ConfigField::IOCFG0_GDO0_CFG => Field { offset: 0, width: 6 },
            ConfigField::FIFOTHR_ADC_RETENTION => Field { offset: 6, width: 1 },
            ConfigField::FIFOTHR_CLOSE_IN_RX => Field { offset: 4, width: 2 },
            ConfigField::FIFOTHR_FIFO_THR => Field { offset: 0, width: 4 },
            ConfigField::SYNC1_SYNC => Field { offset: 0, width: 8 },
            ConfigField::SYNC0_SYNC => Field { offset: 0, width: 8 },
            ConfigField::PKTLEN_PACKET_LENGTH => Field { offset: 0, width: 8 },
            ConfigField::PKTCTRL1_PQT => Field { offset: 5, width: 3 },
            ConfigField::PKTCTRL1_CRC_AUTOFLUSH => Field { offset: 3, width: 1 },
            ConfigField::PKTCTRL1_APPEND_STATUS => Field { offset: 2, width: 1 },
            ConfigField::PKTCTRL1_ADR_CHK => Field { offset: 0, width: 2 },
            ConfigField::PKTCTRL0_WHITE_DATA => Field { offset: 6, width: 1 },
            ConfigField::PKTCTRL0_PKT_FORMAT => Field { offset: 4, width: 2 },
            ConfigField::PKTCTRL0_CRC_EN => Field { offset: 2, width: 1 },
            ConfigField::PKTCTRL0_LENGTH_CONFIG => Field { offset: 0, width: 2 },
            ConfigField::ADDR_DEVICE_ADDR => Field { offset: 0, width: 8 },
            ConfigField::CHANNR_CHAN => Field { offset: 0, width: 8 },
            ConfigField::FSCTRL1_FREQ_IF => Field { offset: 0, width: 5 },
            ConfigField::FSCTRL0_FREQOFF => Field { offset: 0, width: 8 },
            ConfigField::FREQ2_FREQ => Field { offset: 0, width: 6 },
            ConfigField::FREQ1_FREQ => Field { offset: 0, width: 8 },
            ConfigField::FREQ0_FREQ => Field { offset: 0, width: 8 },
            ConfigField::MDMCFG4_CHANBW_E => Field { offset: 6, width: 2 },
            ConfigField::MDMCFG4_CHANBW_M => Field { offset: 4, width: 2 },
            ConfigField::MDMCFG4_DRATE_E => Field { offset: 0, width: 4 },
            ConfigField::MDMCFG3_DRATE_M => Field { offset: 0, width: 8 },
            ConfigField::MDMCFG2_DEM_DCFILT_OFF => Field { offset: 7, width: 1 },
            ConfigField::MDMCFG2_MOD_FORMAT => Field { offset: 4, width: 3 },
            ConfigField::MDMCFG2_MANCHESTER_EN => Field { offset: 3, width: 1 },
            ConfigField::MDMCFG2_SYNC_MODE => Field { offset: 0, width: 3 },
            ConfigField::MDMCFG1_FEC_EN => Field { offset: 7, width: 1 },
            ConfigField::MDMCFG1_NUM_PREAMBLE => Field { offset: 4, width: 3 },
            ConfigField::MDMCFG1_CHANSPC_E => Field { offset: 0, width: 2 },
            ConfigField::MDMCFG0_CHANSPC_M => Field { offset: 0, width: 8 },
            ConfigField::DEVIATN_DEVIATION_E => Field { offset: 4, width: 3 },
            ConfigField::DEVIATN_DEVIATION_M => Field { offset: 0, width: 3 },
            ConfigField::MCSM2_RX_TIME_RSSI => Field { offset: 4, width: 1 },
            ConfigField::MCSM2_RX_TIME_QUAL => Field { offset: 3, width: 1 },
            ConfigField::MCSM2_RX_TIME => Field { offset: 0, width: 3 },
            ConfigField::MCSM1_CCA_MODE => Field { offset: 4, width: 2 },
            ConfigField::MCSM1_RXOFF_MODE => Field { offset: 2, width: 2 },
            ConfigField::MCSM1_TXOFF_MODE => Field { offset: 0, width: 2 },
            ConfigField::MCSM0_FS_AUTOCAL => Field { offset: 4, width: 2 },
            ConfigField::MCSM0_PO_TIMEOUT => Field { offset: 2, width: 2 },
            ConfigField::MCSM0_PIN_CTRL_EN => Field { offset: 1, width: 1 },
            ConfigField::MCSM0_XOSC_FORCE_ON => Field { offset: 0, width: 1 },
            ConfigField::FOCCFG_FOC_BS_CS_GATE => Field { offset: 5, width: 1 },
            ConfigField::FOCCFG_FOC_PRE_K => Field { offset: 3, width: 2 },
            ConfigField::FOCCFG_FOC_POST_K => Field { offset: 2, width: 1 },
            ConfigField::FOCCFG_FOC_LIMIT => Field { offset: 0, width: 2 },
            ConfigField::BSCFG_BS_PRE_KI => Field { offset: 6, width: 2 },
            ConfigField::BSCFG_BS_PRE_KP => Field { offset: 4, width: 2 },
            ConfigField::BSCFG_BS_POST_KI => Field { offset: 3, width: 1 },
            ConfigField::BSCFG_BS_POST_KP => Field { offset: 2, width: 1 },
            ConfigField::BSCFG_BS_LIMIT => Field { offset: 0, width: 2 },
            ConfigField::AGCCTRL2_MAX_DVGA_GAIN => Field { offset: 6, width: 2 },
            ConfigField::AGCCTRL2_MAX_LNA_GAIN => Field { offset: 3, width: 3 },
            ConfigField::AGCCTRL2_MAGN_TARGET => Field { offset: 0, width: 3 },
            ConfigField::AGCCTRL1_AGC_LNA_PRIORITY => Field { offset: 6, width: 1 },
            ConfigField::AGCCTRL1_CARRIER_SENSE_REL_THR => Field { offset: 4, width: 2 },
            ConfigField::AGCCTRL1_CARRIER_SENSE_ABS_THR => Field { offset: 0, width: 4 },
            ConfigField::AGCCTRL0_HYST_LEVEL => Field { offset: 6, width: 2 },
            ConfigField::AGCCTRL0_WAIT_TIME => Field { offset: 4, width: 2 },
            ConfigField::AGCCTRL0_AGC_FREEZE => Field { offset: 2, width: 2 },
            ConfigField::AGCCTRL0_FILTER_LENGTH => Field { offset: 0, width: 2 },
            ConfigField::WOREVT1_EVENT => Field { offset: 0, width: 8 },
            ConfigField::WOREVT0_EVENT => Field { offset: 0, width: 8 },
            ConfigField::WORCTRL_RC_PD => Field { offset: 7, width: 1 },
            ConfigField::WORCTRL_EVENT => Field { offset: 4, width: 3 },
            ConfigField::WORCTRL_RC_CAL => Field { offset: 3, width: 1 },
            ConfigField::WORCTRL_WOR_RES => Field { offset: 0, width: 2 },
            ConfigField::FREND1_LNA_CURRENT => Field { offset: 6, width: 2 },
            ConfigField::FREND1_LNA2MIX_CURRENT => Field { offset: 4, width: 2 },
            ConfigField::FREND1_LODIV_BUF_CURRENT_RX => Field { offset: 2, width: 2 },
            ConfigField::FREND1_MIX_CURRENT => Field { offset: 0, width: 2 },
            ConfigField::FREND0_LODIV_BUF_CURRENT_TX => Field { offset: 4, width: 2 },
            ConfigField::FREND0_PA_POWER => Field { offset: 0, width: 3 },
            ConfigField::FSCAL3_FSCAL3 => Field { offset: 6, width: 2 },
            ConfigField::FSCAL3_CHP_CURR_CAL_EN => Field { offset: 4, width: 2 },
            ConfigField::FSCAL3_FSCAL3_RESULT => Field { offset: 0, width: 4 },
            ConfigField::FSCAL2_VCO_CORE_H_EN => Field { offset: 5, width: 1 },
            ConfigField::FSCAL2_FSCAL2 => Field { offset: 0, width: 5 },
            ConfigField::FSCAL1_FSCAL1 => Field { offset: 0, width: 6 },
            ConfigField::FSCAL0_FSCAL0 => Field { offset: 0, width: 7 },
            ConfigField::RCCTRL1_RCCTRL1 => Field { offset: 0, width: 7 },
            ConfigField::RCCTRL0_RCCTRL0 => Field { offset: 0, width: 7 },
            ConfigField::FSTEST_FSTEST => Field { offset: 0, width: 8 },
            ConfigField::PTEST_PTEST => Field { offset: 0, width: 8 },
            ConfigField::AGCTEST_AGCTEST => Field { offset: 0, width: 8 },
            ConfigField::TEST2_TEST2 => Field { offset: 0, width: 8 },
            ConfigField::TEST1_TEST1 => Field { offset: 0, width: 8 },
            ConfigField::TEST0_TEST0_1 => Field { offset: 2, width: 6 },
            ConfigField::TEST0_VCO_SEL_CAL_EN => Field { offset: 1, width: 1 },
            ConfigField::TEST0_TEST0_0 => Field { offset: 0, width: 1 },
        }
    }

    /// The value that the field has in `raw`, a value of its register.
    pub open spec fn spec_read(self, raw: u8) -> u8 {
        self.spec_field().spec_read(raw)
    }

    /// See [`ConfigField::spec_read`].
    #[verifier::when_used_as_spec(spec_read)]
    pub fn read(self, raw: u8) -> (value: u8)
        ensures
            value == self.spec_read(raw),
            value <= self.spec_field().spec_max(),
    {
        self.field().read(raw)
    }

    /// `raw`, a value of the field's register, with the field set to
    /// `value` cut to the width of the field.
    pub open spec fn spec_put(self, raw: u8, value: u8) -> u8 {
        self.spec_field().spec_write(raw, self.spec_field().spec_cut(value))
    }

    /// See [`ConfigField::spec_put`]. A value that fits the field is
    /// written as it is.
    #[verifier::when_used_as_spec(spec_put)]
    pub fn put(self, raw: u8, value: u8) -> (updated: u8)
        ensures
            updated == self.spec_put(raw, value),
            value <= self.spec_field().spec_max() ==> updated == self.spec_write(raw, value),
    {
        let field = self.field();
        field.write(raw, field.cut(value))
    }

    /// `raw`, a value of the field's register, with the field set to `value`.
    pub open spec fn spec_write(self, raw: u8, value: u8) -> u8 {
        self.spec_field().spec_write(raw, value)
    }

    /// See [`ConfigField::spec_write`].
    #[verifier::when_used_as_spec(spec_write)]
    pub fn write(self, raw: u8, value: u8) -> (updated: u8)
        requires
            value <= self.spec_field().spec_max(),
        ensures
            updated == self.spec_write(raw, value),
    {
        self.field().write(raw, value)
    }
}

/// A change to the fields of one configuration register.
#[derive(Copy, Clone, Debug, PartialEq, Eq, Structural)]
pub enum Edit {
    /// One field is set to the value.
    One(ConfigField, u8),
    /// Two fields are set to their values, the first before the second.
    /// The register is that of the first field.
    Two(ConfigField, u8, ConfigField, u8),
}

impl Edit {
    /// The register that is changed.
    pub open spec fn spec_register(self) -> Config {
        match self {
            Edit::One(field, _) => field.spec_register(),
            Edit::Two(field, _, _, _) => field.spec_register(),
        }
    }

    /// Whether each value fits its field, and the fields are different
    /// fields of one register.
    pub open spec fn fits(self) -> bool {
        match self {
            Edit::One(field, value) => value <= field.spec_field().spec_max(),
            Edit::Two(first, a, second, b) => {
                &&& a <= first.spec_field().spec_max()
                &&& b <= second.spec_field().spec_max()
                &&& first != second
                &&& first.spec_register() == second.spec_register()
            },
        }
    }

    /// The value of the register after the change, where `raw` is its
    /// value before. A value is cut to the width of its field.
    pub open spec fn spec_apply(self, raw: u8) -> u8 {
        match self {
            Edit::One(field, value) => field.spec_put(raw, value),
            Edit::Two(first, a, second, b) => second.spec_put(first.spec_put(raw, a), b),
        }
    }

    /// See [`Edit::spec_register`].
    #[verifier::when_used_as_spec(spec_register)]
    pub fn register(self) -> (r: Config)
        ensures
            r == self.spec_register(),
    {
        match self {
            Edit::One(field, _) => field.register(),
            Edit::Two(field, _, _, _) => field.register(),
        }
    }

    /// See [`Edit::spec_apply`].
    #[verifier::when_used_as_spec(spec_apply)]
    pub fn apply(self, raw: u8) -> (updated: u8)
        ensures
            updated == self.spec_apply(raw),
    {
        match self {
            Edit::One(field, value) => field.put(raw, value),
            Edit::Two(first, a, second, b) => second.put(first.put(raw, a), b),
        }
    }
}

/// The view of a configuration register that tells which bits each of
/// its fields occupies.
#[derive(Copy, Clone, Debug, PartialEq, Eq, Structural)]
pub struct Mask {
    pub register: Config,
}

/// A value of a configuration register as read from the chip: the view
/// from which its fields are taken.
#[derive(Copy, Clone, Debug, PartialEq, Eq, Structural)]
pub struct R {
    pub register: Config,
    pub bits: u8,
}

/// A value of a configuration register that is being put together for
/// writing. It starts from the register's reset value or from a value
/// that was read, never from nothing, so that bits which no field names
/// keep their value.
#[derive(Copy, Clone, Debug, PartialEq, Eq, Structural)]
pub struct W {
    pub register: Config,
    pub bits: u8,
}

impl Mask {
    /// The mask view of `register`.
    pub fn new(register: Config) -> (m: Mask)
        ensures
            m == (Mask { register }),
    {
        Mask { register }
    }

    /// The bits that one of the register's fields occupies.
    pub fn get(self, field: ConfigField) -> (mask: u8)
        requires
            field.spec_register() == self.register,
        ensures
            mask == field.spec_field().spec_mask(),
    {
        field.field().mask()
    }
}

impl R {
    /// A value that was read from `register`.
    pub fn new(register: Config, bits: u8) -> (r: R)
        ensures
            r == (R { register, bits }),
    {
        R { register, bits }
    }

    /// The raw value.
    pub fn bits(self) -> (b: u8)
        ensures
            b == self.bits,
    {
        self.bits
    }

    /// The value of one of the register's fields.
    pub fn get(self, field: ConfigField) -> (value: u8)
        requires
            field.spec_register() == self.register,
        ensures
            value == field.spec_read(self.bits),
            value <= field.spec_field().spec_max(),
    {
        field.read(self.bits)
    }

    /// Starts a change of the value that was read.
    pub fn modify(self) -> (w: W)
        ensures
            w == (W { register: self.register, bits: self.bits }),
    {
        W { register: self.register, bits: self.bits }
    }
}

impl W {
    /// The reset value of `register`, to be changed field by field.
    pub fn reset(register: Config) -> (w: W)
        ensures
            w == (W { register, bits: register.spec_reset_value() }),
    {
        W { register, bits: register.reset_value() }
    }

    /// Sets one of the register's fields and leaves the rest as it is.
    pub fn set(self, field: ConfigField, value: u8) -> (w: W)
        requires
            field.spec_register() == self.register,
            value <= field.spec_field().spec_max(),
        ensures
            w == (W { register: self.register, bits: field.spec_write(self.bits, value) }),
    {
        W { register: self.register, bits: field.write(self.bits, value) }
    }

    /// The raw value to write.
    pub fn bits(self) -> (b: u8)
        ensures
            b == self.bits,
    {
        self.bits
    }
}

/// Every field of the table is a non-empty run of bits inside one byte.
pub proof fn lemma_config_fields_well_formed(field: ConfigField)
    ensures
        field.spec_field().wf(),
{
}

/// Two different fields of one register share no bit.
pub proof fn lemma_config_fields_disjoint(f: ConfigField, g: ConfigField)
    requires
        f != g,
        f.spec_register() == g.spec_register(),
    ensures
        f.spec_field().disjoint(g.spec_field()),
{
}

/// Starting from a register's reset value, a value written to one of its
/// fields is read back from that field, and the write changes no bit
/// outside the field.
pub proof fn lemma_config_field_round_trip(field: ConfigField, value: u8)
    requires
        value <= field.spec_field().spec_max(),
    ensures
        field.spec_read(field.spec_write(field.spec_register().spec_reset_value(), value))
            == value,
        (field.spec_write(field.spec_register().spec_reset_value(), value)
            ^ field.spec_register().spec_reset_value()) & !field.spec_field().spec_mask() == 0,
{
    let raw = field.spec_register().spec_reset_value();
    lemma_write_then_read(field.spec_field(), raw, value);
    lemma_write_keeps_other_bits(field.spec_field(), raw, value);
}

/// A change whose values fit their fields sets each field to its value
/// and leaves every other bit of the register as it was; where it sets
/// two fields, their order does not matter.
pub proof fn lemma_edit_sets_fields(edit: Edit, raw: u8)
    requires
        edit.fits(),
    ensures
        edit matches Edit::One(field, value) ==> {
            &&& edit.spec_apply(raw) == field.spec_write(raw, value)
            &&& field.spec_read(edit.spec_apply(raw)) == value
            &&& (edit.spec_apply(raw) ^ raw) & !field.spec_field().spec_mask() == 0
        },
        edit matches Edit::Two(first, a, second, b) ==> {
            &&& edit.spec_apply(raw) == second.spec_write(first.spec_write(raw, a), b)
            &&& edit.spec_apply(raw) == Edit::Two(second, b, first, a).spec_apply(raw)
            &&& first.spec_read(edit.spec_apply(raw)) == a
            &&& second.spec_read(edit.spec_apply(raw)) == b
            &&& (edit.spec_apply(raw) ^ raw) & !(first.spec_field().spec_mask()
                | second.spec_field().spec_mask()) == 0
        },
{
    match edit {
        Edit::One(field, value) => {
            lemma_cut_keeps(field.spec_field(), value);
            lemma_write_then_read(field.spec_field(), raw, value);
            lemma_write_keeps_other_bits(field.spec_field(), raw, value);
        },
        Edit::Two(first, a, second, b) => {
            lemma_cut_keeps(first.spec_field(), a);
            lemma_cut_keeps(second.spec_field(), b);
            lemma_config_fields_independent(first, second, raw, a, b);
            lemma_write_then_read(second.spec_field(), first.spec_write(raw, a), b);
            let once = first.spec_write(raw, a);
            let twice = second.spec_write(once, b);
            let (m, n) = (first.spec_field().spec_mask(), second.spec_field().spec_mask());
            lemma_write_keeps_other_bits(first.spec_field(), raw, a);
            lemma_write_keeps_other_bits(second.spec_field(), once, b);
            assert((twice ^ raw) & !(m | n) == 0) by (bit_vector)
                requires
                    (once ^ raw) & !m == 0,
                    (twice ^ once) & !n == 0,
            ;
        },
    }
}

/// Changes to two different fields of one register can be made in either
/// order, and neither disturbs the value of the other.
pub proof fn lemma_config_fields_independent(f: ConfigField, g: ConfigField, raw: u8, a: u8, b: u8)
    requires
        f != g,
        f.spec_register() == g.spec_register(),
        a <= f.spec_field().spec_max(),
        b <= g.spec_field().spec_max(),
    ensures
        g.spec_write(f.spec_write(raw, a), b) == f.spec_write(g.spec_write(raw, b), a),
        g.spec_read(f.spec_write(raw, a)) == g.spec_read(raw),
        f.spec_read(g.spec_write(f.spec_write(raw, a), b)) == a,
{
    lemma_config_fields_disjoint(f, g);
    lemma_writes_commute(f.spec_field(), g.spec_field(), raw, a, b);
    lemma_write_keeps_other_fields(f.spec_field(), g.spec_field(), raw, a);
    lemma_write_then_read(f.spec_field(), g.spec_field().spec_write(raw, b), a);
}

} // verus!
