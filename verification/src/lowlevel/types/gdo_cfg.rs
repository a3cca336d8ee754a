//! General Purpose Control Pin Configuration.

use vstd::prelude::*;
use vstd::std_specs::convert::FromSpecImpl;
use crate::lowlevel::registers::ConfigField;
use crate::lowlevel::traits::lemma_low_mask_values;

verus! {

/// General Purpose Control Pin Configuration.
#[allow(non_camel_case_types)]
#[derive(Copy, Clone, Debug, PartialEq, Eq, Structural)]
pub enum GdoCfg {
    /// Associated to the RX FIFO: Asserts when RX FIFO is filled at or above the RX
    /// FIFO threshold. De-asserts when RX FIFO is drained below the same threshold.
    RX_FIFO_FILLED,
    /// Associated to the RX FIFO: Asserts when RX FIFO is filled at or above the RX
    /// FIFO threshold or the end of packet is reached. De-asserts when the RX FIFO
    /// is empty.
    RX_FIFO_FILLED_END_OF_PKT,
    /// Associated to the TX FIFO: Asserts when the TX FIFO is filled at or above
    /// the TX FIFO threshold. De-asserts when the TX FIFO is below the same
    /// threshold.
    TX_FIFO_FILLED,
    /// Associated to the TX FIFO: Asserts when TX FIFO is full. De-asserts when the
    /// TX FIFO is drained below the TX FIFO threshold.
    TX_FIFO_FULL,
    /// Asserts when the RX FIFO has overflowed. De-asserts when the FIFO has been flushed.
    RX_FIFO_OVERFLOW,
    /// Asserts when the TX FIFO has underflowed. De-asserts when the FIFO is flushed.
    TX_FIFO_UNDERFLOW,
    /// Asserts when sync word has been sent / received, and de-asserts at the end
    /// of the packet. In RX, the pin will also deassert when a packet is discarded
    /// due to address or maximum length filtering or when the radio enters
    /// RXFIFO_OVERFLOW state. In TX the pin will de-assert if the TX FIFO
    /// underflows.
    SYNC_WORD,
    /// Asserts when a packet has been received with CRC OK. De-asserts when the
    /// first byte is read from the RX FIFO.
    CRC_OK,
    /// Preamble Quality Reached. Asserts when the PQI is above the programmed PQT
    /// value. De-asserted when the chip reenters RX state (MARCSTATE=0x0D) or the
    /// PQI gets below the programmed PQT value.
    PQT_REACHED,
    /// Clear channel assessment. High when RSSI level is below threshold (dependent
    /// on the current CCA_MODE setting).
    CHANNEL_CLEAR,
    /// Lock detector output. The PLL is in lock if the lock detector output has a
    /// positive transition or is constantly logic high. To check for PLL lock the
    /// lock detector output should be used as an interrupt for the MCU.
    PLL_LOCK,
    /// Serial Clock. Synchronous to the data in synchronous serial mode. In RX
    /// mode, data is set up on the falling edge by CC1101 when GDOx_INV=0. In TX
    /// mode, data is sampled by CC1101 on the rising edge of the serial clock when
    /// GDOx_INV=0.
    SERIAL_CLOCK,
    /// Serial Synchronous Data Output. Used for synchronous serial mode.
    SERIAL_SYNC_DATA_OUT,
    /// Serial Data Output. Used for asynchronous serial mode.
    SERIAL_DATA_OUT,
    /// Carrier sense. High if RSSI level is above threshold. Cleared when entering IDLE mode.
    CARRIER_SENSE,
    /// CRC_OK. The last CRC comparison matched. Cleared when entering/restarting RX mode.
    LAST_CRC_OK,
    /// RX_HARD_DATA\[1\]. Can be used together with RX_SYMBOL_TICK for alternative
    /// serial RX output.
    RX_HARD_DATA_1,
    /// RX_HARD_DATA\[0\]. Can be used together with RX_SYMBOL_TICK for alternative
    /// serial RX output.
    RX_HARD_DATA_0,
    /// PA_PD. Note: PA_PD will have the same signal level in SLEEP and TX states.
    /// To control an external PA or RX/TX switch in applications where the SLEEP
    /// state is used it is recommended to use GDOx_CFGx=0x2F instead.
    PA_PD,
    /// LNA_PD. Note: LNA_PD will have the same signal level in SLEEP and RX states.
    /// To control an external LNA or RX/TX switch in applications where the SLEEP
    /// state is used it is recommended to use GDOx_CFGx=0x2F instead.
    LNA_PD,
    /// RX_SYMBOL_TICK. Can be used together with RX_HARD_DATA for alternative serial RX output.
    RX_SYMBOL_TICK,
    /// WOR_EVNT0.
    WOR_EVNT0,
    /// WOR_EVNT1.
    WOR_EVNT1,
    /// CLK_256.
    CLK_256,
    /// CLK_32k.
    CLK_32k,
    /// CHIP_RDYn.
    CHIP_RDYn,
    /// XOSC_STABLE.
    XOSC_STABLE,
    /// High impedance (3-state).
    HIGH_IMPEDANCE,
    /// HW to 0 (HW1 achieved by setting GDOx_INV=1). Can be used to control an
    /// external LNA/PA or RX/TX switch.
    HARDWIRE_TO_0,
    /// CLK_XOSC/1.
    CLK_XOSC_1,
    /// CLK_XOSC/1.5.
    CLK_XOSC_1_5,
    /// CLK_XOSC/2.
    CLK_XOSC_2,
    /// CLK_XOSC/3.
    CLK_XOSC_3,
    /// CLK_XOSC/4.
    CLK_XOSC_4,
    /// CLK_XOSC/6.
    CLK_XOSC_6,
    /// CLK_XOSC/8.
    CLK_XOSC_8,
    /// CLK_XOSC/12.
    CLK_XOSC_12,
    /// CLK_XOSC/16.
    CLK_XOSC_16,
    /// CLK_XOSC/24.
    CLK_XOSC_24,
    /// CLK_XOSC/32.
    CLK_XOSC_32,
    /// CLK_XOSC/48.
    CLK_XOSC_48,
    /// CLK_XOSC/64.
    CLK_XOSC_64,
    /// CLK_XOSC/96.
    CLK_XOSC_96,
    /// CLK_XOSC/128.
    CLK_XOSC_128,
    /// CLK_XOSC/192.
    CLK_XOSC_192,
}

impl GdoCfg {
    /// The code that the register field holds for this setting.
    pub open spec fn spec_value(self) -> u8 {
        match self {
            GdoCfg::RX_FIFO_FILLED => 0x00,
            GdoCfg::RX_FIFO_FILLED_END_OF_PKT => 0x01,
            GdoCfg::TX_FIFO_FILLED => 0x02,
            GdoCfg::TX_FIFO_FULL => 0x03,
            GdoCfg::RX_FIFO_OVERFLOW => 0x04,
            GdoCfg::TX_FIFO_UNDERFLOW => 0x05,
            GdoCfg::SYNC_WORD => 0x06,
            GdoCfg::CRC_OK => 0x07,
            GdoCfg::PQT_REACHED => 0x08,
            GdoCfg::CHANNEL_CLEAR => 0x09,
            GdoCfg::PLL_LOCK => 0x0A,
            GdoCfg::SERIAL_CLOCK => 0x0B,
            GdoCfg::SERIAL_SYNC_DATA_OUT => 0x0C,
            GdoCfg::SERIAL_DATA_OUT => 0x0D,
            GdoCfg::CARRIER_SENSE => 0x0E,
            GdoCfg::LAST_CRC_OK => 0x0F,
            GdoCfg::RX_HARD_DATA_1 => 0x16,
            GdoCfg::RX_HARD_DATA_0 => 0x17,
            GdoCfg::PA_PD => 0x1B,
            GdoCfg::LNA_PD => 0x1C,
            GdoCfg::RX_SYMBOL_TICK => 0x1D,
            GdoCfg::WOR_EVNT0 => 0x24,
            GdoCfg::WOR_EVNT1 => 0x25,
            GdoCfg::CLK_256 => 0x26,
            GdoCfg::CLK_32k => 0x27,
            GdoCfg::CHIP_RDYn => 0x29,
            GdoCfg::XOSC_STABLE => 0x2B,
            GdoCfg::HIGH_IMPEDANCE => 0x2E,
            GdoCfg::HARDWIRE_TO_0 => 0x2F,
            GdoCfg::CLK_XOSC_1 => 0x30,
            GdoCfg::CLK_XOSC_1_5 => 0x31,
            GdoCfg::CLK_XOSC_2 => 0x32,
            GdoCfg::CLK_XOSC_3 => 0x33,
            GdoCfg::CLK_XOSC_4 => 0x34,
            GdoCfg::CLK_XOSC_6 => 0x35,
            GdoCfg::CLK_XOSC_8 => 0x36,
            GdoCfg::CLK_XOSC_12 => 0x37,
            GdoCfg::CLK_XOSC_16 => 0x38,
            GdoCfg::CLK_XOSC_24 => 0x39,
            GdoCfg::CLK_XOSC_32 => 0x3A,
            GdoCfg::CLK_XOSC_48 => 0x3B,
            GdoCfg::CLK_XOSC_64 => 0x3C,
            GdoCfg::CLK_XOSC_96 => 0x3D,
            GdoCfg::CLK_XOSC_128 => 0x3E,
            GdoCfg::CLK_XOSC_192 => 0x3F,
        }
    }

    /// See [`GdoCfg::spec_value`]. The code fits the field that takes it.
    #[verifier::when_used_as_spec(spec_value)]
    pub fn value(self) -> (v: u8)
        ensures
            v == self.spec_value(),
            v <= ConfigField::IOCFG0_GDO0_CFG.spec_field().spec_max(),
    {
        proof {
            lemma_low_mask_values();
        }
        match self {
            GdoCfg::RX_FIFO_FILLED => 0x00,
            GdoCfg::RX_FIFO_FILLED_END_OF_PKT => 0x01,
            GdoCfg::TX_FIFO_FILLED => 0x02,
            GdoCfg::TX_FIFO_FULL => 0x03,
            GdoCfg::RX_FIFO_OVERFLOW => 0x04,
            GdoCfg::TX_FIFO_UNDERFLOW => 0x05,
            GdoCfg::SYNC_WORD => 0x06,
            GdoCfg::CRC_OK => 0x07,
            GdoCfg::PQT_REACHED => 0x08,
            GdoCfg::CHANNEL_CLEAR => 0x09,
            GdoCfg::PLL_LOCK => 0x0A,
            GdoCfg::SERIAL_CLOCK => 0x0B,
            GdoCfg::SERIAL_SYNC_DATA_OUT => 0x0C,
            GdoCfg::SERIAL_DATA_OUT => 0x0D,
            GdoCfg::CARRIER_SENSE => 0x0E,
            GdoCfg::LAST_CRC_OK => 0x0F,
            GdoCfg::RX_HARD_DATA_1 => 0x16,
            GdoCfg::RX_HARD_DATA_0 => 0x17,
            GdoCfg::PA_PD => 0x1B,
            GdoCfg::LNA_PD => 0x1C,
            GdoCfg::RX_SYMBOL_TICK => 0x1D,
            GdoCfg::WOR_EVNT0 => 0x24,
            GdoCfg::WOR_EVNT1 => 0x25,
            GdoCfg::CLK_256 => 0x26,
            GdoCfg::CLK_32k => 0x27,
            GdoCfg::CHIP_RDYn => 0x29,
            GdoCfg::XOSC_STABLE => 0x2B,
            GdoCfg::HIGH_IMPEDANCE => 0x2E,
            GdoCfg::HARDWIRE_TO_0 => 0x2F,
            GdoCfg::CLK_XOSC_1 => 0x30,
            GdoCfg::CLK_XOSC_1_5 => 0x31,
            GdoCfg::CLK_XOSC_2 => 0x32,
            GdoCfg::CLK_XOSC_3 => 0x33,
            GdoCfg::CLK_XOSC_4 => 0x34,
            GdoCfg::CLK_XOSC_6 => 0x35,
            GdoCfg::CLK_XOSC_8 => 0x36,
            GdoCfg::CLK_XOSC_12 => 0x37,
            GdoCfg::CLK_XOSC_16 => 0x38,
            GdoCfg::CLK_XOSC_24 => 0x39,
            GdoCfg::CLK_XOSC_32 => 0x3A,
            GdoCfg::CLK_XOSC_48 => 0x3B,
            GdoCfg::CLK_XOSC_64 => 0x3C,
            GdoCfg::CLK_XOSC_96 => 0x3D,
            GdoCfg::CLK_XOSC_128 => 0x3E,
            GdoCfg::CLK_XOSC_192 => 0x3F,
        }
    }
}

impl From<GdoCfg> for u8 {
    fn from(value: GdoCfg) -> (v: u8) {
        value.value()
    }
}

impl FromSpecImpl<GdoCfg> for u8 {
    open spec fn obeys_from_spec() -> bool {
        true
    }

    open spec fn from_spec(value: GdoCfg) -> u8 {
        value.spec_value()
    }
}

} // verus!
