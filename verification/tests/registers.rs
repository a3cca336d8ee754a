use cc1101::lowlevel::access::{Access, Mode};
use cc1101::lowlevel::registers::{
    Command, Config, ConfigField, Edit, Mask, MultiByte, Register, State, Status, StatusByte,
    StatusField, R, W,
};
use cc1101::lowlevel::traits::{Field, OffsetSize, ToWider};
use cc1101::lowlevel::types::{
    AddressCheck, AutoCalibration, BoolU8, CcaMode, ChannelFilterSamples, DecisionBoundary,
    FifoThreshold, FilterLength, GdoCfg, LengthConfig, MachineState, MachineStateError,
    ModulationFormat, NumPreamble, PacketStatus, PoTimeout, SyncCheck, TargetAmplitude,
};
use cc1101::lowlevel::{
    fifo_frame, fifo_read_frame, read_frame, strobe_frame, write_frame, FIFO_SIZE_MAX,
};

fn bit_mask(bits: u8) -> u8 {
    ((1u16 << bits) - 1) as u8
}

#[test]
fn test_reg_read() {
    // REG 1
    assert_eq!(Field::of(0u8).read(u8::MAX), bit_mask(1));
    assert_eq!(Field::of(1u8).read(u8::MAX), bit_mask(1));
    assert_eq!(Field::of(2u8).read(u8::MAX), bit_mask(1));
    assert_eq!(Field::of(3u8).read(u8::MAX), bit_mask(1));
    assert_eq!(Field::of(4u8).read(u8::MAX), bit_mask(1));
    assert_eq!(Field::of(5u8).read(u8::MAX), bit_mask(1));
    assert_eq!(Field::of(6u8).read(u8::MAX), bit_mask(1));
    assert_eq!(Field::of(7u8).read(u8::MAX), bit_mask(1));

    // REG 2
    assert_eq!(Field::of(0u8).read(u8::MAX), bit_mask(1));
    assert_eq!(Field::of(1u8..8u8).read(u8::MAX), bit_mask(7));

    // REG 3
    assert_eq!(Field::of(0u8..6u8).read(u8::MAX), bit_mask(6));
    assert_eq!(Field::of(6u8..8u8).read(u8::MAX), bit_mask(2));

    // REG 4
    assert_eq!(Field::of(0u8..5u8).read(u8::MAX), bit_mask(5));
    assert_eq!(Field::of(5u8..8u8).read(u8::MAX), bit_mask(3));

    // REG 5
    assert_eq!(Field::of(0u8..4u8).read(u8::MAX), bit_mask(4));
    assert_eq!(Field::of(4u8..8u8).read(u8::MAX), bit_mask(4));
}

#[test]
fn test_reg_write() {
    // REG 1
    assert_eq!(Field::of(0u8).write(0b0000_0000, 1), 0b0000_0001);
    assert_eq!(Field::of(1u8).write(0b0000_0000, 1), 0b0000_0010);
    assert_eq!(Field::of(2u8).write(0b0000_0000, 1), 0b0000_0100);
    assert_eq!(Field::of(3u8).write(0b0000_0000, 1), 0b0000_1000);
    assert_eq!(Field::of(4u8).write(0b0000_0000, 1), 0b0001_0000);
    assert_eq!(Field::of(5u8).write(0b0000_0000, 1), 0b0010_0000);
    assert_eq!(Field::of(6u8).write(0b0000_0000, 1), 0b0100_0000);
    assert_eq!(Field::of(7u8).write(0b0000_0000, 1), 0b1000_0000);

    // REG 2
    assert_eq!(Field::of(0u8).write(0b0000_0000, bit_mask(1)), 0b0000_0001);
    assert_eq!(Field::of(1u8..8u8).write(0b0000_0000, bit_mask(7)), 0b1111_1110);

    // REG 3
    assert_eq!(Field::of(0u8..6u8).write(0b0000_0000, bit_mask(6)), 0b0011_1111);
    assert_eq!(Field::of(6u8..8u8).write(0b0000_0000, bit_mask(2)), 0b1100_0000);

    // REG 4
    assert_eq!(Field::of(0u8..5u8).write(0b0000_0000, bit_mask(5)), 0b0001_1111);
    assert_eq!(Field::of(5u8..8u8).write(0b0000_0000, bit_mask(3)), 0b1110_0000);

    // REG 5
    assert_eq!(Field::of(0u8..4u8).write(0b0000_0000, bit_mask(4)), 0b0000_1111);
    assert_eq!(Field::of(4u8..8u8).write(0b0000_0000, bit_mask(4)), 0b1111_0000);
}

#[test]
fn offset_and_size() {
    assert_eq!(5u8.offset(), 5);
    assert_eq!(5u8.size(), 1);
    assert_eq!((2u8..7u8).offset(), 2);
    assert_eq!((2u8..7u8).size(), 5);
    assert_eq!(200u8.to_wider(), 200u16);
    assert_eq!(Field::of(2u8..7u8), Field { offset: 2, width: 5 });
    assert_eq!(Field::of(0u8..8u8).max(), 0xFF);
    assert_eq!(Field::of(0u8..8u8).mask(), 0xFF);
    assert_eq!(Field::of(2u8..7u8).max(), 0b1_1111);
    assert_eq!(Field::of(2u8..7u8).mask(), 0b0111_1100);
    assert_eq!(Field::of(7u8).mask(), 0b1000_0000);
    assert_eq!(Field::of(2u8..7u8).cut(0xFF), 0b1_1111);
    assert_eq!(Field::of(2u8..7u8).cut(0b1_0101), 0b1_0101);
}

#[test]
fn field_round_trip_and_frame() {
    // Every field that lies in a byte, every byte, every value that fits.
    for offset in 0..8u8 {
        for width in 1..=(8 - offset) {
            let field = Field { offset, width };
            let mask = field.mask();
            assert_eq!(mask, bit_mask(width) << offset);
            for raw in 0..=255u8 {
                for value in 0..=field.max() {
                    let written = field.write(raw, value);
                    assert_eq!(field.read(written), value);
                    assert_eq!((written ^ raw) & !mask, 0);
                }
                assert_eq!(field.write(raw, field.read(raw)), raw);
            }
        }
    }
}

#[test]
fn field_writes_commute() {
    let low = Field::of(0u8..3u8);
    let high = Field::of(4u8..7u8);
    for raw in [0x00u8, 0xFF, 0xA5, 0x5A] {
        for a in 0..8u8 {
            for b in 0..8u8 {
                let one = high.write(low.write(raw, a), b);
                let other = low.write(high.write(raw, b), a);
                assert_eq!(one, other);
                assert_eq!(low.read(one), a);
                assert_eq!(high.read(one), b);
                assert_eq!(one & 0b1000_1000, raw & 0b1000_1000);
            }
        }
    }
}

#[test]
fn config_fields_from_reset() {
    assert_eq!(Config::MDMCFG2.reset_value(), 0b0000_0010);
    assert_eq!(ConfigField::MDMCFG2_MOD_FORMAT.register(), Config::MDMCFG2);
    assert_eq!(ConfigField::MDMCFG2_MOD_FORMAT.field(), Field { offset: 4, width: 3 });
    assert_eq!(ConfigField::MDMCFG2_SYNC_MODE.read(0b0000_0010), 2);
    assert_eq!(ConfigField::MDMCFG2_MOD_FORMAT.write(0b0000_0010, 7), 0b0111_0010);
    assert_eq!(
        W::reset(Config::MDMCFG2).set(ConfigField::MDMCFG2_DEM_DCFILT_OFF, 1).bits(),
        0b1000_0010
    );
    assert_eq!(
        W::reset(Config::MDMCFG4)
            .set(ConfigField::MDMCFG4_CHANBW_E, 0x03)
            .set(ConfigField::MDMCFG4_CHANBW_M, 0x00)
            .bits(),
        0b1100_1100
    );
    assert_eq!(
        W::reset(Config::MDMCFG4)
            .set(ConfigField::MDMCFG4_CHANBW_M, 0x00)
            .set(ConfigField::MDMCFG4_CHANBW_E, 0x03)
            .bits(),
        0b1100_1100
    );
    assert_eq!(W::reset(Config::PKTCTRL0).set(ConfigField::PKTCTRL0_WHITE_DATA, 0).bits(), 0x05);
    assert_eq!(W::reset(Config::FSCTRL1).set(ConfigField::FSCTRL1_FREQ_IF, 0x08).bits(), 0x08);
    assert_eq!(W::reset(Config::MCSM0).set(ConfigField::MCSM0_FS_AUTOCAL, 1).bits(), 0x14);
    assert_eq!(W::reset(Config::AGCCTRL2).set(ConfigField::AGCCTRL2_MAX_LNA_GAIN, 4).bits(), 0x23);
    assert_eq!(W::reset(Config::SYNC1).bits(), 0xD3);
    assert_eq!(W::reset(Config::SYNC0).bits(), 0x91);
    assert_eq!(W::reset(Config::TEST0).bits(), 0x0B);

    let mask = Mask::new(Config::PKTCTRL1);
    assert_eq!(mask.get(ConfigField::PKTCTRL1_PQT), 0b1110_0000);
    assert_eq!(mask.get(ConfigField::PKTCTRL1_CRC_AUTOFLUSH), 0b0000_1000);
    assert_eq!(mask.get(ConfigField::PKTCTRL1_APPEND_STATUS), 0b0000_0100);
    assert_eq!(mask.get(ConfigField::PKTCTRL1_ADR_CHK), 0b0000_0011);

    let read = R::new(Config::PKTCTRL1, 0b1010_0110);
    assert_eq!(read.bits(), 0b1010_0110);
    assert_eq!(read.get(ConfigField::PKTCTRL1_PQT), 0b101);
    assert_eq!(read.get(ConfigField::PKTCTRL1_CRC_AUTOFLUSH), 0);
    assert_eq!(read.get(ConfigField::PKTCTRL1_APPEND_STATUS), 1);
    assert_eq!(read.get(ConfigField::PKTCTRL1_ADR_CHK), 0b10);
    assert_eq!(read.modify().set(ConfigField::PKTCTRL1_ADR_CHK, 0b01).bits(), 0b1010_0101);
}

#[test]
fn edits() {
    let one = Edit::One(ConfigField::MDMCFG2_MOD_FORMAT, 3);
    assert_eq!(one.register(), Config::MDMCFG2);
    assert_eq!(one.apply(0b1000_0010), 0b1011_0010);
    // A value that does not fit is cut to the field's width.
    assert_eq!(Edit::One(ConfigField::MDMCFG2_MOD_FORMAT, 0xFF).apply(0), 0b0111_0000);
    assert_eq!(ConfigField::MDMCFG2_MOD_FORMAT.put(0, 0xFF), 0b0111_0000);
    assert_eq!(ConfigField::MDMCFG2_MOD_FORMAT.put(0xFF, 0), 0b1000_1111);

    let two = Edit::Two(ConfigField::MDMCFG4_CHANBW_M, 1, ConfigField::MDMCFG4_CHANBW_E, 2);
    let swapped = Edit::Two(ConfigField::MDMCFG4_CHANBW_E, 2, ConfigField::MDMCFG4_CHANBW_M, 1);
    assert_eq!(two.register(), Config::MDMCFG4);
    for raw in 0..=255u8 {
        assert_eq!(two.apply(raw), 0b1001_0000 | (raw & 0x0F));
        assert_eq!(two.apply(raw), swapped.apply(raw));
    }
}

#[test]
fn status_fields() {
    assert_eq!(Status::VERSION.reset_value(), 0x14);
    assert_eq!(StatusField::MARCSTATE_MARC_STATE.register(), Status::MARCSTATE);
    assert_eq!(StatusField::MARCSTATE_MARC_STATE.read(0xED), 0x0D);
    assert_eq!(StatusField::RXBYTES_RXFIFO_OVERFLOW.read(0x83), 1);
    assert_eq!(StatusField::RXBYTES_NUM_RXBYTES.read(0x83), 3);
    assert_eq!(StatusField::TXBYTES_TXFIFO_UNDERFLOW.read(0x7F), 0);
    assert_eq!(StatusField::TXBYTES_NUM_TXBYTES.read(0x7F), 0x7F);
    assert_eq!(StatusField::LQI_CRC_OK.read(0b1010_1010), 1);
    assert_eq!(StatusField::LQI_LQI.read(0b1010_1010), 0b010_1010);
    assert_eq!(StatusField::PARTNUM_PARTNUM.read(0xFF), 0xFF);
}

#[test]
fn address_of_config_register() {
    let reg = Register::Config(Config::FREQ2);
    assert_eq!(Config::FREQ2.base(), 0x0D);
    assert_eq!(reg.raddr(Mode::Single), 0x80 | 0x0D);
    assert_eq!(reg.raddr(Mode::Burst), 0x80 | 0x40 | 0x0D);
    assert_eq!(reg.waddr(Mode::Single), 0x0D);
    assert_eq!(reg.waddr(Mode::Burst), 0x40 | 0x0D);
    assert_eq!(Config::IOCFG2.addr(Access::Write, Mode::Single), 0x00);
    assert_eq!(Config::TEST0.addr(Access::Read, Mode::Burst), 0xEE);
}

#[test]
fn address_of_multi_byte_register() {
    assert_eq!(Register::MultiByte(MultiByte::FIFO).raddr(Mode::Burst), 0xFF);
    assert_eq!(Register::MultiByte(MultiByte::FIFO).waddr(Mode::Burst), 0x7F);
    assert_eq!(Register::MultiByte(MultiByte::FIFO).raddr(Mode::Single), 0xBF);
    assert_eq!(Register::MultiByte(MultiByte::FIFO).waddr(Mode::Single), 0x3F);
    assert_eq!(Register::MultiByte(MultiByte::PATABLE).raddr(Mode::Burst), 0xFE);
    assert_eq!(Register::MultiByte(MultiByte::PATABLE).waddr(Mode::Single), 0x3E);
}

#[test]
fn status_is_always_read_as_burst() {
    let all = [
        (Status::PARTNUM, 0xF0u8),
        (Status::VERSION, 0xF1),
        (Status::FREQEST, 0xF2),
        (Status::LQI, 0xF3),
        (Status::RSSI, 0xF4),
        (Status::MARCSTATE, 0xF5),
        (Status::WORTIME1, 0xF6),
        (Status::WORTIME0, 0xF7),
        (Status::PKTSTATUS, 0xF8),
        (Status::VCO_VC_DAC, 0xF9),
        (Status::TXBYTES, 0xFA),
        (Status::RXBYTES, 0xFB),
        (Status::RCCTRL1_STATUS, 0xFC),
        (Status::RCCTRL0_STATUS, 0xFD),
    ];
    for (status, header) in all {
        assert_eq!(Register::Status(status).raddr(Mode::Single), header);
        assert_eq!(Register::Status(status).raddr(Mode::Burst), header);
        assert_eq!(Register::from(status), Register::Status(status));
    }
    // The own address function of the status registers goes by the mode given.
    assert_eq!(Status::PARTNUM.addr(Access::Read, Mode::Single), 0xB0);
    // Asked for a write, the encoder still gives the burst address.
    assert_eq!(Register::Status(Status::PARTNUM).address(Access::Write, Mode::Single), 0x70);
}

#[test]
fn command_is_always_single() {
    let all = [
        (Command::SRES, 0x30u8),
        (Command::SFSTXON, 0x31),
        (Command::SXOFF, 0x32),
        (Command::SCAL, 0x33),
        (Command::SRX, 0x34),
        (Command::STX, 0x35),
        (Command::SIDLE, 0x36),
        (Command::SWOR, 0x38),
        (Command::SPWD, 0x39),
        (Command::SFRX, 0x3A),
        (Command::SFTX, 0x3B),
        (Command::SWORRST, 0x3C),
        (Command::SNOP, 0x3D),
    ];
    for (command, opcode) in all {
        assert_eq!(Register::Command(command).waddr(Mode::Single), opcode);
        assert_eq!(Register::Command(command).waddr(Mode::Burst), opcode);
        assert_eq!(Register::Command(command).raddr(Mode::Burst), 0x80 | opcode);
        assert_eq!(strobe_frame(command), vec![opcode]);
        assert_eq!(Register::from(command), Register::Command(command));
    }
}

#[test]
fn frames() {
    assert_eq!(read_frame(Register::Status(Status::MARCSTATE)), vec![0xF5, 0x00]);
    assert_eq!(read_frame(Register::Config(Config::PKTLEN)), vec![0x86, 0x00]);
    assert_eq!(write_frame(Register::Config(Config::PKTLEN), 0x3D), vec![0x06, 0x3D]);
    assert_eq!(fifo_frame(Access::Write, &[2, 9], &[0xAA, 0xBB]), vec![0x7F, 2, 9, 0xAA, 0xBB]);
    assert_eq!(fifo_frame(Access::Read, &[], &[1, 2, 3]), vec![0xFF, 1, 2, 3]);
    assert_eq!(fifo_read_frame(3), vec![0xFF, 0, 0, 0]);
    assert_eq!(fifo_read_frame(0), vec![0xFF]);
    assert_eq!(FIFO_SIZE_MAX, 64);
}

#[test]
fn status_byte_decode() {
    let status = StatusByte::from(0b0001_0011);
    assert!(status.chip_rdy);
    assert_eq!(status.state, State::RX);
    assert_eq!(status.fifo_bytes_available, 3);

    let status = StatusByte::from(0b1111_1111);
    assert!(!status.chip_rdy);
    assert_eq!(status.state, State::TXFIFO_UNDERFLOW);
    assert_eq!(status.fifo_bytes_available, 15);

    let status = StatusByte::from(StatusByte::RESET_VALUE);
    assert!(!status.chip_rdy);
    assert_eq!(status.state, State::IDLE);
    assert_eq!(status.fifo_bytes_available, 0);

    let states = [
        State::IDLE,
        State::RX,
        State::TX,
        State::FSTXON,
        State::CALIBRATE,
        State::SETTLING,
        State::RXFIFO_OVERFLOW,
        State::TXFIFO_UNDERFLOW,
    ];
    for (code, state) in states.into_iter().enumerate() {
        assert_eq!(State::from(code as u8), state);
        assert_eq!(state.value(), code as u8);
        assert_eq!(StatusByte::from((code as u8) << 4).state, state);
    }
    assert_eq!(State::default(), State::IDLE);
    assert_eq!(StatusByte::default().state, State::IDLE);
}

#[test]
fn machine_state_decode() {
    assert_eq!(MachineState::try_from(0x0D), Ok(MachineState::RX));
    assert_eq!(MachineState::try_from(0x17), Err(MachineStateError::InvalidState(0x17)));
    assert_eq!(MachineState::try_from(0x00), Ok(MachineState::SLEEP));
    assert_eq!(MachineState::try_from(0x01), Ok(MachineState::IDLE));
    assert_eq!(MachineState::try_from(0x05), Ok(MachineState::MANCAL));
    assert_eq!(MachineState::try_from(0x13), Ok(MachineState::TX));
    assert_eq!(MachineState::try_from(0x16), Ok(MachineState::TXFIFO_UNDERFLOW));
    assert_eq!(MachineState::try_from(0xFF), Err(MachineStateError::InvalidState(0xFF)));
    for code in 0..=255u8 {
        match MachineState::try_from(code) {
            Ok(state) => {
                assert!(code <= 0x16);
                assert_eq!(state.value(), code);
                assert_eq!(u8::from(state), code);
            }
            Err(MachineStateError::InvalidState(value)) => {
                assert!(code > 0x16);
                assert_eq!(value, code);
            }
        }
    }
}

#[test]
fn packet_status_decode() {
    let none = PacketStatus::from(0x00);
    assert!(!none.crc_ok && !none.carrier_sense && !none.preamble_quality_reached);
    assert!(!none.cca_channel_clear && !none.sof_delimiter && !none.gdo2 && !none.gdo0);

    // Bit 1 is no flag.
    assert_eq!(PacketStatus::from(0x02), none);

    let all = PacketStatus::from(0xFF);
    assert!(all.crc_ok && all.carrier_sense && all.preamble_quality_reached);
    assert!(all.cca_channel_clear && all.sof_delimiter && all.gdo2 && all.gdo0);

    assert!(PacketStatus::from(0x80).crc_ok);
    assert!(PacketStatus::from(0x40).carrier_sense);
    assert!(PacketStatus::from(0x20).preamble_quality_reached);
    assert!(PacketStatus::from(0x10).cca_channel_clear);
    assert!(PacketStatus::from(0x08).sof_delimiter);
    assert!(PacketStatus::from(0x04).gdo2);
    assert!(PacketStatus::from(0x01).gdo0);
    assert_eq!(PacketStatus::from(0x80), PacketStatus { crc_ok: true, ..none });

    assert!(BoolU8(1).into_bool());
    assert!(!BoolU8(0).into_bool());
}

#[test]
fn setting_codes() {
    assert_eq!(u8::from(AddressCheck::SELF_HIGH_LOW_BROADCAST), 0x03);
    assert_eq!(AddressCheck::DISABLED.value(), 0x00);
    assert_eq!(u8::from(AutoCalibration::FromIdle), 0x01);
    assert_eq!(u8::from(CcaMode::CciRssiBelowThresholdUnlessCurrentlyReceivingPacket), 3);
    assert_eq!(u8::from(FifoThreshold::TX_1_RX_64), 0x0F);
    assert_eq!(u8::from(GdoCfg::CHIP_RDYn), 0x29);
    assert_eq!(u8::from(GdoCfg::CLK_XOSC_192), 0x3F);
    assert_eq!(u8::from(GdoCfg::HIGH_IMPEDANCE), 0x2E);
    assert_eq!(u8::from(LengthConfig::INFINITE), 0x02);
    assert_eq!(u8::from(ModulationFormat::AmplitudeShiftOnOffKeying), 3);
    assert_eq!(u8::from(ModulationFormat::QuaternaryFrequencyShiftKeying), 4);
    assert_eq!(u8::from(ModulationFormat::MinimumShiftKeying), 7);
    assert_eq!(u8::from(NumPreamble::TwentyFour), 7);
    assert_eq!(u8::from(PoTimeout::EXPIRE_COUNT_256), 0x03);
    assert_eq!(u8::from(SyncCheck::CHECK_30_32), 0x03);
    assert_eq!(u8::from(SyncCheck::CHECK_16_16), 0x02);
    assert_eq!(u8::from(SyncCheck::CHECK_30_32_CS), 0x07);
    assert_eq!(u8::from(TargetAmplitude::Db42), 7);
    assert_eq!(u8::from(ChannelFilterSamples::Samples64), 3);
    assert_eq!(u8::from(DecisionBoundary::Db12), 2);
    assert_eq!(u8::from(FilterLength::FrequencyModulation(ChannelFilterSamples::Samples16)), 1);
    assert_eq!(u8::from(FilterLength::AmplitudeModulation(DecisionBoundary::Db16)), 3);
}
