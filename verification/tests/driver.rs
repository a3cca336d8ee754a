use cc1101::lowlevel::access::Access;
use cc1101::lowlevel::registers::{
    Command, Config, ConfigField, Edit, Register, State, Status,
};
use cc1101::lowlevel::types::{GdoCfg, MachineState, PacketStatus};
use cc1101::machine::{Outcome, Probe, Wait};
use cc1101::{
    AddressFilter, Cc1101, Error, Modulation, PacketLength, Phase, RadioMode, Reply, Step,
    SyncMode, DEFAULT_POLL_LIMIT,
};

/// A transport that answers from a script and records what it was sent.
fn drive(cc: &mut Cc1101, first: Step, script: &[&[u8]]) -> (Vec<Vec<u8>>, Step) {
    let mut frames = Vec::new();
    let mut responses = script.iter();
    let mut step = first;
    loop {
        match step {
            Step::Exchange(frame) => {
                let response = responses.next().expect("the script is too short");
                assert_eq!(response.len(), frame.len(), "response to {:?}", frame);
                frames.push(frame);
                step = cc.advance(response);
            }
            end => {
                assert!(responses.next().is_none(), "the script is too long");
                assert_eq!(cc.phase(), Phase::Ready);
                return (frames, end);
            }
        }
    }
}

fn count(frames: &[Vec<u8>], frame: &[u8]) -> usize {
    frames.iter().filter(|f| f.as_slice() == frame).count()
}

#[test]
fn new_driver_knows_nothing() {
    let cc = Cc1101::new();
    assert_eq!(cc.status(), None);
    assert!(!cc.length_field());
    assert!(!cc.address_field());
    assert!(!cc.status_fields());
    assert_eq!(cc.poll_limit(), DEFAULT_POLL_LIMIT);
    assert_eq!(cc.phase(), Phase::Ready);
    assert!(cc.data().is_empty());
    assert!(cc.fields().is_empty());
    assert_eq!(cc.length(), None);
    assert_eq!(cc.address(), None);
    assert_eq!(cc.rssi(), None);
    assert_eq!(cc.lqi(), None);
    assert_eq!(Cc1101::with_poll_limit(7).poll_limit(), 7);
}

#[test]
fn read_register_takes_the_second_byte() {
    let mut cc = Cc1101::new();
    let first = cc.read_register(Register::Config(Config::PKTLEN));
    assert_eq!(cc.phase(), Phase::Read(Probe::Raw));
    let (frames, end) = drive(&mut cc, first, &[&[0x1F, 0x3D]]);
    assert_eq!(frames, vec![vec![0x86, 0x00]]);
    assert_eq!(end, Step::Finished(Reply::Byte(0x3D)));
    let status = cc.status().expect("a register read gives a status");
    assert!(status.chip_rdy);
    assert_eq!(status.state, State::RX);
    assert_eq!(status.fifo_bytes_available, 15);
}

#[test]
fn read_of_a_status_register_is_a_burst_read() {
    let mut cc = Cc1101::new();
    let first = cc.read_register(Register::Status(Status::VERSION));
    let (frames, end) = drive(&mut cc, first, &[&[0x00, 0x14]]);
    assert_eq!(frames, vec![vec![0xF1, 0x00]]);
    assert_eq!(end, Step::Finished(Reply::Byte(0x14)));
}

#[test]
fn write_register_sends_address_and_value() {
    let mut cc = Cc1101::new();
    let first = cc.write_register(Register::Config(Config::ADDR), 0x42);
    let (frames, end) = drive(&mut cc, first, &[&[0x80, 0x80]]);
    assert_eq!(frames, vec![vec![0x09, 0x42]]);
    assert_eq!(end, Step::Finished(Reply::Done));
    assert!(!cc.status().expect("a register write gives a status").chip_rdy);
}

#[test]
fn modify_register_reads_then_writes_one_field() {
    let mut cc = Cc1101::new();
    let first = cc.modify_register(ConfigField::IOCFG0_GDO0_CFG, GdoCfg::SYNC_WORD.value());
    assert_eq!(
        cc.phase(),
        Phase::Modify(Edit::One(ConfigField::IOCFG0_GDO0_CFG, 0x06))
    );
    let (frames, end) = drive(&mut cc, first, &[&[0x00, 0b1111_1111], &[0x00, 0x00]]);
    // The two bits above the field stay as the chip held them.
    assert_eq!(frames, vec![vec![0x82, 0x00], vec![0x02, 0b1100_0110]]);
    assert_eq!(end, Step::Finished(Reply::Done));
}

#[test]
fn strobe_status_is_kept_only_after_snop() {
    let mut cc = Cc1101::new();
    let first = cc.write_cmd_strobe(Command::SNOP);
    let (frames, end) = drive(&mut cc, first, &[&[0x2A]]);
    assert_eq!(frames, vec![vec![0x3D]]);
    assert_eq!(end, Step::Finished(Reply::Done));
    let status = cc.status().expect("the no-operation strobe gives a status");
    assert_eq!(status.state, State::TX);
    assert_eq!(status.fifo_bytes_available, 10);

    let first = cc.write_cmd_strobe(Command::SFTX);
    let (frames, end) = drive(&mut cc, first, &[&[0x2A]]);
    assert_eq!(frames, vec![vec![0x3B]]);
    assert_eq!(end, Step::Finished(Reply::Done));
    assert_eq!(cc.status(), None);

    let first = cc.write_strobe(Command::SCAL);
    let (frames, _) = drive(&mut cc, first, &[&[0x00]]);
    assert_eq!(frames, vec![vec![0x33]]);
    assert_eq!(cc.status(), None);
}

#[test]
fn access_fifo_is_one_burst() {
    let mut cc = Cc1101::new();
    let first = cc.access_fifo(Access::Write, &[3, 0x11], &[0xA, 0xB, 0xC]);
    let (frames, end) = drive(&mut cc, first, &[&[0x0F, 1, 2, 3, 4, 5]]);
    assert_eq!(frames, vec![vec![0x7F, 3, 0x11, 0xA, 0xB, 0xC]]);
    assert_eq!(end, Step::Finished(Reply::Done));
    assert_eq!(cc.fields(), &vec![1, 2]);
    assert_eq!(cc.data(), &vec![3, 4, 5]);
    assert_eq!(cc.status().map(|s| s.fifo_bytes_available), Some(15));

    let first = cc.access_fifo(Access::Read, &[], &[0, 0]);
    let (frames, _) = drive(&mut cc, first, &[&[0x00, 7, 8]]);
    assert_eq!(frames, vec![vec![0xFF, 0, 0]]);
    assert!(cc.fields().is_empty());
    assert_eq!(cc.data(), &vec![7, 8]);
    assert_eq!(cc.rssi(), None);
}

#[test]
fn read_fifo_takes_length_and_address_first() {
    let mut cc = Cc1101::new();
    let first = cc.read_fifo(3);
    let (frames, end) = drive(&mut cc, first, &[&[0x03, 3, 0x2B, 0xA, 0xB, 0xC]]);
    assert_eq!(frames, vec![vec![0xFF, 0, 0, 0, 0, 0]]);
    assert_eq!(end, Step::Finished(Reply::Done));
    assert_eq!(cc.fields(), &vec![3, 0x2B]);
    assert_eq!(cc.data(), &vec![0xA, 0xB, 0xC]);
    // The driver has noted no optional fields, so it names none.
    assert_eq!(cc.length(), None);
    assert_eq!(cc.address(), None);
}

#[test]
fn a_fifo_operation_forgets_the_packet_before() {
    let mut cc = Cc1101::new();
    let first = cc.read_data(false, false, false, 2);
    let _ = drive(&mut cc, first, &[&[0, 5, 6]]);
    assert_eq!(cc.data(), &vec![5, 6]);
    let _ = cc.receive(2);
    assert!(cc.data().is_empty());
    assert_eq!(cc.advance(&[0, 0x80]), Step::Exchange(vec![0x3A]));
    assert_eq!(cc.advance(&[0]), Step::Failed(Error::RxOverflow));
    assert!(cc.data().is_empty());
    // A fault in what the caller supplied leaves what was there.
    let first = cc.read_data(false, false, false, 1);
    let _ = drive(&mut cc, first, &[&[0, 9]]);
    assert_eq!(cc.receive(65), Step::Failed(Error::ArrayTooLong(65)));
    assert_eq!(cc.data(), &vec![9]);
}

#[test]
fn response_of_the_wrong_length_is_a_transport_fault() {
    let mut cc = Cc1101::new();
    let _ = cc.read_register(Register::Status(Status::RSSI));
    assert_eq!(cc.advance(&[0x00]), Step::Failed(Error::Transport));
    assert_eq!(cc.phase(), Phase::Ready);
    assert_eq!(cc.status(), None);

    // Nothing is in flight any more.
    assert_eq!(cc.advance(&[0x00, 0x00]), Step::Failed(Error::Transport));
    assert_eq!(cc.advance(&[]), Step::Failed(Error::Transport));

    let _ = cc.access_fifo(Access::Read, &[0], &[0, 0]);
    assert_eq!(cc.advance(&[0, 0, 0]), Step::Failed(Error::Transport));
    let _ = cc.access_fifo(Access::Read, &[0], &[0, 0]);
    assert_eq!(cc.advance(&[0, 0, 0, 0, 0]), Step::Failed(Error::Transport));
    let _ = cc.access_fifo(Access::Read, &[0], &[0, 0]);
    assert_eq!(cc.advance(&[0, 0, 0, 0]), Step::Finished(Reply::Done));
}

#[test]
fn abandon_ends_the_operation() {
    let mut cc = Cc1101::new();
    let _ = cc.set_packet_length(PacketLength::Variable(20));
    assert_eq!(cc.abandon(), Step::Failed(Error::Transport));
    assert_eq!(cc.phase(), Phase::Ready);
    // The write that was queued behind the failed exchange is gone.
    let first = cc.write_cmd_strobe(Command::SNOP);
    let (frames, end) = drive(&mut cc, first, &[&[0x00]]);
    assert_eq!(frames.len(), 1);
    assert_eq!(end, Step::Finished(Reply::Done));
}

#[test]
fn set_frequency_writes_three_registers() {
    let mut cc = Cc1101::new();
    let first = cc.set_frequency(433_000_000);
    let (frames, end) = drive(&mut cc, first, &[&[0, 0], &[0, 0], &[0, 0]]);
    assert_eq!(frames, vec![vec![0x0F, 0x62], vec![0x0E, 0xA7], vec![0x0D, 0x10]]);
    assert_eq!(end, Step::Finished(Reply::Done));

    let first = cc.set_frequency(868_000_000);
    let (frames, _) = drive(&mut cc, first, &[&[0, 0], &[0, 0], &[0, 0]]);
    assert_eq!(frames, vec![vec![0x0F, 0x76], vec![0x0E, 0x62], vec![0x0D, 0x21]]);
}

#[test]
fn set_deviation_writes_mantissa_and_exponent() {
    let mut cc = Cc1101::new();
    // 20.6 kHz: mantissa 5, exponent 3.
    let first = cc.set_deviation(20_629);
    let (frames, end) = drive(&mut cc, first, &[&[0, 0]]);
    assert_eq!(frames, vec![vec![0x15, 0b0011_0101]]);
    assert_eq!(end, Step::Finished(Reply::Done));
}

#[test]
fn set_data_rate_modifies_exponent_and_writes_mantissa() {
    let mut cc = Cc1101::new();
    // 38.4 kBaud: mantissa 131, exponent 10.
    let first = cc.set_data_rate(38_383);
    let (frames, end) = drive(&mut cc, first, &[&[0, 0b1000_1100], &[0, 0], &[0, 0]]);
    assert_eq!(
        frames,
        vec![vec![0x90, 0x00], vec![0x10, 0b1000_1010], vec![0x11, 131]]
    );
    assert_eq!(end, Step::Finished(Reply::Done));
}

#[test]
fn set_chanbw_changes_two_fields_in_one_write() {
    let mut cc = Cc1101::new();
    // 58 kHz: mantissa 3, exponent 3. The data rate exponent stays.
    let first = cc.set_chanbw(58_035);
    let (frames, end) = drive(&mut cc, first, &[&[0, 0b1000_1100], &[0, 0]]);
    assert_eq!(frames, vec![vec![0x90, 0x00], vec![0x10, 0b1111_1100]]);
    assert_eq!(end, Step::Finished(Reply::Done));

    // 812 kHz: mantissa 0, exponent 0.
    let first = cc.set_chanbw(812_500);
    let (frames, _) = drive(&mut cc, first, &[&[0, 0b1111_1010], &[0, 0]]);
    assert_eq!(frames, vec![vec![0x90, 0x00], vec![0x10, 0b0000_1010]]);

    // 135 kHz: mantissa 2, exponent 2.
    let first = cc.set_chanbw(135_416);
    let (frames, _) = drive(&mut cc, first, &[&[0, 0b0000_0000], &[0, 0]]);
    assert_eq!(frames, vec![vec![0x90, 0x00], vec![0x10, 0b1010_0000]]);
}

#[test]
fn set_freq_if_sets_its_field() {
    let mut cc = Cc1101::new();
    let first = cc.set_freq_if(381_000);
    let (frames, end) = drive(&mut cc, first, &[&[0, 0b1110_0000], &[0, 0]]);
    assert_eq!(frames, vec![vec![0x8B, 0x00], vec![0x0B, 0b1110_1111]]);
    assert_eq!(end, Step::Finished(Reply::Done));
    let first = cc.set_freq_if(787_000);
    let (frames, _) = drive(&mut cc, first, &[&[0, 0], &[0, 0]]);
    assert_eq!(frames[1], vec![0x0B, 31]);
}

#[test]
fn get_hw_info_reads_part_number_then_version() {
    let mut cc = Cc1101::new();
    let first = cc.get_hw_info();
    let (frames, end) = drive(&mut cc, first, &[&[0, 0x00], &[0, 0x14]]);
    assert_eq!(frames, vec![vec![0xF0, 0], vec![0xF1, 0]]);
    assert_eq!(end, Step::Finished(Reply::HwInfo { partnum: 0x00, version: 0x14 }));
}

#[test]
fn get_rssi_dbm_converts() {
    let mut cc = Cc1101::new();
    let first = cc.get_rssi_dbm();
    let (frames, end) = drive(&mut cc, first, &[&[0, 128]]);
    assert_eq!(frames, vec![vec![0xF4, 0]]);
    assert_eq!(end, Step::Finished(Reply::Dbm(-138)));
    let first = cc.get_rssi_dbm();
    assert_eq!(drive(&mut cc, first, &[&[0, 127]]).1, Step::Finished(Reply::Dbm(-11)));
}

#[test]
fn get_lqi_drops_the_crc_flag() {
    let mut cc = Cc1101::new();
    let first = cc.get_lqi();
    let (frames, end) = drive(&mut cc, first, &[&[0, 0b1010_1010]]);
    assert_eq!(frames, vec![vec![0xF3, 0]]);
    assert_eq!(end, Step::Finished(Reply::Byte(0b010_1010)));
}

#[test]
fn get_machine_state_decodes_five_bits() {
    let mut cc = Cc1101::new();
    let first = cc.get_machine_state();
    let (frames, end) = drive(&mut cc, first, &[&[0, 0x0D]]);
    assert_eq!(frames, vec![vec![0xF5, 0]]);
    assert_eq!(end, Step::Finished(Reply::State(MachineState::RX)));

    // The three bits above the state code are no part of it.
    let first = cc.get_machine_state();
    assert_eq!(
        drive(&mut cc, first, &[&[0, 0xE1]]).1,
        Step::Finished(Reply::State(MachineState::IDLE))
    );

    let first = cc.get_machine_state();
    assert_eq!(drive(&mut cc, first, &[&[0, 0x17]]).1, Step::Failed(Error::InvalidState(0x17)));
    let first = cc.get_machine_state();
    assert_eq!(drive(&mut cc, first, &[&[0, 0xFF]]).1, Step::Failed(Error::InvalidState(0x1F)));
}

#[test]
fn get_packet_status_decodes_flags() {
    let mut cc = Cc1101::new();
    let first = cc.get_packet_status();
    let (frames, end) = drive(&mut cc, first, &[&[0, 0x90]]);
    assert_eq!(frames, vec![vec![0xF8, 0]]);
    assert_eq!(end, Step::Finished(Reply::Status(PacketStatus::from(0x90))));
    match end {
        Step::Finished(Reply::Status(status)) => {
            assert!(status.crc_ok && status.cca_channel_clear && !status.carrier_sense);
        }
        _ => unreachable!(),
    }
}

#[test]
fn fifo_fill_or_fault() {
    let mut cc = Cc1101::new();
    let first = cc.get_rx_bytes();
    let (frames, end) = drive(&mut cc, first, &[&[0, 17]]);
    assert_eq!(frames, vec![vec![0xFB, 0]]);
    assert_eq!(end, Step::Finished(Reply::Byte(17)));
    let first = cc.get_rx_bytes();
    assert_eq!(drive(&mut cc, first, &[&[0, 0x80 | 17]]).1, Step::Failed(Error::RxOverflow));

    let first = cc.get_tx_bytes();
    let (frames, end) = drive(&mut cc, first, &[&[0, 64]]);
    assert_eq!(frames, vec![vec![0xFA, 0]]);
    assert_eq!(end, Step::Finished(Reply::Byte(64)));
    let first = cc.get_tx_bytes();
    assert_eq!(drive(&mut cc, first, &[&[0, 0x80]]).1, Step::Failed(Error::TxUnderflow));
}

#[test]
fn set_sync_mode_sets_check_and_word() {
    let mut cc = Cc1101::new();
    let first = cc.set_sync_mode(SyncMode::MatchFull(0xCAFE));
    let (frames, end) = drive(&mut cc, first, &[&[0, 0b1111_1111], &[0, 0], &[0, 0], &[0, 0]]);
    assert_eq!(
        frames,
        vec![vec![0x92, 0], vec![0x12, 0b1111_1010], vec![0x04, 0xCA], vec![0x05, 0xFE]]
    );
    assert_eq!(end, Step::Finished(Reply::Done));

    let first = cc.set_sync_mode(SyncMode::Disabled);
    let (frames, _) = drive(&mut cc, first, &[&[0, 0b0000_0010], &[0, 0], &[0, 0], &[0, 0]]);
    assert_eq!(
        frames,
        vec![vec![0x92, 0], vec![0x12, 0b0000_0000], vec![0x04, 0xD3], vec![0x05, 0x91]]
    );

    let first = cc.set_sync_mode(SyncMode::MatchPartial(0x0102));
    let (frames, _) = drive(&mut cc, first, &[&[0, 0], &[0, 0], &[0, 0], &[0, 0]]);
    assert_eq!(frames[1], vec![0x12, 0b0000_0001]);
    let first = cc.set_sync_mode(SyncMode::MatchPartialRepeated(0x0102));
    let (frames, _) = drive(&mut cc, first, &[&[0, 0], &[0, 0], &[0, 0], &[0, 0]]);
    assert_eq!(frames[1], vec![0x12, 0b0000_0011]);
    assert_eq!(frames[2], vec![0x04, 0x01]);
    assert_eq!(frames[3], vec![0x05, 0x02]);
}

#[test]
fn set_modulation_sets_the_format_field() {
    let cases = [
        (Modulation::BinaryFrequencyShiftKeying, 0b0000_0010u8),
        (Modulation::GaussianFrequencyShiftKeying, 0b0001_0010),
        (Modulation::OnOffKeying, 0b0011_0010),
        (Modulation::FourFrequencyShiftKeying, 0b0100_0010),
        (Modulation::MinimumShiftKeying, 0b0111_0010),
    ];
    for (format, value) in cases {
        let mut cc = Cc1101::new();
        let first = cc.set_modulation(format);
        let (frames, end) = drive(&mut cc, first, &[&[0, 0b0000_0010], &[0, 0]]);
        assert_eq!(frames, vec![vec![0x92, 0], vec![0x12, value]]);
        assert_eq!(end, Step::Finished(Reply::Done));
    }
}

#[test]
fn set_address_filter_notes_the_address_field() {
    let mut cc = Cc1101::new();
    let first = cc.set_address_filter(AddressFilter::DeviceLowBroadcast(0x2B));
    assert!(cc.address_field());
    let (frames, end) = drive(&mut cc, first, &[&[0, 0b0000_0100], &[0, 0], &[0, 0]]);
    assert_eq!(frames, vec![vec![0x87, 0], vec![0x07, 0b0000_0110], vec![0x09, 0x2B]]);
    assert_eq!(end, Step::Finished(Reply::Done));
    assert!(cc.address_field());
    assert!(!cc.length_field());

    let first = cc.set_address_filter(AddressFilter::Disabled);
    let (frames, _) = drive(&mut cc, first, &[&[0, 0b0000_0110], &[0, 0], &[0, 0]]);
    assert_eq!(frames, vec![vec![0x87, 0], vec![0x07, 0b0000_0100], vec![0x09, 0x00]]);
    assert!(!cc.address_field());

    let first = cc.set_address_filter(AddressFilter::Device(1));
    let (frames, _) = drive(&mut cc, first, &[&[0, 0], &[0, 0], &[0, 0]]);
    assert_eq!(frames[1], vec![0x07, 0b01]);
    let first = cc.set_address_filter(AddressFilter::DeviceHighLowBroadcast(1));
    let (frames, _) = drive(&mut cc, first, &[&[0, 0], &[0, 0], &[0, 0]]);
    assert_eq!(frames[1], vec![0x07, 0b11]);
}

#[test]
fn set_packet_length_notes_the_length_field() {
    let mut cc = Cc1101::new();
    let first = cc.set_packet_length(PacketLength::Variable(61));
    let (frames, end) = drive(&mut cc, first, &[&[0, 0b0100_0100], &[0, 0], &[0, 0]]);
    assert_eq!(frames, vec![vec![0x88, 0], vec![0x08, 0b0100_0101], vec![0x06, 61]]);
    assert_eq!(end, Step::Finished(Reply::Done));
    assert!(cc.length_field());
    assert!(!cc.address_field());

    let first = cc.set_packet_length(PacketLength::Fixed(12));
    let (frames, _) = drive(&mut cc, first, &[&[0, 0b0100_0101], &[0, 0], &[0, 0]]);
    assert_eq!(frames, vec![vec![0x88, 0], vec![0x08, 0b0100_0100], vec![0x06, 12]]);
    assert!(!cc.length_field());

    let first = cc.set_packet_length(PacketLength::Infinite);
    let (frames, _) = drive(&mut cc, first, &[&[0, 0b0100_0101], &[0, 0], &[0, 0]]);
    assert_eq!(frames, vec![vec![0x88, 0], vec![0x08, 0b0100_0110], vec![0x06, 0xFF]]);
    assert!(!cc.length_field());
}

#[test]
fn set_append_status_notes_the_status_fields() {
    let mut cc = Cc1101::new();
    let first = cc.set_append_status(true);
    let (frames, end) = drive(&mut cc, first, &[&[0, 0b0000_0011], &[0, 0]]);
    assert_eq!(frames, vec![vec![0x87, 0], vec![0x07, 0b0000_0111]]);
    assert_eq!(end, Step::Finished(Reply::Done));
    assert!(cc.status_fields());
    let first = cc.set_append_status(false);
    let (frames, _) = drive(&mut cc, first, &[&[0, 0b0000_0111], &[0, 0]]);
    assert_eq!(frames[1], vec![0x07, 0b0000_0011]);
    assert!(!cc.status_fields());
}

#[test]
fn set_defaults_resets_then_writes_six_registers() {
    let mut cc = Cc1101::new();
    let first = cc.set_defaults();
    let script: [&[u8]; 7] = [&[0], &[0, 0], &[0, 0], &[0, 0], &[0, 0], &[0, 0], &[0x10, 0]];
    let (frames, end) = drive(&mut cc, first, &script);
    assert_eq!(
        frames,
        vec![
            vec![0x30],
            vec![0x08, 0x05],
            vec![0x0B, 0x08],
            vec![0x10, 0xCC],
            vec![0x12, 0x82],
            vec![0x18, 0x14],
            vec![0x1B, 0x23],
        ]
    );
    assert_eq!(end, Step::Finished(Reply::Done));
    assert_eq!(cc.status().map(|s| s.state), Some(State::RX));
}

const IDLE: &[u8] = &[0x00, 0x01];

#[test]
fn transmit_goes_through_idle() {
    let mut cc = Cc1101::new();
    let first = cc.set_radio_mode(RadioMode::Transmit);
    assert_eq!(cc.phase(), Phase::Leave(RadioMode::Transmit));
    let (frames, end) = drive(&mut cc, first, &[&[0], IDLE, &[0], &[0, 0x13]]);
    assert_eq!(frames, vec![vec![0x36], vec![0xF5, 0], vec![0x35], vec![0xF5, 0]]);
    assert_eq!(end, Step::Finished(Reply::Done));
    // No strobe that has to do with receiving was sent.
    assert_eq!(count(&frames, &[0x34]), 0);
    assert_eq!(count(&frames, &[0x3A]), 0);
}

#[test]
fn transmit_polls_until_the_state_is_reached() {
    let mut cc = Cc1101::new();
    let first = cc.set_radio_mode(RadioMode::Transmit);
    // TX first, then settling states on the way to idle; calibration on the way to TX.
    let script: [&[u8]; 9] =
        [&[0], &[0, 0x13], &[0, 0x15], IDLE, &[0], &[0, 0x08], &[0, 0x0A], &[0, 0x01], &[0, 0x13]];
    let (frames, end) = drive(&mut cc, first, &script);
    assert_eq!(frames[0], vec![0x36]);
    assert_eq!(frames[4], vec![0x35]);
    assert_eq!(count(&frames, &[0xF5, 0]), 7);
    assert_eq!(frames.len(), 9);
    assert_eq!(end, Step::Finished(Reply::Done));
}

#[test]
fn idle_needs_no_second_strobe() {
    let mut cc = Cc1101::new();
    let first = cc.set_radio_mode(RadioMode::Idle);
    let (frames, end) = drive(&mut cc, first, &[&[0], &[0, 0x0D], IDLE]);
    assert_eq!(frames, vec![vec![0x36], vec![0xF5, 0], vec![0xF5, 0]]);
    assert_eq!(end, Step::Finished(Reply::Done));
}

#[test]
fn every_mode_has_its_strobe_and_state() {
    let cases = [
        (RadioMode::Sleep, 0x39u8, 0x00u8),
        (RadioMode::Calibrate, 0x33, 0x05),
        (RadioMode::Transmit, 0x35, 0x13),
        (RadioMode::Receive, 0x34, 0x0D),
    ];
    for (mode, strobe, state) in cases {
        let mut cc = Cc1101::new();
        let first = cc.set_radio_mode(mode);
        let (frames, end) = drive(&mut cc, first, &[&[0], IDLE, &[0], &[0, state]]);
        assert_eq!(frames, vec![vec![0x36], vec![0xF5, 0], vec![strobe], vec![0xF5, 0]]);
        assert_eq!(end, Step::Finished(Reply::Done));
        assert_eq!(mode.command().base(), strobe);
        assert_eq!(mode.state().value(), state);
    }
    assert_eq!(RadioMode::Idle.command(), Command::SIDLE);
    assert_eq!(RadioMode::Idle.state(), MachineState::IDLE);
}

#[test]
fn a_wait_ends_at_the_poll_limit() {
    let mut cc = Cc1101::with_poll_limit(3);
    let first = cc.set_radio_mode(RadioMode::Receive);
    let (frames, end) = drive(&mut cc, first, &[&[0], &[0, 0x0D], &[0, 0x0D], &[0, 0x0D]]);
    assert_eq!(frames.len(), 4);
    assert_eq!(end, Step::Failed(Error::Timeout));

    // Each of the two waits has the whole limit.
    let first = cc.set_radio_mode(RadioMode::Receive);
    let script: [&[u8]; 8] =
        [&[0], &[0, 0x0D], &[0, 0x0D], IDLE, &[0], &[0, 0x08], &[0, 0x08], &[0, 0x08]];
    let (frames, end) = drive(&mut cc, first, &script);
    assert_eq!(frames.len(), 8);
    assert_eq!(end, Step::Failed(Error::Timeout));

    let first = cc.set_radio_mode(RadioMode::Receive);
    let script: [&[u8]; 8] =
        [&[0], &[0, 0x0D], &[0, 0x0D], IDLE, &[0], &[0, 0x08], &[0, 0x08], &[0, 0x0D]];
    assert_eq!(drive(&mut cc, first, &script).1, Step::Finished(Reply::Done));

    // With no poll allowed, the wait fails before its first poll.
    cc.set_poll_limit(0);
    let first = cc.set_radio_mode(RadioMode::Idle);
    let (frames, end) = drive(&mut cc, first, &[&[0]]);
    assert_eq!(frames, vec![vec![0x36]]);
    assert_eq!(end, Step::Failed(Error::Timeout));
}

#[test]
fn an_invalid_state_ends_a_wait() {
    let mut cc = Cc1101::new();
    let first = cc.set_radio_mode(RadioMode::Transmit);
    let (frames, end) = drive(&mut cc, first, &[&[0], &[0, 0x1E]]);
    assert_eq!(frames.len(), 2);
    assert_eq!(end, Step::Failed(Error::InvalidState(0x1E)));
}

const CRC_OK: &[u8] = &[0x00, 0b1010_1010];
const CRC_BAD: &[u8] = &[0x00, 0b0010_1010];

#[test]
fn receive_takes_a_settled_packet() {
    let mut cc = Cc1101::new();
    let first = cc.receive(3);
    let script: [&[u8]; 6] = [&[0, 3], &[0, 3], &[0, 0xDE, 0xAD, 0x42], CRC_OK, IDLE, &[0]];
    let (frames, end) = drive(&mut cc, first, &script);
    assert_eq!(
        frames,
        vec![
            vec![0xFB, 0],
            vec![0xFB, 0],
            vec![0xFF, 0, 0, 0],
            vec![0xF3, 0],
            vec![0xF5, 0],
            vec![0x3A],
        ]
    );
    assert_eq!(end, Step::Finished(Reply::Received(3)));
    assert_eq!(cc.data(), &vec![0xDE, 0xAD, 0x42]);
    assert_eq!(count(&frames, &[0x3A]), 1);
    assert_eq!(cc.length(), None);
    assert_eq!(cc.address(), None);
    assert_eq!(cc.rssi(), None);
}

#[test]
fn receive_reports_a_crc_mismatch_after_the_flush() {
    let mut cc = Cc1101::new();
    let first = cc.receive(3);
    let script: [&[u8]; 6] = [&[0, 3], &[0, 3], &[0, 0xDE, 0xAD, 0x42], CRC_BAD, IDLE, &[0]];
    let (frames, end) = drive(&mut cc, first, &script);
    assert_eq!(end, Step::Failed(Error::CrcMismatch));
    assert_eq!(frames.last(), Some(&vec![0x3A]));
    assert_eq!(count(&frames, &[0x3A]), 1);
    // The bytes are there, for what they are worth.
    assert_eq!(cc.data(), &vec![0xDE, 0xAD, 0x42]);
}

#[test]
fn receive_waits_for_a_stable_count() {
    let mut cc = Cc1101::new();
    let first = cc.receive(2);
    // Nothing yet, then a byte lands between two polls.
    let script: [&[u8]; 10] = [
        &[0, 0],
        &[0, 0],
        &[0, 1],
        &[0, 2],
        &[0, 2],
        &[0, 7, 8],
        CRC_OK,
        &[0, 0x0E],
        IDLE,
        &[0],
    ];
    let (frames, end) = drive(&mut cc, first, &script);
    assert_eq!(count(&frames, &[0xFB, 0]), 5);
    assert_eq!(frames[5], vec![0xFF, 0, 0]);
    assert_eq!(count(&frames, &[0xF5, 0]), 2);
    assert_eq!(end, Step::Finished(Reply::Received(2)));
    assert_eq!(cc.data(), &vec![7, 8]);
}

#[test]
fn receive_flushes_after_an_overflow() {
    let mut cc = Cc1101::new();
    let first = cc.receive(3);
    let (frames, end) = drive(&mut cc, first, &[&[0, 3], &[0, 0x80 | 64], &[0]]);
    assert_eq!(frames, vec![vec![0xFB, 0], vec![0xFB, 0], vec![0x3A]]);
    assert_eq!(end, Step::Failed(Error::RxOverflow));

    // An overflow at the first poll, too.
    let first = cc.receive(3);
    let (frames, end) = drive(&mut cc, first, &[&[0, 0x80], &[0]]);
    assert_eq!(frames, vec![vec![0xFB, 0], vec![0x3A]]);
    assert_eq!(end, Step::Failed(Error::RxOverflow));
}

#[test]
fn receive_flushes_when_the_count_does_not_settle() {
    let mut cc = Cc1101::with_poll_limit(3);
    let first = cc.receive(3);
    let (frames, end) = drive(&mut cc, first, &[&[0, 0], &[0, 1], &[0, 2], &[0]]);
    assert_eq!(frames, vec![vec![0xFB, 0], vec![0xFB, 0], vec![0xFB, 0], vec![0x3A]]);
    assert_eq!(end, Step::Failed(Error::Timeout));
}

#[test]
fn receive_flushes_when_the_chip_does_not_go_idle() {
    let mut cc = Cc1101::with_poll_limit(2);
    let first = cc.receive(1);
    let script: [&[u8]; 7] = [&[0, 1], &[0, 1], &[0, 9], CRC_OK, &[0, 0x0D], &[0, 0x0D], &[0]];
    let (frames, end) = drive(&mut cc, first, &script);
    assert_eq!(end, Step::Failed(Error::Timeout));
    assert_eq!(frames.last(), Some(&vec![0x3A]));
    assert_eq!(count(&frames, &[0x3A]), 1);
    assert_eq!(count(&frames, &[0xF5, 0]), 2);
    assert_eq!(cc.data(), &vec![9]);
}

#[test]
fn receive_ends_at_once_on_an_invalid_state() {
    let mut cc = Cc1101::new();
    let first = cc.receive(1);
    let script: [&[u8]; 5] = [&[0, 1], &[0, 1], &[0, 9], CRC_OK, &[0, 0x1F]];
    let (frames, end) = drive(&mut cc, first, &script);
    assert_eq!(end, Step::Failed(Error::InvalidState(0x1F)));
    assert_eq!(count(&frames, &[0x3A]), 0);
    assert_eq!(cc.data(), &vec![9]);
}

fn with_all_fields() -> Cc1101 {
    let mut cc = Cc1101::new();
    let first = cc.set_packet_length(PacketLength::Variable(61));
    let _ = drive(&mut cc, first, &[&[0, 0], &[0, 0], &[0, 0]]);
    let first = cc.set_address_filter(AddressFilter::Device(0x2B));
    let _ = drive(&mut cc, first, &[&[0, 0], &[0, 0], &[0, 0]]);
    let first = cc.set_append_status(true);
    let _ = drive(&mut cc, first, &[&[0, 0], &[0, 0]]);
    cc
}

#[test]
fn receive_peels_the_framing() {
    let mut cc = with_all_fields();
    let first = cc.receive(5);
    let script: [&[u8]; 6] =
        [&[0, 8], &[0, 8], &[0, 3, 0x2B, 0xA, 0xB, 0xC, 200, 0xB0], CRC_OK, IDLE, &[0]];
    let (frames, end) = drive(&mut cc, first, &script);
    assert_eq!(frames[2], vec![0xFF, 0, 0, 0, 0, 0, 0, 0]);
    // The length is the packet's own length byte.
    assert_eq!(end, Step::Finished(Reply::Received(3)));
    assert_eq!(cc.length(), Some(3));
    assert_eq!(cc.address(), Some(0x2B));
    assert_eq!(cc.fields(), &vec![3, 0x2B]);
    assert_eq!(cc.rssi(), Some(200));
    assert_eq!(cc.lqi(), Some(0xB0));
    // The places of the two status bytes are zeroed.
    assert_eq!(cc.data(), &vec![0xA, 0xB, 0xC, 0, 0]);
}

#[test]
fn receive_without_length_byte_counts_the_payload() {
    let mut cc = Cc1101::new();
    let first = cc.set_append_status(true);
    let _ = drive(&mut cc, first, &[&[0, 0], &[0, 0]]);
    let first = cc.receive(5);
    let script: [&[u8]; 6] = [&[0, 5], &[0, 5], &[0, 1, 2, 3, 77, 0x80], CRC_OK, IDLE, &[0]];
    let (_, end) = drive(&mut cc, first, &script);
    assert_eq!(end, Step::Finished(Reply::Received(3)));
    assert_eq!(cc.data(), &vec![1, 2, 3, 0, 0]);
    assert_eq!(cc.rssi(), Some(77));
    assert_eq!(cc.lqi(), Some(0x80));

    // Too short for status bytes: nothing is peeled.
    let first = cc.receive(1);
    let script: [&[u8]; 6] = [&[0, 1], &[0, 1], &[0, 9], CRC_OK, IDLE, &[0]];
    let (_, end) = drive(&mut cc, first, &script);
    assert_eq!(end, Step::Finished(Reply::Received(1)));
    assert_eq!(cc.data(), &vec![9]);
    assert_eq!(cc.rssi(), None);
}

#[test]
fn receive_guards_the_fifo_size() {
    let mut cc = Cc1101::new();
    assert_eq!(cc.receive(65), Step::Failed(Error::ArrayTooLong(65)));
    assert_eq!(cc.phase(), Phase::Ready);
    assert!(matches!(cc.receive(64), Step::Exchange(_)));
    let mut cc = with_all_fields();
    assert_eq!(cc.receive(63), Step::Failed(Error::ArrayTooLong(63)));
    assert_eq!(cc.receive(usize::MAX), Step::Failed(Error::ArrayTooLong(usize::MAX)));
    assert_eq!(cc.receive(62), Step::Exchange(vec![0xFB, 0]));
    assert_eq!(cc.phase(), Phase::Settle { last: 0, polls: 1, len: 62 });
}

#[test]
fn write_data_needs_the_length_it_is_configured_for() {
    let mut cc = Cc1101::new();
    let first = cc.set_packet_length(PacketLength::Variable(61));
    let _ = drive(&mut cc, first, &[&[0, 0], &[0, 0], &[0, 0]]);
    let status = cc.status();
    // The spy sees no exchange: the operation fails at once.
    assert_eq!(cc.write_data(None, None, &[1, 2, 3]), Step::Failed(Error::MissingLengthParameter));
    assert_eq!(cc.write_data(None, Some(1), &[]), Step::Failed(Error::MissingLengthParameter));
    assert_eq!(cc.phase(), Phase::Ready);
    assert_eq!(cc.status(), status);
    assert!(cc.data().is_empty());

    let first = cc.write_data(Some(3), None, &[1, 2, 3]);
    let (frames, end) = drive(&mut cc, first, &[&[0x0F, 0x0E, 0x0D, 0x0C, 0x0B]]);
    assert_eq!(frames, vec![vec![0x7F, 3, 1, 2, 3]]);
    assert_eq!(end, Step::Finished(Reply::Done));
}

#[test]
fn write_data_needs_the_address_it_is_configured_for() {
    let mut cc = with_all_fields();
    assert_eq!(cc.write_data(Some(1), None, &[7]), Step::Failed(Error::MissingAddressParameter));
    // The length is looked for first.
    assert_eq!(cc.write_data(None, None, &[7]), Step::Failed(Error::MissingLengthParameter));
    let first = cc.write_data(Some(2), Some(0x2B), &[7]);
    let (frames, end) = drive(&mut cc, first, &[&[0, 0, 0, 0]]);
    assert_eq!(frames, vec![vec![0x7F, 2, 0x2B, 7]]);
    assert_eq!(end, Step::Finished(Reply::Done));
    // A write has no status bytes to peel.
    assert_eq!(cc.rssi(), None);
    assert_eq!(cc.data(), &vec![0]);
}

#[test]
fn write_data_ignores_fields_that_packets_do_not_carry() {
    let mut cc = Cc1101::new();
    let first = cc.write_data(Some(9), Some(9), &[1, 2]);
    let (frames, _) = drive(&mut cc, first, &[&[0, 0, 0]]);
    assert_eq!(frames, vec![vec![0x7F, 1, 2]]);
}

#[test]
fn write_data_guards_the_fifo_size() {
    let mut cc = Cc1101::new();
    assert_eq!(cc.write_data(None, None, &[0u8; 65]), Step::Failed(Error::ArrayTooLong(65)));
    assert_eq!(cc.phase(), Phase::Ready);
    match cc.write_data(None, None, &[0x55u8; 64]) {
        Step::Exchange(frame) => {
            assert_eq!(frame.len(), 65);
            assert_eq!(frame[0], 0x7F);
            assert!(frame[1..].iter().all(|b| *b == 0x55));
        }
        other => panic!("{:?}", other),
    }
    assert_eq!(
        cc.phase(),
        Phase::Fifo { access: Access::Write, optional: 0, payload: 64 }
    );

    // Each optional field takes a byte of the FIFO.
    let mut cc = with_all_fields();
    assert_eq!(
        cc.write_data(Some(63), Some(1), &[0u8; 63]),
        Step::Failed(Error::ArrayTooLong(63))
    );
    assert!(matches!(cc.write_data(Some(62), Some(1), &[0u8; 62]), Step::Exchange(_)));
}

#[test]
fn read_data_needs_a_place_for_each_field() {
    let mut cc = with_all_fields();
    assert_eq!(cc.read_data(false, true, true, 4), Step::Failed(Error::MissingLengthParameter));
    assert_eq!(cc.read_data(true, false, true, 4), Step::Failed(Error::MissingAddressParameter));
    assert_eq!(cc.read_data(true, true, false, 4), Step::Failed(Error::MissingRxStatusParameters));
    assert_eq!(cc.read_data(true, true, true, 63), Step::Failed(Error::ArrayTooLong(63)));
    assert_eq!(cc.phase(), Phase::Ready);

    let first = cc.read_data(true, true, true, 4);
    let (frames, end) = drive(&mut cc, first, &[&[0, 2, 0x2B, 0xA, 0xB, 60, 0x91]]);
    assert_eq!(frames, vec![vec![0xFF, 0, 0, 0, 0, 0, 0]]);
    assert_eq!(end, Step::Finished(Reply::Done));
    assert_eq!(cc.length(), Some(2));
    assert_eq!(cc.address(), Some(0x2B));
    assert_eq!(cc.data(), &vec![0xA, 0xB, 0, 0]);
    assert_eq!(cc.rssi(), Some(60));
    assert_eq!(cc.lqi(), Some(0x91));

    // A driver without optional fields asks for no place.
    let mut cc = Cc1101::new();
    let first = cc.read_data(false, false, false, 2);
    let (frames, _) = drive(&mut cc, first, &[&[0, 5, 6]]);
    assert_eq!(frames, vec![vec![0xFF, 0, 0]]);
    assert_eq!(cc.data(), &vec![5, 6]);
    assert_eq!(cc.read_data(false, false, false, 65), Step::Failed(Error::ArrayTooLong(65)));
    assert!(matches!(cc.read_data(false, false, false, 64), Step::Exchange(_)));
}

#[test]
fn a_new_operation_replaces_the_one_in_flight() {
    let mut cc = Cc1101::new();
    let _ = cc.set_defaults();
    let first = cc.get_lqi();
    assert_eq!(cc.phase(), Phase::Read(Probe::Lqi));
    let (frames, end) = drive(&mut cc, first, &[&[0, 5]]);
    assert_eq!(frames.len(), 1);
    assert_eq!(end, Step::Finished(Reply::Byte(5)));
}

#[test]
fn phases_of_a_receive() {
    let mut cc = Cc1101::new();
    let _ = cc.receive(1);
    assert_eq!(cc.phase(), Phase::Settle { last: 0, polls: 1, len: 1 });
    let _ = cc.advance(&[0, 1]);
    assert_eq!(cc.phase(), Phase::Settle { last: 1, polls: 2, len: 1 });
    let _ = cc.advance(&[0, 1]);
    assert_eq!(cc.phase(), Phase::Drain { len: 1 });
    let _ = cc.advance(&[0, 0x99]);
    assert_eq!(cc.phase(), Phase::Quality { length: 1 });
    let _ = cc.advance(CRC_BAD);
    assert_eq!(cc.phase(), Phase::Await(Wait::Drained { length: 1, crc_ok: false }, 1));
    let _ = cc.advance(IDLE);
    assert_eq!(cc.phase(), Phase::Flush(Outcome::Fault(Error::CrcMismatch)));
    assert_eq!(cc.advance(&[0]), Step::Failed(Error::CrcMismatch));
    assert_eq!(cc.phase(), Phase::Ready);
}
