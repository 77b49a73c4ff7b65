use lr2021::cmd;
use lr2021::flrc::{self, ERR_PARAM};
use lr2021::hal::{ERR_BUFFER, ERR_NO_CHIP};
use lr2021::lora;
use lr2021::radio;
use lr2021::system as ops;
use lr2021::xfer::{self, BusAction, Command, FifoRead, CS_ASSERT, CS_RELEASE};

/// An expected command: opcode big-endian, then its parameters.
fn frame(opcode: u16, params: &[u8]) -> Vec<u8> {
    let mut v = vec![(opcode >> 8) as u8, opcode as u8];
    v.extend_from_slice(params);
    v
}

/// The bytes a command puts on the wire within its chip-select.
fn written(c: &Command) -> Vec<u8> {
    let mut v = xfer::opcode_bytes(c.opcode()).to_vec();
    v.extend_from_slice(c.params());
    v
}

/// Two status bytes that are neither all-zeros nor all-ones.
const STATUS: [u8; 2] = [0x80, 0x00];

/// What a fake bus saw during a FIFO read.
#[derive(Debug, PartialEq, Eq, Clone)]
enum Ev {
    Select(i32),
    Write(Vec<u8>),
    Read(Vec<u8>),
}

/// Runs a FIFO read against a fake bus. `fail` names the 0-based bus operation
/// (counting busy waits) that reports an error, if any; `reply` is what the
/// read clocks in.
fn run_fifo(
    start: (FifoRead, BusAction),
    out: &mut [u8],
    reply: &[u8],
    fail: Option<(usize, i32)>,
) -> (Vec<Ev>, Result<(), i32>) {
    let (mut m, mut action) = start;
    let mut log = Vec::new();
    let mut n = 0usize;
    loop {
        let outcome = match fail {
            Some((k, e)) if k == n => Err(e),
            _ => Ok(()),
        };
        match action {
            BusAction::Finish(r) => return (log, r),
            BusAction::WaitBusy => {}
            BusAction::Select(level) => log.push(Ev::Select(level)),
            BusAction::WriteOpcode(op) => log.push(Ev::Write(xfer::opcode_bytes(op).to_vec())),
            BusAction::Read => {
                for (i, b) in out.iter_mut().enumerate() {
                    *b = reply.get(i).copied().unwrap_or(0);
                }
                log.push(Ev::Read(out.to_vec()));
            }
        }
        n += 1;
        action = m.step(outcome);
    }
}

#[test]
fn every_flrc_rate_code_resolves_and_nothing_past_the_table_does() {
    assert_eq!(flrc::bitrate_kbps(cmd::FLRC_BR_2600), Some(2600));
    assert_eq!(flrc::bandwidth_khz(cmd::FLRC_BR_2600), Some(2666));
    assert_eq!(flrc::bitrate_kbps(cmd::FLRC_BR_260), Some(260));
    assert_eq!(flrc::bandwidth_khz(cmd::FLRC_BR_260), Some(444));
    assert_eq!(flrc::bitrate_kbps(8), None);
}

#[test]
fn rates_are_listed_fastest_first() {
    for pair in flrc::RATES.windows(2) {
        assert!(pair[0].0 > pair[1].0, "{:?} then {:?}", pair[0], pair[1]);
    }
}

#[test]
fn coding_rate_codes_are_not_in_rate_order() {
    assert_eq!(flrc::coding_ratio(cmd::FLRC_CR_1_2), Some((1, 2)));
    assert_eq!(flrc::coding_ratio(cmd::FLRC_CR_3_4), Some((3, 4)));
    assert_eq!(flrc::coding_ratio(cmd::FLRC_CR_1_1), Some((1, 1)));
    assert_eq!(flrc::coding_ratio(cmd::FLRC_CR_2_3), Some((2, 3)));
    assert_eq!(flrc::coding_ratio(4), None);
}

#[test]
fn modulation_params_reject_codes_outside_the_tables() {
    assert!(flrc::modulation_params(8, cmd::FLRC_CR_2_3, cmd::SHAPING_GAUSS_BT_0_5).is_err());
    assert!(flrc::modulation_params(cmd::FLRC_BR_650, 4, cmd::SHAPING_GAUSS_BT_0_5).is_err());
    assert_eq!(
        flrc::modulation_params(cmd::FLRC_BR_650, cmd::FLRC_CR_2_3, 0x01),
        Err(ERR_PARAM)
    );
}

#[test]
fn modulation_params_pack_the_coding_rate_and_shaping_into_one_byte() {
    assert_eq!(
        flrc::modulation_params(cmd::FLRC_BR_1300, cmd::FLRC_CR_3_4, cmd::SHAPING_GAUSS_BT_1_0),
        Ok([0x02, 0x17])
    );
}

#[test]
fn goodput_of_a_full_rate_burst_is_in_the_right_order_of_magnitude() {
    assert_eq!(flrc::goodput_bps(255_000, 1000), 2_040_000);
}

#[test]
fn goodput_does_not_overflow_32_bits_mid_calculation() {
    assert_eq!(flrc::goodput_bps(600_000, 1000), 4_800_000);
    assert_eq!(flrc::goodput_bps(0, 1000), 0);
}

#[test]
fn goodput_of_a_zero_length_burst_is_zero_not_a_division_trap() {
    assert_eq!(flrc::goodput_bps(1234, 0), 0);
}

#[test]
fn per_counts_losses_and_clamps_a_negative_loss_to_zero() {
    assert_eq!(flrc::per_permille(1000, 1000), 0);
    assert_eq!(flrc::per_permille(1000, 900), 100);
    assert_eq!(flrc::per_permille(1000, 0), 1000);
    assert_eq!(flrc::per_permille(1000, 1001), 0);
    assert_eq!(flrc::per_permille(0, 0), 0);
}

#[test]
fn a_silent_miso_is_rejected_rather_than_decoded() {
    assert_eq!(xfer::check_status(0x00), Err(ERR_NO_CHIP));
    assert_eq!(xfer::check_status(0xFF), Err(ERR_NO_CHIP));
    assert_eq!(xfer::check_status(0x42), Ok(()));
}

#[test]
fn a_read_strips_two_status_bytes_not_one() {
    // The opcode goes out alone, and the reply is two status bytes and then
    // the payload: firmware 1.24, which is what the W12's part reports.
    let q = ops::version_query();
    assert_eq!(xfer::opcode_bytes(q.opcode).to_vec(), vec![0x01, 0x01]);
    let v = ops::get_version(STATUS, [0x01, 0x18]).unwrap();
    assert_eq!(
        v,
        ops::Version {
            fw_major: 0x01,
            fw_minor: 0x18,
        }
    );
}

#[test]
fn get_version_asks_for_two_bytes_because_that_is_all_there_is() {
    assert_eq!(ops::version_query().reply_len, 2);
}

#[test]
fn opcodes_that_hardware_disproved_stay_disproved() {
    assert_eq!(cmd::CMD_GET_RSSI_INST, 0x020B);
    assert_eq!(cmd::CMD_GET_RANDOM_NUMBER, 0x0126);
}

#[test]
fn reading_the_rx_fifo_uses_one_chip_select_and_takes_no_status_bytes() {
    let mut out = [0u8; 4];
    let start = radio::read_rx_fifo(out.len()).unwrap();
    let (log, r) = run_fifo(start, &mut out, &[0xDE, 0xAD, 0xBE, 0xEF], None);
    assert_eq!(r, Ok(()));
    assert_eq!(out, [0xDE, 0xAD, 0xBE, 0xEF]);
    assert_eq!(
        log,
        vec![
            Ev::Select(0),
            Ev::Write(vec![0x00, 0x01]),
            Ev::Read(vec![0xDE, 0xAD, 0xBE, 0xEF]),
            Ev::Select(1),
        ]
    );
}

#[test]
fn the_carrier_frequency_goes_out_big_endian_in_hertz() {
    let c = radio::set_rf_frequency(906_875_000);
    assert_eq!(written(&c), frame(cmd::CMD_SET_RF_FREQUENCY, &[0x36, 0x0D, 0xD0, 0x78]));
}

#[test]
fn lora_modulation_params_pack_two_fields_per_byte() {
    assert_eq!(
        lora::modulation_params(9, cmd::LORA_BW_125, cmd::LORA_CR_4_5, cmd::LORA_LDRO_OFF),
        [0x94, 0x10]
    );
    assert_eq!(
        lora::modulation_params(12, cmd::LORA_BW_250, cmd::LORA_CR_4_8, cmd::LORA_LDRO_ON),
        [0xC5, 0x41]
    );
}

#[test]
fn lora_packet_params_put_the_length_before_the_flags_byte() {
    assert_eq!(
        lora::packet_params(
            16,
            cmd::LORA_HEADER_EXPLICIT,
            255,
            cmd::LORA_CRC_ON,
            cmd::LORA_IQ_STANDARD
        ),
        [0x00, 0x10, 0xFF, 0x02]
    );
    assert_eq!(
        lora::packet_params(
            0x0102,
            cmd::LORA_HEADER_IMPLICIT,
            32,
            cmd::LORA_CRC_OFF,
            cmd::LORA_IQ_INVERTED
        ),
        [0x01, 0x02, 0x20, 0x05]
    );
}

#[test]
fn modulation_params_reject_what_the_chip_would_silently_accept() {
    assert!(lora::validate(4, cmd::LORA_BW_125, cmd::LORA_CR_4_5, false).is_err());
    assert!(lora::validate(13, cmd::LORA_BW_125, cmd::LORA_CR_4_5, false).is_err());
    assert!(lora::validate(9, cmd::LORA_BW_125, 0, false).is_err());
    assert!(lora::validate(9, cmd::LORA_BW_125, cmd::LORA_CR_MAX + 1, false).is_err());
    assert!(lora::validate(9, 0x09, cmd::LORA_CR_4_5, false).is_err());
    assert!(lora::validate(9, cmd::LORA_BW_125, cmd::LORA_CR_4_5, false).is_ok());
}

#[test]
fn the_fractional_bandwidths_are_refused_below_a_gigahertz() {
    assert!(lora::validate(9, cmd::LORA_BW_203, cmd::LORA_CR_4_5, false).is_err());
    assert!(lora::validate(9, cmd::LORA_BW_203, cmd::LORA_CR_4_5, true).is_ok());
    assert!(lora::validate(9, cmd::LORA_BW_500, cmd::LORA_CR_4_5, false).is_ok());
}

#[test]
fn bandwidth_codes_are_not_in_bandwidth_order() {
    assert_eq!(cmd::lora_bw_hz(cmd::LORA_BW_31), Some(31_250));
    assert_eq!(cmd::lora_bw_hz(cmd::LORA_BW_41), Some(41_670));
    assert!(cmd::lora_bw_hz(cmd::LORA_BW_41) < cmd::lora_bw_hz(cmd::LORA_BW_125));
    assert_eq!(cmd::lora_bw_hz(0x09), None);
}

#[test]
fn ldro_switches_on_where_a_symbol_reaches_sixteen_milliseconds() {
    assert!(lora::ldro_needed(11, cmd::LORA_BW_125));
    assert!(!lora::ldro_needed(10, cmd::LORA_BW_125));
    assert!(!lora::ldro_needed(11, cmd::LORA_BW_250));
    assert!(lora::ldro_needed(12, cmd::LORA_BW_250));
}

#[test]
fn packet_status_reassembles_the_ninth_rssi_bit_from_the_flags_byte() {
    let s = lora::decode_packet_status(&[0x14, 0x20, 0xF8, 0x5A, 0x50, 0x0B]);
    assert_eq!(s.cr, 4);
    assert!(s.has_crc);
    assert_eq!(s.len, 0x20);
    assert_eq!(s.snr_pkt, -8);
    assert_eq!(s.rssi_pkt, (0x5A << 1) | 1);
    assert_eq!(s.rssi_signal_pkt, (0x50 << 1) | 1);
    assert_eq!(s.detector, 1);
}

#[test]
fn a_timeout_wider_than_twenty_four_bits_is_refused_rather_than_truncated() {
    assert_eq!(radio::set_rx(0x0100_0000), Err(ERR_BUFFER));

    let c = radio::set_rx(cmd::RX_CONTINUOUS).unwrap();
    assert_eq!(written(&c), frame(cmd::CMD_SET_RX, &[0xFF, 0xFF, 0xFF]));
}

#[test]
fn the_interrupt_vector_goes_out_after_the_dio_index() {
    let c = radio::set_dio_irq_config(1, cmd::IRQ_RX_DONE | cmd::IRQ_TIMEOUT);
    assert_eq!(
        written(&c),
        frame(cmd::CMD_SET_DIO_IRQ_CONFIG, &[0x01, 0x00, 0x24, 0x00, 0x00])
    );
}

#[test]
fn the_power_tables_cover_the_documented_range_and_refuse_the_rest() {
    assert_eq!(radio::set_power_dbm(23, cmd::PA_RAMP_48U), Err(ERR_BUFFER));
    assert_eq!(radio::set_power_dbm(-10, cmd::PA_RAMP_48U), Err(ERR_BUFFER));

    // +22 dBm is the last table row, {6, 7, 35}.
    let cs = radio::set_power_dbm(22, cmd::PA_RAMP_48U).unwrap();
    assert_eq!(
        cs.iter().map(written).collect::<Vec<_>>(),
        vec![
            frame(cmd::CMD_SEL_PA, &[cmd::PA_LF]),
            frame(cmd::CMD_SET_PA_CONFIG, &[0x00, 0x67, 0x10]),
            frame(cmd::CMD_SET_TX_PARAMS, &[35, cmd::PA_RAMP_48U]),
        ]
    );
}

#[test]
fn a_payload_longer_than_the_header_can_describe_is_refused() {
    let long = [0u8; cmd::MAX_PACKET_LEN + 1];
    assert_eq!(radio::write_tx_fifo(&long), Err(ERR_BUFFER));
}

#[test]
fn the_rf_switch_takes_two_commands_per_pin() {
    let cs = ops::set_rf_switch(5, cmd::DIO_SLEEP_PULL_UP, 6, cmd::DIO_SLEEP_PULL_AUTO);
    assert_eq!(
        cs.iter().map(written).collect::<Vec<_>>(),
        vec![
            frame(
                cmd::CMD_SET_DIO_FUNCTION,
                &[5, cmd::DIO_FUNCTION_RF_SWITCH | cmd::DIO_SLEEP_PULL_UP]
            ),
            frame(cmd::CMD_SET_DIO_RF_SWITCH_CONFIG, &[5, cmd::RF_SW_TX]),
            frame(
                cmd::CMD_SET_DIO_FUNCTION,
                &[6, cmd::DIO_FUNCTION_RF_SWITCH | cmd::DIO_SLEEP_PULL_AUTO]
            ),
            frame(cmd::CMD_SET_DIO_RF_SWITCH_CONFIG, &[6, cmd::RF_SW_RX]),
        ]
    );
}

// ─── Beyond the original suite ───────────────────────────────────────────────

#[test]
fn a_failed_fifo_write_still_releases_chip_select_before_reporting() {
    let mut out = [0u8; 2];
    // Operation 2 is the opcode write.
    let (log, r) = run_fifo(radio::read_rx_fifo(2).unwrap(), &mut out, &[1, 2], Some((2, -3)));
    assert_eq!(r, Err(-3));
    assert_eq!(log, vec![Ev::Select(CS_ASSERT), Ev::Write(vec![0x00, 0x01]), Ev::Select(CS_RELEASE)]);
}

#[test]
fn a_failed_fifo_read_is_reported_over_a_failed_deselect() {
    let mut out = [0u8; 1];
    let start = radio::read_rx_fifo(1).unwrap();
    let (mut m, first) = start;
    assert_eq!(first, BusAction::WaitBusy);
    assert_eq!(m.step(Ok(())), BusAction::Select(CS_ASSERT));
    assert_eq!(m.step(Ok(())), BusAction::WriteOpcode(cmd::CMD_READ_RX_FIFO));
    assert_eq!(m.step(Ok(())), BusAction::Read);
    assert_eq!(m.step(Err(-4)), BusAction::Select(CS_RELEASE));
    assert_eq!(m.step(Err(-7)), BusAction::Finish(Err(-4)));
    // A finished read stays finished.
    assert_eq!(m.step(Ok(())), BusAction::Finish(Err(-4)));
    let _ = &mut out;
}

#[test]
fn a_busy_timeout_before_the_fifo_read_never_touches_chip_select() {
    let mut out = [0u8; 3];
    let (log, r) = run_fifo(radio::read_rx_fifo(3).unwrap(), &mut out, &[], Some((0, -2)));
    assert_eq!(r, Err(-2));
    assert!(log.is_empty());
}

#[test]
fn a_busy_timeout_after_the_fifo_read_is_the_result() {
    let mut out = [0u8; 1];
    let (log, r) = run_fifo(radio::read_rx_fifo(1).unwrap(), &mut out, &[9], Some((5, -2)));
    assert_eq!(r, Err(-2));
    assert_eq!(log.last(), Some(&Ev::Select(CS_RELEASE)));
    assert_eq!(out, [9]);
}

#[test]
fn an_rx_fifo_read_longer_than_a_packet_is_refused() {
    assert!(radio::read_rx_fifo(cmd::MAX_PACKET_LEN).is_ok());
    assert_eq!(radio::read_rx_fifo(cmd::MAX_PACKET_LEN + 1).err(), Some(ERR_BUFFER));
}

#[test]
fn a_full_packet_fits_the_tx_fifo() {
    let data: Vec<u8> = (0..255u32).map(|i| i as u8).collect();
    let c = radio::write_tx_fifo(&data).unwrap();
    assert_eq!(c.opcode(), cmd::CMD_WRITE_TX_FIFO);
    assert_eq!(c.params().to_vec(), data);
}

#[test]
fn every_read_rejects_an_undriven_status_byte() {
    for st in [[0x00, 0x12], [0xFF, 0x12]] {
        assert_eq!(ops::get_version(st, [1, 2]), Err(ERR_NO_CHIP));
        assert_eq!(ops::get_errors(st, [1, 2]), Err(ERR_NO_CHIP));
        assert_eq!(ops::get_random_number(st, [1, 2, 3, 4]), Err(ERR_NO_CHIP));
        assert_eq!(radio::get_packet_type(st, [1]), Err(ERR_NO_CHIP));
        assert_eq!(radio::get_rx_fifo_level(st, [1, 2]), Err(ERR_NO_CHIP));
        assert_eq!(radio::get_tx_fifo_level(st, [1, 2]), Err(ERR_NO_CHIP));
        assert_eq!(radio::get_rssi_inst(st, [1, 2]), Err(ERR_NO_CHIP));
        assert_eq!(radio::get_and_clear_irq_status(st, [1, 2, 3, 4]), Err(ERR_NO_CHIP));
        assert_eq!(lora::get_packet_status(st, [0; 6]), Err(ERR_NO_CHIP));
        assert_eq!(lora::get_rx_stats(st, [0; 8]), Err(ERR_NO_CHIP));
    }
    // The second status byte is not judged.
    assert_eq!(xfer::accept_status([0x42, 0xFF]), Ok(0x42));
}

#[test]
fn reads_decode_big_endian_payloads() {
    assert_eq!(ops::get_errors(STATUS, [0x12, 0x34]), Ok(0x1234));
    assert_eq!(ops::get_random_number(STATUS, [0xDE, 0xAD, 0xBE, 0xEF]), Ok(0xDEAD_BEEF));
    assert_eq!(radio::get_rx_fifo_level(STATUS, [0x01, 0x00]), Ok(256));
    assert_eq!(radio::get_tx_fifo_level(STATUS, [0x00, 0xFF]), Ok(255));
    assert_eq!(radio::get_packet_type(STATUS, [cmd::PACKET_TYPE_FLRC]), Ok(5));
    assert_eq!(
        lora::get_rx_stats(STATUS, [0, 1, 0, 2, 0x01, 0x00, 0xFF, 0xFE]),
        Ok((1, 2, 256, 0xFFFE))
    );
}

#[test]
fn the_irq_vector_reads_back_as_it_was_written() {
    let irq = cmd::IRQ_RX_SET | cmd::IRQ_TX_DONE;
    let c = radio::clear_irq(irq);
    let b: [u8; 4] = [c.params()[0], c.params()[1], c.params()[2], c.params()[3]];
    assert_eq!(radio::get_and_clear_irq_status(STATUS, b), Ok(irq));
    assert_eq!(written(&c), frame(cmd::CMD_CLEAR_IRQ, &[0x00, 0xEC, 0x02, 0x00]));
}

#[test]
fn rssi_inst_takes_its_ninth_bit_from_the_top_of_the_second_byte() {
    assert_eq!(radio::get_rssi_inst(STATUS, [0xFF, 0x80]), Ok(511));
    assert_eq!(radio::get_rssi_inst(STATUS, [0x40, 0x7F]), Ok(0x80));
}

#[test]
fn the_pa_config_byte_puts_the_pa_in_the_top_bit() {
    let c = radio::set_pa_config(cmd::PA_HF, 0x07, 0x1F, 0x12, 0xFF);
    assert_eq!(written(&c), frame(cmd::CMD_SET_PA_CONFIG, &[0x83, 0xF2, 0x1F]));
    let c = radio::set_rx_path(0x03, 0x0F);
    assert_eq!(written(&c), frame(cmd::CMD_SET_RX_PATH, &[0x01, 0x07]));
}

#[test]
fn the_lowest_power_uses_the_first_table_row_and_a_negative_power_byte() {
    let cs = radio::set_power_dbm(radio::LF_POWER_MIN, cmd::PA_RAMP_48U).unwrap();
    assert_eq!(written(&cs[1]), frame(cmd::CMD_SET_PA_CONFIG, &[0x00, 0x11, 0x10]));
    assert_eq!(written(&cs[2]), frame(cmd::CMD_SET_TX_PARAMS, &[8, cmd::PA_RAMP_48U]));
    let c = radio::set_tx_params(-9, 2);
    assert_eq!(c.params().to_vec(), vec![0xF7, 2]);
}

#[test]
fn set_tx_shares_the_timeout_encoding() {
    assert_eq!(radio::set_tx(0x0100_0000), Err(ERR_BUFFER));
    let c = radio::set_tx(0x0001_0203).unwrap();
    assert_eq!(written(&c), frame(cmd::CMD_SET_TX, &[0x01, 0x02, 0x03]));
}

#[test]
fn sleep_keeps_the_low_twenty_four_bits_of_the_wakeup_time() {
    let c = ops::set_sleep(0x03, 0xAB12_3456);
    assert_eq!(written(&c), frame(cmd::CMD_SET_SLEEP, &[0x03, 0x12, 0x34, 0x56]));
}

#[test]
fn bring_up_commands_carry_their_arguments() {
    assert_eq!(written(&ops::activate_pram()), frame(cmd::CMD_ACTIVATE_PRAM, &[0x00]));
    assert_eq!(written(&ops::calibrate(cmd::CALIBRATE_ALL)), frame(cmd::CMD_CALIBRATE, &[0x7F]));
    assert_eq!(written(&ops::set_standby(cmd::STANDBY_XOSC)), frame(cmd::CMD_SET_STANDBY, &[1]));
    assert_eq!(written(&ops::set_fs()), frame(cmd::CMD_SET_FS, &[]));
    assert_eq!(written(&ops::clear_errors()), frame(cmd::CMD_CLEAR_ERRORS, &[]));
    assert_eq!(written(&radio::clear_rx_fifo()), frame(cmd::CMD_CLEAR_RX_FIFO, &[]));
    assert_eq!(written(&radio::clear_tx_fifo()), frame(cmd::CMD_CLEAR_TX_FIFO, &[]));
    assert_eq!(written(&radio::reset_rx_stats()), frame(cmd::CMD_RESET_RX_STATS, &[]));
    assert_eq!(written(&radio::sel_pa(cmd::PA_HF)), frame(cmd::CMD_SEL_PA, &[1]));
    assert_eq!(
        written(&radio::set_packet_type(cmd::PACKET_TYPE_LORA)),
        frame(cmd::CMD_SET_PACKET_TYPE, &[0])
    );
}

#[test]
fn lora_commands_carry_their_packed_parameters() {
    assert_eq!(
        lora::set_modulation_params(7, cmd::LORA_BW_500, cmd::LORA_CR_4_8, 1, false)
            .map(|c| written(&c)),
        Ok(frame(cmd::CMD_SET_LORA_MODULATION_PARAMS, &[0x76, 0x41]))
    );
    assert_eq!(
        lora::set_modulation_params(7, cmd::LORA_BW_812, cmd::LORA_CR_4_8, 1, false)
            .map(|c| written(&c)),
        Err(ERR_BUFFER)
    );
    assert_eq!(
        written(&lora::set_packet_params(8, 0, 64, 1, 1)),
        frame(cmd::CMD_SET_LORA_PACKET_PARAMS, &[0, 8, 64, 3])
    );
    assert_eq!(
        written(&lora::set_sync_word(cmd::LORA_SYNC_WORD_PRIVATE)),
        frame(cmd::CMD_SET_LORA_SYNCWORD, &[0x12])
    );
    assert_eq!(
        written(&lora::set_synch_timeout(10, true)),
        frame(cmd::CMD_SET_LORA_SYNCH_TIMEOUT, &[10, 1])
    );
    assert_eq!(written(&lora::set_cad()), frame(cmd::CMD_SET_LORA_CAD, &[]));
}

#[test]
fn cad_params_refuse_a_wide_timeout_and_pack_the_rest() {
    assert_eq!(lora::set_cad_params(4, true, 0x1A, 1, 0x0100_0000, 0x80), Err(ERR_BUFFER));
    let c = lora::set_cad_params(4, true, 0x1A, 1, 0x00AB_CDEF, 0xFF).unwrap();
    assert_eq!(
        written(&c),
        frame(cmd::CMD_SET_LORA_CAD_PARAMS, &[4, 0x1A, 1, 0xAB, 0xCD, 0xEF, 0x7F])
    );
}

#[test]
fn an_unknown_detector_pattern_reads_as_detector_zero() {
    let s = lora::decode_packet_status(&[0x03, 0, 0x7F, 0, 0, 0x0C]);
    assert_eq!(s.detector, 0);
    assert_eq!(s.snr_pkt, 127);
    assert!(!s.has_crc);
    let s = lora::decode_packet_status(&[0, 0, 0, 0, 0, 0x20]);
    assert_eq!(s.detector, 3);
}

#[test]
fn every_high_band_code_is_a_bandwidth() {
    for bw in 0..=255u8 {
        if cmd::bw_needs_high_band(bw) {
            assert!(cmd::lora_bw_hz(bw).is_some());
        }
    }
}

#[test]
fn ldro_stays_on_for_every_higher_spreading_factor() {
    for sf in 11..=22u8 {
        assert!(lora::ldro_needed(sf, cmd::LORA_BW_125));
    }
    assert!(!lora::ldro_needed(22, 0x09));
}

#[test]
fn goodput_keeps_the_low_thirty_two_bits_of_an_oversized_rate() {
    // 536,871 bytes in 1 ms is 4,294,968,000 bps, just past 32 bits.
    assert_eq!(flrc::goodput_bps(536_871, 1), 704);
    assert_eq!(flrc::goodput_bps(536_870, 1), 4_294_960_000);
    let wide = (4_000_000_000u64 * 8000) % (1u64 << 32);
    assert_eq!(flrc::goodput_bps(4_000_000_000, 1) as u64, wide);
}

/// Runs a command sequence against a fake sender whose `fail`-th send (if any)
/// reports `err`; returns the indices sent and the result.
fn run_sequence(total: usize, fail: Option<(usize, i32)>) -> (Vec<usize>, Result<(), i32>) {
    let mut sent = Vec::new();
    let mut a = xfer::send_start(total);
    loop {
        match a {
            xfer::SendAction::Finish(r) => return (sent, r),
            xfer::SendAction::Send(i) => {
                sent.push(i);
                let outcome = match fail {
                    Some((k, e)) if k == i => Err(e),
                    _ => Ok(()),
                };
                a = xfer::send_step(i, total, outcome);
            }
        }
    }
}

#[test]
fn a_command_sequence_goes_out_in_order_and_stops_at_the_first_failure() {
    let cs = ops::set_rf_switch(5, cmd::DIO_SLEEP_PULL_UP, 6, cmd::DIO_SLEEP_PULL_AUTO);
    assert_eq!(run_sequence(cs.len(), None), (vec![0, 1, 2, 3], Ok(())));
    assert_eq!(run_sequence(cs.len(), Some((1, -3))), (vec![0, 1], Err(-3)));
    assert_eq!(run_sequence(cs.len(), Some((0, -2))), (vec![0], Err(-2)));
    let ps = radio::set_power_dbm(10, cmd::PA_RAMP_48U).unwrap();
    assert_eq!(run_sequence(ps.len(), Some((2, -4))), (vec![0, 1, 2], Err(-4)));
    assert_eq!(run_sequence(0, None), (vec![], Ok(())));
}
