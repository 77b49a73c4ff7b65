use lr2021::cmd;
use lr2021::ffi;
use lr2021::flrc::ERR_PARAM;
use lr2021::hal::{ERR_BUFFER, ERR_NO_CHIP, ERR_NULL_HAL, OK};
use lr2021::lora::PacketStatus;
use lr2021::system::Version;

#[test]
fn status_and_value_results_become_codes() {
    assert_eq!(ffi::status_of(Ok(())), OK);
    assert_eq!(ffi::status_of(Err(ERR_BUFFER)), ERR_BUFFER);
    assert_eq!(ffi::value_of(Ok(0xFFFF)), 0xFFFF);
    assert_eq!(ffi::value_of(Err(ERR_NO_CHIP)), ERR_NO_CHIP);
}

#[test]
fn flrc_rate_lookups_refuse_codes_outside_a_byte() {
    assert_eq!(ffi::lr2021_flrc_bitrate_kbps(7), 260);
    assert_eq!(ffi::lr2021_flrc_bandwidth_khz(0), 2666);
    assert_eq!(ffi::lr2021_flrc_bitrate_kbps(8), ERR_PARAM);
    // 256 would truncate to code 0 if it were not range-checked.
    assert_eq!(ffi::lr2021_flrc_bitrate_kbps(256), ERR_PARAM);
    assert_eq!(ffi::lr2021_flrc_bandwidth_khz(-1), ERR_PARAM);
}

#[test]
fn flrc_modulation_params_come_back_as_one_word() {
    assert_eq!(ffi::lr2021_flrc_modulation_params(2, 1, 7), 0x0217);
    assert_eq!(ffi::lr2021_flrc_modulation_params(2, 1, 0x107), ERR_PARAM);
    assert_eq!(ffi::lr2021_flrc_modulation_params(2, 1, 1), ERR_PARAM);
    assert_eq!(ffi::lr2021_flrc_modulation_params(-1, 1, 7), ERR_PARAM);
}

#[test]
fn goodput_and_per_refuse_negative_counts_and_cap_the_rate() {
    assert_eq!(ffi::lr2021_flrc_goodput_bps(255_000, 1000), 2_040_000);
    assert_eq!(ffi::lr2021_flrc_goodput_bps(-1, 1000), ERR_PARAM);
    assert_eq!(ffi::lr2021_flrc_goodput_bps(1_000_000, 1), i32::MAX);
    // 4,294,968,000 bps: capped, not wrapped to 704.
    assert_eq!(ffi::lr2021_flrc_goodput_bps(536_871, 1), i32::MAX);
    assert_eq!(ffi::lr2021_flrc_goodput_bps(268_435, 1), 2_147_480_000);
    assert_eq!(ffi::lr2021_flrc_goodput_bps(1234, 0), 0);
    assert_eq!(ffi::lr2021_flrc_per_permille(1000, 900), 100);
    assert_eq!(ffi::lr2021_flrc_per_permille(10, -1), ERR_PARAM);
}

#[test]
fn lora_bandwidth_and_ldro_need_no_chip() {
    assert_eq!(ffi::lr2021_lora_bw_hz(cmd::LORA_BW_125 as i32), 125_000);
    assert_eq!(ffi::lr2021_lora_bw_hz(0x09), ERR_PARAM);
    assert_eq!(ffi::lr2021_lora_bw_hz(0x104), ERR_PARAM);
    assert_eq!(ffi::lr2021_lora_ldro_needed(11, cmd::LORA_BW_125 as i32), 1);
    assert_eq!(ffi::lr2021_lora_ldro_needed(10, cmd::LORA_BW_125 as i32), 0);
    assert_eq!(ffi::lr2021_lora_ldro_needed(300, cmd::LORA_BW_125 as i32), ERR_PARAM);
}

#[test]
fn get_status_checks_the_first_status_byte() {
    assert_eq!(
        ffi::lr2021_get_status(Ok((0x80, 0x01, 0x0004_0000))),
        Ok([0x80, 0x01, 0x0004_0000])
    );
    assert_eq!(ffi::lr2021_get_status(Ok((0xFF, 0x01, 0))), Err(ERR_NO_CHIP));
    assert_eq!(ffi::lr2021_get_status(Err(-2)), Err(-2));
}

#[test]
fn wide_reads_become_words() {
    assert_eq!(
        ffi::lr2021_get_version(Ok(Version { fw_major: 1, fw_minor: 24 })),
        Ok([1, 24])
    );
    assert_eq!(ffi::lr2021_get_random_number(Ok(0xFFFF_FFFF)), Ok(-1));
    assert_eq!(ffi::lr2021_get_and_clear_irq_status(Ok(0x8000_0001)), 1);
    assert_eq!(ffi::lr2021_get_and_clear_irq_status(Err(ERR_NO_CHIP)), ERR_NO_CHIP);
    let s = PacketStatus {
        cr: 4,
        has_crc: true,
        len: 32,
        snr_pkt: -8,
        rssi_pkt: 181,
        rssi_signal_pkt: 161,
        detector: 1,
    };
    assert_eq!(ffi::lr2021_lora_get_packet_status(Ok(s)), Ok([4, 1, 32, -8, 181, 161, 1]));
    assert_eq!(ffi::lr2021_lora_get_rx_stats(Ok((1, 2, 3, 4))), Ok([1, 2, 3, 4]));
}

#[test]
fn argument_checks_come_before_the_callback_table_check() {
    assert_eq!(ffi::lr2021_set_rf_frequency(0).err(), Some(ERR_PARAM));
    assert_eq!(ffi::lr2021_set_rf_frequency(915_000_000).unwrap().params().to_vec(), vec![0x36, 0x89, 0xCA, 0xC0]);
    assert_eq!(ffi::lr2021_set_power_dbm(false, 200, 5).err(), Some(ERR_PARAM));
    assert_eq!(ffi::lr2021_set_power_dbm(false, 10, 5).err(), Some(ERR_NULL_HAL));
    assert_eq!(ffi::lr2021_set_power_dbm(true, 30, 5).err(), Some(ERR_BUFFER));
    assert_eq!(ffi::lr2021_set_power_dbm(true, 22, 5).unwrap().len(), 3);
    assert_eq!(ffi::lr2021_set_rx(false, -1).err(), Some(ERR_PARAM));
    assert_eq!(ffi::lr2021_set_rx(false, 5).err(), Some(ERR_NULL_HAL));
    assert_eq!(ffi::lr2021_set_rx(true, 0x0100_0000).err(), Some(ERR_BUFFER));
    assert_eq!(ffi::lr2021_set_tx(true, 0x20).unwrap().params().to_vec(), vec![0, 0, 0x20]);
    assert_eq!(
        ffi::lr2021_lora_set_modulation_params(false, 9, 4, 256, 0, 0).err(),
        Some(ERR_PARAM)
    );
    assert_eq!(
        ffi::lr2021_lora_set_modulation_params(false, 9, 4, 1, 0, 0).err(),
        Some(ERR_NULL_HAL)
    );
    assert_eq!(
        ffi::lr2021_lora_set_modulation_params(true, 9, cmd::LORA_BW_203 as i32, 1, 0, 0).err(),
        Some(ERR_BUFFER)
    );
    assert_eq!(
        ffi::lr2021_lora_set_modulation_params(true, 9, cmd::LORA_BW_203 as i32, 1, 0, 1)
            .unwrap()
            .params().to_vec(),
        vec![0x9D, 0x10]
    );
    assert_eq!(ffi::lr2021_lora_set_packet_params(0x10000, 0, 10, 1, 0).err(), Some(ERR_PARAM));
    assert_eq!(ffi::lr2021_lora_set_packet_params(8, 0, 256, 1, 0).err(), Some(ERR_PARAM));
    assert_eq!(
        ffi::lr2021_lora_set_packet_params(8, 0, 255, 1, 0).unwrap().params().to_vec(),
        vec![0, 8, 255, 2]
    );
    assert_eq!(ffi::lr2021_lora_set_cad_params(false, 1, 0, 0, 0, -5, 0).err(), Some(ERR_PARAM));
    assert_eq!(ffi::lr2021_lora_set_cad_params(false, 1, 0, 0, 0, 5, 0).err(), Some(ERR_NULL_HAL));
    assert_eq!(
        ffi::lr2021_lora_set_cad_params(true, 1, 0, 0, 0, 0x0100_0000, 0).err(),
        Some(ERR_BUFFER)
    );
    assert_eq!(
        ffi::lr2021_lora_set_cad_params(true, 2, 1, 3, 0, 1, 0x81).unwrap().params().to_vec(),
        vec![2, 0x13, 0, 0, 0, 1, 0x01]
    );
}

#[test]
fn byte_arguments_out_of_range_are_refused_not_truncated() {
    assert_eq!(ffi::byte_arg(255), Ok(255));
    assert_eq!(ffi::byte_arg(256), Err(ERR_PARAM));
    assert_eq!(ffi::byte_arg(-1), Err(ERR_PARAM));
    // A valid SF/BW/CR with an LDRO that does not fit a byte.
    assert_eq!(ffi::lr2021_lora_set_modulation_params(true, 9, 4, 1, 256, 0).err(), Some(ERR_PARAM));
    assert_eq!(ffi::lr2021_lora_set_modulation_params(false, 9, 4, 1, -1, 0).err(), Some(ERR_PARAM));
    // CRC 256 would truncate to CRC off.
    assert_eq!(ffi::lr2021_lora_set_packet_params(8, 0, 10, 256, 0).err(), Some(ERR_PARAM));
    assert_eq!(ffi::lr2021_lora_set_packet_params(8, 0x100, 10, 1, 0).err(), Some(ERR_PARAM));
    assert_eq!(ffi::lr2021_lora_set_packet_params(8, 0, 10, 1, -1).err(), Some(ERR_PARAM));
    assert_eq!(ffi::lr2021_set_power_dbm(false, 10, 256).err(), Some(ERR_PARAM));
    assert_eq!(ffi::lr2021_set_power_dbm(true, 10, 5).unwrap()[2].params().to_vec(), vec![38, 5]);
    assert_eq!(ffi::lr2021_lora_set_cad_params(false, 256, 0, 0, 0, 5, 0).err(), Some(ERR_PARAM));
    assert_eq!(ffi::lr2021_lora_set_cad_params(true, 1, 0, 0, 0, 5, 0x80).err(), None);
    assert_eq!(ffi::lr2021_lora_set_cad_params(true, 1, 0, 0x10, 0, 5, 0).err(), None);
    assert_eq!(ffi::lr2021_lora_set_cad_params(true, 1, 0, 0, 300, 5, 0).err(), Some(ERR_PARAM));
    assert_eq!(ffi::lr2021_lora_set_cad_params(true, 1, 0, 0, 0, 5, -2).err(), Some(ERR_PARAM));
}
