//! Argument checks and result encoding for the C entry points.
//!
//! Every entry point returns an `i32`: 0 or a value on success, one of the
//! negative codes on failure. Results wider than that come back as arrays of
//! `i32` words for the caller's out pointer, so neither side allocates.
//!
//! Parameters arrive as `i32` rather than `u8`/`u16` on purpose: a narrow C
//! parameter truncates an out-of-range argument silently, which turns a typo in
//! a Python caller into a radio that is configured wrongly but reports success.
//! Taking them wide lets the range check happen here and fail loudly instead.
//!
//! Where an entry point checks its arguments before it looks at the callback
//! table, the function here takes `hal_present` so that the order of the checks,
//! and so which error wins, stays exact.

use vstd::prelude::*;
use crate::cmd;
use crate::flrc::{self, ERR_PARAM, RATES};
use crate::hal::{ERR_NULL_HAL, OK};
use crate::lora::{self, PacketStatus};
use crate::radio;
use crate::system::Version;
use crate::xfer::{self, Command};

verus! {

/// A status result as the boundary reports it.
pub fn status_of(r: Result<(), i32>) -> (code: i32)
    ensures
        code == (match r {
            Ok(()) => OK,
            Err(e) => e,
        }),
{
    match r {
        Ok(()) => OK,
        Err(e) => e,
    }
}

/// Returns a non-negative value as itself, or the error code.
pub fn value_of(r: Result<u16, i32>) -> (code: i32)
    ensures
        code == (match r {
            Ok(v) => v as i32,
            Err(e) => e,
        }),
{
    match r {
        Ok(v) => v as i32,
        Err(e) => e,
    }
}

/// A word as the `i32` that carries it: the same 32 bits, read as two's
/// complement.
pub open spec fn as_word(v: u32) -> i32 {
    (if v < 0x8000_0000 {
        v as int
    } else {
        v - 0x1_0000_0000
    }) as i32
}

fn word_of(v: u32) -> (w: i32)
    ensures
        w == as_word(v),
{
    let w = v as i32;
    assert(w == (if v < 0x8000_0000 { v as int } else { v - 0x1_0000_0000 })) by (bit_vector)
        requires
            w == v as i32,
    ;
    w
}

/// Whether an argument fits the byte its command field carries.
pub open spec fn is_byte(x: i32) -> bool {
    0 <= x <= 0xFF
}

/// An argument as the byte it stands for, or `ERR_PARAM` if it does not fit:
/// out-of-range values are refused rather than truncated.
pub fn byte_arg(x: i32) -> (r: Result<u8, i32>)
    ensures
        is_byte(x) ==> r == Ok::<u8, i32>(x as u8),
        !is_byte(x) ==> r == Err::<u8, i32>(ERR_PARAM),
{
    if 0 <= x && x <= 0xFF {
        Ok(x as u8)
    } else {
        Err(ERR_PARAM)
    }
}

/// Channel bitrate in kbps for a combined `brBw` code, or `ERR_PARAM`.
pub fn lr2021_flrc_bitrate_kbps(br_bw: i32) -> (code: i32)
    ensures
        code == (if 0 <= br_bw < 8 { RATES@[br_bw as int].0 as i32 } else { ERR_PARAM }),
{
    if !(0 <= br_bw && br_bw <= 0xFF) {
        return ERR_PARAM;
    }
    match flrc::bitrate_kbps(br_bw as u8) {
        Some(v) => v as i32,
        None => ERR_PARAM,
    }
}

/// Channel bandwidth in kHz for a combined `brBw` code, or `ERR_PARAM`.
pub fn lr2021_flrc_bandwidth_khz(br_bw: i32) -> (code: i32)
    ensures
        code == (if 0 <= br_bw < 8 { RATES@[br_bw as int].1 as i32 } else { ERR_PARAM }),
{
    if !(0 <= br_bw && br_bw <= 0xFF) {
        return ERR_PARAM;
    }
    match flrc::bandwidth_khz(br_bw as u8) {
        Some(v) => v as i32,
        None => ERR_PARAM,
    }
}

/// Validates a modulation pair and packs it into the low two bytes.
///
/// Returned as one integer rather than an out-struct: two bytes is small
/// enough that a struct would cost more at the boundary than it saves.
pub fn lr2021_flrc_modulation_params(br_bw: i32, cr: i32, shaping: i32) -> (code: i32)
    ensures
        code == (if 0 <= br_bw < 8 && 0 <= cr < 4 && 0 <= shaping <= 0xFF
            && flrc::is_flrc_shaping(shaping as u8) {
            br_bw * 256 + cr * 16 + shaping
        } else {
            ERR_PARAM as int
        }),
{
    if !(0 <= br_bw && br_bw <= 0xFF) || !(0 <= cr && cr <= 0xFF) || !(0 <= shaping && shaping
        <= 0xFF) {
        return ERR_PARAM;
    }
    match flrc::modulation_params(br_bw as u8, cr as u8, shaping as u8) {
        Ok(p) => {
            let (p0, p1) = (p[0], p[1]);
            let w = ((p0 as i32) << 8) | (p1 as i32);
            assert(w == p0 * 256 + p1) by (bit_vector)
                requires
                    w == ((p0 as i32) << 8) | (p1 as i32),
            ;
            w
        },
        Err(e) => e,
    }
}

/// Measured payload goodput in bits per second.
///
/// Caps at `i32::MAX` rather than wrapping: 2.1 Gbps is far past anything this
/// part can do, so a value that large means the inputs were wrong.
pub fn lr2021_flrc_goodput_bps(bytes: i32, elapsed_ms: i32) -> (code: i32)
    ensures
        code == (if bytes < 0 || elapsed_ms < 0 {
            ERR_PARAM as int
        } else {
            let g = flrc::goodput_of(bytes as u32, elapsed_ms as u32);
            if g > i32::MAX { i32::MAX as int } else { g }
        }),
{
    if bytes < 0 || elapsed_ms < 0 {
        return ERR_PARAM;
    }
    if elapsed_ms == 0 {
        return 0;
    }
    // The full 64-bit rate, capped before it is narrowed.
    let bits: u64 = (bytes as u64) * 8 * 1000;
    let q: u64 = bits / (elapsed_ms as u64);
    if q > (i32::MAX as u64) {
        i32::MAX
    } else {
        q as i32
    }
}

/// Packet error rate in tenths of a percent.
pub fn lr2021_flrc_per_permille(sent: i32, received: i32) -> (code: i32)
    ensures
        code == (if sent < 0 || received < 0 {
            ERR_PARAM as int
        } else {
            flrc::per_of(sent as u32, received as u32) as int
        }),
{
    if sent < 0 || received < 0 {
        return ERR_PARAM;
    }
    flrc::per_permille(sent as u32, received as u32) as i32
}

/// Bandwidth in Hz for a code, or `ERR_PARAM`. Needs no chip.
pub fn lr2021_lora_bw_hz(bw: i32) -> (code: i32)
    ensures
        code == (if 0 <= bw <= 0xFF && cmd::bw_hz_of(bw as u8) is Some {
            cmd::bw_hz_of(bw as u8)->0 as int
        } else {
            ERR_PARAM as int
        }),
{
    if !(0 <= bw && bw <= 0xFF) {
        return ERR_PARAM;
    }
    match cmd::lora_bw_hz(bw as u8) {
        Some(hz) => hz as i32,
        None => ERR_PARAM,
    }
}

/// Whether low data rate optimization is needed, as 1 or 0, or `ERR_PARAM`.
/// Needs no chip.
pub fn lr2021_lora_ldro_needed(sf: i32, bw: i32) -> (code: i32)
    requires
        (0 <= sf <= 0xFF && 0 <= bw <= 0xFF && cmd::bw_hz_of(bw as u8) is Some) ==> sf <= 22,
    ensures
        code == (if !(0 <= sf <= 0xFF) || !(0 <= bw <= 0xFF) {
            ERR_PARAM
        } else if lora::ldro_rule(sf as u8, bw as u8) {
            1i32
        } else {
            0i32
        }),
{
    if !(0 <= sf && sf <= 0xFF) || !(0 <= bw && bw <= 0xFF) {
        return ERR_PARAM;
    }
    if lora::ldro_needed(sf as u8, bw as u8) {
        1
    } else {
        0
    }
}

// ─── System ──────────────────────────────────────────────────────────────────

/// stat1, stat2 and the interrupt vector as words, once stat1 shows a chip is
/// answering.
///
/// This is the cheapest proof that a chip is present, so the undriven-MISO
/// check lives on this path rather than in the caller.
pub fn lr2021_get_status(r: Result<(u8, u8, u32), i32>) -> (out: Result<[i32; 3], i32>)
    ensures
        out == (match r {
            Err(e) => Err(e),
            Ok((s1, s2, irq)) => if s1 == 0x00 || s1 == 0xFF {
                Err(crate::hal::ERR_NO_CHIP)
            } else {
                Ok::<[i32; 3], i32>([s1 as i32, s2 as i32, as_word(irq)])
            },
        }),
{
    let (s1, s2, irq) = r?;
    xfer::check_status(s1)?;
    Ok([s1 as i32, s2 as i32, word_of(irq)])
}

/// Firmware major and minor as words.
pub fn lr2021_get_version(r: Result<Version, i32>) -> (out: Result<[i32; 2], i32>)
    ensures
        out == (match r {
            Err(e) => Err(e),
            Ok(v) => Ok::<[i32; 2], i32>([v.fw_major as i32, v.fw_minor as i32]),
        }),
{
    let v = r?;
    Ok([v.fw_major as i32, v.fw_minor as i32])
}

/// A 32-bit random word as the `i32` that carries it, which a return value
/// cannot.
pub fn lr2021_get_random_number(r: Result<u32, i32>) -> (out: Result<i32, i32>)
    ensures
        out == (match r {
            Err(e) => Err(e),
            Ok(v) => Ok::<i32, i32>(as_word(v)),
        }),
{
    let v = r?;
    Ok(word_of(v))
}

// ─── Radio ───────────────────────────────────────────────────────────────────

/// The SetRfFrequency command for a positive frequency, or `ERR_PARAM`.
pub fn lr2021_set_rf_frequency(hz: i32) -> (r: Result<Command, i32>)
    ensures
        hz <= 0 ==> r == Err::<Command, i32>(ERR_PARAM),
        hz > 0 ==> (r matches Ok(c) && xfer::is_command(
            c,
            cmd::CMD_SET_RF_FREQUENCY,
            xfer::be32_bytes(hz as int),
        )),
{
    if hz <= 0 {
        return Err(ERR_PARAM);
    }
    Ok(radio::set_rf_frequency(hz as u32))
}

/// The commands for `dbm`, after the range checks on `dbm` and `ramp`, the
/// callback-table check and the table lookup, in that order.
pub fn lr2021_set_power_dbm(hal_present: bool, dbm: i32, ramp: i32) -> (r: Result<
    [Command; 3],
    i32,
>)
    ensures
        !(-128 <= dbm <= 127 && is_byte(ramp)) ==> r == Err::<[Command; 3], i32>(ERR_PARAM),
        (-128 <= dbm <= 127 && is_byte(ramp) && !hal_present) ==> r == Err::<[Command; 3], i32>(
            ERR_NULL_HAL,
        ),
        (-128 <= dbm <= 127 && is_byte(ramp) && hal_present) ==> (radio::LF_POWER_MIN <= dbm
            <= radio::LF_POWER_MAX <==> r is Ok),
        (-128 <= dbm <= 127 && is_byte(ramp) && hal_present && !(radio::LF_POWER_MIN <= dbm
            <= radio::LF_POWER_MAX)) ==> r == Err::<[Command; 3], i32>(crate::hal::ERR_BUFFER),
        r matches Ok(cs) ==> radio::power_commands_are(cs@, dbm as i8, ramp as u8),
{
    if !(-128 <= dbm && dbm <= 127) {
        return Err(ERR_PARAM);
    }
    let ramp = byte_arg(ramp)?;
    if !hal_present {
        return Err(ERR_NULL_HAL);
    }
    radio::set_power_dbm(dbm as i8, ramp)
}

/// The SetRx command for a timeout, after the sign check, the callback-table
/// check and the 24-bit check, in that order.
pub fn lr2021_set_rx(hal_present: bool, timeout: i32) -> (r: Result<Command, i32>)
    ensures
        timeout < 0 ==> r == Err::<Command, i32>(ERR_PARAM),
        (timeout >= 0 && !hal_present) ==> r == Err::<Command, i32>(ERR_NULL_HAL),
        (timeout >= 0 && hal_present) ==> (timeout <= cmd::TIMEOUT_MAX <==> r is Ok),
        (timeout > cmd::TIMEOUT_MAX && hal_present) ==> r == Err::<Command, i32>(
            crate::hal::ERR_BUFFER,
        ),
        r matches Ok(c) ==> xfer::is_command(c, cmd::CMD_SET_RX, xfer::be24_bytes(timeout as int)),
{
    if timeout < 0 {
        return Err(ERR_PARAM);
    }
    if !hal_present {
        return Err(ERR_NULL_HAL);
    }
    radio::set_rx(timeout as u32)
}

/// The SetTx command for a timeout, checked as [`lr2021_set_rx`] checks it.
pub fn lr2021_set_tx(hal_present: bool, timeout: i32) -> (r: Result<Command, i32>)
    ensures
        timeout < 0 ==> r == Err::<Command, i32>(ERR_PARAM),
        (timeout >= 0 && !hal_present) ==> r == Err::<Command, i32>(ERR_NULL_HAL),
        (timeout >= 0 && hal_present) ==> (timeout <= cmd::TIMEOUT_MAX <==> r is Ok),
        (timeout > cmd::TIMEOUT_MAX && hal_present) ==> r == Err::<Command, i32>(
            crate::hal::ERR_BUFFER,
        ),
        r matches Ok(c) ==> xfer::is_command(c, cmd::CMD_SET_TX, xfer::be24_bytes(timeout as int)),
{
    if timeout < 0 {
        return Err(ERR_PARAM);
    }
    if !hal_present {
        return Err(ERR_NULL_HAL);
    }
    radio::set_tx(timeout as u32)
}

/// The interrupt vector as a non-negative word, or the error code.
///
/// The vector is 26 bits wide, so it always fits the non-negative half of the
/// return value and needs no out pointer; bit 31 is dropped regardless.
pub fn lr2021_get_and_clear_irq_status(r: Result<u32, i32>) -> (code: i32)
    ensures
        code == (match r {
            Ok(v) => (v % 0x8000_0000) as i32,
            Err(e) => e,
        }),
        r is Ok ==> code >= 0,
{
    match r {
        Ok(v) => {
            let m = v & 0x7FFF_FFFF;
            assert(m == v % 0x8000_0000) by (bit_vector)
                requires
                    m == v & 0x7FFF_FFFF,
            ;
            m as i32
        },
        Err(e) => e,
    }
}

// ─── LoRa ────────────────────────────────────────────────────────────────────

/// The SetLoRaModulationParams command, after the byte-range checks on SF,
/// BW, CR and LDRO, the callback-table check and [`lora::validate`], in that
/// order. Any non-zero `high_band` means the high band.
pub fn lr2021_lora_set_modulation_params(
    hal_present: bool,
    sf: i32,
    bw: i32,
    cr: i32,
    ldro: i32,
    high_band: i32,
) -> (r: Result<Command, i32>)
    ensures
        !(is_byte(sf) && is_byte(bw) && is_byte(cr) && is_byte(ldro)) ==> r == Err::<Command, i32>(
            ERR_PARAM,
        ),
        (is_byte(sf) && is_byte(bw) && is_byte(cr) && is_byte(ldro) && !hal_present) ==> r
            == Err::<Command, i32>(ERR_NULL_HAL),
        (is_byte(sf) && is_byte(bw) && is_byte(cr) && is_byte(ldro) && hal_present) ==> (
        lora::lora_params_valid(sf as u8, bw as u8, cr as u8, high_band != 0) <==> r is Ok),
        (is_byte(sf) && is_byte(bw) && is_byte(cr) && is_byte(ldro) && hal_present
            && !lora::lora_params_valid(sf as u8, bw as u8, cr as u8, high_band != 0)) ==> r
            == Err::<Command, i32>(crate::hal::ERR_BUFFER),
        r matches Ok(c) ==> xfer::is_command(
            c,
            cmd::CMD_SET_LORA_MODULATION_PARAMS,
            lora::modulation_bytes(sf as u8, bw as u8, cr as u8, ldro as u8),
        ),
{
    let sf = byte_arg(sf)?;
    let bw = byte_arg(bw)?;
    let cr = byte_arg(cr)?;
    let ldro = byte_arg(ldro)?;
    if !hal_present {
        return Err(ERR_NULL_HAL);
    }
    lora::set_modulation_params(sf, bw, cr, ldro, high_band != 0)
}

/// The SetLoRaPacketParams command, once the preamble length fits 16 bits and
/// the payload length and the three flags fit a byte each.
pub fn lr2021_lora_set_packet_params(
    preamble_len: i32,
    header_type: i32,
    payload_len: i32,
    crc: i32,
    invert_iq: i32,
) -> (r: Result<Command, i32>)
    ensures
        (0 <= preamble_len <= 0xFFFF && is_byte(header_type) && is_byte(payload_len) && is_byte(
            crc,
        ) && is_byte(invert_iq)) <==> r is Ok,
        r is Err ==> r == Err::<Command, i32>(ERR_PARAM),
        r matches Ok(c) ==> xfer::is_command(
            c,
            cmd::CMD_SET_LORA_PACKET_PARAMS,
            lora::packet_bytes(
                preamble_len as u16,
                header_type as u8,
                payload_len as u8,
                crc as u8,
                invert_iq as u8,
            ),
        ),
{
    if !(0 <= preamble_len && preamble_len <= 0xFFFF) {
        return Err(ERR_PARAM);
    }
    let header_type = byte_arg(header_type)?;
    let payload_len = byte_arg(payload_len)?;
    let crc = byte_arg(crc)?;
    let invert_iq = byte_arg(invert_iq)?;
    Ok(lora::set_packet_params(preamble_len as u16, header_type, payload_len, crc, invert_iq))
}

/// cr, has_crc, len, snr, rssi_pkt, rssi_signal and detector as words.
///
/// The two RSSI fields and the SNR stay in raw register units: dBm is
/// `-rssi / 2` and dB is `snr / 4`.
pub fn lr2021_lora_get_packet_status(r: Result<PacketStatus, i32>) -> (out: Result<
    [i32; 7],
    i32,
>)
    ensures
        out == (match r {
            Err(e) => Err(e),
            Ok(s) => Ok::<[i32; 7], i32>(
                [
                    s.cr as i32,
                    if s.has_crc { 1i32 } else { 0i32 },
                    s.len as i32,
                    s.snr_pkt as i32,
                    s.rssi_pkt as i32,
                    s.rssi_signal_pkt as i32,
                    s.detector as i32,
                ],
            ),
        }),
{
    let s = r?;
    Ok(
        [
            s.cr as i32,
            if s.has_crc { 1 } else { 0 },
            s.len as i32,
            s.snr_pkt as i32,
            s.rssi_pkt as i32,
            s.rssi_signal_pkt as i32,
            s.detector as i32,
        ],
    )
}

/// Received, CRC errors, header CRC errors and false syncs as words.
pub fn lr2021_lora_get_rx_stats(r: Result<(u16, u16, u16, u16), i32>) -> (out: Result<
    [i32; 4],
    i32,
>)
    ensures
        out == (match r {
            Err(e) => Err(e),
            Ok((a, b, c, d)) => Ok::<[i32; 4], i32>([a as i32, b as i32, c as i32, d as i32]),
        }),
{
    let (a, b, c, d) = r?;
    Ok([a as i32, b as i32, c as i32, d as i32])
}

/// The SetLoRaCadParams command, after the sign check on the timeout and the
/// byte-range checks on the byte arguments, then the callback-table check and
/// the 24-bit check, in that order. Any non-zero `preamble_only` means yes.
pub fn lr2021_lora_set_cad_params(
    hal_present: bool,
    sym_num: i32,
    preamble_only: i32,
    pnr_delta: i32,
    exit_mode: i32,
    timeout: i32,
    det_peak: i32,
) -> (r: Result<Command, i32>)
    ensures
        !(timeout >= 0 && is_byte(sym_num) && is_byte(pnr_delta) && is_byte(exit_mode) && is_byte(
            det_peak,
        )) ==> r == Err::<Command, i32>(ERR_PARAM),
        (timeout >= 0 && is_byte(sym_num) && is_byte(pnr_delta) && is_byte(exit_mode) && is_byte(
            det_peak,
        ) && !hal_present) ==> r == Err::<Command, i32>(ERR_NULL_HAL),
        (timeout >= 0 && is_byte(sym_num) && is_byte(pnr_delta) && is_byte(exit_mode) && is_byte(
            det_peak,
        ) && hal_present) ==> (timeout <= cmd::TIMEOUT_MAX <==> r is Ok),
        (timeout > cmd::TIMEOUT_MAX && is_byte(sym_num) && is_byte(pnr_delta) && is_byte(exit_mode)
            && is_byte(det_peak) && hal_present) ==> r == Err::<Command, i32>(
            crate::hal::ERR_BUFFER,
        ),
        r matches Ok(c) ==> xfer::is_command(
            c,
            cmd::CMD_SET_LORA_CAD_PARAMS,
            lora::cad_bytes(
                sym_num as u8,
                preamble_only != 0,
                pnr_delta as u8,
                exit_mode as u8,
                timeout as u32,
                det_peak as u8,
            ),
        ),
{
    if timeout < 0 {
        return Err(ERR_PARAM);
    }
    let sym_num = byte_arg(sym_num)?;
    let pnr_delta = byte_arg(pnr_delta)?;
    let exit_mode = byte_arg(exit_mode)?;
    let det_peak = byte_arg(det_peak)?;
    if !hal_present {
        return Err(ERR_NULL_HAL);
    }
    lora::set_cad_params(sym_num, preamble_only != 0, pnr_delta, exit_mode, timeout as u32, det_peak)
}

} // verus!
