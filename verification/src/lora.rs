//! LoRa modulation and packet parameters.
//!
//! Everything here is only valid while the packet type is LoRa, and the chip
//! range-checks none of it: an impossible spreading factor or a 2.4 GHz-only
//! bandwidth used sub-GHz produces a radio that reports success and then hears
//! nothing, so the checks happen here instead.
//!
//! The parameter layouts are packed, and differently from the LR1121's: this
//! part folds SF and BW into one byte, CR and LDRO into another, and header
//! type, CRC and IQ into three bits of a fourth.

use vstd::prelude::*;
use vstd::arithmetic::power2::pow2;
use crate::cmd;
use crate::hal::ERR_BUFFER;
use crate::xfer::{accept_status, accept_status_spec, be24_bytes, is_command, u16_from_be, Command, Query};

verus! {

/// Status of the last received LoRa frame, in raw register units.
///
/// The two RSSI fields are 9-bit counts of a half dBm, so dBm is `-raw / 2`;
/// `snr_pkt` is quarter-dB, so dB is `raw / 4`. The conversions need
/// fractions, which the integer-only boundary does not carry, so they are left
/// to the caller.
#[derive(Debug, Clone, Copy, PartialEq, Eq, Structural, Default)]
pub struct PacketStatus {
    /// Coding rate from the received explicit header.
    pub cr: u8,
    /// Whether the transmitter enabled a payload CRC.
    pub has_crc: bool,
    pub len: u8,
    pub snr_pkt: i8,
    pub rssi_pkt: u16,
    pub rssi_signal_pkt: u16,
    /// Which of the parallel detectors caught the frame, 0-3.
    pub detector: u8,
}

/// Whether the chip can encode this spreading factor, bandwidth and coding
/// rate on the band given.
pub open spec fn lora_params_valid(sf: u8, bw: u8, cr: u8, high_band: bool) -> bool {
    &&& cmd::LORA_SF_MIN <= sf <= cmd::LORA_SF_MAX
    &&& cmd::bw_hz_of(bw) is Some
    &&& (cmd::is_high_band_bw(bw) ==> high_band)
    &&& 1 <= cr <= cmd::LORA_CR_MAX
}

/// Rejects SF/BW/CR combinations the chip cannot encode.
///
/// `high_band` must be true above 1 GHz. It is an argument rather than
/// something derived from a frequency because the driver never infers the
/// band: a wrong guess transmits into an antenna that is not fitted.
pub fn validate(sf: u8, bw: u8, cr: u8, high_band: bool) -> (r: Result<(), i32>)
    ensures
        r == (if lora_params_valid(sf, bw, cr, high_band) {
            Ok::<(), i32>(())
        } else {
            Err(ERR_BUFFER)
        }),
{
    if !(cmd::LORA_SF_MIN <= sf && sf <= cmd::LORA_SF_MAX) {
        return Err(ERR_BUFFER);
    }
    if cmd::lora_bw_hz(bw).is_none() {
        return Err(ERR_BUFFER);
    }
    if cmd::bw_needs_high_band(bw) && !high_band {
        return Err(ERR_BUFFER);
    }
    if cr == 0 || cr > cmd::LORA_CR_MAX {
        return Err(ERR_BUFFER);
    }
    Ok(())
}

/// The two bytes of SetLoRaModulationParams: SF and BW as the high and low
/// nibble of the first, CR and LDRO as those of the second.
pub open spec fn modulation_bytes(sf: u8, bw: u8, cr: u8, ldro: u8) -> Seq<u8> {
    seq![((sf % 16) * 16 + bw % 16) as u8, ((cr % 16) * 16 + ldro % 16) as u8]
}

/// Packs SF, BW, CR and LDRO into the two bytes SetLoRaModulationParams wants.
///
/// Separate from the command so the packing can be pinned by a test without a
/// chip; getting a nibble the wrong way round here is invisible on the wire.
pub fn modulation_params(sf: u8, bw: u8, cr: u8, ldro: u8) -> (p: [u8; 2])
    ensures
        p@ == modulation_bytes(sf, bw, cr, ldro),
{
    let b0 = ((sf & 0x0F) << 4) | (bw & 0x0F);
    let b1 = ((cr & 0x0F) << 4) | (ldro & 0x0F);
    assert(b0 == (sf % 16) * 16 + bw % 16) by (bit_vector)
        requires
            b0 == ((sf & 0x0F) << 4) | (bw & 0x0F),
    ;
    assert(b1 == (cr % 16) * 16 + ldro % 16) by (bit_vector)
        requires
            b1 == ((cr & 0x0F) << 4) | (ldro & 0x0F),
    ;
    let p = [b0, b1];
    assert(p@ =~= modulation_bytes(sf, bw, cr, ldro));
    p
}

/// Whether a symbol at this SF and bandwidth lasts 16 ms or more: `2^sf / bw`
/// seconds, compared as `2^sf * 1000 >= 16 * bw`. Never for a code that is not
/// a bandwidth.
pub open spec fn ldro_rule(sf: u8, bw: u8) -> bool {
    match cmd::bw_hz_of(bw) {
        Some(hz) => pow2(sf as nat) * 1000 >= 16 * hz,
        None => false,
    }
}

/// Whether low data rate optimization is required for this SF and bandwidth.
///
/// The chip does not apply it on its own, and without it the long-symbol rates
/// drift far enough within a frame to lose it. The rule is a symbol time at or
/// above 16 ms, which is what the reference driver uses sub-GHz. The
/// arithmetic is 32-bit, which holds `2^sf * 1000` up to SF22.
pub fn ldro_needed(sf: u8, bw: u8) -> (r: bool)
    requires
        cmd::bw_hz_of(bw) is Some ==> sf <= 22,
    ensures
        r == ldro_rule(sf, bw),
{
    match cmd::lora_bw_hz(bw) {
        Some(hz) => {
            proof {
                vstd::arithmetic::power2::lemma2_to64();
                vstd::bits::lemma_u32_pow2_no_overflow(sf as nat);
                vstd::bits::lemma_u32_shl_is_mul(1, sf as u32);
                if sf < 22 {
                    vstd::arithmetic::power2::lemma_pow2_strictly_increases(sf as nat, 22);
                }
            }
            let sym: u32 = 1u32 << (sf as u32);
            sym * 1000 >= 16 * hz
        },
        None => false,
    }
}

/// The SetLoRaModulationParams command for a validated configuration.
pub fn set_modulation_params(sf: u8, bw: u8, cr: u8, ldro: u8, high_band: bool) -> (r: Result<
    Command,
    i32,
>)
    ensures
        lora_params_valid(sf, bw, cr, high_band) <==> r is Ok,
        r is Err ==> r == Err::<Command, i32>(ERR_BUFFER),
        r matches Ok(c) ==> is_command(
            c,
            cmd::CMD_SET_LORA_MODULATION_PARAMS,
            modulation_bytes(sf, bw, cr, ldro),
        ),
{
    validate(sf, bw, cr, high_band)?;
    let p = modulation_params(sf, bw, cr, ldro);
    let c = Command::new(cmd::CMD_SET_LORA_MODULATION_PARAMS, &p);
    Ok(c)
}

/// The four bytes of SetLoRaPacketParams: preamble length big-endian, payload
/// length, then header type, CRC and IQ as bits 2, 1 and 0.
pub open spec fn packet_bytes(
    preamble_len: u16,
    header_type: u8,
    payload_len: u8,
    crc: u8,
    invert_iq: u8,
) -> Seq<u8> {
    seq![
        (preamble_len / 256) as u8,
        (preamble_len % 256) as u8,
        payload_len,
        ((header_type % 2) * 4 + (crc % 2) * 2 + invert_iq % 2) as u8,
    ]
}

/// Packs the four bytes SetLoRaPacketParams wants.
///
/// Note the order: the payload length comes *before* the flags byte, and the
/// three flags share that one byte. The LR1121 spends six bytes on the same
/// information, so the layouts are not interchangeable.
pub fn packet_params(
    preamble_len: u16,
    header_type: u8,
    payload_len: u8,
    crc: u8,
    invert_iq: u8,
) -> (p: [u8; 4])
    ensures
        p@ == packet_bytes(preamble_len, header_type, payload_len, crc, invert_iq),
{
    let b0 = (preamble_len >> 8) as u8;
    let b1 = preamble_len as u8;
    let b3 = ((header_type & 0x01) << 2) | ((crc & 0x01) << 1) | (invert_iq & 0x01);
    assert(b0 == preamble_len / 256) by (bit_vector)
        requires
            b0 == (preamble_len >> 8) as u8,
    ;
    assert(b1 == preamble_len % 256) by (bit_vector)
        requires
            b1 == preamble_len as u8,
    ;
    assert(b3 == (header_type % 2) * 4 + (crc % 2) * 2 + invert_iq % 2) by (bit_vector)
        requires
            b3 == ((header_type & 0x01) << 2) | ((crc & 0x01) << 1) | (invert_iq & 0x01),
    ;
    let p = [b0, b1, payload_len, b3];
    assert(p@ =~= packet_bytes(preamble_len, header_type, payload_len, crc, invert_iq));
    p
}

/// Preamble length, header mode, payload length, CRC and IQ inversion.
///
/// `payload_len` is the length to transmit. In implicit header mode it is also
/// the exact length to receive, since there is no header to learn it from. In
/// explicit header mode it still matters on receive: it is the largest payload
/// the modem will accept, and a packet announcing more is abandoned at
/// header-decode time, without an `RxDone` and without a CRC error. A receiver
/// left holding a transmit length therefore goes quietly deaf to anything
/// longer.
pub fn set_packet_params(
    preamble_len: u16,
    header_type: u8,
    payload_len: u8,
    crc: u8,
    invert_iq: u8,
) -> (c: Command)
    ensures
        is_command(
            c,
            cmd::CMD_SET_LORA_PACKET_PARAMS,
            packet_bytes(preamble_len, header_type, payload_len, crc, invert_iq),
        ),
{
    let p = packet_params(preamble_len, header_type, payload_len, crc, invert_iq);
    let c = Command::new(cmd::CMD_SET_LORA_PACKET_PARAMS, &p);
    c
}

/// The SetLoRaSyncWord command.
pub fn set_sync_word(sync_word: u8) -> (c: Command)
    ensures
        is_command(c, cmd::CMD_SET_LORA_SYNCWORD, seq![sync_word]),
{
    let bytes = [sync_word];
    assert(bytes@ =~= seq![sync_word]);
    let c = Command::new(cmd::CMD_SET_LORA_SYNCWORD, &bytes);
    c
}

/// Aborts reception if no header arrives within this many symbols.
///
/// `mantissa_exponent` selects the alternate encoding of `symbols`; the plain
/// symbol count is what a receive loop wants.
pub fn set_synch_timeout(symbols: u8, mantissa_exponent: bool) -> (c: Command)
    ensures
        is_command(
            c,
            cmd::CMD_SET_LORA_SYNCH_TIMEOUT,
            seq![symbols, if mantissa_exponent { 1u8 } else { 0u8 }],
        ),
{
    let flag: u8 = if mantissa_exponent { 1 } else { 0 };
    let bytes = [symbols, flag];
    assert(bytes@ =~= seq![symbols, flag]);
    let c = Command::new(cmd::CMD_SET_LORA_SYNCH_TIMEOUT, &bytes);
    c
}

/// The detector index that a one-hot field names; anything else reads as 0.
pub open spec fn detector_of(one_hot: int) -> u8 {
    if one_hot == 2 {
        1
    } else if one_hot == 4 {
        2
    } else if one_hot == 8 {
        3
    } else {
        0
    }
}

/// A byte read as two's complement.
pub open spec fn signed_of(b: u8) -> int {
    if b < 128 {
        b as int
    } else {
        b - 256
    }
}

/// What the six-byte GetLoRaPacketStatus reply says.
///
/// Byte 0 holds the coding rate (bits 3:0) and the CRC flag (bit 4); byte 1 the
/// length; byte 2 the SNR; bytes 3 and 4 the top eight bits of each RSSI, whose
/// ninth bits are bits 1 and 0 of byte 5; bits 5:2 of byte 5 name the detector
/// one-hot.
pub open spec fn packet_status_of(buf: Seq<u8>) -> PacketStatus {
    PacketStatus {
        cr: buf[0] % 16,
        has_crc: (buf[0] / 16) % 2 == 1,
        len: buf[1],
        snr_pkt: signed_of(buf[2]) as i8,
        rssi_pkt: (buf[3] * 2 + (buf[5] / 2) % 2) as u16,
        rssi_signal_pkt: (buf[4] * 2 + buf[5] % 2) as u16,
        detector: detector_of(((buf[5] / 4) % 16) as int),
    }
}

/// Decodes the six-byte GetLoRaPacketStatus reply.
pub fn decode_packet_status(buf: &[u8; 6]) -> (s: PacketStatus)
    ensures
        s == packet_status_of(buf@),
        s.snr_pkt as int == signed_of(buf@[2]),
{
    let (b0, b2, b3, b4, b5) = (buf[0], buf[2], buf[3], buf[4], buf[5]);
    // Each RSSI is nine bits: eight in its own byte and the ninth scattered
    // into the trailing flags byte.
    let rssi_pkt = ((b3 as u16) << 1) | ((b5 as u16 & 0x02) >> 1);
    let rssi_signal_pkt = ((b4 as u16) << 1) | (b5 as u16 & 0x01);
    assert(rssi_pkt == b3 * 2 + (b5 / 2) % 2) by (bit_vector)
        requires
            rssi_pkt == ((b3 as u16) << 1) | ((b5 as u16 & 0x02) >> 1),
    ;
    assert(rssi_signal_pkt == b4 * 2 + b5 % 2) by (bit_vector)
        requires
            rssi_signal_pkt == ((b4 as u16) << 1) | (b5 as u16 & 0x01),
    ;
    // One-hot across bits 5:2, reported as an index.
    let one_hot = (b5 >> 2) & 0x0F;
    assert(one_hot == (b5 / 4) % 16) by (bit_vector)
        requires
            one_hot == (b5 >> 2) & 0x0F,
    ;
    let detector = match one_hot {
        0x01 => 0,
        0x02 => 1,
        0x04 => 2,
        0x08 => 3,
        _ => 0,
    };
    let cr = b0 & 0x0F;
    let flag = b0 & 0x10;
    assert(cr == b0 % 16) by (bit_vector)
        requires
            cr == b0 & 0x0F,
    ;
    assert((flag != 0) == ((b0 / 16) % 2 == 1)) by (bit_vector)
        requires
            flag == b0 & 0x10,
    ;
    let snr = b2 as i8;
    assert(snr as int == (if b2 < 128 { b2 as int } else { b2 - 256 })) by (bit_vector)
        requires
            snr == b2 as i8,
    ;
    PacketStatus {
        cr,
        has_crc: flag != 0,
        len: buf[1],
        snr_pkt: snr,
        rssi_pkt,
        rssi_signal_pkt,
        detector,
    }
}

/// The GetLoRaPacketStatus read: six bytes of payload.
pub fn packet_status_query() -> (q: Query)
    ensures
        q == (Query { opcode: cmd::CMD_GET_LORA_PACKET_STATUS, reply_len: 6 }),
{
    Query { opcode: cmd::CMD_GET_LORA_PACKET_STATUS, reply_len: 6 }
}

/// The status of the last received frame, from the reply to
/// [`packet_status_query`].
pub fn get_packet_status(status: [u8; 2], buf: [u8; 6]) -> (r: Result<PacketStatus, i32>)
    ensures
        r == (match accept_status_spec(status) {
            Ok(_) => Ok(packet_status_of(buf@)),
            Err(e) => Err::<PacketStatus, i32>(e),
        }),
{
    accept_status(status)?;
    Ok(decode_packet_status(&buf))
}

/// The GetLoRaRxStats read: four big-endian counters.
pub fn rx_stats_query() -> (q: Query)
    ensures
        q == (Query { opcode: cmd::CMD_GET_LORA_RX_STATS, reply_len: 8 }),
{
    Query { opcode: cmd::CMD_GET_LORA_RX_STATS, reply_len: 8 }
}

/// Returns (received, CRC errors, header CRC errors, false syncs), from the
/// reply to [`rx_stats_query`].
///
/// All four are big-endian. The false-sync count is diagnostic only, so a
/// byte-swapped value there would be easy to miss; nothing in the command
/// reference suggests it differs from the rest.
pub fn get_rx_stats(status: [u8; 2], buf: [u8; 8]) -> (r: Result<(u16, u16, u16, u16), i32>)
    ensures
        r == (match accept_status_spec(status) {
            Ok(_) => Ok((
                (buf@[0] * 256 + buf@[1]) as u16,
                (buf@[2] * 256 + buf@[3]) as u16,
                (buf@[4] * 256 + buf@[5]) as u16,
                (buf@[6] * 256 + buf@[7]) as u16,
            )),
            Err(e) => Err::<(u16, u16, u16, u16), i32>(e),
        }),
{
    accept_status(status)?;
    Ok((
        u16_from_be(buf[0], buf[1]),
        u16_from_be(buf[2], buf[3]),
        u16_from_be(buf[4], buf[5]),
        u16_from_be(buf[6], buf[7]),
    ))
}

/// The seven bytes of SetLoRaCadParams.
pub open spec fn cad_bytes(
    sym_num: u8,
    preamble_only: bool,
    pnr_delta: u8,
    exit_mode: u8,
    timeout: u32,
    det_peak: u8,
) -> Seq<u8> {
    seq![
        sym_num,
        ((if preamble_only { 16int } else { 0int }) + pnr_delta % 16) as u8,
        exit_mode,
    ] + be24_bytes(timeout as int) + seq![(det_peak % 128) as u8]
}

/// Channel activity detection thresholds and what to do when it finishes.
///
/// The timeout is 24 bits wide; a wider one is refused, not truncated.
pub fn set_cad_params(
    sym_num: u8,
    preamble_only: bool,
    pnr_delta: u8,
    exit_mode: u8,
    timeout: u32,
    det_peak: u8,
) -> (r: Result<Command, i32>)
    ensures
        timeout <= cmd::TIMEOUT_MAX <==> r is Ok,
        r is Err ==> r == Err::<Command, i32>(ERR_BUFFER),
        r matches Ok(c) ==> is_command(
            c,
            cmd::CMD_SET_LORA_CAD_PARAMS,
            cad_bytes(sym_num, preamble_only, pnr_delta, exit_mode, timeout, det_peak),
        ),
{
    if timeout > cmd::TIMEOUT_MAX {
        return Err(ERR_BUFFER);
    }
    let po: u8 = if preamble_only { 1 } else { 0 };
    let b1 = (po << 4) | (pnr_delta & 0x0F);
    assert(b1 == po * 16 + pnr_delta % 16) by (bit_vector)
        requires
            b1 == (po << 4) | (pnr_delta & 0x0F),
            po <= 1,
    ;
    let t = crate::xfer::u32_to_be(timeout);
    let peak = det_peak & 0x7F;
    assert(peak == det_peak % 128) by (bit_vector)
        requires
            peak == det_peak & 0x7F,
    ;
    let bytes = [sym_num, b1, exit_mode, t[1], t[2], t[3], peak];
    assert(bytes@ =~= cad_bytes(sym_num, preamble_only, pnr_delta, exit_mode, timeout, det_peak));
    let c = Command::new(cmd::CMD_SET_LORA_CAD_PARAMS, &bytes);
    Ok(c)
}

/// The SetLoRaCad command, which starts channel activity detection.
pub fn set_cad() -> (c: Command)
    ensures
        is_command(c, cmd::CMD_SET_LORA_CAD, seq![]),
{
    Command::bare(cmd::CMD_SET_LORA_CAD)
}

/// Which configurations the chip can encode, stated over the codes: SF 5 to
/// 12, CR 1 to 9, and a bandwidth from the sub-GHz set `0x02..=0x07` on either
/// band or from the 2.4 GHz set `0x0A..=0x0F` on the high band only.
pub proof fn lemma_lora_params_valid_exactly(sf: u8, bw: u8, cr: u8, high_band: bool)
    ensures
        lora_params_valid(sf, bw, cr, high_band) <==> (5 <= sf <= 12 && 1 <= cr <= 9 && (
        0x02 <= bw <= 0x07 || (0x0A <= bw <= 0x0F && high_band))),
{
    crate::cmd::lemma_bandwidth_codes(bw);
    crate::cmd::lemma_high_band_codes_are_the_fractional_set(bw);
}

/// On a sub-GHz bandwidth, code `bw` (31.25 kHz doubled `bw - 2` times) needs
/// LDRO exactly from SF `bw + 7` up: SF11 at 125 kHz, SF12 at 250 kHz, never
/// below SF13 at 500 kHz.
pub proof fn lemma_ldro_threshold_sub_ghz(sf: u8, bw: u8)
    requires
        0x02 <= bw <= 0x07,
        sf <= 22,
    ensures
        ldro_rule(sf, bw) <==> sf >= bw + 7,
{
    vstd::arithmetic::power2::lemma2_to64();
    assert(ldro_rule(sf, bw) <==> sf >= bw + 7) by {
        if sf == 0 {} else if sf == 1 {} else if sf == 2 {} else if sf == 3 {} else if sf == 4 {
        } else if sf == 5 {} else if sf == 6 {} else if sf == 7 {} else if sf == 8 {
        } else if sf == 9 {} else if sf == 10 {} else if sf == 11 {} else if sf == 12 {
        } else if sf == 13 {} else if sf == 14 {} else if sf == 15 {} else if sf == 16 {
        } else if sf == 17 {} else if sf == 18 {} else if sf == 19 {} else if sf == 20 {
        } else if sf == 21 {} else {}
    }
}

/// The second SetLoRaCadParams byte carries the preamble-only flag in bit 4,
/// set exactly when asked for, over `pnr_delta`'s low nibble; the other bytes
/// are the symbol count, the exit mode, the timeout big-endian and the
/// detection peak's low seven bits.
pub proof fn lemma_cad_params_unpack(
    sym_num: u8,
    preamble_only: bool,
    pnr_delta: u8,
    exit_mode: u8,
    timeout: u32,
    det_peak: u8,
)
    requires
        timeout <= cmd::TIMEOUT_MAX,
    ensures
        ({
            let b = cad_bytes(sym_num, preamble_only, pnr_delta, exit_mode, timeout, det_peak);
            &&& b.len() == 7
            &&& b[0] == sym_num
            &&& ((b[1] / 16) % 2 == 1 <==> preamble_only)
            &&& b[1] % 16 == pnr_delta % 16
            &&& b[1] < 32
            &&& b[2] == exit_mode
            &&& b[3] * 0x1_0000 + b[4] * 0x100 + b[5] == timeout
            &&& b[6] == det_peak % 128
        }),
{
    let b = cad_bytes(sym_num, preamble_only, pnr_delta, exit_mode, timeout, det_peak);
    crate::xfer::lemma_be24_round_trip(timeout);
    let t = be24_bytes(timeout as int);
    reveal_with_fuel(crate::xfer::be_value, 4);
    assert(t.drop_last().drop_last().drop_last() =~= Seq::<u8>::empty());
    assert(t.drop_last().drop_last() =~= seq![t[0]]);
    assert(t.drop_last() =~= seq![t[0], t[1]]);
    assert(b[3] == t[0] && b[4] == t[1] && b[5] == t[2]);
}

/// A configuration that passes [`validate`] survives packing: each field of
/// the two modulation bytes gives back what was asked for.
pub proof fn lemma_validated_modulation_unpacks(sf: u8, bw: u8, cr: u8, ldro: u8, high_band: bool)
    requires
        lora_params_valid(sf, bw, cr, high_band),
        ldro < 16,
    ensures
        ({
            let p = modulation_bytes(sf, bw, cr, ldro);
            &&& p[0] / 16 == sf
            &&& p[0] % 16 == bw
            &&& p[1] / 16 == cr
            &&& p[1] % 16 == ldro
        }),
{
    crate::cmd::lemma_bandwidth_codes(bw);
}

/// The packet parameter bytes give back the preamble length, big-endian, the
/// payload length, and each flag's low bit.
pub proof fn lemma_packet_params_unpack(
    preamble_len: u16,
    header_type: u8,
    payload_len: u8,
    crc: u8,
    invert_iq: u8,
)
    ensures
        ({
            let p = packet_bytes(preamble_len, header_type, payload_len, crc, invert_iq);
            &&& p[0] * 256 + p[1] == preamble_len
            &&& p[2] == payload_len
            &&& (p[3] / 4) % 2 == header_type % 2
            &&& (p[3] / 2) % 2 == crc % 2
            &&& p[3] % 2 == invert_iq % 2
            &&& p[3] < 8
        }),
{
}

/// Whatever six bytes arrive, the decoded status is in range: the RSSIs are
/// nine bits, the coding rate four, and the detector one of four.
pub proof fn lemma_packet_status_ranges(buf: Seq<u8>)
    requires
        buf.len() == 6,
    ensures
        ({
            let s = packet_status_of(buf);
            &&& s.rssi_pkt < 512
            &&& s.rssi_signal_pkt < 512
            &&& s.cr < 16
            &&& s.detector <= 3
        }),
{
}

/// Each field of the decoded packet status comes from the bits the reply puts
/// it in: the coding rate is byte 0's low nibble and the CRC flag its bit 4;
/// each RSSI halves back to its own byte, with its low bit taken from bit 1
/// (packet) or bit 0 (signal) of byte 5; the SNR is byte 2 as two's
/// complement; and a single detector bit `k` in bits 5:2 of byte 5 reads as
/// detector `k`.
pub proof fn lemma_packet_status_fields(buf: Seq<u8>)
    requires
        buf.len() == 6,
    ensures
        ({
            let s = packet_status_of(buf);
            &&& s.cr == buf[0] % 16
            &&& (s.has_crc <==> buf[0] % 32 >= 16)
            &&& s.len == buf[1]
            &&& (s.snr_pkt < 0 <==> buf[2] >= 128)
            &&& s.rssi_pkt / 2 == buf[3]
            &&& s.rssi_pkt % 2 == (buf[5] / 2) % 2
            &&& s.rssi_signal_pkt / 2 == buf[4]
            &&& s.rssi_signal_pkt % 2 == buf[5] % 2
            &&& (buf[5] % 64) / 4 == 1 ==> s.detector == 0
            &&& (buf[5] % 64) / 4 == 2 ==> s.detector == 1
            &&& (buf[5] % 64) / 4 == 4 ==> s.detector == 2
            &&& (buf[5] % 64) / 4 == 8 ==> s.detector == 3
        }),
{
    let b2 = buf[2];
    assert((signed_of(b2) as i8) < 0 <==> b2 >= 128);
}

/// Once a symbol is long enough to need LDRO, every higher spreading factor at
/// the same bandwidth needs it too.
pub proof fn lemma_ldro_monotone_in_sf(sf: u8, sf2: u8, bw: u8)
    requires
        sf <= sf2,
        ldro_rule(sf, bw),
    ensures
        ldro_rule(sf2, bw),
{
    if sf < sf2 {
        vstd::arithmetic::power2::lemma_pow2_strictly_increases(sf as nat, sf2 as nat);
    }
}

} // verus!
