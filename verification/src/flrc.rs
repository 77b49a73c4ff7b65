//! FLRC: parameter encoding and the arithmetic the speed test needs.
//!
//! Everything here is pure and testable without hardware, which is the point —
//! it is the half of the driver that can be got right before the boards arrive.

use vstd::prelude::*;
use crate::cmd;

verus! {

/// Continues the shared error numbering in [`crate::hal`].
pub const ERR_PARAM: i32 = -9;

/// `(bitrate kbps, bandwidth kHz)` indexed by the combined `brBw` code.
pub const RATES: [(u16, u16); 8] = [
    (2600, 2666),
    (2080, 2222),
    (1300, 1333),
    (1040, 1333),
    (650, 888),
    (520, 769),
    (325, 444),
    (260, 444),
];

/// `(numerator, denominator)` of each coding rate, indexed by its code.
///
/// Deliberately a table: the codes run 1/2, 3/4, uncoded, 2/3, so there is no
/// arithmetic that maps code to ratio.
pub const CODING_RATIOS: [(u8, u8); 4] = [(1, 2), (3, 4), (1, 1), (2, 3)];

/// Whether `shaping` is one of the pulse shapes FLRC accepts.
pub open spec fn is_flrc_shaping(shaping: u8) -> bool {
    shaping == cmd::SHAPING_NONE || shaping == cmd::SHAPING_GAUSS_BT_0_5
        || shaping == cmd::SHAPING_GAUSS_BT_1_0 || shaping == cmd::SHAPING_RRC_ROLLOFF_0_5
}

/// Channel bitrate in kbps, or `None` if the code is not one of the eight.
pub fn bitrate_kbps(br_bw: u8) -> (r: Option<u16>)
    ensures
        r == (if br_bw < 8 { Some(RATES@[br_bw as int].0) } else { None::<u16> }),
{
    let i = br_bw as usize;
    if i < RATES.len() {
        Some(RATES[i].0)
    } else {
        None
    }
}

/// Channel bandwidth in kHz, or `None` if the code is not one of the eight.
pub fn bandwidth_khz(br_bw: u8) -> (r: Option<u16>)
    ensures
        r == (if br_bw < 8 { Some(RATES@[br_bw as int].1) } else { None::<u16> }),
{
    let i = br_bw as usize;
    if i < RATES.len() {
        Some(RATES[i].1)
    } else {
        None
    }
}

/// Coding rate as `(numerator, denominator)`, or `None` for an unknown code.
pub fn coding_ratio(cr: u8) -> (r: Option<(u8, u8)>)
    ensures
        r == (if cr < 4 { Some(CODING_RATIOS@[cr as int]) } else { None::<(u8, u8)> }),
{
    let i = cr as usize;
    if i < CODING_RATIOS.len() {
        Some(CODING_RATIOS[i])
    } else {
        None
    }
}

/// Validates and packs the arguments of SetFlrcModulationParams.
///
/// Two bytes, not three: the coding rate and the pulse shape share the second,
/// as the high and low nibble.
pub fn modulation_params(br_bw: u8, cr: u8, shaping: u8) -> (r: Result<[u8; 2], i32>)
    ensures
        (br_bw < 8 && cr < 4 && is_flrc_shaping(shaping)) <==> r is Ok,
        r is Err ==> r == Err::<[u8; 2], i32>(ERR_PARAM),
        r matches Ok(p) ==> p@ == seq![br_bw, (cr * 16 + shaping) as u8],
{
    if br_bw as usize >= RATES.len() || cr as usize >= CODING_RATIOS.len() {
        return Err(ERR_PARAM);
    }
    if !(shaping == cmd::SHAPING_NONE || shaping == cmd::SHAPING_GAUSS_BT_0_5
        || shaping == cmd::SHAPING_GAUSS_BT_1_0 || shaping == cmd::SHAPING_RRC_ROLLOFF_0_5) {
        return Err(ERR_PARAM);
    }
    let b1 = (cr << 4) | (shaping & 0x0F);
    assert(b1 == cr * 16 + shaping) by (bit_vector)
        requires
            b1 == (cr << 4) | (shaping & 0x0F),
            cr < 4,
            shaping < 16,
    ;
    let p = [br_bw, b1];
    assert(p@ =~= seq![br_bw, (cr * 16 + shaping) as u8]);
    Ok(p)
}

/// The goodput, in bits per second, of `bytes` delivered in `elapsed_ms`; 0
/// when no time has elapsed.
pub open spec fn goodput_of(bytes: u32, elapsed_ms: u32) -> int {
    if elapsed_ms == 0 {
        0
    } else {
        (bytes * 8000) / (elapsed_ms as int)
    }
}

/// Payload goodput in bits per second.
///
/// Measured, not predicted: `bytes` is what actually arrived and `elapsed_ms`
/// is what the burst took. The intermediate is 64-bit because 255 kB at 8000
/// already overflows 32 bits; a rate too wide for the 32-bit result keeps its
/// low 32 bits.
pub fn goodput_bps(bytes: u32, elapsed_ms: u32) -> (r: u32)
    ensures
        r == goodput_of(bytes, elapsed_ms) % 0x1_0000_0000,
{
    if elapsed_ms == 0 {
        return 0;
    }
    let bits: u64 = (bytes as u64) * 8 * 1000;
    let q: u64 = bits / (elapsed_ms as u64);
    let r = q as u32;
    assert(r == q % 0x1_0000_0000) by (bit_vector)
        requires
            r == q as u32,
    ;
    r
}

/// The packet error rate, in tenths of a percent, of `received` out of `sent`;
/// more received than sent counts as no loss.
pub open spec fn per_of(sent: u32, received: u32) -> u32 {
    if sent == 0 || received >= sent {
        0
    } else {
        (((sent - received) * 1000) / (sent as int)) as u32
    }
}

/// Packet error rate in tenths of a percent, saturating at 1000.
///
/// Tenths because the boundary carries integers only; the caller divides for
/// display.
pub fn per_permille(sent: u32, received: u32) -> (r: u32)
    ensures
        r == per_of(sent, received),
        r <= 1000,
{
    if sent == 0 {
        return 0;
    }
    let lost: u32 = sent.saturating_sub(received);
    let scaled: u64 = (lost as u64) * 1000;
    let q: u64 = scaled / (sent as u64);
    assert(q <= 1000) by (nonlinear_arith)
        requires
            q == scaled / (sent as u64),
            scaled == lost * 1000,
            lost <= sent,
            sent > 0,
    ;
    q as u32
}

/// The rate table runs fastest first, strictly: a faster rate always has the
/// smaller code.
pub proof fn lemma_rates_fastest_first(i: int, j: int)
    requires
        0 <= i < j < 8,
    ensures
        RATES@[i].0 > RATES@[j].0,
{
}

/// Every FLRC channel is at least as wide, in kHz, as its bitrate in kbps, and
/// the eight rates are 2600, 2080, 1300, 1040, 650, 520, 325 and 260 kbps.
pub proof fn lemma_rates_fit_their_bandwidth(i: int)
    requires
        0 <= i < 8,
    ensures
        RATES@[i].0 <= RATES@[i].1,
        RATES@[0].0 == 2600 && RATES@[1].0 == 2080 && RATES@[2].0 == 1300 && RATES@[3].0 == 1040
            && RATES@[4].0 == 650 && RATES@[5].0 == 520 && RATES@[6].0 == 325 && RATES@[7].0 == 260,
        RATES@[0].1 == 2666 && RATES@[1].1 == 2222 && RATES@[2].1 == 1333 && RATES@[3].1 == 1333
            && RATES@[4].1 == 888 && RATES@[5].1 == 769 && RATES@[6].1 == 444 && RATES@[7].1 == 444,
{
}

/// The pulse shapes FLRC takes are exactly codes 0, 5, 7 and 9: none, Gaussian
/// BT 0.5, Gaussian BT 1.0 and root-raised-cosine 0.5.
pub proof fn lemma_flrc_shapings(shaping: u8)
    ensures
        is_flrc_shaping(shaping) <==> (shaping == 0 || shaping == 5 || shaping == 7 || shaping
            == 9),
{
}

/// Each coding rate is a ratio of at most one in lowest terms, no two codes
/// share a ratio, and the codes name 1/2, 3/4, 1/1 and 2/3 in that order.
pub proof fn lemma_coding_ratios(i: int, j: int)
    requires
        0 <= i < 4,
        0 <= j < 4,
    ensures
        0 < CODING_RATIOS@[i].0 <= CODING_RATIOS@[i].1,
        CODING_RATIOS@[i].0 * CODING_RATIOS@[j].1 == CODING_RATIOS@[j].0 * CODING_RATIOS@[i].1
            ==> i == j,
        CODING_RATIOS@[0] == (1u8, 2u8) && CODING_RATIOS@[1] == (3u8, 4u8) && CODING_RATIOS@[2] == (
            1u8,
            1u8,
        ) && CODING_RATIOS@[3] == (2u8, 3u8),
{
    let r = CODING_RATIOS@;
    assert(r[0] == (1u8, 2u8) && r[1] == (3u8, 4u8) && r[2] == (1u8, 1u8) && r[3] == (2u8, 3u8));
    let (a, b) = (r[i], r[j]);
    assert(i == 0 || i == 1 || i == 2 || i == 3);
    assert(j == 0 || j == 1 || j == 2 || j == 3);
    // The ratios scaled by 12: 6, 9, 12 and 8, all different.
    assert(a.0 as int * 12 == (if i == 0 { 6int } else if i == 1 { 9 } else if i == 2 { 12 } else { 8 })
        * a.1);
    assert(b.0 as int * 12 == (if j == 0 { 6int } else if j == 1 { 9 } else if j == 2 { 12 } else { 8 })
        * b.1);
    if a.0 * b.1 == b.0 * a.1 {
        let ka = if i == 0 { 6int } else if i == 1 { 9 } else if i == 2 { 12 } else { 8 };
        let kb = if j == 0 { 6int } else if j == 1 { 9 } else if j == 2 { 12 } else { 8 };
        assert(ka == kb) by (nonlinear_arith)
            requires
                a.0 * 12 == ka * a.1,
                b.0 * 12 == kb * b.1,
                a.0 * b.1 == b.0 * a.1,
                a.1 > 0,
                b.1 > 0,
        ;
    }
}

/// Goodput is the rate in whole bits per second: the largest `g` with
/// `g * elapsed_ms <= bytes * 8000`; over exactly one second it is eight bits
/// per byte.
pub proof fn lemma_goodput_is_the_bit_rate(bytes: u32, elapsed_ms: u32)
    requires
        elapsed_ms > 0,
    ensures
        goodput_of(bytes, elapsed_ms) * elapsed_ms <= bytes * 8000,
        bytes * 8000 < (goodput_of(bytes, elapsed_ms) + 1) * elapsed_ms,
        elapsed_ms == 1000 ==> goodput_of(bytes, elapsed_ms) == bytes * 8,
        goodput_of(bytes, 0) == 0,
{
    let q = goodput_of(bytes, elapsed_ms);
    let n = bytes * 8000;
    let d = elapsed_ms as int;
    assert(q * d <= n && n < (q + 1) * d) by (nonlinear_arith)
        requires
            q == n / d,
            d > 0,
            n >= 0,
    ;
}

/// The packet error rate is the lost share in whole tenths of a percent: the
/// largest `p` with `p * sent <= lost * 1000`, where nothing counts as lost
/// when at least as many arrived as were sent.
pub proof fn lemma_per_is_the_loss_share(sent: u32, received: u32)
    requires
        sent > 0,
    ensures
        received >= sent ==> per_of(sent, received) == 0,
        received < sent ==> per_of(sent, received) * sent <= (sent - received) * 1000,
        received < sent ==> (sent - received) * 1000 < (per_of(sent, received) + 1) * sent,
        received == 0 ==> per_of(sent, received) == 1000,
{
    if received < sent {
        let n = (sent - received) * 1000;
        let d = sent as int;
        let q = n / d;
        assert(q * d <= n && n < (q + 1) * d && q <= 1000) by (nonlinear_arith)
            requires
                q == n / d,
                d > 0,
                0 <= n <= d * 1000,
        ;
        if received == 0 {
            assert((sent * 1000) / (sent as int) == 1000) by (nonlinear_arith)
                requires
                    sent > 0,
            ;
        }
    }
}

/// A packed modulation pair gives back the rate, coding rate and shape it was
/// made from.
pub proof fn lemma_flrc_modulation_params_unpack(br_bw: u8, cr: u8, shaping: u8)
    requires
        br_bw < 8,
        cr < 4,
        is_flrc_shaping(shaping),
    ensures
        ({
            let b1 = (cr * 16 + shaping) as u8;
            &&& b1 / 16 == cr
            &&& b1 % 16 == shaping
        }),
{
}

} // verus!
