//! Commands that mean the same thing whatever modem is selected: frequency,
//! the front end, the FIFOs, interrupts, and entering Rx or Tx.
//!
//! The chip reinterprets the modulation and packet parameter blocks according
//! to the current packet type, so those live in the per-modem modules; nothing
//! here depends on what `set_packet_type` last selected.

use vstd::prelude::*;
use crate::cmd;
use crate::hal::ERR_BUFFER;
use crate::xfer::{
    accept_status, accept_status_spec, be24_bytes, be32_bytes, be_value, is_command, read_fifo,
    u16_from_be, u32_from_be, u32_to_be, BusAction, Command, FifoRead, Query, fifo_start,
};

verus! {

/// Sets the carrier frequency. The tuning step is 1 Hz, so no scaling.
pub fn set_rf_frequency(hz: u32) -> (c: Command)
    ensures
        is_command(c, cmd::CMD_SET_RF_FREQUENCY, be32_bytes(hz as int)),
{
    let b = u32_to_be(hz);
    let c = Command::new(cmd::CMD_SET_RF_FREQUENCY, &b);
    c
}

/// Selects the modem.
///
/// Must be issued before the modulation and packet parameters, because the
/// chip decodes those according to whatever type is current. The wrong order
/// configures something plausible and reports no error.
pub fn set_packet_type(packet_type: u8) -> (c: Command)
    ensures
        is_command(c, cmd::CMD_SET_PACKET_TYPE, seq![packet_type]),
{
    let bytes = [packet_type];
    assert(bytes@ =~= seq![packet_type]);
    let c = Command::new(cmd::CMD_SET_PACKET_TYPE, &bytes);
    c
}

/// The GetPacketType read: one byte of payload.
pub fn packet_type_query() -> (q: Query)
    ensures
        q == (Query { opcode: cmd::CMD_GET_PACKET_TYPE, reply_len: 1 }),
{
    Query { opcode: cmd::CMD_GET_PACKET_TYPE, reply_len: 1 }
}

/// The current packet type, from the reply to [`packet_type_query`].
pub fn get_packet_type(status: [u8; 2], buf: [u8; 1]) -> (r: Result<u8, i32>)
    ensures
        r == (match accept_status_spec(status) {
            Ok(_) => Ok(buf@[0]),
            Err(e) => Err::<u8, i32>(e),
        }),
{
    accept_status(status)?;
    Ok(buf[0])
}

/// Chooses the low- or high-band receive chain, and its LNA boost.
pub fn set_rx_path(path: u8, boost: u8) -> (c: Command)
    ensures
        is_command(c, cmd::CMD_SET_RX_PATH, seq![path % 2, boost % 8]),
{
    let p = path & 0x01;
    let b = boost & 0x07;
    assert(p == path % 2) by (bit_vector)
        requires
            p == path & 0x01,
    ;
    assert(b == boost % 8) by (bit_vector)
        requires
            b == boost & 0x07,
    ;
    let bytes = [p, b];
    assert(bytes@ =~= seq![path % 2, boost % 8]);
    let c = Command::new(cmd::CMD_SET_RX_PATH, &bytes);
    c
}

/// The SelPa command.
pub fn sel_pa(pa: u8) -> (c: Command)
    ensures
        is_command(c, cmd::CMD_SEL_PA, seq![pa]),
{
    let bytes = [pa];
    assert(bytes@ =~= seq![pa]);
    let c = Command::new(cmd::CMD_SEL_PA, &bytes);
    c
}

/// The three bytes of SetPaConfig: the PA in bit 7 over the low-band mode in
/// bits 1:0, duty cycle and slices as nibbles, then the high-band duty cycle
/// in bits 4:0.
pub open spec fn pa_config_bytes(
    pa: u8,
    lf_mode: u8,
    lf_duty_cycle: u8,
    lf_slices: u8,
    hf_duty_cycle: u8,
) -> Seq<u8> {
    seq![
        ((pa % 2) * 128 + lf_mode % 4) as u8,
        ((lf_duty_cycle % 16) * 16 + lf_slices % 16) as u8,
        (hf_duty_cycle % 32) as u8,
    ]
}

/// Raw PA configuration. Prefer [`set_power_dbm`], which fills this from the
/// optimal-setting tables.
pub fn set_pa_config(
    pa: u8,
    lf_mode: u8,
    lf_duty_cycle: u8,
    lf_slices: u8,
    hf_duty_cycle: u8,
) -> (c: Command)
    ensures
        is_command(
            c,
            cmd::CMD_SET_PA_CONFIG,
            pa_config_bytes(pa, lf_mode, lf_duty_cycle, lf_slices, hf_duty_cycle),
        ),
{
    let b0 = (pa << 7) | (lf_mode & 0x03);
    let b1 = ((lf_duty_cycle & 0x0F) << 4) | (lf_slices & 0x0F);
    let b2 = hf_duty_cycle & 0x1F;
    assert(b0 == (pa % 2) * 128 + lf_mode % 4) by (bit_vector)
        requires
            b0 == (pa << 7) | (lf_mode & 0x03),
    ;
    assert(b1 == (lf_duty_cycle % 16) * 16 + lf_slices % 16) by (bit_vector)
        requires
            b1 == ((lf_duty_cycle & 0x0F) << 4) | (lf_slices & 0x0F),
    ;
    assert(b2 == hf_duty_cycle % 32) by (bit_vector)
        requires
            b2 == hf_duty_cycle & 0x1F,
    ;
    let bytes = [b0, b1, b2];
    assert(bytes@ =~= pa_config_bytes(pa, lf_mode, lf_duty_cycle, lf_slices, hf_duty_cycle));
    let c = Command::new(cmd::CMD_SET_PA_CONFIG, &bytes);
    c
}

/// A power in dBm as the byte that carries it: two's complement.
pub open spec fn power_byte(power: i8) -> u8 {
    (if power < 0 {
        power + 256
    } else {
        power as int
    }) as u8
}

/// The SetTxParams command: power, then ramp time.
pub fn set_tx_params(power: i8, ramp: u8) -> (c: Command)
    ensures
        is_command(c, cmd::CMD_SET_TX_PARAMS, seq![power_byte(power), ramp]),
{
    let p = power as u8;
    assert(p == (if power < 0 { power + 256 } else { power as int })) by (bit_vector)
        requires
            p == power as u8,
    ;
    let bytes = [p, ramp];
    assert(bytes@ =~= seq![power_byte(power), ramp]);
    let c = Command::new(cmd::CMD_SET_TX_PARAMS, &bytes);
    c
}

/// The SetPaConfig bytes give back their fields: the PA's low bit in bit 7 and
/// the low-band mode in bits 1:0 with bits 6:2 clear, the duty cycle and slices
/// as the high and low nibble, and the high-band duty cycle in bits 4:0.
pub proof fn lemma_pa_config_unpack(
    pa: u8,
    lf_mode: u8,
    lf_duty_cycle: u8,
    lf_slices: u8,
    hf_duty_cycle: u8,
)
    ensures
        ({
            let b = pa_config_bytes(pa, lf_mode, lf_duty_cycle, lf_slices, hf_duty_cycle);
            &&& b.len() == 3
            &&& b[0] / 128 == pa % 2
            &&& b[0] % 128 == lf_mode % 4
            &&& b[1] / 16 == lf_duty_cycle % 16
            &&& b[1] % 16 == lf_slices % 16
            &&& b[2] == hf_duty_cycle % 32
        }),
{
}

/// The power byte read back as two's complement is the power asked for.
pub proof fn lemma_power_byte_round_trip(power: i8)
    ensures
        (if power_byte(power) < 128 {
            power_byte(power) as int
        } else {
            power_byte(power) - 256
        }) == power,
{
}

/// Sub-GHz PA settings for -9..=+22 dBm, one row per dBm:
/// `(duty cycle, slices, power value)`.
pub const PA_LF: [(u8, u8, i8); 32] = [
    (1, 1, 8),
    (2, 2, 1),
    (2, 2, 3),
    (2, 2, 5),
    (1, 2, 13),
    (2, 1, 13),
    (2, 2, 11),
    (2, 2, 13),
    (3, 1, 12),
    (1, 1, 18),
    (1, 1, 20),
    (1, 1, 23),
    (1, 1, 27),
    (1, 1, 33),
    (1, 2, 26),
    (1, 2, 31),
    (1, 3, 27),
    (1, 1, 37),
    (1, 2, 40),
    (2, 1, 38),
    (2, 2, 39),
    (2, 4, 40),
    (2, 7, 41),
    (3, 2, 39),
    (3, 3, 39),
    (3, 6, 38),
    (4, 3, 37),
    (4, 5, 37),
    (4, 7, 38),
    (5, 3, 37),
    (5, 6, 37),
    (6, 7, 35),
];

/// Lowest and highest power the sub-GHz PA table covers, in dBm.
pub const LF_POWER_MIN: i8 = -9;
pub const LF_POWER_MAX: i8 = 22;

/// The power table has one row for each dBm from -9 to +22, every duty cycle
/// and slice count fits its nibble, and the end rows are `(1, 1, 8)` at -9 dBm
/// and `(6, 7, 35)` at +22 dBm.
pub proof fn lemma_pa_lf_table(i: int)
    requires
        0 <= i < 32,
    ensures
        PA_LF@.len() == LF_POWER_MAX - LF_POWER_MIN + 1,
        1 <= PA_LF@[i].0 <= 15,
        1 <= PA_LF@[i].1 <= 15,
        PA_LF@[0] == (1u8, 1u8, 8i8),
        PA_LF@[31] == (6u8, 7u8, 35i8),
{
}

/// The table row for `dbm`.
pub open spec fn pa_lf_row(dbm: i8) -> (u8, u8, i8) {
    PA_LF@[dbm - LF_POWER_MIN]
}

/// The three commands that set the sub-GHz PA up for `dbm`: select it,
/// configure it from its row of the table, and set the power and ramp.
pub open spec fn power_commands_are(cs: Seq<Command>, dbm: i8, ramp: u8) -> bool {
    let row = pa_lf_row(dbm);
    &&& cs.len() == 3
    &&& is_command(cs[0], cmd::CMD_SEL_PA, seq![cmd::PA_LF])
    &&& is_command(
        cs[1],
        cmd::CMD_SET_PA_CONFIG,
        pa_config_bytes(
            cmd::PA_LF,
            cmd::PA_LF_MODE_FSM,
            row.0,
            row.1,
            cmd::PA_HF_DUTY_CYCLE_UNUSED,
        ),
    )
    &&& is_command(cs[2], cmd::CMD_SET_TX_PARAMS, seq![power_byte(row.2), ramp])
}

/// Selects the sub-GHz PA and sets it up for `dbm`: the commands to send, in
/// order, stopping at the first that fails.
///
/// Only the low band is tabulated here: the 2.4 GHz path is FLRC's, and the
/// bring-up script owns it. Asking for a power the table does not cover is an
/// error rather than a clamp, because quietly transmitting at a different
/// power than requested is a regulatory problem, not a convenience.
pub fn set_power_dbm(dbm: i8, ramp: u8) -> (r: Result<[Command; 3], i32>)
    ensures
        LF_POWER_MIN <= dbm <= LF_POWER_MAX <==> r is Ok,
        r is Err ==> r == Err::<[Command; 3], i32>(ERR_BUFFER),
        r matches Ok(cs) ==> power_commands_are(cs@, dbm, ramp),
{
    if !(LF_POWER_MIN <= dbm && dbm <= LF_POWER_MAX) {
        return Err(ERR_BUFFER);
    }
    let row = PA_LF[(dbm - LF_POWER_MIN) as usize];
    let cs = [
        sel_pa(cmd::PA_LF),
        set_pa_config(cmd::PA_LF, cmd::PA_LF_MODE_FSM, row.0, row.1, cmd::PA_HF_DUTY_CYCLE_UNUSED),
        set_tx_params(row.2, ramp),
    ];
    Ok(cs)
}

/// The three bytes of a timeout: a 24-bit count of 1/32768 s, big-endian.
fn timeout_bytes(timeout: u32) -> (r: Result<[u8; 3], i32>)
    ensures
        timeout <= cmd::TIMEOUT_MAX <==> r is Ok,
        r is Err ==> r == Err::<[u8; 3], i32>(ERR_BUFFER),
        r matches Ok(b) ==> b@ == be24_bytes(timeout as int),
{
    if timeout > cmd::TIMEOUT_MAX {
        return Err(ERR_BUFFER);
    }
    let b = u32_to_be(timeout);
    let t = [b[1], b[2], b[3]];
    assert(t@ =~= be24_bytes(timeout as int));
    Ok(t)
}

/// Enters receive. `0` listens once; [`cmd::RX_CONTINUOUS`] stays there.
pub fn set_rx(timeout: u32) -> (r: Result<Command, i32>)
    ensures
        timeout <= cmd::TIMEOUT_MAX <==> r is Ok,
        r is Err ==> r == Err::<Command, i32>(ERR_BUFFER),
        r matches Ok(c) ==> is_command(c, cmd::CMD_SET_RX, be24_bytes(timeout as int)),
{
    let t = timeout_bytes(timeout)?;
    let c = Command::new(cmd::CMD_SET_RX, &t);
    Ok(c)
}

/// Enters transmit, with the same timeout encoding as [`set_rx`].
pub fn set_tx(timeout: u32) -> (r: Result<Command, i32>)
    ensures
        timeout <= cmd::TIMEOUT_MAX <==> r is Ok,
        r is Err ==> r == Err::<Command, i32>(ERR_BUFFER),
        r matches Ok(c) ==> is_command(c, cmd::CMD_SET_TX, be24_bytes(timeout as int)),
{
    let t = timeout_bytes(timeout)?;
    let c = Command::new(cmd::CMD_SET_TX, &t);
    Ok(c)
}

/// Enables interrupt sources on one of the two DIO vectors.
///
/// The flags latch in GetStatus whether or not a DIO is wired, which is what
/// the polled receive path relies on.
pub fn set_dio_irq_config(dio: u8, irq: u32) -> (c: Command)
    ensures
        is_command(c, cmd::CMD_SET_DIO_IRQ_CONFIG, seq![dio] + be32_bytes(irq as int)),
{
    let b = u32_to_be(irq);
    let bytes = [dio, b[0], b[1], b[2], b[3]];
    assert(bytes@ =~= seq![dio] + b@);
    let c = Command::new(cmd::CMD_SET_DIO_IRQ_CONFIG, &bytes);
    c
}

/// The GetAndClearIrqStatus read: the interrupt vector, four bytes big-endian.
pub fn irq_status_query() -> (q: Query)
    ensures
        q == (Query { opcode: cmd::CMD_GET_AND_CLEAR_IRQ_STATUS, reply_len: 4 }),
{
    Query { opcode: cmd::CMD_GET_AND_CLEAR_IRQ_STATUS, reply_len: 4 }
}

/// The pending interrupt vector, from the reply to [`irq_status_query`]; the
/// chip clears it in the same command.
pub fn get_and_clear_irq_status(status: [u8; 2], buf: [u8; 4]) -> (r: Result<u32, i32>)
    ensures
        r == (match accept_status_spec(status) {
            Ok(_) => Ok(be_value(buf@) as u32),
            Err(e) => Err::<u32, i32>(e),
        }),
{
    accept_status(status)?;
    Ok(u32_from_be(buf))
}

/// The ClearIrq command for the flags in `irq`.
pub fn clear_irq(irq: u32) -> (c: Command)
    ensures
        is_command(c, cmd::CMD_CLEAR_IRQ, be32_bytes(irq as int)),
{
    let b = u32_to_be(irq);
    let c = Command::new(cmd::CMD_CLEAR_IRQ, &b);
    c
}

// ─── FIFO ────────────────────────────────────────────────────────────────────
// This part streams payload through a FIFO instead of an addressed buffer, so
// there is no offset anywhere below and the order of operations matters:
// clear, fill, transmit.

/// The WriteTxFifo command carrying `data`, which must fit one packet.
pub fn write_tx_fifo(data: &[u8]) -> (r: Result<Command, i32>)
    ensures
        data@.len() <= cmd::MAX_PACKET_LEN <==> r is Ok,
        r is Err ==> r == Err::<Command, i32>(ERR_BUFFER),
        r matches Ok(c) ==> is_command(c, cmd::CMD_WRITE_TX_FIFO, data@),
{
    if data.len() > cmd::MAX_PACKET_LEN {
        return Err(ERR_BUFFER);
    }
    Ok(Command::new(cmd::CMD_WRITE_TX_FIFO, data))
}

/// Starts draining `len` bytes of the Rx FIFO; see [`read_fifo`] for the
/// framing. A length past one packet is refused before anything is sent.
pub fn read_rx_fifo(len: usize) -> (r: Result<(FifoRead, BusAction), i32>)
    ensures
        len <= cmd::MAX_PACKET_LEN <==> r is Ok,
        r is Err ==> r == Err::<(FifoRead, BusAction), i32>(ERR_BUFFER),
        r matches Ok(m) ==> m.0 == fifo_start(cmd::CMD_READ_RX_FIFO) && m.1 == BusAction::WaitBusy,
{
    if len > cmd::MAX_PACKET_LEN {
        return Err(ERR_BUFFER);
    }
    Ok(read_fifo(cmd::CMD_READ_RX_FIFO))
}

/// The GetRxFifoLevel read: two bytes, big-endian.
pub fn rx_fifo_level_query() -> (q: Query)
    ensures
        q == (Query { opcode: cmd::CMD_GET_RX_FIFO_LEVEL, reply_len: 2 }),
{
    Query { opcode: cmd::CMD_GET_RX_FIFO_LEVEL, reply_len: 2 }
}

/// How many bytes are waiting in the Rx FIFO, from the reply to
/// [`rx_fifo_level_query`].
pub fn get_rx_fifo_level(status: [u8; 2], buf: [u8; 2]) -> (r: Result<u16, i32>)
    ensures
        r == (match accept_status_spec(status) {
            Ok(_) => Ok((buf@[0] * 256 + buf@[1]) as u16),
            Err(e) => Err::<u16, i32>(e),
        }),
{
    accept_status(status)?;
    Ok(u16_from_be(buf[0], buf[1]))
}

/// The GetTxFifoLevel read: two bytes, big-endian.
pub fn tx_fifo_level_query() -> (q: Query)
    ensures
        q == (Query { opcode: cmd::CMD_GET_TX_FIFO_LEVEL, reply_len: 2 }),
{
    Query { opcode: cmd::CMD_GET_TX_FIFO_LEVEL, reply_len: 2 }
}

/// How many bytes are queued in the Tx FIFO, from the reply to
/// [`tx_fifo_level_query`].
pub fn get_tx_fifo_level(status: [u8; 2], buf: [u8; 2]) -> (r: Result<u16, i32>)
    ensures
        r == (match accept_status_spec(status) {
            Ok(_) => Ok((buf@[0] * 256 + buf@[1]) as u16),
            Err(e) => Err::<u16, i32>(e),
        }),
{
    accept_status(status)?;
    Ok(u16_from_be(buf[0], buf[1]))
}

/// The ClearRxFifo command.
pub fn clear_rx_fifo() -> (c: Command)
    ensures
        is_command(c, cmd::CMD_CLEAR_RX_FIFO, seq![]),
{
    Command::bare(cmd::CMD_CLEAR_RX_FIFO)
}

/// The ClearTxFifo command.
pub fn clear_tx_fifo() -> (c: Command)
    ensures
        is_command(c, cmd::CMD_CLEAR_TX_FIFO, seq![]),
{
    Command::bare(cmd::CMD_CLEAR_TX_FIFO)
}

/// The GetRssiInst read: two bytes.
pub fn rssi_inst_query() -> (q: Query)
    ensures
        q == (Query { opcode: cmd::CMD_GET_RSSI_INST, reply_len: 2 }),
{
    Query { opcode: cmd::CMD_GET_RSSI_INST, reply_len: 2 }
}

/// Instantaneous RSSI as a 9-bit half-dBm count, from the reply to
/// [`rssi_inst_query`]: the first byte holds the top eight bits and bit 7 of
/// the second the ninth. dBm is `-raw / 2`.
pub fn get_rssi_inst(status: [u8; 2], buf: [u8; 2]) -> (r: Result<u16, i32>)
    ensures
        r == (match accept_status_spec(status) {
            Ok(_) => Ok((buf@[0] * 2 + buf@[1] / 128) as u16),
            Err(e) => Err::<u16, i32>(e),
        }),
        r matches Ok(v) ==> v < 512,
{
    accept_status(status)?;
    let (b0, b1) = (buf[0], buf[1]);
    let v = ((b0 as u16) << 1) | ((b1 as u16 >> 7) & 0x01);
    assert(v == b0 * 2 + b1 / 128) by (bit_vector)
        requires
            v == ((b0 as u16) << 1) | ((b1 as u16 >> 7) & 0x01),
    ;
    Ok(v)
}

/// The instantaneous RSSI is the first byte's eight bits above bit 7 of the
/// second: halving gives back the first byte, and its low bit is that bit.
pub proof fn lemma_rssi_inst_bits(b0: u8, b1: u8)
    ensures
        ((b0 * 2 + b1 / 128) as u16) / 2 == b0,
        ((b0 * 2 + b1 / 128) as u16) % 2 == (if b1 >= 128 { 1int } else { 0int }),
{
}

/// The ResetRxStats command.
pub fn reset_rx_stats() -> (c: Command)
    ensures
        is_command(c, cmd::CMD_RESET_RX_STATS, seq![]),
{
    Command::bare(cmd::CMD_RESET_RX_STATS)
}

} // verus!
