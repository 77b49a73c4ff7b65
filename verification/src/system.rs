//! Bring-up: reset-time state, patch RAM, calibration, and the DIO wiring that
//! connects the chip to the board's front end.

use vstd::prelude::*;
use crate::cmd;
use crate::xfer::{
    accept_status, accept_status_spec, be24_bytes, be_value, is_command, u16_from_be, u32_from_be,
    u32_to_be, Command, Query,
};

verus! {

/// Firmware identification from GetVersion.
///
/// Two bytes, and no hardware or device field: unlike the LR1121, this part
/// offers nothing in its version reply that identifies the chip.
#[derive(Debug, Clone, Copy, PartialEq, Eq, Structural)]
pub struct Version {
    pub fw_major: u8,
    pub fw_minor: u8,
}

/// The GetVersion read: exactly two bytes of payload.
///
/// Over-reading here is how a firmware version gets reported as a hardware and
/// device byte with the version itself falling off the end.
pub fn version_query() -> (q: Query)
    ensures
        q == (Query { opcode: cmd::CMD_GET_VERSION, reply_len: 2 }),
{
    Query { opcode: cmd::CMD_GET_VERSION, reply_len: 2 }
}

/// The firmware version, from the reply to [`version_query`].
pub fn get_version(status: [u8; 2], buf: [u8; 2]) -> (r: Result<Version, i32>)
    ensures
        r == (match accept_status_spec(status) {
            Ok(_) => Ok(Version { fw_major: buf@[0], fw_minor: buf@[1] }),
            Err(e) => Err::<Version, i32>(e),
        }),
{
    accept_status(status)?;
    Ok(Version { fw_major: buf[0], fw_minor: buf[1] })
}

/// The GetRandomNumber read: four bytes, big-endian.
pub fn random_number_query() -> (q: Query)
    ensures
        q == (Query { opcode: cmd::CMD_GET_RANDOM_NUMBER, reply_len: 4 }),
{
    Query { opcode: cmd::CMD_GET_RANDOM_NUMBER, reply_len: 4 }
}

/// A word from the hardware entropy source, from the reply to
/// [`random_number_query`].
pub fn get_random_number(status: [u8; 2], buf: [u8; 4]) -> (r: Result<u32, i32>)
    ensures
        r == (match accept_status_spec(status) {
            Ok(_) => Ok(be_value(buf@) as u32),
            Err(e) => Err::<u32, i32>(e),
        }),
{
    accept_status(status)?;
    Ok(u32_from_be(buf))
}

/// The GetErrors read: two bytes, big-endian.
pub fn errors_query() -> (q: Query)
    ensures
        q == (Query { opcode: cmd::CMD_GET_ERRORS, reply_len: 2 }),
{
    Query { opcode: cmd::CMD_GET_ERRORS, reply_len: 2 }
}

/// The error flags, from the reply to [`errors_query`].
pub fn get_errors(status: [u8; 2], buf: [u8; 2]) -> (r: Result<u16, i32>)
    ensures
        r == (match accept_status_spec(status) {
            Ok(_) => Ok((buf@[0] * 256 + buf@[1]) as u16),
            Err(e) => Err::<u16, i32>(e),
        }),
{
    accept_status(status)?;
    Ok(u16_from_be(buf[0], buf[1]))
}

/// The ClearErrors command.
pub fn clear_errors() -> (c: Command)
    ensures
        is_command(c, cmd::CMD_CLEAR_ERRORS, seq![]),
{
    Command::bare(cmd::CMD_CLEAR_ERRORS)
}

/// The SetStandby command for `mode`.
pub fn set_standby(mode: u8) -> (c: Command)
    ensures
        is_command(c, cmd::CMD_SET_STANDBY, seq![mode]),
{
    let bytes = [mode];
    assert(bytes@ =~= seq![mode]);
    let c = Command::new(cmd::CMD_SET_STANDBY, &bytes);
    c
}

/// The SetFs command.
pub fn set_fs() -> (c: Command)
    ensures
        is_command(c, cmd::CMD_SET_FS, seq![]),
{
    Command::bare(cmd::CMD_SET_FS)
}

/// The SetSleep command: the configuration byte, then the wake-up time as 24
/// bits, big-endian. The field has no room for the top byte of
/// `wakeup_ticks`, which is dropped.
pub fn set_sleep(config: u8, wakeup_ticks: u32) -> (c: Command)
    ensures
        is_command(c, cmd::CMD_SET_SLEEP, seq![config] + be24_bytes(wakeup_ticks as int)),
{
    let b = u32_to_be(wakeup_ticks);
    let bytes = [config, b[1], b[2], b[3]];
    assert(bytes@ =~= seq![config] + be24_bytes(wakeup_ticks as int));
    let c = Command::new(cmd::CMD_SET_SLEEP, &bytes);
    c
}

/// The three wake-up bytes of SetSleep read back, big-endian, as the low 24
/// bits of the wake-up time.
pub proof fn lemma_sleep_wakeup_low_bits(wakeup_ticks: u32)
    ensures
        ({
            let b = be24_bytes(wakeup_ticks as int);
            b[0] * 0x1_0000 + b[1] * 0x100 + b[2] == wakeup_ticks % 0x100_0000
        }),
{
}

/// Loads the patch RAM.
///
/// Must run before any radio configuration. The LR1121 has no equivalent step,
/// and skipping it here leaves a chip that answers every command and never
/// transmits — which looks like an antenna or PA fault, not a missing patch.
pub fn activate_pram() -> (c: Command)
    ensures
        is_command(c, cmd::CMD_ACTIVATE_PRAM, seq![0x00u8]),
{
    let bytes = [0x00];
    assert(bytes@ =~= seq![0x00u8]);
    let c = Command::new(cmd::CMD_ACTIVATE_PRAM, &bytes);
    c
}

/// The Calibrate command for the blocks set in `blocks`.
pub fn calibrate(blocks: u8) -> (c: Command)
    ensures
        is_command(c, cmd::CMD_CALIBRATE, seq![blocks]),
{
    let bytes = [blocks];
    assert(bytes@ =~= seq![blocks]);
    let c = Command::new(cmd::CMD_CALIBRATE, &bytes);
    c
}

/// Assigns a DIO to a function such as the RF switch.
pub fn set_dio_function(dio: u8, function: u8) -> (c: Command)
    ensures
        is_command(c, cmd::CMD_SET_DIO_FUNCTION, seq![dio, function]),
{
    let bytes = [dio, function];
    assert(bytes@ =~= seq![dio, function]);
    let c = Command::new(cmd::CMD_SET_DIO_FUNCTION, &bytes);
    c
}

/// Which chip modes drive a given RF-switch DIO high.
pub fn set_dio_rf_switch_config(dio: u8, modes: u8) -> (c: Command)
    ensures
        is_command(c, cmd::CMD_SET_DIO_RF_SWITCH_CONFIG, seq![dio, modes]),
{
    let bytes = [dio, modes];
    assert(bytes@ =~= seq![dio, modes]);
    let c = Command::new(cmd::CMD_SET_DIO_RF_SWITCH_CONFIG, &bytes);
    c
}

/// The four commands that hand a Tx DIO and an Rx DIO to the RF switch: for
/// each pin, its function (with its sleep pull), then the modes that drive it.
pub open spec fn rf_switch_commands_are(
    cs: Seq<Command>,
    tx_dio: u8,
    tx_sleep_pull: u8,
    rx_dio: u8,
    rx_sleep_pull: u8,
) -> bool {
    &&& cs.len() == 4
    &&& is_command(
        cs[0],
        cmd::CMD_SET_DIO_FUNCTION,
        seq![tx_dio, cmd::DIO_FUNCTION_RF_SWITCH | tx_sleep_pull],
    )
    &&& is_command(cs[1], cmd::CMD_SET_DIO_RF_SWITCH_CONFIG, seq![tx_dio, cmd::RF_SW_TX])
    &&& is_command(
        cs[2],
        cmd::CMD_SET_DIO_FUNCTION,
        seq![rx_dio, cmd::DIO_FUNCTION_RF_SWITCH | rx_sleep_pull],
    )
    &&& is_command(cs[3], cmd::CMD_SET_DIO_RF_SWITCH_CONFIG, seq![rx_dio, cmd::RF_SW_RX])
}

/// Hands a pair of DIOs to the RF switch logic, one for Tx and one for Rx: the
/// commands to send, in order, stopping at the first that fails.
///
/// Until this runs the front end stays shut down and the antenna is
/// disconnected in both directions, with nothing about the failure resembling
/// a switch problem: the radio configures cleanly and hears silence.
///
/// `tx_sleep_pull` is separate because DIO5 rejects anything but a sleep
/// pull-up on this part.
///
/// SCOPE: this is the two-line shape, which is what a simple TX/RX-enable
/// front end such as the W12's 2.4 GHz RFX2402E wants (DIO5 = TXEN,
/// DIO6 = RXEN). It is NOT enough for that board's sub-GHz path, where a
/// GC1109 takes three lines -- CSD on DIO11, CPS on DIO10, CTX on DIO9 -- and
/// the mode-to-level truth table is not published anywhere at hand. Drive
/// those with [`set_dio_function`] and [`set_dio_rf_switch_config`] directly
/// rather than bending a two-line helper around them.
pub fn set_rf_switch(tx_dio: u8, tx_sleep_pull: u8, rx_dio: u8, rx_sleep_pull: u8) -> (cs: [Command; 4])
    ensures
        rf_switch_commands_are(cs@, tx_dio, tx_sleep_pull, rx_dio, rx_sleep_pull),
{
    [
        set_dio_function(tx_dio, cmd::DIO_FUNCTION_RF_SWITCH | tx_sleep_pull),
        set_dio_rf_switch_config(tx_dio, cmd::RF_SW_TX),
        set_dio_function(rx_dio, cmd::DIO_FUNCTION_RF_SWITCH | rx_sleep_pull),
        set_dio_rf_switch_config(rx_dio, cmd::RF_SW_RX),
    ]
}

} // verus!
