//! Judging what the ROM answered, and what its silence may mean.

use super::{BOOTDIAG_NONMAIN_CORRUPTED, DSSM_RESPONSE_SUCCESS, RCR_RX_VALID};
use vstd::prelude::*;

verus! {

/// Why the answer to a DSSM command was not taken as a success.
#[derive(Clone, Copy, Debug, PartialEq, Eq)]
pub enum Rejection {
    /// The ROM did not report success.
    CommandFailed {
        /// The command.
        command: u32,
        /// The response payload.
        rxd: u32,
        /// The status flags that announced the response.
        rcr: u32,
    },
    /// The ROM reported success, but echoed another command.
    EchoMismatch {
        /// The command.
        command: u32,
        /// The status flags that announced the response.
        rcr: u32,
    },
}

/// Why a DSSM command failed. `E` is the error type of the debug interface.
#[derive(Debug, PartialEq, Eq)]
pub enum DssmError<E> {
    /// The debug interface failed.
    Interface(E),
    /// The bootcode did not respond in time.
    Timeout,
    /// The bootcode responded, but not with a success.
    Rejected(Rejection),
}

/// Whether `RX_VALID` is set in the status flags: a response is pending.
pub open spec fn rx_valid(rcr: u32) -> bool {
    rcr & RCR_RX_VALID != 0
}

/// The command echo in the status flags: their low byte without `RX_VALID`.
pub open spec fn command_echo(rcr: u32) -> u32 {
    rcr & 0xff & !RCR_RX_VALID
}

/// Whether the response to `command` is a success: the payload says so, and
/// the echo is the low byte of the command.
pub open spec fn acknowledges(command: u32, rcr: u32, rxd: u32) -> bool {
    rxd == DSSM_RESPONSE_SUCCESS && command_echo(rcr) == command & 0xff
}

/// What the response to `command` amounts to. A bad payload is reported before
/// a bad echo.
pub open spec fn verdict(command: u32, rcr: u32, rxd: u32) -> Result<(), Rejection> {
    if acknowledges(command, rcr, rxd) {
        Ok(())
    } else if rxd != DSSM_RESPONSE_SUCCESS {
        Err(Rejection::CommandFailed { command, rxd, rcr })
    } else {
        Err(Rejection::EchoMismatch { command, rcr })
    }
}

/// Tells whether a response is pending.
pub fn response_pending(rcr: u32) -> (result: bool)
    ensures
        result == rx_valid(rcr),
        result == (rcr & 1 != 0),
{
    rcr & RCR_RX_VALID != 0
}

/// Reads the command echo out of the status flags.
pub fn echo_of(rcr: u32) -> (echo: u32)
    ensures
        echo == command_echo(rcr),
        echo == rcr & 0xfe,
{
    proof {
        law_echo(rcr);
    }
    rcr & 0xff & !RCR_RX_VALID
}

/// Validates the response to `command`, given the payload `rxd` and the status
/// flags `rcr` that announced it.
///
/// The command echo shares the low bits of `RCR` with the `RX_VALID` flag,
/// which is still set in `rcr`: the sample predates the read of `RXD` that
/// clears it on the device.
pub fn check_response(command: u32, rcr: u32, rxd: u32) -> (result: Result<(), Rejection>)
    ensures
        result == verdict(command, rcr, rxd),
        result is Ok <==> rxd == 0x1_0003 && rcr & 0xfe == command & 0xff,
        result is Err ==> result->Err_0 == if rxd == 0x1_0003 {
            Rejection::EchoMismatch { command, rcr }
        } else {
            Rejection::CommandFailed { command, rxd, rcr }
        },
{
    proof {
        law_verdict(command, rcr, rxd);
    }
    let rcr_echo: u32 = echo_of(rcr);
    if rxd != DSSM_RESPONSE_SUCCESS {
        return Err(Rejection::CommandFailed { command, rxd, rcr });
    }
    if rcr_echo != (command & 0xff) {
        return Err(Rejection::EchoMismatch { command, rcr });
    }
    Ok(())
}

/// A number in messages: `0x` and at least `width` hexadecimal digits.
pub open spec fn hex(value: u32, width: nat) -> Seq<char> {
    "0x"@ + crate::text::hex_digits(value as nat, width)
}

/// Appends `value` to a message.
fn append_number(text: &mut String, value: u32, width: u32)
    ensures
        final(text)@ == old(text)@ + hex(value, width as nat),
{
    text.append("0x");
    crate::text::append_hex(text, value, width);
}

impl Rejection {
    /// The text of [`Rejection::message`].
    pub open spec fn text(self) -> Seq<char> {
        match self {
            Rejection::CommandFailed { command, rxd, rcr } => "MSPM0 DSSM command "@ + hex(
                command,
                4,
            ) + " failed: RXD: "@ + hex(rxd, 8) + ", RCR: "@ + hex(rcr, 8),
            Rejection::EchoMismatch { command, rcr } => "MSPM0 DSSM command "@ + hex(command, 4)
                + " failed: unexpected RCR echo "@ + hex(rcr, 8),
        }
    }

    /// Says what went wrong.
    pub fn message(&self) -> (message: String)
        ensures
            message@ == self.text(),
    {
        let mut message = String::from_str("MSPM0 DSSM command ");
        match self {
            Rejection::CommandFailed { command, rxd, rcr } => {
                append_number(&mut message, *command, 4);
                message.append(" failed: RXD: ");
                append_number(&mut message, *rxd, 8);
                message.append(", RCR: ");
                append_number(&mut message, *rcr, 8);
            },
            Rejection::EchoMismatch { command, rcr } => {
                append_number(&mut message, *command, 4);
                message.append(" failed: unexpected RCR echo ");
                append_number(&mut message, *rcr, 8);
            },
        }
        message
    }

    /// The text of [`Rejection::log_message`].
    pub open spec fn log_text(self) -> Seq<char> {
        match self {
            Rejection::CommandFailed { command, rxd, .. } => "MSPM0 DSSM: command "@ + hex(
                command,
                4,
            ) + " failed, RXD: "@ + hex(rxd, 8),
            Rejection::EchoMismatch { command, rcr } =>
                "MSPM0 DSSM: command echo mismatch, expected "@ + hex(command & 0xff, 1)
                + ", got "@ + hex(command_echo(rcr), 1),
        }
    }

    /// Says for the log what went wrong.
    pub fn log_message(&self) -> (message: String)
        ensures
            message@ == self.log_text(),
    {
        match self {
            Rejection::CommandFailed { command, rxd, .. } => {
                let mut message = String::from_str("MSPM0 DSSM: command ");
                append_number(&mut message, *command, 4);
                message.append(" failed, RXD: ");
                append_number(&mut message, *rxd, 8);
                message
            },
            Rejection::EchoMismatch { command, rcr } => {
                let mut message = String::from_str("MSPM0 DSSM: command echo mismatch, expected ");
                append_number(&mut message, *command & 0xff, 1);
                message.append(", got ");
                append_number(&mut message, echo_of(*rcr), 1);
                message
            },
        }
    }
}

/// The CFG-AP boot diagnostic, read when the bootcode did not respond to a
/// DSSM command.
///
/// A silent bootcode usually means one of:
///
/// - the probe cannot actually toggle the nRST line (the command is never
///   handed to the bootcode, which only samples the mailbox during boot), or
/// - the device's NONMAIN configuration rejects mailbox commands outright
///   (e.g. "Debug Disabled", or a corrupted NONMAIN whose pattern-match fields
///   fail safe to a maximally secure configuration).
#[derive(Clone, Copy, Debug, PartialEq, Eq)]
pub struct BootDiagnostic {
    /// The value of the register.
    pub value: u32,
}

impl BootDiagnostic {
    /// Whether the bootcode found NONMAIN corrupted.
    pub open spec fn corrupted(self) -> bool {
        self.value == BOOTDIAG_NONMAIN_CORRUPTED
    }

    /// Tells whether the bootcode found NONMAIN corrupted.
    pub fn nonmain_corrupted(&self) -> (result: bool)
        ensures
            result == self.corrupted(),
            result == (self.value == 0x36),
    {
        self.value == BOOTDIAG_NONMAIN_CORRUPTED
    }

    /// The text of [`BootDiagnostic::message`].
    pub open spec fn text(self) -> Seq<char> {
        "MSPM0 DSSM: no response from the bootcode; CFG-AP boot diagnostic is "@ + hex(
            self.value,
            8,
        ) + if self.corrupted() {
            ": the NONMAIN configuration appears to be corrupted. If the device still does not respond, it may not be recoverable over SWD."@
        } else {
            ". Make sure the probe's nRST line is wired to the target and can actually be driven low: the command is only serviced by the bootcode during boot."@
        }
    }

    /// Says what the user can make of the silence.
    pub fn message(&self) -> (message: String)
        ensures
            message@ == self.text(),
    {
        let mut message = String::from_str(
            "MSPM0 DSSM: no response from the bootcode; CFG-AP boot diagnostic is ",
        );
        append_number(&mut message, self.value, 8);
        if self.nonmain_corrupted() {
            message.append(
                ": the NONMAIN configuration appears to be corrupted. If the device still does not respond, it may not be recoverable over SWD.",
            );
        } else {
            message.append(
                ". Make sure the probe's nRST line is wired to the target and can actually be driven low: the command is only serviced by the bootcode during boot.",
            );
        }
        message
    }
}

/// The command echo says nothing of `RX_VALID`, nor of any flag above the low
/// byte.
pub proof fn law_echo_of_low_bits(rcr: u32, other: u32)
    requires
        rcr & 0xfe == other & 0xfe,
    ensures
        command_echo(rcr) == command_echo(other),
{
    assert(rcr & 0xff & !1u32 == rcr & 0xfe) by (bit_vector);
    assert(other & 0xff & !1u32 == other & 0xfe) by (bit_vector);
}

/// A command whose lowest bit is clear is acknowledged by a success that echoes
/// its low byte, with `RX_VALID` set on top of it.
pub proof fn law_even_command_acknowledged(command: u32, rcr: u32)
    requires
        command & RCR_RX_VALID == 0,
        rcr & 0xff == (command & 0xff) | RCR_RX_VALID,
    ensures
        rx_valid(rcr),
        acknowledges(command, rcr, DSSM_RESPONSE_SUCCESS),
{
    assert(rcr & 1 != 0 && rcr & 0xff & !1u32 == command & 0xff) by (bit_vector)
        requires
            command & 1 == 0,
            rcr & 0xff == (command & 0xff) | 1,
    ;
}

/// A command whose lowest bit is set is never acknowledged: the echo has no
/// room for that bit.
pub proof fn law_odd_command_never_acknowledged(command: u32, rcr: u32, rxd: u32)
    requires
        command & RCR_RX_VALID != 0,
    ensures
        !acknowledges(command, rcr, rxd),
{
    assert(rcr & 0xff & !1u32 != command & 0xff) by (bit_vector)
        requires
            command & 1 != 0,
    ;
}

/// The DSSM commands can all be acknowledged.
pub proof fn law_commands_are_even()
    ensures
        super::DSSM_CMD_START_BOOTLOADER & RCR_RX_VALID == 0,
        super::DSSM_CMD_FACTORY_RESET & RCR_RX_VALID == 0,
        super::DSSM_CMD_MASS_ERASE & RCR_RX_VALID == 0,
{
    assert(0x0108u32 & 1 == 0 && 0x020au32 & 1 == 0 && 0x020cu32 & 1 == 0) by (bit_vector);
}

/// A response is pending exactly while bit 0 of the status flags is set,
/// whatever the other bits hold.
pub proof fn law_pending_is_bit_zero(rcr: u32)
    ensures
        rx_valid(rcr) <==> rcr & 1 != 0,
        rx_valid(rcr) <==> rcr % 2 == 1,
{
    assert((rcr & 1 != 0) == (rcr % 2 == 1)) by (bit_vector);
}

/// The command echo is made of bits 1 to 7 of the status flags.
pub proof fn law_echo(rcr: u32)
    ensures
        command_echo(rcr) == rcr & 0xfe,
{
    assert(rcr & 0xff & !1u32 == rcr & 0xfe) by (bit_vector);
}

/// A response is taken as a success exactly if its payload is `0x1_0003` and
/// its echo is the low byte of the command. Any other payload is reported as a
/// failed command, with all that came; a wrong echo of a success is reported as
/// such.
pub proof fn law_verdict(command: u32, rcr: u32, rxd: u32)
    ensures
        acknowledges(command, rcr, rxd) <==> rxd == 0x1_0003 && rcr & 0xfe == command & 0xff,
        verdict(command, rcr, rxd) is Ok <==> rxd == 0x1_0003 && rcr & 0xfe == command & 0xff,
        rxd != 0x1_0003 ==> verdict(command, rcr, rxd) == Err::<(), Rejection>(
            Rejection::CommandFailed { command, rxd, rcr },
        ),
        rxd == 0x1_0003 && rcr & 0xfe != command & 0xff ==> verdict(command, rcr, rxd) == Err::<
            (),
            Rejection,
        >(Rejection::EchoMismatch { command, rcr }),
{
    law_echo(rcr);
}

/// At most one payload is a success, for any command and any flags.
pub proof fn law_one_success(command: u32, rcr: u32, rxd: u32, other: u32)
    requires
        verdict(command, rcr, rxd) is Ok,
        rxd != other,
    ensures
        verdict(command, rcr, other) is Err,
{
}

/// A boot diagnostic of `0x36` tells of a corrupted NONMAIN, and no other does.
pub proof fn law_corrupted(diagnostic: BootDiagnostic)
    ensures
        diagnostic.corrupted() <==> diagnostic.value == 0x36,
{
}

/// What the messages about a rejected response say.
pub proof fn law_rejection_messages(command: u32, rcr: u32, rxd: u32)
    ensures
        (Rejection::CommandFailed { command, rxd, rcr }).text() == "MSPM0 DSSM command "@ + ("0x"@
            + crate::text::hex_digits(command as nat, 4)) + " failed: RXD: "@ + ("0x"@
            + crate::text::hex_digits(rxd as nat, 8)) + ", RCR: "@ + ("0x"@
            + crate::text::hex_digits(rcr as nat, 8)),
        (Rejection::EchoMismatch { command, rcr }).text() == "MSPM0 DSSM command "@ + ("0x"@
            + crate::text::hex_digits(command as nat, 4)) + " failed: unexpected RCR echo "@ + (
        "0x"@ + crate::text::hex_digits(rcr as nat, 8)),
        (Rejection::CommandFailed { command, rxd, rcr }).log_text() == "MSPM0 DSSM: command "@ + (
        "0x"@ + crate::text::hex_digits(command as nat, 4)) + " failed, RXD: "@ + ("0x"@
            + crate::text::hex_digits(rxd as nat, 8)),
        (Rejection::EchoMismatch { command, rcr }).log_text()
            == "MSPM0 DSSM: command echo mismatch, expected "@ + ("0x"@ + crate::text::hex_digits(
            (command & 0xff) as nat,
            1,
        )) + ", got "@ + ("0x"@ + crate::text::hex_digits((rcr & 0xfe) as nat, 1)),
{
    law_echo(rcr);
}

/// What the message about a silent bootcode says.
pub proof fn law_diagnostic_message(diagnostic: BootDiagnostic)
    ensures
        diagnostic.text()
            == "MSPM0 DSSM: no response from the bootcode; CFG-AP boot diagnostic is "@ + ("0x"@
            + crate::text::hex_digits(diagnostic.value as nat, 8)) + if diagnostic.value == 0x36 {
            ": the NONMAIN configuration appears to be corrupted. If the device still does not respond, it may not be recoverable over SWD."@
        } else {
            ". Make sure the probe's nRST line is wired to the target and can actually be driven low: the command is only serviced by the bootcode during boot."@
        },
{
}

} // verus!
