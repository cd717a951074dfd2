//! Texas Instruments MSPM0 Debug SubSystem Mailbox (DSSM) recovery.
//!
//! A locked MSPM0 device (for example after a failed write-after-erase, or when
//! a debug lock is programmed into NONMAIN) exposes no MEM-AP: the core cannot
//! be examined and the flash cannot be driven through the usual flash
//! algorithms. The only remaining debug access is the SECAP access port
//! (APSEL 2), through which the ROM bootloader accepts DSSM mailbox commands.
//!
//! A DSSM command is executed by the ROM on the next reset: the debugger
//! writes the command into the SECAP mailbox, toggles nRST, and the ROM picks
//! the command up while booting, reporting the outcome back through the
//! mailbox. The factory reset command erases the main and non-main flash and
//! restores the device to its out-of-the-box (unlocked) state.
//!
//! The command values and the register layout are those of TI's OpenOCD target
//! configuration (`tcl/target/ti_mspm0.cfg`), which follows the MSPM0 Technical
//! Reference Manual, chapter "Debug SubSystem Mailbox".
//!
//! # Limitations
//!
//! Password-protected DSSM commands are not supported: only the commands that
//! the ROM accepts without authentication are issued.

use vstd::prelude::*;

pub mod bus;
pub mod command;
pub mod factory;
pub mod factory_laws;
pub mod laws;
pub mod poll;
pub mod poll_laws;
pub mod progress_laws;
pub mod reset;
pub mod response;

verus! {

/// SECAP `TDR`: transfer data register (command payload).
pub const SECAP_TDR: u64 = 0x00;

/// SECAP `TCR`: transfer command register (the DSSM command).
pub const SECAP_TCR: u64 = 0x04;

/// SECAP `RXD`: receive data register (response payload).
pub const SECAP_RXD: u64 = 0x08;

/// SECAP `RCR`: receive control register (status flags).
pub const SECAP_RCR: u64 = 0x0C;

/// SECAP `RCR` bit 0: `RX_VALID`, set by the ROM once a response is pending.
///
/// Reading `SECAP::RXD` clears this bit.
pub const RCR_RX_VALID: u32 = 0x1;

/// DSSM command `0x0108`: ask the ROM to start the bootloader after reset.
pub const DSSM_CMD_START_BOOTLOADER: u32 = 0x0108;

/// DSSM command `0x020a`: factory reset.
///
/// Erases the main and non-main flash and clears all debug security settings,
/// recovering devices that are otherwise bricked. Requires a subsequent reset
/// (performed as part of the command flow) to take effect.
pub const DSSM_CMD_FACTORY_RESET: u32 = 0x020a;

/// DSSM command `0x020c`: mass erase of the main flash.
pub const DSSM_CMD_MASS_ERASE: u32 = 0x020c;

/// The value the ROM writes to `SECAP::RXD` after successfully executing a
/// command.
pub const DSSM_RESPONSE_SUCCESS: u32 = 0x1_0003;

/// Milliseconds the ROM needs between the mailbox write and sampling it after
/// reset.
pub const MAILBOX_SETTLE: u64 = 1000;

/// How many milliseconds the ROM may take to acknowledge a command after nRST.
pub const RESPONSE_TIMEOUT: u64 = 2000;

/// Milliseconds between `RCR` polls while waiting for the ROM response.
pub const RESPONSE_POLL_INTERVAL: u64 = 10;

/// How many milliseconds nRST is held asserted.
pub const NRST_ASSERT: u64 = 100;

/// Milliseconds for the device to boot after nRST is released.
pub const RESET_SETTLE: u64 = 100;

/// `DAP_SWJ_Pins` pin select/output bit for nRESET.
pub const SWJ_PIN_NRESET: u32 = 0x80;

/// CFG-AP register `0x10`: the boot diagnostic, written by the bootcode.
pub const BOOTDIAG: u64 = 0x10;

/// Boot diagnostic value TI's packs associate with a corrupted NONMAIN.
pub const BOOTDIAG_NONMAIN_CORRUPTED: u32 = 0x36;

/// A debug port.
#[derive(Clone, Copy, Debug, PartialEq, Eq)]
pub enum DpAddress {
    /// The debug port of a target that has only one.
    Default,
    /// A debug port on a multidrop bus, by its target selection value.
    Multidrop(u32),
}

/// An access port, below the debug port that it belongs to.
#[derive(Clone, Copy, Debug, PartialEq, Eq)]
pub enum ApAddress {
    /// An ADIv5 access port, by its APSEL value.
    V1(u8),
}

/// An access port together with its debug port.
#[derive(Clone, Copy, Debug, PartialEq, Eq)]
pub struct FullyQualifiedApAddress {
    /// The debug port.
    pub dp: DpAddress,
    /// The access port.
    pub ap: ApAddress,
}

impl FullyQualifiedApAddress {
    /// The access port with the given APSEL value on the default debug port.
    pub open spec fn default_dp(apsel: u8) -> FullyQualifiedApAddress {
        FullyQualifiedApAddress { dp: DpAddress::Default, ap: ApAddress::V1(apsel) }
    }

    /// Addresses the access port with the given APSEL value on the default
    /// debug port.
    pub fn v1_with_default_dp(apsel: u8) -> (address: FullyQualifiedApAddress)
        ensures
            address == FullyQualifiedApAddress::default_dp(apsel),
            address.dp == DpAddress::Default,
            address.ap == ApAddress::V1(apsel),
    {
        FullyQualifiedApAddress { dp: DpAddress::Default, ap: ApAddress::V1(apsel) }
    }

    /// The access port without its debug port.
    pub fn ap(&self) -> (ap: &ApAddress)
        ensures
            *ap == self.ap,
    {
        &self.ap
    }
}

/// The SECAP access port: APSEL 2 on every MSPM0 device.
pub fn secap() -> (ap: FullyQualifiedApAddress)
    ensures
        ap == FullyQualifiedApAddress::default_dp(2),
        ap.dp == DpAddress::Default,
        ap.ap == ApAddress::V1(2),
{
    FullyQualifiedApAddress::v1_with_default_dp(2)
}

/// The CFG-AP: APSEL 1 on every MSPM0 device. It reports the boot diagnostic.
pub fn cfg_ap() -> (ap: FullyQualifiedApAddress)
    ensures
        ap == FullyQualifiedApAddress::default_dp(1),
        ap.dp == DpAddress::Default,
        ap.ap == ApAddress::V1(1),
{
    FullyQualifiedApAddress::v1_with_default_dp(1)
}

/// The names of the TI MSPM0/MSPS family.
pub open spec fn mspm0_family(chip_name: Seq<char>) -> bool {
    "MSPM0"@.is_prefix_of(chip_name) || "MSPS"@.is_prefix_of(chip_name)
}

/// Whether the given chip name belongs to the TI MSPM0/MSPS family.
pub fn is_mspm0_family(chip_name: &str) -> (result: bool)
    ensures
        result == mspm0_family(chip_name@),
        result == (seq!['M', 'S', 'P', 'M', '0'].is_prefix_of(chip_name@)
            || seq!['M', 'S', 'P', 'S'].is_prefix_of(chip_name@)),
{
    proof {
        law_family_prefixes(chip_name@);
    }
    crate::text::starts_with(chip_name, "MSPM0") || crate::text::starts_with(chip_name, "MSPS")
}

/// The family is made of the names that begin with the letters `MSPM0` or
/// `MSPS`, all of them and no others.
pub proof fn law_family_prefixes(chip_name: Seq<char>)
    ensures
        mspm0_family(chip_name) <==> seq!['M', 'S', 'P', 'M', '0'].is_prefix_of(chip_name)
            || seq!['M', 'S', 'P', 'S'].is_prefix_of(chip_name),
{
    reveal_strlit("MSPM0");
    reveal_strlit("MSPS");
    assert("MSPM0"@ =~= seq!['M', 'S', 'P', 'M', '0']);
    assert("MSPS"@ =~= seq!['M', 'S', 'P', 'S']);
}

/// Whether a name belongs to the family shows in its beginning: whatever
/// follows a name of the family makes another one.
pub proof fn law_family_by_prefix(chip_name: Seq<char>, suffix: Seq<char>)
    requires
        mspm0_family(chip_name),
    ensures
        mspm0_family(chip_name + suffix),
{
    let longer = chip_name + suffix;
    if "MSPM0"@.is_prefix_of(chip_name) {
        let n = "MSPM0"@.len() as int;
        assert(longer.subrange(0, n) =~= chip_name.subrange(0, n));
    } else {
        let n = "MSPS"@.len() as int;
        assert(longer.subrange(0, n) =~= chip_name.subrange(0, n));
    }
}

} // verus!
