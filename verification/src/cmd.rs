//! The commands that write and erase flash.
//!
//! On TI MSPM0 devices, a chip erase is a DSSM factory reset: it erases the
//! main and non-main flash and clears the debug security settings, which also
//! recovers locked devices. It takes place while the probe is attached.

use crate::mspm0_dssm::is_mspm0_family;
use vstd::prelude::*;

pub mod download;
pub mod erase;
pub mod laws;

verus! {

/// How to select and reach the target. `P` is whatever else there is to know.
#[derive(Debug, PartialEq, Eq)]
pub struct ProbeOptions<P> {
    /// The chip that was asked for, if one was.
    pub chip: Option<String>,
    /// Everything that plays no role here.
    pub rest: P,
}

/// Whether a chip of the MSPM0/MSPS family was asked for.
pub open spec fn chip_is_mspm0(chip: Option<String>) -> bool {
    chip matches Some(name) && crate::mspm0_dssm::mspm0_family(name@)
}

/// Whether a command is to erase by a factory reset: a chip erase was asked
/// for, of a chip that does it that way.
pub open spec fn wants_factory_reset(chip: Option<String>, chip_erase: bool) -> bool {
    chip_erase && chip_is_mspm0(chip)
}

/// Decides whether a command is to erase by a factory reset.
pub fn erases_by_factory_reset(chip: &Option<String>, chip_erase: bool) -> (result: bool)
    ensures
        result == wants_factory_reset(*chip, chip_erase),
        result <==> chip_erase && (*chip matches Some(name) && (seq![
            'M',
            'S',
            'P',
            'M',
            '0',
        ].is_prefix_of(name@) || seq!['M', 'S', 'P', 'S'].is_prefix_of(name@))),
{
    let chip_is_mspm0 = match chip {
        Some(name) => is_mspm0_family(name.as_str()),
        None => false,
    };
    chip_erase && chip_is_mspm0
}

} // verus!
