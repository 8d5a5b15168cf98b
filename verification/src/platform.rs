use nix::sys::termios::{
    ControlFlags, InputFlags, LocalFlags, OutputFlags, SpecialCharacterIndices,
};
use vstd::prelude::*;

use crate::config::{FlagMasks, InputMasks, LocalMasks, ReadSlots};

verus! {

/// Reads, through `InputFlags::bits` of nix, the patterns of the five input
/// flags that raw mode clears. Nothing is claimed of the patterns: they are
/// whatever the platform's headers define.
#[verifier::external_body]
fn input_masks() -> (masks: InputMasks) {
    InputMasks {
        brkint: u64::from(InputFlags::BRKINT.bits()),
        icrnl: u64::from(InputFlags::ICRNL.bits()),
        inpck: u64::from(InputFlags::INPCK.bits()),
        istrip: u64::from(InputFlags::ISTRIP.bits()),
        ixon: u64::from(InputFlags::IXON.bits()),
    }
}

/// Reads, through `OutputFlags::bits` of nix, the pattern of the
/// post-processing flag. Nothing is claimed of the pattern.
#[verifier::external_body]
fn opost_mask() -> (mask: u64) {
    u64::from(OutputFlags::OPOST.bits())
}

/// Reads, through `ControlFlags::bits` of nix, the pattern that selects
/// eight-bit characters. Nothing is claimed of the pattern.
#[verifier::external_body]
fn cs8_mask() -> (mask: u64) {
    u64::from(ControlFlags::CS8.bits())
}

/// Reads, through `LocalFlags::bits` of nix, the patterns of the four local
/// flags that raw mode clears. Nothing is claimed of the patterns.
#[verifier::external_body]
fn local_masks() -> (masks: LocalMasks) {
    LocalMasks {
        echo: u64::from(LocalFlags::ECHO.bits()),
        icanon: u64::from(LocalFlags::ICANON.bits()),
        iexten: u64::from(LocalFlags::IEXTEN.bits()),
        isig: u64::from(LocalFlags::ISIG.bits()),
    }
}

/// Reads the positions that nix's `SpecialCharacterIndices` gives to the
/// two read-control slots. Nothing is claimed of the positions.
#[verifier::external_body]
fn read_slots() -> (slots: ReadSlots) {
    ReadSlots {
        vmin: SpecialCharacterIndices::VMIN as usize,
        vtime: SpecialCharacterIndices::VTIME as usize,
    }
}

/// The masks of the platform this library was built for. What they hold
/// differs between platforms, so nothing is promised of them here: whatever
/// is done with them is stated for every value they may have.
pub fn platform_masks() -> (masks: FlagMasks) {
    FlagMasks {
        input: input_masks(),
        opost: opost_mask(),
        cs8: cs8_mask(),
        local: local_masks(),
        slots: read_slots(),
    }
}

} // verus!
