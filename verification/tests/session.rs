use nix::sys::termios::{
    ControlFlags, InputFlags, LocalFlags, OutputFlags, SpecialCharacterIndices, NCCS,
};
use rawterm::config::{FlagMasks, InputMasks, LocalMasks, ReadSlots, TermConfig};
use rawterm::error::TerminalError;
use rawterm::platform::platform_masks;
use rawterm::session::{Mode, Terminal};

fn masks() -> FlagMasks {
    FlagMasks {
        input: InputMasks { brkint: 0x2, icrnl: 0x100, inpck: 0x10, istrip: 0x20, ixon: 0x400 },
        opost: 0x1,
        cs8: 0x30,
        local: LocalMasks { echo: 0x8, icanon: 0x2, iexten: 0x8000, isig: 0x1 },
        slots: ReadSlots { vmin: 6, vtime: 5 },
    }
}

fn captured(len: usize) -> TermConfig {
    TermConfig {
        input_flags: 0x4500,
        output_flags: 0x5,
        control_flags: 0xbf,
        local_flags: 0x8a3b,
        control_chars: (0..len).map(|i| (i as u8).wrapping_mul(3).wrapping_add(1)).collect(),
    }
}

#[test]
fn new_session_holds_the_capture_twice() {
    let t = Terminal::with_masks(captured(32), masks()).unwrap();
    assert_eq!(*t.original(), captured(32));
    assert_eq!(*t.active(), captured(32));
    assert_eq!(t.masks(), masks());
    assert_eq!(t.mode(), Mode::Cooked);
}

#[test]
fn capture_with_a_short_table_is_refused() {
    let made = Terminal::with_masks(captured(6), masks());
    assert_eq!(made.err(), Some(TerminalError::TerminalIO));
    assert!(Terminal::with_masks(captured(7), masks()).is_ok());
}

#[test]
fn capture_then_restore_is_the_identity() {
    let mut t = Terminal::with_masks(captured(32), masks()).unwrap();
    assert_eq!(t.disable_raw_mode(), captured(32));
    assert_eq!(t.mode(), Mode::Cooked);
}

#[test]
fn enable_raw_mode_hands_out_the_raw_configuration() {
    let mut t = Terminal::with_masks(captured(32), masks()).unwrap();
    let raw = t.enable_raw_mode();
    assert_eq!(raw.input_flags, 0x4000);
    assert_eq!(raw.output_flags, 0x4);
    assert_eq!(raw.control_flags, 0xbf);
    assert_eq!(raw.local_flags, 0x0a30);
    assert_eq!(raw.control_chars[6], 0);
    assert_eq!(raw.control_chars[5], 1);
    assert!(raw.is_raw(&masks()));
    assert_eq!(*t.active(), raw);
    assert_eq!(*t.original(), captured(32));
    assert_eq!(t.mode(), Mode::Raw);
}

#[test]
fn echo_is_off_after_enable_raw_mode() {
    let mut t = Terminal::with_masks(captured(32), masks()).unwrap();
    assert_ne!(t.active().local_flags & 0x8, 0);
    let raw = t.enable_raw_mode();
    assert_eq!(raw.local_flags & 0x8, 0);
}

#[test]
fn canonical_mode_is_off_after_enable_raw_mode() {
    let mut t = Terminal::with_masks(captured(32), masks()).unwrap();
    let raw = t.enable_raw_mode();
    assert_eq!(raw.local_flags & 0x2, 0);
    assert_eq!(raw.control_chars[6], 0);
}

#[test]
fn restore_after_several_enables_is_the_capture() {
    let mut t = Terminal::with_masks(captured(32), masks()).unwrap();
    let first = t.enable_raw_mode();
    let second = t.enable_raw_mode();
    let third = t.enable_raw_mode();
    assert_eq!(first, second);
    assert_eq!(second, third);
    assert_eq!(t.disable_raw_mode(), captured(32));
    assert_eq!(t.mode(), Mode::Cooked);
}

#[test]
fn restore_twice_gives_the_same_configuration() {
    let mut t = Terminal::with_masks(captured(32), masks()).unwrap();
    t.enable_raw_mode();
    assert_eq!(t.disable_raw_mode(), captured(32));
    assert_eq!(t.disable_raw_mode(), captured(32));
}

#[test]
fn platform_masks_are_the_platform_constants() {
    let m = platform_masks();
    assert_eq!(m.input.brkint, u64::from(InputFlags::BRKINT.bits()));
    assert_eq!(m.input.icrnl, u64::from(InputFlags::ICRNL.bits()));
    assert_eq!(m.input.inpck, u64::from(InputFlags::INPCK.bits()));
    assert_eq!(m.input.istrip, u64::from(InputFlags::ISTRIP.bits()));
    assert_eq!(m.input.ixon, u64::from(InputFlags::IXON.bits()));
    assert_eq!(m.opost, u64::from(OutputFlags::OPOST.bits()));
    assert_eq!(m.cs8, u64::from(ControlFlags::CS8.bits()));
    assert_eq!(m.local.echo, u64::from(LocalFlags::ECHO.bits()));
    assert_eq!(m.local.icanon, u64::from(LocalFlags::ICANON.bits()));
    assert_eq!(m.local.iexten, u64::from(LocalFlags::IEXTEN.bits()));
    assert_eq!(m.local.isig, u64::from(LocalFlags::ISIG.bits()));
    assert_eq!(m.slots.vmin, SpecialCharacterIndices::VMIN as usize);
    assert_eq!(m.slots.vtime, SpecialCharacterIndices::VTIME as usize);
    assert_ne!(m.local.echo, 0);
    assert_ne!(m.slots.vmin, m.slots.vtime);
}

#[test]
fn session_on_this_platform_enters_raw_mode() {
    let all = u64::from(LocalFlags::all().bits());
    let orig = TermConfig {
        input_flags: u64::from(InputFlags::all().bits()),
        output_flags: u64::from(OutputFlags::all().bits()),
        control_flags: 0,
        local_flags: all,
        control_chars: vec![9u8; NCCS],
    };
    let mut t = Terminal::new(orig.duplicate()).unwrap();
    assert_eq!(t.masks(), platform_masks());
    let raw = t.enable_raw_mode();
    assert!(raw.is_raw(&platform_masks()));
    assert_eq!(raw.local_flags & u64::from(LocalFlags::ECHO.bits()), 0);
    assert_eq!(raw.local_flags & u64::from(LocalFlags::ICANON.bits()), 0);
    assert_eq!(raw.output_flags & u64::from(OutputFlags::OPOST.bits()), 0);
    assert_eq!(raw.control_flags, u64::from(ControlFlags::CS8.bits()));
    assert_eq!(raw.control_chars[SpecialCharacterIndices::VMIN as usize], 0);
    assert_eq!(raw.control_chars[SpecialCharacterIndices::VTIME as usize], 1);
    assert_eq!(t.disable_raw_mode(), orig);
}

#[test]
fn session_on_this_platform_refuses_an_empty_table() {
    let orig = TermConfig {
        input_flags: 0,
        output_flags: 0,
        control_flags: 0,
        local_flags: 0,
        control_chars: Vec::new(),
    };
    assert_eq!(Terminal::new(orig).err(), Some(TerminalError::TerminalIO));
}
