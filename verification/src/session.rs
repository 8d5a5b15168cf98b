use vstd::prelude::*;

use crate::config::{
    lemma_raw_disables_canonical, lemma_raw_disables_echo, lemma_raw_is_raw, lemma_raw_twice,
    raw_of, spec_is_raw, ConfigModel, FlagMasks, TermConfig,
};
use crate::error::TerminalError;
use crate::platform::platform_masks;

verus! {

/// Which line discipline the session has last asked the device for.
#[derive(Clone, Copy, Debug, PartialEq, Eq, Structural)]
pub enum Mode {
    /// The configuration the terminal had when the session began.
    Cooked,
    /// Byte-at-a-time, unechoed input.
    Raw,
}

/// The mathematical content of a session.
pub struct SessionModel {
    /// The configuration captured when the session began.
    pub original: ConfigModel,
    /// The configuration the session works on.
    pub active: ConfigModel,
    /// The platform's masks.
    pub masks: FlagMasks,
    /// What the device was last asked for.
    pub mode: Mode,
}

/// The session that begins with capturing `captured`.
pub open spec fn captured_session(captured: ConfigModel, masks: FlagMasks) -> SessionModel {
    SessionModel { original: captured, active: captured, masks, mode: Mode::Cooked }
}

/// The session after one request for raw mode.
pub open spec fn entered(s: SessionModel) -> SessionModel {
    SessionModel {
        original: s.original,
        active: raw_of(s.active, s.masks),
        masks: s.masks,
        mode: Mode::Raw,
    }
}

/// The session after `n` requests for raw mode in a row.
pub open spec fn entered_times(s: SessionModel, n: nat) -> SessionModel
    decreases n,
{
    if n == 0 {
        s
    } else {
        entered(entered_times(s, (n - 1) as nat))
    }
}

/// The configuration that leaving raw mode hands to the device.
pub open spec fn restored(s: SessionModel) -> ConfigModel {
    s.original
}

/// The session after leaving raw mode.
pub open spec fn left(s: SessionModel) -> SessionModel {
    SessionModel { original: s.original, active: s.active, masks: s.masks, mode: Mode::Cooked }
}

/// A terminal session: the configuration captured at its start, kept
/// untouched for restoration, and the working copy that raw mode is
/// derived from.
#[derive(Debug)]
pub struct Terminal {
    orig: TermConfig,
    curr: TermConfig,
    masks: FlagMasks,
    mode: Mode,
}

impl View for Terminal {
    type V = SessionModel;

    closed spec fn view(&self) -> SessionModel {
        SessionModel {
            original: self.orig@,
            active: self.curr@,
            masks: self.masks,
            mode: self.mode,
        }
    }
}

impl Terminal {
    #[verifier::type_invariant]
    spec fn well_formed(self) -> bool {
        &&& self.masks.fits(self.orig@.control_chars.len())
        &&& self.curr@.control_chars.len() == self.orig@.control_chars.len()
    }

    /// Begins a session on the captured configuration `orig`, on a platform
    /// described by `masks`. A capture whose control-character table has no
    /// room for the read-control slots is refused.
    pub fn with_masks(orig: TermConfig, masks: FlagMasks) -> (made: Result<
        Terminal,
        TerminalError,
    >)
        ensures
            masks.fits(orig@.control_chars.len()) ==> made is Ok && made.unwrap()@
                == captured_session(orig@, masks),
            !masks.fits(orig@.control_chars.len()) ==> made is Err && made.unwrap_err()
                == TerminalError::TerminalIO,
    {
        let len = orig.control_chars.len();
        if masks.slots.vmin >= len || masks.slots.vtime >= len {
            return Err(TerminalError::TerminalIO);
        }
        let curr = orig.duplicate();
        Ok(Terminal { orig, curr, masks, mode: Mode::Cooked })
    }

    /// Begins a session on the captured configuration `orig`, on the
    /// platform this library was built for.
    pub fn new(orig: TermConfig) -> (made: Result<Terminal, TerminalError>)
        ensures
            match made {
                Ok(t) => t@ == captured_session(orig@, t@.masks) && t@.masks.fits(
                    orig@.control_chars.len(),
                ),
                Err(e) => e == TerminalError::TerminalIO,
            },
    {
        Terminal::with_masks(orig, platform_masks())
    }

    /// Derives the raw configuration from the working copy and hands it out
    /// for the device to apply.
    pub fn enable_raw_mode(&mut self) -> (apply: TermConfig)
        ensures
            final(self)@ == entered(old(self)@),
            apply@ == final(self)@.active,
            spec_is_raw(apply@, old(self)@.masks),
            apply@.local_flags & old(self)@.masks.local.echo == 0,
            apply@.local_flags & old(self)@.masks.local.icanon == 0,
    {
        proof {
            use_type_invariant(&*self);
            lemma_raw_is_raw(self.curr@, self.masks);
            lemma_raw_disables_echo(self.curr@, self.masks);
            lemma_raw_disables_canonical(self.curr@, self.masks);
        }
        let mut raw = self.curr.duplicate();
        let _ = raw.make_raw(&self.masks);
        let apply = raw.duplicate();
        self.curr = raw;
        self.mode = Mode::Raw;
        apply
    }

    /// Ends raw mode: hands out the configuration captured at the start of
    /// the session for the device to apply.
    pub fn disable_raw_mode(&mut self) -> (apply: TermConfig)
        ensures
            final(self)@ == left(old(self)@),
            apply@ == restored(old(self)@),
    {
        proof {
            use_type_invariant(&*self);
        }
        self.mode = Mode::Cooked;
        self.orig.duplicate()
    }

    /// The configuration captured at the start of the session.
    pub fn original(&self) -> (config: &TermConfig)
        ensures
            config@ == self@.original,
    {
        &self.orig
    }

    /// The working copy.
    pub fn active(&self) -> (config: &TermConfig)
        ensures
            config@ == self@.active,
    {
        &self.curr
    }

    /// The platform's masks.
    pub fn masks(&self) -> (masks: FlagMasks)
        ensures
            masks == self@.masks,
    {
        self.masks
    }

    /// What the device was last asked for.
    pub fn mode(&self) -> (mode: Mode)
        ensures
            mode == self@.mode,
    {
        self.mode
    }
}

/// Leaving raw mode right after the capture hands the device exactly the
/// configuration that was captured.
pub proof fn lemma_capture_then_restore(captured: ConfigModel, masks: FlagMasks)
    ensures
        restored(captured_session(captured, masks)) == captured,
        restored(left(captured_session(captured, masks))) == captured,
{
}

/// However often raw mode was requested, the session still holds the
/// configuration it captured, on the same platform.
pub proof fn lemma_enters_keep_original(s: SessionModel, n: nat)
    ensures
        entered_times(s, n).original == s.original,
        entered_times(s, n).masks == s.masks,
    decreases n,
{
    if n > 0 {
        lemma_enters_keep_original(s, (n - 1) as nat);
    }
}

/// Leaving raw mode restores the captured configuration, bit for bit,
/// however often raw mode was requested before.
pub proof fn lemma_restore_after_enters(captured: ConfigModel, masks: FlagMasks, n: nat)
    ensures
        restored(entered_times(captured_session(captured, masks), n)) == captured,
{
    lemma_enters_keep_original(captured_session(captured, masks), n);
}

/// Requesting raw mode again changes nothing: after the first request the
/// session stays as it is.
pub proof fn lemma_enters_settle(s: SessionModel, n: nat)
    requires
        s.masks.fits(s.active.control_chars.len()),
        n >= 1,
    ensures
        entered_times(s, n) == entered(s),
    decreases n,
{
    if n > 1 {
        lemma_enters_settle(s, (n - 1) as nat);
        lemma_raw_twice(s.active, s.masks);
    } else {
        assert(entered_times(s, 0) == s);
    }
}

} // verus!
