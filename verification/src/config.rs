use vstd::prelude::*;

use crate::error::TerminalError;

verus! {

/// The input flags that raw mode clears, each as the platform's bit pattern.
#[derive(Clone, Copy, Debug, PartialEq, Eq, Structural)]
pub struct InputMasks {
    /// A break condition raises an interrupt.
    pub brkint: u64,
    /// Carriage return is translated to newline.
    pub icrnl: u64,
    /// Parity checking.
    pub inpck: u64,
    /// The eighth bit of each byte is stripped.
    pub istrip: u64,
    /// Software flow control (Ctrl+S / Ctrl+Q).
    pub ixon: u64,
}

impl InputMasks {
    /// The union of the five patterns.
    pub open spec fn all(self) -> u64 {
        self.brkint | self.icrnl | self.inpck | self.istrip | self.ixon
    }
}

/// The local flags that raw mode clears, each as the platform's bit pattern.
#[derive(Clone, Copy, Debug, PartialEq, Eq, Structural)]
pub struct LocalMasks {
    /// Typed characters are echoed.
    pub echo: u64,
    /// Canonical (line-buffered) input.
    pub icanon: u64,
    /// Extended input processing.
    pub iexten: u64,
    /// Control characters raise signals.
    pub isig: u64,
}

impl LocalMasks {
    /// The union of the four patterns.
    pub open spec fn all(self) -> u64 {
        self.echo | self.icanon | self.iexten | self.isig
    }
}

/// The two slots of the control-character table that govern a
/// non-canonical read.
#[derive(Clone, Copy, Debug, PartialEq, Eq, Structural)]
pub struct ReadSlots {
    /// Least number of bytes a read waits for.
    pub vmin: usize,
    /// Read timeout, in tenths of a second.
    pub vtime: usize,
}

/// Where the platform keeps each line-discipline switch that raw mode
/// touches.
#[derive(Clone, Copy, Debug, PartialEq, Eq, Structural)]
pub struct FlagMasks {
    /// Input flags to clear.
    pub input: InputMasks,
    /// Output flags: output post-processing.
    pub opost: u64,
    /// Control flags: eight bits per byte.
    pub cs8: u64,
    /// Local flags to clear.
    pub local: LocalMasks,
    /// Read-control slots.
    pub slots: ReadSlots,
}

impl FlagMasks {
    /// Both read-control slots lie inside a table of `len` entries.
    pub open spec fn fits(self, len: nat) -> bool {
        self.slots.vmin < len && self.slots.vtime < len
    }
}

/// The mathematical content of a terminal configuration.
pub struct ConfigModel {
    /// Input mode flags.
    pub input_flags: u64,
    /// Output mode flags.
    pub output_flags: u64,
    /// Control mode flags.
    pub control_flags: u64,
    /// Local mode flags.
    pub local_flags: u64,
    /// The control-character table.
    pub control_chars: Seq<u8>,
}

/// A snapshot of a terminal's line-discipline attributes, as plain values.
#[derive(Clone, Debug, PartialEq, Eq)]
pub struct TermConfig {
    /// Input mode flags.
    pub input_flags: u64,
    /// Output mode flags.
    pub output_flags: u64,
    /// Control mode flags.
    pub control_flags: u64,
    /// Local mode flags.
    pub local_flags: u64,
    /// The control-character table.
    pub control_chars: Vec<u8>,
}

impl View for TermConfig {
    type V = ConfigModel;

    open spec fn view(&self) -> ConfigModel {
        ConfigModel {
            input_flags: self.input_flags,
            output_flags: self.output_flags,
            control_flags: self.control_flags,
            local_flags: self.local_flags,
            control_chars: self.control_chars@,
        }
    }
}

/// Read timeout of a raw terminal, in tenths of a second.
pub const RAW_READ_TIMEOUT: u8 = 1;

/// Least number of bytes a read on a raw terminal waits for.
pub const RAW_READ_MINIMUM: u8 = 0;

/// The raw variant of configuration `c` on a platform described by `m`.
pub open spec fn raw_of(c: ConfigModel, m: FlagMasks) -> ConfigModel {
    ConfigModel {
        input_flags: c.input_flags & !m.input.all(),
        output_flags: c.output_flags & !m.opost,
        control_flags: c.control_flags | m.cs8,
        local_flags: c.local_flags & !m.local.all(),
        control_chars: c.control_chars.update(m.slots.vmin as int, RAW_READ_MINIMUM).update(
            m.slots.vtime as int,
            RAW_READ_TIMEOUT,
        ),
    }
}

/// `bits` with every bit of `mask` cleared.
pub fn clear_bits(bits: u64, mask: u64) -> (out: u64)
    ensures
        out == bits & !mask,
{
    bits & !mask
}

impl TermConfig {
    /// An independent copy of this configuration.
    pub fn duplicate(&self) -> (copy: TermConfig)
        ensures
            copy@ == self@,
    {
        let mut chars: Vec<u8> = Vec::with_capacity(self.control_chars.len());
        let mut i: usize = 0;
        while i < self.control_chars.len()
            invariant
                i <= self.control_chars.len(),
                chars@ == self.control_chars@.take(i as int),
            decreases self.control_chars.len() - i,
        {
            chars.push(self.control_chars[i]);
            i += 1;
            assert(chars@ =~= self.control_chars@.take(i as int));
        }
        assert(chars@ =~= self.control_chars@);
        TermConfig {
            input_flags: self.input_flags,
            output_flags: self.output_flags,
            control_flags: self.control_flags,
            local_flags: self.local_flags,
            control_chars: chars,
        }
    }

    /// Turns this configuration into its raw variant: no input translation,
    /// no output post-processing, eight-bit characters, no echo, no line
    /// buffering, no signal keys, and a read that returns after at most a
    /// tenth of a second. A configuration whose control-character table has
    /// no room for the two read-control slots is left as it is and refused.
    pub fn make_raw(&mut self, masks: &FlagMasks) -> (done: Result<(), TerminalError>)
        ensures
            masks.fits(old(self)@.control_chars.len()) ==> done == Ok::<(), TerminalError>(())
                && final(self)@ == raw_of(old(self)@, *masks),
            !masks.fits(old(self)@.control_chars.len()) ==> done == Err::<(), TerminalError>(
                TerminalError::TerminalIO,
            ) && final(self)@ == old(self)@,
    {
        let len = self.control_chars.len();
        if masks.slots.vmin >= len || masks.slots.vtime >= len {
            return Err(TerminalError::TerminalIO);
        }
        let mut input = clear_bits(self.input_flags, masks.input.brkint);
        input = clear_bits(input, masks.input.icrnl);
        input = clear_bits(input, masks.input.inpck);
        input = clear_bits(input, masks.input.istrip);
        input = clear_bits(input, masks.input.ixon);
        let mut local = clear_bits(self.local_flags, masks.local.echo);
        local = clear_bits(local, masks.local.icanon);
        local = clear_bits(local, masks.local.iexten);
        local = clear_bits(local, masks.local.isig);
        proof {
            lemma_clear_five(
                self.input_flags,
                masks.input.brkint,
                masks.input.icrnl,
                masks.input.inpck,
                masks.input.istrip,
                masks.input.ixon,
            );
            lemma_clear_four(
                self.local_flags,
                masks.local.echo,
                masks.local.icanon,
                masks.local.iexten,
                masks.local.isig,
            );
        }
        self.input_flags = input;
        self.output_flags = clear_bits(self.output_flags, masks.opost);
        self.control_flags = self.control_flags | masks.cs8;
        self.local_flags = local;
        self.control_chars.set(masks.slots.vmin, RAW_READ_MINIMUM);
        self.control_chars.set(masks.slots.vtime, RAW_READ_TIMEOUT);
        Ok(())
    }

    /// Tells whether this configuration is in raw mode.
    pub fn is_raw(&self, masks: &FlagMasks) -> (raw: bool)
        ensures
            raw == spec_is_raw(self@, *masks),
    {
        let len = self.control_chars.len();
        if masks.slots.vmin >= len || masks.slots.vtime >= len {
            return false;
        }
        let input = masks.input;
        let local = masks.local;
        let input_off = input.brkint | input.icrnl | input.inpck | input.istrip | input.ixon;
        let local_off = local.echo | local.icanon | local.iexten | local.isig;
        let flags_off = self.input_flags & input_off == 0 && self.output_flags & masks.opost == 0
            && self.local_flags & local_off == 0;
        let eight_bit = self.control_flags & masks.cs8 == masks.cs8;
        let timed = self.control_chars[masks.slots.vtime] == RAW_READ_TIMEOUT;
        let unblocked = masks.slots.vmin == masks.slots.vtime
            || self.control_chars[masks.slots.vmin] == RAW_READ_MINIMUM;
        flags_off && eight_bit && timed && unblocked
    }
}

/// Whether `c` is in raw mode on a platform described by `m`: every switch
/// that raw mode clears is off, characters are eight bits wide, and a read
/// returns after at most a tenth of a second without waiting for a byte.
pub open spec fn spec_is_raw(c: ConfigModel, m: FlagMasks) -> bool {
    &&& c.input_flags & m.input.all() == 0
    &&& c.output_flags & m.opost == 0
    &&& c.control_flags & m.cs8 == m.cs8
    &&& c.local_flags & m.local.all() == 0
    &&& m.fits(c.control_chars.len())
    &&& c.control_chars[m.slots.vtime as int] == RAW_READ_TIMEOUT
    &&& m.slots.vmin != m.slots.vtime ==> c.control_chars[m.slots.vmin as int] == RAW_READ_MINIMUM
}

/// The raw variant of any configuration has echo switched off.
pub proof fn lemma_raw_disables_echo(c: ConfigModel, m: FlagMasks)
    ensures
        raw_of(c, m).local_flags & m.local.echo == 0,
{
    let x = c.local_flags;
    let (a, b, d, e) = (m.local.echo, m.local.icanon, m.local.iexten, m.local.isig);
    assert((x & !(a | b | d | e)) & a == 0) by (bit_vector);
}

/// The raw variant of any configuration has canonical input switched off,
/// and its read returns after a tenth of a second however few bytes came.
pub proof fn lemma_raw_disables_canonical(c: ConfigModel, m: FlagMasks)
    requires
        m.fits(c.control_chars.len()),
    ensures
        raw_of(c, m).local_flags & m.local.icanon == 0,
        raw_of(c, m).control_chars.len() == c.control_chars.len(),
        raw_of(c, m).control_chars[m.slots.vtime as int] == RAW_READ_TIMEOUT,
        m.slots.vmin != m.slots.vtime ==> raw_of(c, m).control_chars[m.slots.vmin as int]
            == RAW_READ_MINIMUM,
{
    let x = c.local_flags;
    let (a, b, d, e) = (m.local.echo, m.local.icanon, m.local.iexten, m.local.isig);
    assert((x & !(a | b | d | e)) & b == 0) by (bit_vector);
}

/// The raw variant of any configuration that has room for the read-control
/// slots is in raw mode.
pub proof fn lemma_raw_is_raw(c: ConfigModel, m: FlagMasks)
    requires
        m.fits(c.control_chars.len()),
    ensures
        spec_is_raw(raw_of(c, m), m),
{
    let (i, off) = (c.input_flags, m.input.all());
    assert((i & !off) & off == 0) by (bit_vector);
    let (o, post) = (c.output_flags, m.opost);
    assert((o & !post) & post == 0) by (bit_vector);
    let (k, eight) = (c.control_flags, m.cs8);
    assert((k | eight) & eight == eight) by (bit_vector);
    let (l, loff) = (c.local_flags, m.local.all());
    assert((l & !loff) & loff == 0) by (bit_vector);
}

/// Making a configuration raw a second time changes nothing.
pub proof fn lemma_raw_twice(c: ConfigModel, m: FlagMasks)
    requires
        m.fits(c.control_chars.len()),
    ensures
        raw_of(raw_of(c, m), m) == raw_of(c, m),
{
    let (i, off) = (c.input_flags, m.input.all());
    assert((i & !off) & !off == i & !off) by (bit_vector);
    let (o, post) = (c.output_flags, m.opost);
    assert((o & !post) & !post == o & !post) by (bit_vector);
    let (k, eight) = (c.control_flags, m.cs8);
    assert((k | eight) | eight == k | eight) by (bit_vector);
    let (l, loff) = (c.local_flags, m.local.all());
    assert((l & !loff) & !loff == l & !loff) by (bit_vector);
    assert(raw_of(raw_of(c, m), m).control_chars =~= raw_of(c, m).control_chars);
}

/// Making a configuration raw touches nothing but the named switches: a
/// bit outside every mask keeps its value.
pub proof fn lemma_raw_keeps_other_bits(c: ConfigModel, m: FlagMasks, bit: u64)
    ensures
        bit & m.input.all() == 0 ==> raw_of(c, m).input_flags & bit == c.input_flags & bit,
        bit & m.opost == 0 ==> raw_of(c, m).output_flags & bit == c.output_flags & bit,
        bit & m.cs8 == 0 ==> raw_of(c, m).control_flags & bit == c.control_flags & bit,
        bit & m.local.all() == 0 ==> raw_of(c, m).local_flags & bit == c.local_flags & bit,
{
    let (i, off) = (c.input_flags, m.input.all());
    assert(bit & off == 0 ==> (i & !off) & bit == i & bit) by (bit_vector);
    let (o, post) = (c.output_flags, m.opost);
    assert(bit & post == 0 ==> (o & !post) & bit == o & bit) by (bit_vector);
    let (k, eight) = (c.control_flags, m.cs8);
    assert(bit & eight == 0 ==> (k | eight) & bit == k & bit) by (bit_vector);
    let (l, loff) = (c.local_flags, m.local.all());
    assert(bit & loff == 0 ==> (l & !loff) & bit == l & bit) by (bit_vector);
}

/// Clearing five masks one after the other clears their union.
pub proof fn lemma_clear_five(x: u64, a: u64, b: u64, c: u64, d: u64, e: u64)
    ensures
        ((((x & !a) & !b) & !c) & !d) & !e == x & !(a | b | c | d | e),
{
    assert(((((x & !a) & !b) & !c) & !d) & !e == x & !(a | b | c | d | e)) by (bit_vector);
}

/// Clearing four masks one after the other clears their union.
pub proof fn lemma_clear_four(x: u64, a: u64, b: u64, c: u64, d: u64)
    ensures
        (((x & !a) & !b) & !c) & !d == x & !(a | b | c | d),
{
    assert((((x & !a) & !b) & !c) & !d == x & !(a | b | c | d)) by (bit_vector);
}

} // verus!
