//! Terminal modes: the console-mode bitmask of one platform family, the
//! line-discipline record of the other, and the raw mode derived from either.

use vstd::prelude::*;

verus! {

/// The console flags that raw mode switches off: echo input, line input and
/// processed input.
pub const RAW_CLEARED_CONSOLE_FLAGS: u32 = 0x0007;

/// Line-discipline local flag: signal-generating keys are processed.
pub const ISIG: u32 = 0x0001;
/// Line-discipline local flag: reads return only once a line is complete.
pub const ICANON: u32 = 0x0002;
/// Line-discipline local flag: typed characters are echoed.
pub const ECHO: u32 = 0x0008;

/// The local flags that raw mode switches off.
pub const RAW_CLEARED_LOCAL_FLAGS: u32 = 0x000b;

/// Number of control characters in a line-discipline record.
pub const CONTROL_CHARS: usize = 32;

/// A console mode: a set of flags held as the bits of one word. A bit that
/// carries no name here is kept as it is by every operation.
#[derive(Clone, Copy, Debug, PartialEq, Eq, Structural)]
pub struct ModeBitmask {
    /// The flags, one per bit.
    pub bits: u32,
}

impl View for ModeBitmask {
    type V = u32;

    open spec fn view(&self) -> u32 {
        self.bits
    }
}

impl ModeBitmask {
    /// Whether every bit of `flags` is set in this mode.
    pub open spec fn has(&self, flags: u32) -> bool {
        self@ & flags == flags
    }

    /// The mode with exactly the given bits.
    pub fn from_bits(bits: u32) -> (r: ModeBitmask)
        ensures
            r@ == bits,
    {
        ModeBitmask { bits }
    }

    /// The bits of this mode, as the system takes them.
    pub fn to_bits(&self) -> (r: u32)
        ensures
            r == self@,
    {
        self.bits
    }

    /// Whether every bit of `flags` is set.
    pub fn contains(&self, flags: u32) -> (r: bool)
        ensures
            r == self.has(flags),
    {
        self.bits & flags == flags
    }

    /// This mode with the bits of `flags` switched on; all others are kept.
    pub fn with(&self, flags: u32) -> (r: ModeBitmask)
        ensures
            r@ == self@ | flags,
            r.has(flags),
            r@ & !flags == self@ & !flags,
    {
        let bits: u32 = self.bits;
        assert((bits | flags) & flags == flags) by (bit_vector);
        assert((bits | flags) & !flags == bits & !flags) by (bit_vector);
        ModeBitmask { bits: bits | flags }
    }

    /// This mode with the bits of `flags` switched off; all others are kept.
    pub fn without(&self, flags: u32) -> (r: ModeBitmask)
        ensures
            r@ == self@ & !flags,
            r@ & flags == 0,
            r@ | flags == self@ | flags,
    {
        let bits: u32 = self.bits;
        assert((bits & !flags) & flags == 0) by (bit_vector);
        assert((bits & !flags) | flags == bits | flags) by (bit_vector);
        ModeBitmask { bits: bits & !flags }
    }

    /// The raw mode derived from this one: no echo, no line buffering, no
    /// signal-generating input processing; every other bit as it was.
    pub fn raw(&self) -> (r: ModeBitmask)
        ensures
            r@ == self@ & !RAW_CLEARED_CONSOLE_FLAGS,
    {
        self.without(RAW_CLEARED_CONSOLE_FLAGS)
    }
}

/// A line-discipline record, field for field as the system holds it.
#[derive(Clone, Copy, Debug, PartialEq, Eq)]
pub struct Termios {
    /// Input flags.
    pub input_flags: u32,
    /// Output flags.
    pub output_flags: u32,
    /// Control flags.
    pub control_flags: u32,
    /// Local flags, among them `ISIG`, `ICANON` and `ECHO`.
    pub local_flags: u32,
    /// Line discipline.
    pub line: u8,
    /// Control characters.
    pub control_chars: [u8; 32],
    /// Input speed.
    pub input_speed: u32,
    /// Output speed.
    pub output_speed: u32,
}

impl Termios {
    /// The raw record derived from this one: the three local flags for
    /// echo, line buffering and signals are switched off, every other bit and
    /// every other field is as it was.
    pub fn raw(&self) -> (r: Termios)
        ensures
            r == (Termios { local_flags: self.local_flags & !RAW_CLEARED_LOCAL_FLAGS, ..*self }),
    {
        Termios {
            input_flags: self.input_flags,
            output_flags: self.output_flags,
            control_flags: self.control_flags,
            local_flags: self.local_flags & !RAW_CLEARED_LOCAL_FLAGS,
            line: self.line,
            control_chars: self.control_chars,
            input_speed: self.input_speed,
            output_speed: self.output_speed,
        }
    }
}

/// The mode of a terminal, in the representation of its platform family.
#[derive(Clone, Copy, Debug, PartialEq, Eq)]
pub enum TerminalMode {
    /// A console-mode bitmask.
    Console(ModeBitmask),
    /// A line-discipline record.
    Termios(Termios),
}

/// The local flags that raw mode switches off are `ISIG`, `ICANON` and
/// `ECHO`, and no others.
pub proof fn lemma_raw_cleared_local_flags()
    ensures
        RAW_CLEARED_LOCAL_FLAGS == ISIG | ICANON | ECHO,
{
    assert(0x000bu32 == 0x0001u32 | 0x0002u32 | 0x0008u32) by (bit_vector);
}

impl TerminalMode {
    /// The raw mode derived from `self`, in the same representation.
    pub open spec fn raw_spec(self) -> TerminalMode {
        match self {
            TerminalMode::Console(m) => TerminalMode::Console(
                ModeBitmask { bits: m@ & !RAW_CLEARED_CONSOLE_FLAGS },
            ),
            TerminalMode::Termios(t) => TerminalMode::Termios(
                Termios { local_flags: t.local_flags & !RAW_CLEARED_LOCAL_FLAGS, ..t },
            ),
        }
    }

    /// Whether echo, line buffering and signal processing are all off.
    pub open spec fn is_raw(self) -> bool {
        match self {
            TerminalMode::Console(m) => m@ & RAW_CLEARED_CONSOLE_FLAGS == 0,
            TerminalMode::Termios(t) => t.local_flags & RAW_CLEARED_LOCAL_FLAGS == 0,
        }
    }

    /// Whether `self` and `other` agree on everything but the flags that raw
    /// mode switches off.
    pub open spec fn same_outside_raw_flags(self, other: TerminalMode) -> bool {
        match (self, other) {
            (TerminalMode::Console(a), TerminalMode::Console(b)) => a@ | RAW_CLEARED_CONSOLE_FLAGS
                == b@ | RAW_CLEARED_CONSOLE_FLAGS,
            (TerminalMode::Termios(a), TerminalMode::Termios(b)) => {
                &&& a.local_flags | RAW_CLEARED_LOCAL_FLAGS == b.local_flags
                    | RAW_CLEARED_LOCAL_FLAGS
                &&& a == (Termios { local_flags: a.local_flags, ..b })
            },
            _ => false,
        }
    }

    /// The raw mode derived from this one: no echo, no line buffering, no
    /// signal-generating input processing; everything else as it was.
    pub fn raw(&self) -> (r: TerminalMode)
        ensures
            r == self.raw_spec(),
    {
        match self {
            TerminalMode::Console(m) => TerminalMode::Console(m.raw()),
            TerminalMode::Termios(t) => TerminalMode::Termios(t.raw()),
        }
    }

    /// The raw mode has none of the three flags set and differs from the mode
    /// it was derived from in those flags only: no other bit is dropped.
    pub proof fn lemma_raw_keeps_other_bits(self)
        ensures
            self.raw_spec().is_raw(),
            self.raw_spec().same_outside_raw_flags(self),
            self.is_raw() ==> self.raw_spec() == self,
    {
        match self {
            TerminalMode::Console(m) => {
                let b = m@;
                assert((b & !0x0007u32) & 0x0007u32 == 0) by (bit_vector);
                assert((b & !0x0007u32) | 0x0007u32 == b | 0x0007u32) by (bit_vector);
                assert(b & 0x0007u32 == 0 ==> b & !0x0007u32 == b) by (bit_vector);
            },
            TerminalMode::Termios(t) => {
                let b = t.local_flags;
                assert((b & !0x000bu32) & 0x000bu32 == 0) by (bit_vector);
                assert((b & !0x000bu32) | 0x000bu32 == b | 0x000bu32) by (bit_vector);
                assert(b & 0x000bu32 == 0 ==> b & !0x000bu32 == b) by (bit_vector);
            },
        }
    }
}

} // verus!
