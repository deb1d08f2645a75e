//! Command encoder: the pure mapping from a logical bus step to the
//! fixed-width instruction word the hardware command queue executes.
//!
//! An instruction word carries the byte length in its low eight bits
//! (zero when the opcode moves no data), three acknowledge-related flag
//! bits above it, and the opcode in the bits above those.

use vstd::prelude::*;

verus! {

/// Opcode of a single command-queue instruction.
#[derive(Clone, Copy, Debug, PartialEq, Eq, Structural)]
pub enum Opcode {
    /// Emit a (repeated) start condition on the bus.
    Rstart,
    /// Transmit bytes taken from the FIFO.
    Write,
    /// Receive bytes into the FIFO.
    Read,
    /// Emit a stop condition on the bus.
    Stop,
    /// End the command sequence without a stop condition.
    End,
}

impl Opcode {
    /// Value of the opcode field inside an encoded instruction word.
    pub open spec fn spec_bits(self) -> u16 {
        match self {
            Opcode::Rstart => 0,
            Opcode::Write => 1,
            Opcode::Read => 2,
            Opcode::Stop => 3,
            Opcode::End => 4,
        }
    }

    /// Whether the opcode moves data bytes and therefore carries a length.
    pub open spec fn carries_length(self) -> bool {
        self == Opcode::Write || self == Opcode::Read
    }

    /// Executable twin of [`Opcode::spec_bits`].
    pub fn bits(self) -> (r: u16)
        ensures
            r == self.spec_bits(),
    {
        match self {
            Opcode::Rstart => 0,
            Opcode::Write => 1,
            Opcode::Read => 2,
            Opcode::Stop => 3,
            Opcode::End => 4,
        }
    }
}

/// One command-queue instruction before encoding.
#[derive(Clone, Copy, Debug, PartialEq, Eq)]
pub struct Command {
    /// Opcode of the command.
    pub opcode: Opcode,
    /// When receiving a byte, whether the controller acknowledges it.
    pub ack_value: bool,
    /// The acknowledge level the transmitter expects back.
    pub ack_exp: bool,
    /// When transmitting, whether the received acknowledge is checked
    /// against `ack_exp`.
    pub ack_check_en: bool,
    /// Number of bytes to move, 1 to 255. Present exactly when the opcode
    /// is `Write` or `Read`; start/stop/end commands carry no length.
    pub length: Option<u8>,
}

impl Command {
    /// The length invariant: a length is present if and only if the opcode
    /// moves data, and a present length is at least 1.
    pub open spec fn wf(self) -> bool {
        match self.length {
            Some(l) => self.opcode.carries_length() && l >= 1,
            None => !self.opcode.carries_length(),
        }
    }

    /// Value of the low eight bits of the encoded word: the length for a
    /// data-moving opcode, zero otherwise, whatever length was supplied.
    pub open spec fn spec_length_value(self) -> u16 {
        if self.opcode.carries_length() {
            match self.length {
                Some(l) => l as u16,
                None => 0,
            }
        } else {
            0
        }
    }

    /// The encoded instruction word.
    pub open spec fn spec_word(self) -> u16 {
        self.spec_length_value()
            | (if self.ack_check_en { 0x100u16 } else { 0u16 })
            | (if self.ack_exp { 0x200u16 } else { 0u16 })
            | (if self.ack_value { 0x400u16 } else { 0u16 })
            | ((self.opcode.spec_bits() << 11u16) as u16)
    }

    /// Construct a command. Supplying a length for a non-data opcode, or
    /// omitting it for a data opcode, is a caller contract error.
    pub fn new(
        opcode: Opcode,
        ack_value: bool,
        ack_exp: bool,
        ack_check_en: bool,
        length: Option<u8>,
    ) -> (r: Command)
        requires
            match length {
                Some(l) => opcode.carries_length() && l >= 1,
                None => !opcode.carries_length(),
            },
        ensures
            r == (Command { opcode, ack_value, ack_exp, ack_check_en, length }),
            r.wf(),
    {
        Command { opcode, ack_value, ack_exp, ack_check_en, length }
    }

    /// Executable twin of [`Command::spec_length_value`].
    pub fn length_value(&self) -> (r: u16)
        ensures
            r == self.spec_length_value(),
    {
        match self.opcode {
            Opcode::Write | Opcode::Read => match self.length {
                Some(l) => l as u16,
                None => 0,
            },
            _ => 0,
        }
    }

    /// Encode the command into its instruction word.
    ///
    /// Encoding is total: every combination of opcode, flags and length
    /// has a word, with the length field forced to zero for opcodes that
    /// move no data.
    pub fn encode(&self) -> (r: u16)
        ensures
            r == self.spec_word(),
    {
        self.length_value()
            | (if self.ack_check_en { 0x100u16 } else { 0u16 })
            | (if self.ack_exp { 0x200u16 } else { 0u16 })
            | (if self.ack_value { 0x400u16 } else { 0u16 })
            | (self.opcode.bits() << 11u16)
    }
}

/// The length field of an encoded instruction word.
pub open spec fn spec_length_field(word: u16) -> u8 {
    (word & 0xFF) as u8
}

/// The acknowledge-check-enable flag of an encoded instruction word.
pub open spec fn spec_ack_check_en_bit(word: u16) -> bool {
    (word >> 8u16) & 1 == 1
}

/// The expected-acknowledge flag of an encoded instruction word.
pub open spec fn spec_ack_exp_bit(word: u16) -> bool {
    (word >> 9u16) & 1 == 1
}

/// The acknowledge-value flag of an encoded instruction word.
pub open spec fn spec_ack_value_bit(word: u16) -> bool {
    (word >> 10u16) & 1 == 1
}

/// The opcode field of an encoded instruction word.
pub open spec fn spec_opcode_field(word: u16) -> u16 {
    word >> 11u16
}

/// The opcode denoted by an opcode-field value, if any.
pub open spec fn spec_opcode_of(bits: u16) -> Option<Opcode> {
    if bits == 0 {
        Some(Opcode::Rstart)
    } else if bits == 1 {
        Some(Opcode::Write)
    } else if bits == 2 {
        Some(Opcode::Read)
    } else if bits == 3 {
        Some(Opcode::Stop)
    } else if bits == 4 {
        Some(Opcode::End)
    } else {
        None
    }
}

/// Extract the length field from an encoded instruction word.
pub fn extract_length(word: u16) -> (r: u8)
    ensures
        r == spec_length_field(word),
{
    proof {
        assert(word & 0xFF < 256) by (bit_vector);
    }
    (word & 0xFF) as u8
}

/// Extract the acknowledge-check-enable flag from an encoded word.
pub fn extract_ack_check_en(word: u16) -> (r: bool)
    ensures
        r == spec_ack_check_en_bit(word),
{
    (word >> 8u16) & 1 == 1
}

/// Extract the expected-acknowledge flag from an encoded word.
pub fn extract_ack_exp(word: u16) -> (r: bool)
    ensures
        r == spec_ack_exp_bit(word),
{
    (word >> 9u16) & 1 == 1
}

/// Extract the acknowledge-value flag from an encoded word.
pub fn extract_ack_value(word: u16) -> (r: bool)
    ensures
        r == spec_ack_value_bit(word),
{
    (word >> 10u16) & 1 == 1
}

/// Extract the opcode from an encoded instruction word, if its opcode
/// field denotes one.
pub fn extract_opcode(word: u16) -> (r: Option<Opcode>)
    ensures
        r == spec_opcode_of(spec_opcode_field(word)),
{
    let bits: u16 = word >> 11u16;
    if bits == 0 {
        Some(Opcode::Rstart)
    } else if bits == 1 {
        Some(Opcode::Write)
    } else if bits == 2 {
        Some(Opcode::Read)
    } else if bits == 3 {
        Some(Opcode::Stop)
    } else if bits == 4 {
        Some(Opcode::End)
    } else {
        None
    }
}

/// Law: encoding then extracting the fields reproduces the opcode, all
/// three acknowledge flags, and the length exactly (with an absent length
/// read back as the zero length field). It holds for every length 0 to
/// 255 of a data-moving command.
pub proof fn lemma_encode_round_trip(c: Command)
    requires
        c.length is Some <==> c.opcode.carries_length(),
    ensures
        spec_length_field(c.spec_word()) == (match c.length {
            Some(l) => l,
            None => 0u8,
        }),
        spec_ack_check_en_bit(c.spec_word()) == c.ack_check_en,
        spec_ack_exp_bit(c.spec_word()) == c.ack_exp,
        spec_ack_value_bit(c.spec_word()) == c.ack_value,
        spec_opcode_of(spec_opcode_field(c.spec_word())) == Some(c.opcode),
{
    let l = c.spec_length_value();
    let a = if c.ack_check_en { 0x100u16 } else { 0u16 };
    let b = if c.ack_exp { 0x200u16 } else { 0u16 };
    let v = if c.ack_value { 0x400u16 } else { 0u16 };
    let k = c.opcode.spec_bits();
    assert(c.spec_word() == l | a | b | v | ((k << 11u16) as u16));
    assert((l | a | b | v | ((k << 11u16) as u16)) & 0xFF == l) by (bit_vector)
        requires
            l < 256,
            a == 0 || a == 0x100,
            b == 0 || b == 0x200,
            v == 0 || v == 0x400,
            k <= 4,
    ;
    assert((((l | a | b | v | ((k << 11u16) as u16)) >> 8u16) & 1 == 1) <==> a == 0x100)
        by (bit_vector)
        requires
            l < 256,
            a == 0 || a == 0x100,
            b == 0 || b == 0x200,
            v == 0 || v == 0x400,
            k <= 4,
    ;
    assert((((l | a | b | v | ((k << 11u16) as u16)) >> 9u16) & 1 == 1) <==> b == 0x200)
        by (bit_vector)
        requires
            l < 256,
            a == 0 || a == 0x100,
            b == 0 || b == 0x200,
            v == 0 || v == 0x400,
            k <= 4,
    ;
    assert((((l | a | b | v | ((k << 11u16) as u16)) >> 10u16) & 1 == 1) <==> v == 0x400)
        by (bit_vector)
        requires
            l < 256,
            a == 0 || a == 0x100,
            b == 0 || b == 0x200,
            v == 0 || v == 0x400,
            k <= 4,
    ;
    assert((l | a | b | v | ((k << 11u16) as u16)) >> 11u16 == k) by (bit_vector)
        requires
            l < 256,
            a == 0 || a == 0x100,
            b == 0 || b == 0x200,
            v == 0 || v == 0x400,
            k <= 4,
    ;
    match c.length {
        Some(x) => {
            assert(l == x as u16);
            assert(spec_length_field(c.spec_word()) == x);
        },
        None => {
            assert(l == 0);
        },
    }
    match c.opcode {
        Opcode::Rstart => assert(spec_opcode_of(0) == Some(Opcode::Rstart)),
        Opcode::Write => assert(spec_opcode_of(1) == Some(Opcode::Write)),
        Opcode::Read => assert(spec_opcode_of(2) == Some(Opcode::Read)),
        Opcode::Stop => assert(spec_opcode_of(3) == Some(Opcode::Stop)),
        Opcode::End => assert(spec_opcode_of(4) == Some(Opcode::End)),
    }
}

/// Law: for the opcodes that move no data (start, stop, end), the length
/// field of the encoded word is zero regardless of any length supplied.
pub proof fn lemma_control_opcode_length_zero(c: Command)
    requires
        !c.opcode.carries_length(),
    ensures
        spec_length_field(c.spec_word()) == 0,
{
    let a = if c.ack_check_en { 0x100u16 } else { 0u16 };
    let b = if c.ack_exp { 0x200u16 } else { 0u16 };
    let v = if c.ack_value { 0x400u16 } else { 0u16 };
    let k = c.opcode.spec_bits();
    assert(c.spec_word() == 0u16 | a | b | v | ((k << 11u16) as u16));
    assert((0u16 | a | b | v | ((k << 11u16) as u16)) & 0xFF == 0) by (bit_vector)
        requires
            a == 0 || a == 0x100,
            b == 0 || b == 0x200,
            v == 0 || v == 0x400,
            k <= 4,
    ;
}

} // verus!
