//! The command word that carries a synthesis target across the transport
//! channel.
//!
//! Layout of a word, from the most significant bit:
//! - 2 bits: kind (0 = frequency, 1 = reconfigure; 2 and 3 are not commands)
//! - 6 bits: address of the voice
//! - 24 bits: payload; for a frequency, 16 bits of frequency then 8 bits of
//!   volume; for a reconfiguration, the raw parameter word.
use crate::fixed_point::{U12F4, U4F4};
use vstd::prelude::*;

verus! {

/// What a command asks the voice to do.
#[derive(Clone, Copy, Debug, PartialEq, Eq, Structural)]
pub enum CommandMessage {
    /// Play at this frequency (Hz) with this volume.
    Frequency(U12F4, U4F4),
    /// Adjust an internal parameter of the voice.
    Reconfigure(u32),
}

/// A message for the voice at `address`.
#[derive(Clone, Copy, Debug, PartialEq, Eq, Structural)]
pub struct Command {
    pub address: u32,
    pub message: CommandMessage,
}

pub const KIND_FREQUENCY: u32 = 0;

pub const KIND_RECONFIGURE: u32 = 1;

/// Addresses below this fit the address field.
pub const ADDRESS_LIMIT: u32 = 0x40;

/// Reconfiguration payloads below this fit the payload field.
pub const PAYLOAD_LIMIT: u32 = 0x100_0000;

/// The word with the given fields.
pub open spec fn pack(kind: u32, address: u32, payload: u32) -> u32 {
    (kind << 30u32) | (address << 24u32) | payload
}

pub open spec fn word_kind(word: u32) -> u32 {
    word >> 30u32
}

pub open spec fn word_address(word: u32) -> u32 {
    (word >> 24u32) & 0x3Fu32
}

pub open spec fn word_payload(word: u32) -> u32 {
    word & 0xFF_FFFFu32
}

pub open spec fn frequency_payload(frequency: U12F4, volume: U4F4) -> u32 {
    ((frequency.bits as u32) << 8u32) | (volume.bits as u32)
}

impl Command {
    /// The fields fit their places in a word.
    pub open spec fn encodable(self) -> bool {
        &&& self.address < ADDRESS_LIMIT
        &&& (self.message matches CommandMessage::Reconfigure(p) ==> p < PAYLOAD_LIMIT)
    }

    /// The word that carries this command.
    pub open spec fn word(self) -> u32 {
        match self.message {
            CommandMessage::Frequency(f, v) => pack(
                KIND_FREQUENCY,
                self.address,
                frequency_payload(f, v),
            ),
            CommandMessage::Reconfigure(p) => pack(KIND_RECONFIGURE, self.address, p),
        }
    }

    /// The command that a word carries, if its kind is known.
    pub open spec fn of_word(word: u32) -> Option<Command> {
        let payload = word_payload(word);
        if word_kind(word) == KIND_FREQUENCY {
            Some(
                Command {
                    address: word_address(word),
                    message: CommandMessage::Frequency(
                        U12F4 { bits: (payload >> 8u32) as u16 },
                        U4F4 { bits: (payload & 0xFFu32) as u8 },
                    ),
                },
            )
        } else if word_kind(word) == KIND_RECONFIGURE {
            Some(
                Command {
                    address: word_address(word),
                    message: CommandMessage::Reconfigure(payload),
                },
            )
        } else {
            None
        }
    }

    /// Packs the command into one transport word.
    pub fn serialize(&self) -> (r: u32)
        requires
            self.encodable(),
        ensures
            r == self.word(),
    {
        match self.message {
            CommandMessage::Frequency(f, v) => {
                let payload: u32 = ((f.bits as u32) << 8u32) | (v.bits as u32);
                (KIND_FREQUENCY << 30u32) | (self.address << 24u32) | payload
            },
            CommandMessage::Reconfigure(p) => {
                (KIND_RECONFIGURE << 30u32) | (self.address << 24u32) | p
            },
        }
    }

    /// Unpacks a transport word; `None` for a word of unknown kind.
    pub fn deserialize(word: u32) -> (r: Option<Command>)
        ensures
            r == Command::of_word(word),
    {
        let kind: u32 = word >> 30u32;
        let address: u32 = (word >> 24u32) & 0x3F;
        let payload: u32 = word & 0xFF_FFFF;
        if kind == KIND_FREQUENCY {
            assert(payload >> 8u32 <= 0xFFFF) by (bit_vector)
                requires
                    payload == word & 0xFF_FFFFu32,
            ;
            let frequency = U12F4 { bits: (payload >> 8u32) as u16 };
            let volume = U4F4 { bits: (payload & 0xFF) as u8 };
            Some(Command { address, message: CommandMessage::Frequency(frequency, volume) })
        } else if kind == KIND_RECONFIGURE {
            Some(Command { address, message: CommandMessage::Reconfigure(payload) })
        } else {
            None
        }
    }
}

proof fn lemma_pack_fields(kind: u32, address: u32, payload: u32)
    requires
        kind < 4,
        address < 0x40,
        payload < 0x100_0000,
    ensures
        word_kind(pack(kind, address, payload)) == kind,
        word_address(pack(kind, address, payload)) == address,
        word_payload(pack(kind, address, payload)) == payload,
{
    assert(((kind << 30u32) | (address << 24u32) | payload) >> 30u32 == kind) by (bit_vector)
        requires
            kind < 4,
            address < 0x40,
            payload < 0x100_0000,
    ;
    assert((((kind << 30u32) | (address << 24u32) | payload) >> 24u32) & 0x3Fu32 == address)
        by (bit_vector)
        requires
            kind < 4,
            address < 0x40,
            payload < 0x100_0000,
    ;
    assert(((kind << 30u32) | (address << 24u32) | payload) & 0xFF_FFFFu32 == payload)
        by (bit_vector)
        requires
            kind < 4,
            address < 0x40,
            payload < 0x100_0000,
    ;
}

proof fn lemma_frequency_payload(f: u16, v: u8)
    ensures
        frequency_payload(U12F4 { bits: f }, U4F4 { bits: v }) < 0x100_0000,
        (frequency_payload(U12F4 { bits: f }, U4F4 { bits: v }) >> 8u32) as u16 == f,
        (frequency_payload(U12F4 { bits: f }, U4F4 { bits: v }) & 0xFFu32) as u8 == v,
{
    let fw = f as u32;
    let vw = v as u32;
    assert(fw <= 0xFFFF && vw <= 0xFF);
    assert(((fw << 8u32) | vw) < 0x100_0000) by (bit_vector)
        requires
            fw <= 0xFFFF,
            vw <= 0xFF,
    ;
    assert(((fw << 8u32) | vw) >> 8u32 == fw) by (bit_vector)
        requires
            fw <= 0xFFFF,
            vw <= 0xFF,
    ;
    assert(((fw << 8u32) | vw) & 0xFFu32 == vw) by (bit_vector)
        requires
            fw <= 0xFFFF,
            vw <= 0xFF,
    ;
}

/// Every command whose fields fit comes back unchanged from its word.
pub proof fn lemma_round_trip(c: Command)
    requires
        c.encodable(),
    ensures
        Command::of_word(c.word()) == Some(c),
{
    match c.message {
        CommandMessage::Frequency(f, v) => {
            lemma_frequency_payload(f.bits, v.bits);
            lemma_pack_fields(KIND_FREQUENCY, c.address, frequency_payload(f, v));
        },
        CommandMessage::Reconfigure(p) => {
            lemma_pack_fields(KIND_RECONFIGURE, c.address, p);
        },
    }
}

} // verus!
