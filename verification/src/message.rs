//! The five governance payloads and their tagged, fixed-width wire format.
//!
//! A payload is one discriminant byte followed by the fields of its variant in
//! declared order: addresses as 32 raw bytes, amounts as 8 little-endian bytes.
//! Nothing in it has a variable length, so a payload of any other length than
//! its variant's is rejected.

use vstd::prelude::*;
use crate::errors::DecodeError;
use crate::wire::{
    address_from, get_address, get_amount, get_discriminant, lemma_address_from_bytes,
    lemma_address_from_view, lemma_u64_from_le_bound, lemma_u64_le_canonical,
    lemma_u64_le_roundtrip, put_address, put_discriminant, put_u64_le, u64_from_le, u64_le_bytes,
    Address, ADDRESS_LEN, AMOUNT_LEN,
};

verus! {

/// Discriminant of `TransferMessage`.
pub const PAYLOAD_TRANSFER: u8 = 0;

/// Discriminant of `TransferAllMessage`.
pub const PAYLOAD_TRANSFER_ALL: u8 = 1;

/// Discriminant of `TransferTokenAccountsMessage`.
pub const PAYLOAD_TRANSFER_TOKEN_ACCOUNTS: u8 = 2;

/// Discriminant of `SetUpgradeAuthorityMessage`.
pub const PAYLOAD_SET_UPGRADE_AUTHORITY: u8 = 3;

/// Discriminant of `UpgradeProgramMessage`.
pub const PAYLOAD_UPGRADE_PROGRAM: u8 = 4;

/// Length in bytes of an encoded `TransferMessage`.
pub const TRANSFER_LEN: usize = 1 + 2 * ADDRESS_LEN + AMOUNT_LEN;

/// Length in bytes of an encoded `TransferAllMessage`.
pub const TRANSFER_ALL_LEN: usize = 1 + 4 * ADDRESS_LEN;

/// Length in bytes of an encoded `TransferTokenAccountsMessage`.
pub const TRANSFER_TOKEN_ACCOUNTS_LEN: usize = 1 + 3 * ADDRESS_LEN;

/// Length in bytes of an encoded `SetUpgradeAuthorityMessage`.
pub const SET_UPGRADE_AUTHORITY_LEN: usize = 1 + 2 * ADDRESS_LEN;

/// Length in bytes of an encoded `UpgradeProgramMessage`.
pub const UPGRADE_PROGRAM_LEN: usize = 1 + 3 * ADDRESS_LEN;

/// The first rule of the layout that `bytes` break, if any: a payload must
/// have a discriminant, the discriminant must be `id`, and the length must be
/// `len`, checked in this order.
pub open spec fn layout_fault(bytes: Seq<u8>, id: u8, len: nat) -> Option<DecodeError> {
    if bytes.len() == 0 {
        Some(DecodeError::LengthMismatch)
    } else if bytes[0] != id {
        Some(DecodeError::InvalidPayloadId)
    } else if bytes.len() != len {
        Some(DecodeError::LengthMismatch)
    } else {
        None
    }
}

/// Checks discriminant and length of a payload before its fields are read.
pub fn check_layout(reader: &[u8], id: u8, len: usize) -> (r: Result<(), DecodeError>)
    ensures
        match r {
            Ok(_) => layout_fault(reader@, id, len as nat) is None,
            Err(e) => layout_fault(reader@, id, len as nat) == Some(e),
        },
{
    match get_discriminant(reader) {
        Err(e) => Err(e),
        Ok(selector) => {
            if selector != id {
                Err(DecodeError::InvalidPayloadId)
            } else if reader.len() != len {
                Err(DecodeError::LengthMismatch)
            } else {
                Ok(())
            }
        },
    }
}

/// Moves `amount` of one tracked asset from `source` to `destination`.
#[derive(Clone, Copy, Debug, PartialEq, Eq)]
pub struct TransferMessage {
    pub source: Address,
    pub destination: Address,
    pub amount: u64,
}

impl TransferMessage {
    /// The encoded message: discriminant, then the fields in declared order.
    pub open spec fn wire(self) -> Seq<u8> {
        seq![PAYLOAD_TRANSFER] + self.source@ + self.destination@ + u64_le_bytes(self.amount)
    }

    /// What `bytes` decode to: the fault of their layout, or the message whose
    /// fields they spell.
    pub open spec fn parse(bytes: Seq<u8>) -> Result<TransferMessage, DecodeError> {
        match layout_fault(bytes, PAYLOAD_TRANSFER, TRANSFER_LEN as nat) {
            Some(e) => Err(e),
            None => Ok(
                TransferMessage {
                    source: address_from(bytes.subrange(1, 33)),
                    destination: address_from(bytes.subrange(33, 65)),
                    amount: u64_from_le(bytes.subrange(65, 73)) as u64,
                },
            ),
        }
    }

    /// Appends the encoded message to `writer`.
    pub fn serialize(&self, writer: &mut Vec<u8>)
        ensures
            final(writer)@ == old(writer)@ + self.wire(),
    {
        put_discriminant(writer, PAYLOAD_TRANSFER);
        put_address(writer, &self.source);
        put_address(writer, &self.destination);
        put_u64_le(writer, self.amount);
        assert(writer@ =~= old(writer)@ + self.wire());
    }

    /// Decodes a whole payload. It is accepted only if it starts with this
    /// variant's discriminant and has exactly this variant's length.
    pub fn deserialize_reader(reader: &[u8]) -> (r: Result<TransferMessage, DecodeError>)
        ensures
            r == Self::parse(reader@),
    {
        match check_layout(reader, PAYLOAD_TRANSFER, TRANSFER_LEN) {
            Err(e) => {
                return Err(e);
            },
            Ok(_) => {},
        }
        let source = match get_address(reader, 1) {
            Ok(a) => a,
            Err(e) => {
                return Err(e);
            },
        };
        let destination = match get_address(reader, 33) {
            Ok(a) => a,
            Err(e) => {
                return Err(e);
            },
        };
        let amount: u64 = match get_amount(reader, 65) {
            Ok(v) => v,
            Err(e) => {
                return Err(e);
            },
        };
        Ok(TransferMessage { source, destination, amount })
    }

    /// Decoding an encoded message gives the message back.
    pub proof fn lemma_parse_wire(m: TransferMessage)
        ensures
            m.wire().len() == TRANSFER_LEN,
            Self::parse(m.wire()) == Ok::<Self, DecodeError>(m),
    {
        let bytes = m.wire();
        lemma_address_from_bytes(m.source);
        assert(bytes.subrange(1, 33) =~= m.source@);
        lemma_address_from_bytes(m.destination);
        assert(bytes.subrange(33, 65) =~= m.destination@);
        lemma_u64_le_roundtrip(m.amount);
        assert(bytes.subrange(65, 73) =~= u64_le_bytes(m.amount));
    }

    /// Encoding a decoded message gives back the bytes it was decoded from:
    /// every accepted payload is the one encoding of its message.
    pub proof fn lemma_wire_parse(bytes: Seq<u8>)
        requires
            Self::parse(bytes) is Ok,
        ensures
            Self::parse(bytes)->Ok_0.wire() == bytes,
    {
        let m = Self::parse(bytes)->Ok_0;
        lemma_address_from_view(bytes.subrange(1, 33));
        lemma_address_from_view(bytes.subrange(33, 65));
        lemma_u64_le_canonical(bytes.subrange(65, 73));
        lemma_u64_from_le_bound(bytes.subrange(65, 73));
        assert(m.wire() =~= bytes);
    }

    /// Whatever follows it, a payload whose first byte is not this variant's
    /// discriminant is rejected for its discriminant.
    pub proof fn lemma_wrong_discriminant(bytes: Seq<u8>)
        requires
            bytes.len() > 0,
            bytes[0] != PAYLOAD_TRANSFER,
        ensures
            Self::parse(bytes) == Err::<Self, DecodeError>(DecodeError::InvalidPayloadId),
    {
    }

    /// An encoded message whose discriminant byte was altered no longer decodes.
    pub proof fn lemma_altered_discriminant(m: TransferMessage, id: u8)
        requires
            id != PAYLOAD_TRANSFER,
        ensures
            Self::parse(m.wire().update(0, id)) == Err::<Self, DecodeError>(
                DecodeError::InvalidPayloadId,
            ),
    {
        Self::lemma_wrong_discriminant(m.wire().update(0, id));
    }
}

/// Sweeps the whole balance of both tracked assets; it names accounts only.
#[derive(Clone, Copy, Debug, PartialEq, Eq)]
pub struct TransferAllMessage {
    pub source_sol: Address,
    pub source_olas: Address,
    pub destination_sol: Address,
    pub destination_olas: Address,
}

impl TransferAllMessage {
    /// The encoded message: discriminant, then the fields in declared order.
    pub open spec fn wire(self) -> Seq<u8> {
        seq![PAYLOAD_TRANSFER_ALL] + self.source_sol@ + self.source_olas@ + self.destination_sol@ + self.destination_olas@
    }

    /// What `bytes` decode to: the fault of their layout, or the message whose
    /// fields they spell.
    pub open spec fn parse(bytes: Seq<u8>) -> Result<TransferAllMessage, DecodeError> {
        match layout_fault(bytes, PAYLOAD_TRANSFER_ALL, TRANSFER_ALL_LEN as nat) {
            Some(e) => Err(e),
            None => Ok(
                TransferAllMessage {
                    source_sol: address_from(bytes.subrange(1, 33)),
                    source_olas: address_from(bytes.subrange(33, 65)),
                    destination_sol: address_from(bytes.subrange(65, 97)),
                    destination_olas: address_from(bytes.subrange(97, 129)),
                },
            ),
        }
    }

    /// Appends the encoded message to `writer`.
    pub fn serialize(&self, writer: &mut Vec<u8>)
        ensures
            final(writer)@ == old(writer)@ + self.wire(),
    {
        put_discriminant(writer, PAYLOAD_TRANSFER_ALL);
        put_address(writer, &self.source_sol);
        put_address(writer, &self.source_olas);
        put_address(writer, &self.destination_sol);
        put_address(writer, &self.destination_olas);
        assert(writer@ =~= old(writer)@ + self.wire());
    }

    /// Decodes a whole payload. It is accepted only if it starts with this
    /// variant's discriminant and has exactly this variant's length.
    pub fn deserialize_reader(reader: &[u8]) -> (r: Result<TransferAllMessage, DecodeError>)
        ensures
            r == Self::parse(reader@),
    {
        match check_layout(reader, PAYLOAD_TRANSFER_ALL, TRANSFER_ALL_LEN) {
            Err(e) => {
                return Err(e);
            },
            Ok(_) => {},
        }
        let source_sol = match get_address(reader, 1) {
            Ok(a) => a,
            Err(e) => {
                return Err(e);
            },
        };
        let source_olas = match get_address(reader, 33) {
            Ok(a) => a,
            Err(e) => {
                return Err(e);
            },
        };
        let destination_sol = match get_address(reader, 65) {
            Ok(a) => a,
            Err(e) => {
                return Err(e);
            },
        };
        let destination_olas = match get_address(reader, 97) {
            Ok(a) => a,
            Err(e) => {
                return Err(e);
            },
        };
        Ok(TransferAllMessage { source_sol, source_olas, destination_sol, destination_olas })
    }

    /// Decoding an encoded message gives the message back.
    pub proof fn lemma_parse_wire(m: TransferAllMessage)
        ensures
            m.wire().len() == TRANSFER_ALL_LEN,
            Self::parse(m.wire()) == Ok::<Self, DecodeError>(m),
    {
        let bytes = m.wire();
        lemma_address_from_bytes(m.source_sol);
        assert(bytes.subrange(1, 33) =~= m.source_sol@);
        lemma_address_from_bytes(m.source_olas);
        assert(bytes.subrange(33, 65) =~= m.source_olas@);
        lemma_address_from_bytes(m.destination_sol);
        assert(bytes.subrange(65, 97) =~= m.destination_sol@);
        lemma_address_from_bytes(m.destination_olas);
        assert(bytes.subrange(97, 129) =~= m.destination_olas@);
    }

    /// Encoding a decoded message gives back the bytes it was decoded from:
    /// every accepted payload is the one encoding of its message.
    pub proof fn lemma_wire_parse(bytes: Seq<u8>)
        requires
            Self::parse(bytes) is Ok,
        ensures
            Self::parse(bytes)->Ok_0.wire() == bytes,
    {
        let m = Self::parse(bytes)->Ok_0;
        lemma_address_from_view(bytes.subrange(1, 33));
        lemma_address_from_view(bytes.subrange(33, 65));
        lemma_address_from_view(bytes.subrange(65, 97));
        lemma_address_from_view(bytes.subrange(97, 129));
        assert(m.wire() =~= bytes);
    }

    /// Whatever follows it, a payload whose first byte is not this variant's
    /// discriminant is rejected for its discriminant.
    pub proof fn lemma_wrong_discriminant(bytes: Seq<u8>)
        requires
            bytes.len() > 0,
            bytes[0] != PAYLOAD_TRANSFER_ALL,
        ensures
            Self::parse(bytes) == Err::<Self, DecodeError>(DecodeError::InvalidPayloadId),
    {
    }

    /// An encoded message whose discriminant byte was altered no longer decodes.
    pub proof fn lemma_altered_discriminant(m: TransferAllMessage, id: u8)
        requires
            id != PAYLOAD_TRANSFER_ALL,
        ensures
            Self::parse(m.wire().update(0, id)) == Err::<Self, DecodeError>(
                DecodeError::InvalidPayloadId,
            ),
    {
        Self::lemma_wrong_discriminant(m.wire().update(0, id));
    }
}

/// Hands the two asset-holding accounts over to the new owner `destination`.
#[derive(Clone, Copy, Debug, PartialEq, Eq)]
pub struct TransferTokenAccountsMessage {
    pub source_sol: Address,
    pub source_olas: Address,
    pub destination: Address,
}

impl TransferTokenAccountsMessage {
    /// The encoded message: discriminant, then the fields in declared order.
    pub open spec fn wire(self) -> Seq<u8> {
        seq![PAYLOAD_TRANSFER_TOKEN_ACCOUNTS] + self.source_sol@ + self.source_olas@ + self.destination@
    }

    /// What `bytes` decode to: the fault of their layout, or the message whose
    /// fields they spell.
    pub open spec fn parse(bytes: Seq<u8>) -> Result<TransferTokenAccountsMessage, DecodeError> {
        match layout_fault(bytes, PAYLOAD_TRANSFER_TOKEN_ACCOUNTS, TRANSFER_TOKEN_ACCOUNTS_LEN as nat) {
            Some(e) => Err(e),
            None => Ok(
                TransferTokenAccountsMessage {
                    source_sol: address_from(bytes.subrange(1, 33)),
                    source_olas: address_from(bytes.subrange(33, 65)),
                    destination: address_from(bytes.subrange(65, 97)),
                },
            ),
        }
    }

    /// Appends the encoded message to `writer`.
    pub fn serialize(&self, writer: &mut Vec<u8>)
        ensures
            final(writer)@ == old(writer)@ + self.wire(),
    {
        put_discriminant(writer, PAYLOAD_TRANSFER_TOKEN_ACCOUNTS);
        put_address(writer, &self.source_sol);
        put_address(writer, &self.source_olas);
        put_address(writer, &self.destination);
        assert(writer@ =~= old(writer)@ + self.wire());
    }

    /// Decodes a whole payload. It is accepted only if it starts with this
    /// variant's discriminant and has exactly this variant's length.
    pub fn deserialize_reader(reader: &[u8]) -> (r: Result<TransferTokenAccountsMessage, DecodeError>)
        ensures
            r == Self::parse(reader@),
    {
        match check_layout(reader, PAYLOAD_TRANSFER_TOKEN_ACCOUNTS, TRANSFER_TOKEN_ACCOUNTS_LEN) {
            Err(e) => {
                return Err(e);
            },
            Ok(_) => {},
        }
        let source_sol = match get_address(reader, 1) {
            Ok(a) => a,
            Err(e) => {
                return Err(e);
            },
        };
        let source_olas = match get_address(reader, 33) {
            Ok(a) => a,
            Err(e) => {
                return Err(e);
            },
        };
        let destination = match get_address(reader, 65) {
            Ok(a) => a,
            Err(e) => {
                return Err(e);
            },
        };
        Ok(TransferTokenAccountsMessage { source_sol, source_olas, destination })
    }

    /// Decoding an encoded message gives the message back.
    pub proof fn lemma_parse_wire(m: TransferTokenAccountsMessage)
        ensures
            m.wire().len() == TRANSFER_TOKEN_ACCOUNTS_LEN,
            Self::parse(m.wire()) == Ok::<Self, DecodeError>(m),
    {
        let bytes = m.wire();
        lemma_address_from_bytes(m.source_sol);
        assert(bytes.subrange(1, 33) =~= m.source_sol@);
        lemma_address_from_bytes(m.source_olas);
        assert(bytes.subrange(33, 65) =~= m.source_olas@);
        lemma_address_from_bytes(m.destination);
        assert(bytes.subrange(65, 97) =~= m.destination@);
    }

    /// Encoding a decoded message gives back the bytes it was decoded from:
    /// every accepted payload is the one encoding of its message.
    pub proof fn lemma_wire_parse(bytes: Seq<u8>)
        requires
            Self::parse(bytes) is Ok,
        ensures
            Self::parse(bytes)->Ok_0.wire() == bytes,
    {
        let m = Self::parse(bytes)->Ok_0;
        lemma_address_from_view(bytes.subrange(1, 33));
        lemma_address_from_view(bytes.subrange(33, 65));
        lemma_address_from_view(bytes.subrange(65, 97));
        assert(m.wire() =~= bytes);
    }

    /// Whatever follows it, a payload whose first byte is not this variant's
    /// discriminant is rejected for its discriminant.
    pub proof fn lemma_wrong_discriminant(bytes: Seq<u8>)
        requires
            bytes.len() > 0,
            bytes[0] != PAYLOAD_TRANSFER_TOKEN_ACCOUNTS,
        ensures
            Self::parse(bytes) == Err::<Self, DecodeError>(DecodeError::InvalidPayloadId),
    {
    }

    /// An encoded message whose discriminant byte was altered no longer decodes.
    pub proof fn lemma_altered_discriminant(m: TransferTokenAccountsMessage, id: u8)
        requires
            id != PAYLOAD_TRANSFER_TOKEN_ACCOUNTS,
        ensures
            Self::parse(m.wire().update(0, id)) == Err::<Self, DecodeError>(
                DecodeError::InvalidPayloadId,
            ),
    {
        Self::lemma_wrong_discriminant(m.wire().update(0, id));
    }
}

/// Names the address that may upgrade the program from now on.
#[derive(Clone, Copy, Debug, PartialEq, Eq)]
pub struct SetUpgradeAuthorityMessage {
    pub program_id_bytes: Address,
    pub upgrade_authority: Address,
}

impl SetUpgradeAuthorityMessage {
    /// The encoded message: discriminant, then the fields in declared order.
    pub open spec fn wire(self) -> Seq<u8> {
        seq![PAYLOAD_SET_UPGRADE_AUTHORITY] + self.program_id_bytes@ + self.upgrade_authority@
    }

    /// What `bytes` decode to: the fault of their layout, or the message whose
    /// fields they spell.
    pub open spec fn parse(bytes: Seq<u8>) -> Result<SetUpgradeAuthorityMessage, DecodeError> {
        match layout_fault(bytes, PAYLOAD_SET_UPGRADE_AUTHORITY, SET_UPGRADE_AUTHORITY_LEN as nat) {
            Some(e) => Err(e),
            None => Ok(
                SetUpgradeAuthorityMessage {
                    program_id_bytes: address_from(bytes.subrange(1, 33)),
                    upgrade_authority: address_from(bytes.subrange(33, 65)),
                },
            ),
        }
    }

    /// Appends the encoded message to `writer`.
    pub fn serialize(&self, writer: &mut Vec<u8>)
        ensures
            final(writer)@ == old(writer)@ + self.wire(),
    {
        put_discriminant(writer, PAYLOAD_SET_UPGRADE_AUTHORITY);
        put_address(writer, &self.program_id_bytes);
        put_address(writer, &self.upgrade_authority);
        assert(writer@ =~= old(writer)@ + self.wire());
    }

    /// Decodes a whole payload. It is accepted only if it starts with this
    /// variant's discriminant and has exactly this variant's length.
    pub fn deserialize_reader(reader: &[u8]) -> (r: Result<SetUpgradeAuthorityMessage, DecodeError>)
        ensures
            r == Self::parse(reader@),
    {
        match check_layout(reader, PAYLOAD_SET_UPGRADE_AUTHORITY, SET_UPGRADE_AUTHORITY_LEN) {
            Err(e) => {
                return Err(e);
            },
            Ok(_) => {},
        }
        let program_id_bytes = match get_address(reader, 1) {
            Ok(a) => a,
            Err(e) => {
                return Err(e);
            },
        };
        let upgrade_authority = match get_address(reader, 33) {
            Ok(a) => a,
            Err(e) => {
                return Err(e);
            },
        };
        Ok(SetUpgradeAuthorityMessage { program_id_bytes, upgrade_authority })
    }

    /// Decoding an encoded message gives the message back.
    pub proof fn lemma_parse_wire(m: SetUpgradeAuthorityMessage)
        ensures
            m.wire().len() == SET_UPGRADE_AUTHORITY_LEN,
            Self::parse(m.wire()) == Ok::<Self, DecodeError>(m),
    {
        let bytes = m.wire();
        lemma_address_from_bytes(m.program_id_bytes);
        assert(bytes.subrange(1, 33) =~= m.program_id_bytes@);
        lemma_address_from_bytes(m.upgrade_authority);
        assert(bytes.subrange(33, 65) =~= m.upgrade_authority@);
    }

    /// Encoding a decoded message gives back the bytes it was decoded from:
    /// every accepted payload is the one encoding of its message.
    pub proof fn lemma_wire_parse(bytes: Seq<u8>)
        requires
            Self::parse(bytes) is Ok,
        ensures
            Self::parse(bytes)->Ok_0.wire() == bytes,
    {
        let m = Self::parse(bytes)->Ok_0;
        lemma_address_from_view(bytes.subrange(1, 33));
        lemma_address_from_view(bytes.subrange(33, 65));
        assert(m.wire() =~= bytes);
    }

    /// Whatever follows it, a payload whose first byte is not this variant's
    /// discriminant is rejected for its discriminant.
    pub proof fn lemma_wrong_discriminant(bytes: Seq<u8>)
        requires
            bytes.len() > 0,
            bytes[0] != PAYLOAD_SET_UPGRADE_AUTHORITY,
        ensures
            Self::parse(bytes) == Err::<Self, DecodeError>(DecodeError::InvalidPayloadId),
    {
    }

    /// An encoded message whose discriminant byte was altered no longer decodes.
    pub proof fn lemma_altered_discriminant(m: SetUpgradeAuthorityMessage, id: u8)
        requires
            id != PAYLOAD_SET_UPGRADE_AUTHORITY,
        ensures
            Self::parse(m.wire().update(0, id)) == Err::<Self, DecodeError>(
                DecodeError::InvalidPayloadId,
            ),
    {
        Self::lemma_wrong_discriminant(m.wire().update(0, id));
    }
}

/// Replaces the program's code from a staged buffer; excess funds go to the spill account.
#[derive(Clone, Copy, Debug, PartialEq, Eq)]
pub struct UpgradeProgramMessage {
    pub program_id_bytes: Address,
    pub buffer_account_bytes: Address,
    pub spill_account_bytes: Address,
}

impl UpgradeProgramMessage {
    /// The encoded message: discriminant, then the fields in declared order.
    pub open spec fn wire(self) -> Seq<u8> {
        seq![PAYLOAD_UPGRADE_PROGRAM] + self.program_id_bytes@ + self.buffer_account_bytes@ + self.spill_account_bytes@
    }

    /// What `bytes` decode to: the fault of their layout, or the message whose
    /// fields they spell.
    pub open spec fn parse(bytes: Seq<u8>) -> Result<UpgradeProgramMessage, DecodeError> {
        match layout_fault(bytes, PAYLOAD_UPGRADE_PROGRAM, UPGRADE_PROGRAM_LEN as nat) {
            Some(e) => Err(e),
            None => Ok(
                UpgradeProgramMessage {
                    program_id_bytes: address_from(bytes.subrange(1, 33)),
                    buffer_account_bytes: address_from(bytes.subrange(33, 65)),
                    spill_account_bytes: address_from(bytes.subrange(65, 97)),
                },
            ),
        }
    }

    /// Appends the encoded message to `writer`.
    pub fn serialize(&self, writer: &mut Vec<u8>)
        ensures
            final(writer)@ == old(writer)@ + self.wire(),
    {
        put_discriminant(writer, PAYLOAD_UPGRADE_PROGRAM);
        put_address(writer, &self.program_id_bytes);
        put_address(writer, &self.buffer_account_bytes);
        put_address(writer, &self.spill_account_bytes);
        assert(writer@ =~= old(writer)@ + self.wire());
    }

    /// Decodes a whole payload. It is accepted only if it starts with this
    /// variant's discriminant and has exactly this variant's length.
    pub fn deserialize_reader(reader: &[u8]) -> (r: Result<UpgradeProgramMessage, DecodeError>)
        ensures
            r == Self::parse(reader@),
    {
        match check_layout(reader, PAYLOAD_UPGRADE_PROGRAM, UPGRADE_PROGRAM_LEN) {
            Err(e) => {
                return Err(e);
            },
            Ok(_) => {},
        }
        let program_id_bytes = match get_address(reader, 1) {
            Ok(a) => a,
            Err(e) => {
                return Err(e);
            },
        };
        let buffer_account_bytes = match get_address(reader, 33) {
            Ok(a) => a,
            Err(e) => {
                return Err(e);
            },
        };
        let spill_account_bytes = match get_address(reader, 65) {
            Ok(a) => a,
            Err(e) => {
                return Err(e);
            },
        };
        Ok(UpgradeProgramMessage { program_id_bytes, buffer_account_bytes, spill_account_bytes })
    }

    /// Decoding an encoded message gives the message back.
    pub proof fn lemma_parse_wire(m: UpgradeProgramMessage)
        ensures
            m.wire().len() == UPGRADE_PROGRAM_LEN,
            Self::parse(m.wire()) == Ok::<Self, DecodeError>(m),
    {
        let bytes = m.wire();
        lemma_address_from_bytes(m.program_id_bytes);
        assert(bytes.subrange(1, 33) =~= m.program_id_bytes@);
        lemma_address_from_bytes(m.buffer_account_bytes);
        assert(bytes.subrange(33, 65) =~= m.buffer_account_bytes@);
        lemma_address_from_bytes(m.spill_account_bytes);
        assert(bytes.subrange(65, 97) =~= m.spill_account_bytes@);
    }

    /// Encoding a decoded message gives back the bytes it was decoded from:
    /// every accepted payload is the one encoding of its message.
    pub proof fn lemma_wire_parse(bytes: Seq<u8>)
        requires
            Self::parse(bytes) is Ok,
        ensures
            Self::parse(bytes)->Ok_0.wire() == bytes,
    {
        let m = Self::parse(bytes)->Ok_0;
        lemma_address_from_view(bytes.subrange(1, 33));
        lemma_address_from_view(bytes.subrange(33, 65));
        lemma_address_from_view(bytes.subrange(65, 97));
        assert(m.wire() =~= bytes);
    }

    /// Whatever follows it, a payload whose first byte is not this variant's
    /// discriminant is rejected for its discriminant.
    pub proof fn lemma_wrong_discriminant(bytes: Seq<u8>)
        requires
            bytes.len() > 0,
            bytes[0] != PAYLOAD_UPGRADE_PROGRAM,
        ensures
            Self::parse(bytes) == Err::<Self, DecodeError>(DecodeError::InvalidPayloadId),
    {
    }

    /// An encoded message whose discriminant byte was altered no longer decodes.
    pub proof fn lemma_altered_discriminant(m: UpgradeProgramMessage, id: u8)
        requires
            id != PAYLOAD_UPGRADE_PROGRAM,
        ensures
            Self::parse(m.wire().update(0, id)) == Err::<Self, DecodeError>(
                DecodeError::InvalidPayloadId,
            ),
    {
        Self::lemma_wrong_discriminant(m.wire().update(0, id));
    }
}

/// The variant that an entry point accepts.
#[derive(Clone, Copy, Debug, PartialEq, Eq, Structural)]
pub enum PayloadKind {
    Transfer,
    TransferAll,
    TransferTokenAccounts,
    SetUpgradeAuthority,
    UpgradeProgram,
}

impl PayloadKind {
    /// The discriminant byte that opens a payload of this kind.
    pub open spec fn discriminant(self) -> u8 {
        match self {
            PayloadKind::Transfer => PAYLOAD_TRANSFER,
            PayloadKind::TransferAll => PAYLOAD_TRANSFER_ALL,
            PayloadKind::TransferTokenAccounts => PAYLOAD_TRANSFER_TOKEN_ACCOUNTS,
            PayloadKind::SetUpgradeAuthority => PAYLOAD_SET_UPGRADE_AUTHORITY,
            PayloadKind::UpgradeProgram => PAYLOAD_UPGRADE_PROGRAM,
        }
    }

    /// The length in bytes of a payload of this kind.
    pub open spec fn wire_len(self) -> nat {
        match self {
            PayloadKind::Transfer => TRANSFER_LEN as nat,
            PayloadKind::TransferAll => TRANSFER_ALL_LEN as nat,
            PayloadKind::TransferTokenAccounts => TRANSFER_TOKEN_ACCOUNTS_LEN as nat,
            PayloadKind::SetUpgradeAuthority => SET_UPGRADE_AUTHORITY_LEN as nat,
            PayloadKind::UpgradeProgram => UPGRADE_PROGRAM_LEN as nat,
        }
    }

    /// The discriminant byte that opens a payload of this kind.
    pub fn id(&self) -> (id: u8)
        ensures
            id == self.discriminant(),
    {
        match self {
            PayloadKind::Transfer => PAYLOAD_TRANSFER,
            PayloadKind::TransferAll => PAYLOAD_TRANSFER_ALL,
            PayloadKind::TransferTokenAccounts => PAYLOAD_TRANSFER_TOKEN_ACCOUNTS,
            PayloadKind::SetUpgradeAuthority => PAYLOAD_SET_UPGRADE_AUTHORITY,
            PayloadKind::UpgradeProgram => PAYLOAD_UPGRADE_PROGRAM,
        }
    }

    /// Different kinds open with different discriminants.
    pub proof fn lemma_discriminant_injective(a: PayloadKind, b: PayloadKind)
        requires
            a.discriminant() == b.discriminant(),
        ensures
            a == b,
    {
    }
}

/// A decoded governance message of any variant.
#[derive(Clone, Copy, Debug, PartialEq, Eq)]
pub enum GovernorMessage {
    Transfer(TransferMessage),
    TransferAll(TransferAllMessage),
    TransferTokenAccounts(TransferTokenAccountsMessage),
    SetUpgradeAuthority(SetUpgradeAuthorityMessage),
    UpgradeProgram(UpgradeProgramMessage),
}

impl GovernorMessage {
    /// The variant of the message.
    pub open spec fn kind(self) -> PayloadKind {
        match self {
            GovernorMessage::Transfer(_) => PayloadKind::Transfer,
            GovernorMessage::TransferAll(_) => PayloadKind::TransferAll,
            GovernorMessage::TransferTokenAccounts(_) => PayloadKind::TransferTokenAccounts,
            GovernorMessage::SetUpgradeAuthority(_) => PayloadKind::SetUpgradeAuthority,
            GovernorMessage::UpgradeProgram(_) => PayloadKind::UpgradeProgram,
        }
    }

    /// The encoded message.
    pub open spec fn wire(self) -> Seq<u8> {
        match self {
            GovernorMessage::Transfer(m) => m.wire(),
            GovernorMessage::TransferAll(m) => m.wire(),
            GovernorMessage::TransferTokenAccounts(m) => m.wire(),
            GovernorMessage::SetUpgradeAuthority(m) => m.wire(),
            GovernorMessage::UpgradeProgram(m) => m.wire(),
        }
    }

    /// What `bytes` decode to where a message of kind `expected` is awaited.
    /// Any other variant is rejected outright, however well-formed.
    pub open spec fn parse(bytes: Seq<u8>, expected: PayloadKind) -> Result<
        GovernorMessage,
        DecodeError,
    > {
        match expected {
            PayloadKind::Transfer => match TransferMessage::parse(bytes) {
                Ok(m) => Ok(GovernorMessage::Transfer(m)),
                Err(e) => Err(e),
            },
            PayloadKind::TransferAll => match TransferAllMessage::parse(bytes) {
                Ok(m) => Ok(GovernorMessage::TransferAll(m)),
                Err(e) => Err(e),
            },
            PayloadKind::TransferTokenAccounts => match TransferTokenAccountsMessage::parse(bytes) {
                Ok(m) => Ok(GovernorMessage::TransferTokenAccounts(m)),
                Err(e) => Err(e),
            },
            PayloadKind::SetUpgradeAuthority => match SetUpgradeAuthorityMessage::parse(bytes) {
                Ok(m) => Ok(GovernorMessage::SetUpgradeAuthority(m)),
                Err(e) => Err(e),
            },
            PayloadKind::UpgradeProgram => match UpgradeProgramMessage::parse(bytes) {
                Ok(m) => Ok(GovernorMessage::UpgradeProgram(m)),
                Err(e) => Err(e),
            },
        }
    }

    /// The variant of the message.
    pub fn payload_kind(&self) -> (k: PayloadKind)
        ensures
            k == self.kind(),
    {
        match self {
            GovernorMessage::Transfer(_) => PayloadKind::Transfer,
            GovernorMessage::TransferAll(_) => PayloadKind::TransferAll,
            GovernorMessage::TransferTokenAccounts(_) => PayloadKind::TransferTokenAccounts,
            GovernorMessage::SetUpgradeAuthority(_) => PayloadKind::SetUpgradeAuthority,
            GovernorMessage::UpgradeProgram(_) => PayloadKind::UpgradeProgram,
        }
    }

    /// Encodes the message: its discriminant, then its fields.
    pub fn encode(&self) -> (bytes: Vec<u8>)
        ensures
            bytes@ == self.wire(),
    {
        let mut bytes: Vec<u8> = Vec::new();
        match self {
            GovernorMessage::Transfer(m) => m.serialize(&mut bytes),
            GovernorMessage::TransferAll(m) => m.serialize(&mut bytes),
            GovernorMessage::TransferTokenAccounts(m) => m.serialize(&mut bytes),
            GovernorMessage::SetUpgradeAuthority(m) => m.serialize(&mut bytes),
            GovernorMessage::UpgradeProgram(m) => m.serialize(&mut bytes),
        }
        assert(bytes@ =~= self.wire());
        bytes
    }

    /// Decodes a payload at an entry point that takes messages of kind
    /// `expected` and no others.
    pub fn decode(bytes: &[u8], expected: PayloadKind) -> (r: Result<GovernorMessage, DecodeError>)
        ensures
            r == Self::parse(bytes@, expected),
    {
        match expected {
            PayloadKind::Transfer => match TransferMessage::deserialize_reader(bytes) {
                Ok(m) => Ok(GovernorMessage::Transfer(m)),
                Err(e) => Err(e),
            },
            PayloadKind::TransferAll => match TransferAllMessage::deserialize_reader(bytes) {
                Ok(m) => Ok(GovernorMessage::TransferAll(m)),
                Err(e) => Err(e),
            },
            PayloadKind::TransferTokenAccounts => match TransferTokenAccountsMessage::deserialize_reader(bytes) {
                Ok(m) => Ok(GovernorMessage::TransferTokenAccounts(m)),
                Err(e) => Err(e),
            },
            PayloadKind::SetUpgradeAuthority => match SetUpgradeAuthorityMessage::deserialize_reader(bytes) {
                Ok(m) => Ok(GovernorMessage::SetUpgradeAuthority(m)),
                Err(e) => Err(e),
            },
            PayloadKind::UpgradeProgram => match UpgradeProgramMessage::deserialize_reader(bytes) {
                Ok(m) => Ok(GovernorMessage::UpgradeProgram(m)),
                Err(e) => Err(e),
            },
        }
    }

    /// Decoding an encoded message, as the kind it has, gives the message back.
    pub proof fn lemma_decode_encode(m: GovernorMessage)
        ensures
            m.wire().len() == m.kind().wire_len(),
            m.wire()[0] == m.kind().discriminant(),
            Self::parse(m.wire(), m.kind()) == Ok::<GovernorMessage, DecodeError>(m),
    {
        match m {
            GovernorMessage::Transfer(inner) => TransferMessage::lemma_parse_wire(inner),
            GovernorMessage::TransferAll(inner) => TransferAllMessage::lemma_parse_wire(inner),
            GovernorMessage::TransferTokenAccounts(inner) => TransferTokenAccountsMessage::lemma_parse_wire(inner),
            GovernorMessage::SetUpgradeAuthority(inner) => SetUpgradeAuthorityMessage::lemma_parse_wire(inner),
            GovernorMessage::UpgradeProgram(inner) => UpgradeProgramMessage::lemma_parse_wire(inner),
        }
    }

    /// A payload is accepted for at most one message, and is that message's
    /// encoding.
    pub proof fn lemma_encode_decode(bytes: Seq<u8>, expected: PayloadKind)
        requires
            Self::parse(bytes, expected) is Ok,
        ensures
            Self::parse(bytes, expected)->Ok_0.wire() == bytes,
            Self::parse(bytes, expected)->Ok_0.kind() == expected,
    {
        match expected {
            PayloadKind::Transfer => TransferMessage::lemma_wire_parse(bytes),
            PayloadKind::TransferAll => TransferAllMessage::lemma_wire_parse(bytes),
            PayloadKind::TransferTokenAccounts => TransferTokenAccountsMessage::lemma_wire_parse(bytes),
            PayloadKind::SetUpgradeAuthority => SetUpgradeAuthorityMessage::lemma_wire_parse(bytes),
            PayloadKind::UpgradeProgram => UpgradeProgramMessage::lemma_wire_parse(bytes),
        }
    }

    /// An encoded message whose discriminant byte was altered is rejected at
    /// the entry point of its own kind.
    pub proof fn lemma_altered_discriminant_rejected(m: GovernorMessage, id: u8)
        requires
            id != m.kind().discriminant(),
        ensures
            Self::parse(m.wire().update(0, id), m.kind()) == Err::<GovernorMessage, DecodeError>(
                DecodeError::InvalidPayloadId,
            ),
    {
        match m {
            GovernorMessage::Transfer(inner) => TransferMessage::lemma_altered_discriminant(inner, id),
            GovernorMessage::TransferAll(inner) => TransferAllMessage::lemma_altered_discriminant(inner, id),
            GovernorMessage::TransferTokenAccounts(inner) => TransferTokenAccountsMessage::lemma_altered_discriminant(inner, id),
            GovernorMessage::SetUpgradeAuthority(inner) => SetUpgradeAuthorityMessage::lemma_altered_discriminant(inner, id),
            GovernorMessage::UpgradeProgram(inner) => UpgradeProgramMessage::lemma_altered_discriminant(inner, id),
        }
    }

    /// A message presented at the entry point of another kind is rejected for
    /// its discriminant, not read as that other kind.
    pub proof fn lemma_cross_variant_rejected(m: GovernorMessage, expected: PayloadKind)
        requires
            expected != m.kind(),
        ensures
            Self::parse(m.wire(), expected) == Err::<GovernorMessage, DecodeError>(
                DecodeError::InvalidPayloadId,
            ),
    {
        Self::lemma_decode_encode(m);
        let bytes = m.wire();
        match expected {
            PayloadKind::Transfer => TransferMessage::lemma_wrong_discriminant(bytes),
            PayloadKind::TransferAll => TransferAllMessage::lemma_wrong_discriminant(bytes),
            PayloadKind::TransferTokenAccounts => TransferTokenAccountsMessage::lemma_wrong_discriminant(bytes),
            PayloadKind::SetUpgradeAuthority => SetUpgradeAuthorityMessage::lemma_wrong_discriminant(bytes),
            PayloadKind::UpgradeProgram => UpgradeProgramMessage::lemma_wrong_discriminant(bytes),
        }
    }
}

} // verus!
