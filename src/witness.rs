//! The framing of one witness and its decoding into a record.
//!
//! A witness of this protocol starts with the bytes `das`, then a data type as
//! a little-endian `u32`. A type-id witness then holds one script code byte and
//! a 32-byte type hash. An entity witness then holds the role of its cell (one
//! byte), the cell's index and the entity's length (both little-endian `u32`),
//! and exactly that many bytes of entity. Witnesses that do not start with `das`
//! belong to other scripts and are skipped.
use crate::error::Error;
use vstd::prelude::*;

verus! {

/// Data type of a witness that records the type id of a script.
pub const DATA_TYPE_TYPE_ID: u32 = 0;

/// Data type of the entity that holds an account cell's data.
pub const DATA_TYPE_ACCOUNT_CELL: u32 = 1;

/// Length of a type hash.
pub const TYPE_HASH_LEN: usize = 32;

/// Offset of the entity bytes in an entity witness.
pub const ENTITY_OFFSET: usize = 16;

/// Length of a type-id witness.
pub const TYPE_ID_WITNESS_LEN: usize = 40;

/// The partition of a transaction's cells.
#[derive(Debug, Clone, Copy, PartialEq, Eq, Structural)]
pub enum CellRole {
    Input,
    Output,
    CellDep,
}

impl CellRole {
    pub open spec fn spec_from_tag(tag: u8) -> Option<CellRole> {
        if tag == 0 {
            Some(CellRole::Input)
        } else if tag == 1 {
            Some(CellRole::Output)
        } else if tag == 2 {
            Some(CellRole::CellDep)
        } else {
            None
        }
    }

    /// The role that a witness byte names, if any.
    pub fn from_tag(tag: u8) -> (r: Option<CellRole>)
        ensures
            r == Self::spec_from_tag(tag),
    {
        if tag == 0 {
            Some(CellRole::Input)
        } else if tag == 1 {
            Some(CellRole::Output)
        } else if tag == 2 {
            Some(CellRole::CellDep)
        } else {
            None
        }
    }
}

/// A well-known on-chain script whose type id a transaction carries.
#[derive(Debug, Clone, Copy, PartialEq, Eq, Structural)]
pub enum TypeScript {
    AccountCellType,
    SubAccountCellType,
    DPointCellType,
    ReverseRecordRootCellType,
    BalanceCellType,
    EIP712Lib,
}

impl TypeScript {
    /// The byte that names this script in a type-id witness.
    pub open spec fn spec_code(self) -> u8 {
        match self {
            TypeScript::AccountCellType => 0,
            TypeScript::SubAccountCellType => 1,
            TypeScript::DPointCellType => 2,
            TypeScript::ReverseRecordRootCellType => 3,
            TypeScript::BalanceCellType => 4,
            TypeScript::EIP712Lib => 5,
        }
    }

    pub fn code(&self) -> (r: u8)
        ensures
            r == self.spec_code(),
    {
        match self {
            TypeScript::AccountCellType => 0,
            TypeScript::SubAccountCellType => 1,
            TypeScript::DPointCellType => 2,
            TypeScript::ReverseRecordRootCellType => 3,
            TypeScript::BalanceCellType => 4,
            TypeScript::EIP712Lib => 5,
        }
    }
}

/// What one witness holds, as a mathematical value.
pub enum Record {
    /// A witness of another script.
    Foreign,
    /// The type hash of the script named by `script`.
    TypeId { script: u8, type_hash: Seq<u8> },
    /// The entity of the cell at `index` in `role`.
    Entity { role: CellRole, index: u32, data_type: u32, entity: Seq<u8> },
}

/// A decoded witness.
#[derive(Debug)]
pub enum WitnessRecord {
    Foreign,
    TypeId { script: u8, type_hash: Vec<u8> },
    Entity { role: CellRole, index: u32, data_type: u32, entity: Vec<u8> },
}

impl View for WitnessRecord {
    type V = Record;

    open spec fn view(&self) -> Record {
        match self {
            WitnessRecord::Foreign => Record::Foreign,
            WitnessRecord::TypeId { script, type_hash } => Record::TypeId {
                script: *script,
                type_hash: type_hash@,
            },
            WitnessRecord::Entity { role, index, data_type, entity } => Record::Entity {
                role: *role,
                index: *index,
                data_type: *data_type,
                entity: entity@,
            },
        }
    }
}

/// The little-endian `u32` at `at` in `b`.
pub open spec fn u32_le(b: Seq<u8>, at: int) -> int {
    (b[at] as int) + (b[at + 1] as int) * 256 + (b[at + 2] as int) * 65536 + (b[at + 3] as int)
        * 16777216
}

/// Whether `w` starts with the protocol's marker `das`.
pub open spec fn has_marker(w: Seq<u8>) -> bool {
    w.len() >= 3 && w[0] == 100 && w[1] == 97 && w[2] == 115
}

/// The record that `w` holds, or `None` where `w` is malformed.
pub open spec fn decode_witness_spec(w: Seq<u8>) -> Option<Record> {
    if !has_marker(w) {
        Some(Record::Foreign)
    } else if w.len() < 7 {
        None
    } else if u32_le(w, 3) == DATA_TYPE_TYPE_ID as int {
        if w.len() == TYPE_ID_WITNESS_LEN {
            Some(Record::TypeId { script: w[7], type_hash: w.subrange(8, 40) })
        } else {
            None
        }
    } else if w.len() < ENTITY_OFFSET {
        None
    } else {
        match CellRole::spec_from_tag(w[7]) {
            None => None,
            Some(role) => if w.len() == ENTITY_OFFSET + u32_le(w, 12) {
                Some(
                    Record::Entity {
                        role,
                        index: u32_le(w, 8) as u32,
                        data_type: u32_le(w, 3) as u32,
                        entity: w.subrange(ENTITY_OFFSET as int, w.len() as int),
                    },
                )
            } else {
                None
            },
        }
    }
}

/// Reads the little-endian `u32` at `at`.
pub fn read_u32_le(b: &[u8], at: usize) -> (r: u32)
    requires
        at + 4 <= b@.len(),
    ensures
        r as int == u32_le(b@, at as int),
{
    let v: u64 = b[at] as u64 + (b[at + 1] as u64) * 256 + (b[at + 2] as u64) * 65536
        + (b[at + 3] as u64) * 16777216;
    v as u32
}

/// Copies `b[start..end]` into a new vector.
pub fn copy_range(b: &[u8], start: usize, end: usize) -> (r: Vec<u8>)
    requires
        start <= end <= b@.len(),
    ensures
        r@ == b@.subrange(start as int, end as int),
{
    let mut r: Vec<u8> = Vec::new();
    let mut i: usize = start;
    while i < end
        invariant
            start <= i <= end <= b@.len(),
            r@ == b@.subrange(start as int, i as int),
        decreases end - i,
    {
        r.push(b[i]);
        i = i + 1;
        assert(r@ =~= b@.subrange(start as int, i as int));
    }
    r
}

/// Decodes one witness; fails where it carries the marker but is malformed.
pub fn decode_witness(w: &[u8]) -> (r: Result<WitnessRecord, Error>)
    ensures
        match r {
            Ok(rec) => decode_witness_spec(w@) == Some(rec@),
            Err(e) => decode_witness_spec(w@) is None && e == Error::WitnessDecode,
        },
{
    if w.len() < 3 || w[0] != 100 || w[1] != 97 || w[2] != 115 {
        return Ok(WitnessRecord::Foreign);
    }
    if w.len() < 7 {
        return Err(Error::WitnessDecode);
    }
    let data_type = read_u32_le(w, 3);
    if data_type == DATA_TYPE_TYPE_ID {
        if w.len() == TYPE_ID_WITNESS_LEN {
            let type_hash = copy_range(w, 8, 40);
            return Ok(WitnessRecord::TypeId { script: w[7], type_hash });
        }
        return Err(Error::WitnessDecode);
    }
    if w.len() < ENTITY_OFFSET {
        return Err(Error::WitnessDecode);
    }
    match CellRole::from_tag(w[7]) {
        None => Err(Error::WitnessDecode),
        Some(role) => {
            let len = read_u32_le(w, 12);
            if w.len() - ENTITY_OFFSET == len as usize {
                let index = read_u32_le(w, 8);
                let entity = copy_range(w, ENTITY_OFFSET, w.len());
                Ok(WitnessRecord::Entity { role, index, data_type, entity })
            } else {
                Err(Error::WitnessDecode)
            }
        },
    }
}

} // verus!
