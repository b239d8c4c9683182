//! Resolution of script identifiers to type ids, and the account cell's
//! witness, read through the entity cache.
use crate::cache::{CacheModel, Phase, bytes_result, decode_all, lookup_entity, lookup_type_id, WitnessesParser};
use crate::error::Error;
use crate::locator::{cell_matches, find_only_cell_by_type_id, locate_spec, matches_in};
use crate::witness::{Record, copy_range, read_u32_le, u32_le, CellRole, TypeScript, DATA_TYPE_ACCOUNT_CELL};
use vstd::prelude::*;

verus! {

/// The type id of `ts` that witnesses `ws` give.
pub open spec fn resolve_spec(ws: Seq<Seq<u8>>, ts: TypeScript) -> Result<Seq<u8>, Error> {
    match decode_all(ws) {
        None => Err(Error::WitnessDecode),
        Some(recs) => lookup_type_id(recs, ts),
    }
}

/// Whether `r` is what locating `type_hash` among `cells` answers.
pub open spec fn located(cells: Seq<Option<Vec<u8>>>, type_hash: Seq<u8>, r: Result<usize, Error>) -> bool {
    &&& (r is Ok <==> matches_in(cells, type_hash) == 1)
    &&& (r == Err::<usize, Error>(Error::CellAbsent) <==> matches_in(cells, type_hash) == 0)
    &&& (r == Err::<usize, Error>(Error::CellAmbiguous) <==> matches_in(cells, type_hash) >= 2)
    &&& (r matches Ok(i) ==> i < cells.len() && cell_matches(cells[i as int], type_hash))
    &&& (r matches Ok(i) ==> forall|k: int|
        0 <= k < cells.len() && #[trigger] cell_matches(cells[k], type_hash) ==> k == i)
}

/// The account cell data entity of input cell `k`.
pub open spec fn account_entity_spec(recs: Seq<Record>, k: int) -> Result<Seq<u8>, Error> {
    if k > u32::MAX {
        Err(Error::EntityAbsent)
    } else {
        lookup_entity(recs, CellRole::Input, k as u32, DATA_TYPE_ACCOUNT_CELL)
    }
}

/// The account cell data entity of the one input cell that carries the
/// account cell type id, read from a cache that is ready.
pub open spec fn account_witness_spec(m: CacheModel, cells: Seq<Option<Vec<u8>>>) -> Result<
    Seq<u8>,
    Error,
> {
    if m.phase != Phase::Ready {
        Err(Error::ParserNotReady)
    } else {
        match lookup_type_id(m.records, TypeScript::AccountCellType) {
            Err(e) => Err(e),
            Ok(h) => match locate_spec(cells, h) {
                Err(e) => Err(e),
                Ok(k) => account_entity_spec(m.records, k),
            },
        }
    }
}

/// The approval parameters at the head of an account cell entity: a
/// little-endian `u32` length, then that many bytes.
pub open spec fn approval_params_spec(entity: Seq<u8>) -> Option<Seq<u8>> {
    if entity.len() >= 4 && 4 + u32_le(entity, 0) <= entity.len() {
        Some(entity.subrange(4, 4 + u32_le(entity, 0)))
    } else {
        None
    }
}

/// The approval parameters of the account cell's entity.
pub open spec fn input_approval_spec(m: CacheModel, cells: Seq<Option<Vec<u8>>>) -> Result<
    Seq<u8>,
    Error,
> {
    match account_witness_spec(m, cells) {
        Err(e) => Err(e),
        Ok(entity) => match approval_params_spec(entity) {
            Some(p) => Ok(p),
            None => Err(Error::WitnessDecode),
        },
    }
}

/// Resolution depends on the witnesses alone. Two caches over the same
/// witnesses, whatever their phase, reach the same phase and the same records
/// once initialised, and a ready cache answers a type-id lookup as resolution
/// on its witnesses does; a failed one stands for witnesses that resolve to a
/// decoding error.
pub proof fn lemma_resolve_deterministic(m: CacheModel, other: CacheModel, ts: TypeScript)
    requires
        m.wf(),
        other.wf(),
        other.witnesses == m.witnesses,
    ensures
        m.after_init().wf(),
        m.after_init().phase == other.after_init().phase,
        m.after_init().phase == Phase::Ready ==> m.after_init().records
            == other.after_init().records,
        m.after_init().phase == Phase::Ready ==> lookup_type_id(m.after_init().records, ts)
            == resolve_spec(m.witnesses, ts),
        m.after_init().phase == Phase::Failed ==> resolve_spec(m.witnesses, ts) == Err::<
            Seq<u8>,
            Error,
        >(Error::WitnessDecode),
{
}

/// The type id of `type_script`, decoding the witnesses first if that has not
/// been done.
pub fn get_type_id_by_type_script(parser: &mut WitnessesParser, type_script: TypeScript) -> (r:
    Result<Vec<u8>, Error>)
    requires
        old(parser)@.wf(),
    ensures
        final(parser)@ == old(parser)@.after_init(),
        final(parser)@.wf(),
        bytes_result(r) == resolve_spec(old(parser)@.witnesses, type_script),
        r matches Ok(h) ==> h@.len() == 32,
{
    if !parser.is_inited() {
        if parser.init().is_err() {
            return Err(Error::WitnessDecode);
        }
    }
    parser.get_type_id(type_script)
}

pub fn get_sub_account_cell_type_id(parser: &mut WitnessesParser) -> (r: Result<Vec<u8>, Error>)
    requires
        old(parser)@.wf(),
    ensures
        final(parser)@ == old(parser)@.after_init(),
        final(parser)@.wf(),
        bytes_result(r) == resolve_spec(old(parser)@.witnesses, TypeScript::SubAccountCellType),
    r matches Ok(h) ==> h@.len() == 32,
{
    get_type_id_by_type_script(parser, TypeScript::SubAccountCellType)
}

pub fn get_account_cell_type_id(parser: &mut WitnessesParser) -> (r: Result<Vec<u8>, Error>)
    requires
        old(parser)@.wf(),
    ensures
        final(parser)@ == old(parser)@.after_init(),
        final(parser)@.wf(),
        bytes_result(r) == resolve_spec(old(parser)@.witnesses, TypeScript::AccountCellType),
    r matches Ok(h) ==> h@.len() == 32,
{
    get_type_id_by_type_script(parser, TypeScript::AccountCellType)
}

pub fn get_dpoint_cell_type_id(parser: &mut WitnessesParser) -> (r: Result<Vec<u8>, Error>)
    requires
        old(parser)@.wf(),
    ensures
        final(parser)@ == old(parser)@.after_init(),
        final(parser)@.wf(),
        bytes_result(r) == resolve_spec(old(parser)@.witnesses, TypeScript::DPointCellType),
    r matches Ok(h) ==> h@.len() == 32,
{
    get_type_id_by_type_script(parser, TypeScript::DPointCellType)
}

pub fn get_reverse_record_root_cell_type_id(parser: &mut WitnessesParser) -> (r: Result<
    Vec<u8>,
    Error,
>)
    requires
        old(parser)@.wf(),
    ensures
        final(parser)@ == old(parser)@.after_init(),
        final(parser)@.wf(),
        bytes_result(r) == resolve_spec(
            old(parser)@.witnesses,
            TypeScript::ReverseRecordRootCellType,
        ),
    r matches Ok(h) ==> h@.len() == 32,
{
    get_type_id_by_type_script(parser, TypeScript::ReverseRecordRootCellType)
}

/// The index of the only input cell that carries the account cell type id.
/// `input_cells` holds the type hash of each input cell, `None` for a cell
/// without a type script.
pub fn get_first_account_cell_index(
    parser: &mut WitnessesParser,
    input_cells: &Vec<Option<Vec<u8>>>,
) -> (r: Result<usize, Error>)
    requires
        old(parser)@.wf(),
    ensures
        final(parser)@ == old(parser)@.after_init(),
        final(parser)@.wf(),
        match resolve_spec(old(parser)@.witnesses, TypeScript::AccountCellType) {
            Err(e) => r == Err::<usize, Error>(e),
            Ok(h) => located(input_cells@, h, r),
        },
{
    let type_id = get_account_cell_type_id(parser)?;
    find_only_cell_by_type_id(input_cells, type_id.as_slice())
}

/// The account cell data entity of the one input cell that carries the
/// account cell type id. Reads a cache that is ready and changes nothing;
/// `input_cells` holds the type hash of each input cell.
pub fn get_account_cell_witness(parser: &WitnessesParser, input_cells: &Vec<Option<Vec<u8>>>) -> (r:
    Result<Vec<u8>, Error>)
    requires
        parser@.wf(),
    ensures
        bytes_result(r) == account_witness_spec(parser@, input_cells@),
{
    let type_id = match parser.get_type_id(TypeScript::AccountCellType) {
        Ok(h) => h,
        Err(e) => return Err(e),
    };
    let k = match find_only_cell_by_type_id(input_cells, type_id.as_slice()) {
        Ok(k) => k,
        Err(e) => return Err(e),
    };
    if k > u32::MAX as usize {
        return Err(Error::EntityAbsent);
    }
    parser.get_entity_by_cell_meta(CellRole::Input, k as u32, DATA_TYPE_ACCOUNT_CELL)
}

/// The approval parameters of the account cell's entity. Reads a cache that
/// is ready and changes nothing.
pub fn get_input_approval(parser: &WitnessesParser, input_cells: &Vec<Option<Vec<u8>>>) -> (r: Result<
    Vec<u8>,
    Error,
>)
    requires
        parser@.wf(),
    ensures
        bytes_result(r) == input_approval_spec(parser@, input_cells@),
{
    let entity = match get_account_cell_witness(parser, input_cells) {
        Ok(e) => e,
        Err(e) => return Err(e),
    };
    approval_params(entity.as_slice())
}

/// The approval parameters at the head of an account cell entity.
pub fn approval_params(entity: &[u8]) -> (r: Result<Vec<u8>, Error>)
    ensures
        bytes_result(r) == match approval_params_spec(entity@) {
            Some(p) => Ok(p),
            None => Err(Error::WitnessDecode),
        },
{
    if entity.len() < 4 {
        return Err(Error::WitnessDecode);
    }
    let len = read_u32_le(entity, 0);
    if len as usize > entity.len() - 4 {
        return Err(Error::WitnessDecode);
    }
    Ok(copy_range(entity, 4, 4 + len as usize))
}

} // verus!
