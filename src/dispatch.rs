//! Routing a transaction to its signature module: selection by algorithm,
//! the integrity check of the embedded binary, and the account cell that the
//! verdict also rests on.
use crate::cache::{decode_all, WitnessesParser};
use crate::digest::{module_digest, module_digest_spec};
use crate::error::Error;
use crate::locator::{bytes_eq, cell_matches, find_only_cell_by_type_id, matches_in};
use crate::tx_parser::{account_entity_spec, approval_params, approval_params_spec, get_account_cell_type_id, resolve_spec};
use crate::witness::{CellRole, TypeScript, DATA_TYPE_ACCOUNT_CELL};
use vstd::prelude::*;

verus! {

/// A signature module embedded at build time, with the digest of its binary
/// pinned beside it.
#[derive(Debug)]
pub struct ModuleEntry {
    pub selector: u8,
    pub digest: Vec<u8>,
    pub binary: Vec<u8>,
}

/// Whether a module's binary still has its pinned digest.
pub open spec fn is_intact(m: ModuleEntry) -> bool {
    module_digest_spec(m.binary@) == m.digest@
}

/// The index of the first module at or after `i` that answers `selector`.
pub open spec fn module_from(manifest: Seq<ModuleEntry>, selector: u8, i: int) -> Option<int>
    decreases manifest.len() - i,
{
    if i < 0 || i >= manifest.len() {
        None
    } else if manifest[i].selector == selector {
        Some(i)
    } else {
        module_from(manifest, selector, i + 1)
    }
}

/// The module that answers `selector`; fails with `UnsupportedAlgorithm`
/// where none does.
pub fn find_module(manifest: &Vec<ModuleEntry>, selector: u8) -> (r: Result<usize, Error>)
    ensures
        match r {
            Ok(m) => module_from(manifest@, selector, 0) == Some(m as int),
            Err(e) => module_from(manifest@, selector, 0) is None && e == Error::UnsupportedAlgorithm,
        },
        r matches Ok(m) ==> m < manifest@.len() && manifest@[m as int].selector == selector,
{
    let mut i: usize = 0;
    while i < manifest.len()
        invariant
            i <= manifest@.len(),
            module_from(manifest@, selector, 0) == module_from(manifest@, selector, i as int),
        decreases manifest@.len() - i,
    {
        if manifest[i].selector == selector {
            return Ok(i);
        }
        i = i + 1;
    }
    Err(Error::UnsupportedAlgorithm)
}

/// Recomputes the digest of a module's binary and compares it with the pinned
/// one; fails with `IntegrityViolation` where they differ.
pub fn check_module_integrity(entry: &ModuleEntry) -> (r: Result<(), Error>)
    ensures
        r is Ok <==> is_intact(*entry),
        r is Err ==> r == Err::<(), Error>(Error::IntegrityViolation),
{
    let digest = module_digest(entry.binary.as_slice());
    if bytes_eq(digest.as_slice(), entry.digest.as_slice()) {
        Ok(())
    } else {
        Err(Error::IntegrityViolation)
    }
}

/// What the signature check of a transaction goes on: the module to invoke,
/// the account cell, and the approval parameters of its entity (empty where
/// it carries no approval).
#[derive(Debug)]
pub struct DispatchPlan {
    pub module_index: usize,
    pub account_cell_index: usize,
    pub approval: Vec<u8>,
}

/// The account cell data entity of input cell `k`.
pub open spec fn account_entity_at(ws: Seq<Seq<u8>>, k: int) -> Result<Seq<u8>, Error> {
    match decode_all(ws) {
        None => Err(Error::WitnessDecode),
        Some(recs) => account_entity_spec(recs, k),
    }
}

/// Whether `r` is the outcome of dispatch for module `m` and account cell `k`.
pub open spec fn outcome_at(ws: Seq<Seq<u8>>, m: int, k: int, r: Result<DispatchPlan, Error>) -> bool {
    match account_entity_at(ws, k) {
        Err(e) => r == Err::<DispatchPlan, Error>(e),
        Ok(entity) => match approval_params_spec(entity) {
            None => r == Err::<DispatchPlan, Error>(Error::WitnessDecode),
            Some(p) => r matches Ok(plan) && plan.module_index == m && plan.account_cell_index == k
                && plan.approval@ == p,
        },
    }
}

/// Whether `r` is the outcome of dispatch on witnesses `ws`, a manifest,
/// a selector and the type hashes of the input cells.
pub open spec fn dispatch_outcome(
    ws: Seq<Seq<u8>>,
    manifest: Seq<ModuleEntry>,
    selector: u8,
    cells: Seq<Option<Vec<u8>>>,
    r: Result<DispatchPlan, Error>,
) -> bool {
    match module_from(manifest, selector, 0) {
        None => r == Err::<DispatchPlan, Error>(Error::UnsupportedAlgorithm),
        Some(m) => if !is_intact(manifest[m]) {
            r == Err::<DispatchPlan, Error>(Error::IntegrityViolation)
        } else {
            match resolve_spec(ws, TypeScript::AccountCellType) {
                Err(e) => r == Err::<DispatchPlan, Error>(e),
                Ok(h) => if matches_in(cells, h) == 0 {
                    r == Err::<DispatchPlan, Error>(Error::CellAbsent)
                } else if matches_in(cells, h) >= 2 {
                    r == Err::<DispatchPlan, Error>(Error::CellAmbiguous)
                } else {
                    forall|k: int|
                        0 <= k < cells.len() && #[trigger] cell_matches(cells[k], h) ==> outcome_at(
                            ws,
                            m,
                            k,
                            r,
                        )
                },
            }
        },
    }
}

/// Prepares the signature check of a transaction: selects the module for
/// `selector`, checks its integrity, then locates the account cell among
/// `input_cells` and reads its approval parameters. The witnesses are
/// decoded only once the module has passed its integrity check.
pub fn dispatch(
    parser: &mut WitnessesParser,
    manifest: &Vec<ModuleEntry>,
    selector: u8,
    input_cells: &Vec<Option<Vec<u8>>>,
) -> (r: Result<DispatchPlan, Error>)
    requires
        old(parser)@.wf(),
    ensures
        final(parser)@.wf(),
        dispatch_outcome(old(parser)@.witnesses, manifest@, selector, input_cells@, r),
        (module_from(manifest@, selector, 0) matches Some(m) && is_intact(manifest@[m]))
            ==> final(parser)@ == old(parser)@.after_init(),
        !(module_from(manifest@, selector, 0) matches Some(m) && is_intact(manifest@[m]))
            ==> final(parser)@ == old(parser)@,
{
    let m = find_module(manifest, selector)?;
    if check_module_integrity(&manifest[m]).is_err() {
        return Err(Error::IntegrityViolation);
    }
    let type_id = get_account_cell_type_id(parser)?;
    let k = find_only_cell_by_type_id(input_cells, type_id.as_slice())?;
    let ghost ws = old(parser)@.witnesses;
    assert(cell_matches(input_cells@[k as int], type_id@));
    if k > u32::MAX as usize {
        let r = Err(Error::EntityAbsent);
        assert(outcome_at(ws, m as int, k as int, r));
        return r;
    }
    let entity = match parser.get_entity_by_cell_meta(CellRole::Input, k as u32, DATA_TYPE_ACCOUNT_CELL) {
        Ok(e) => e,
        Err(e) => {
            let r = Err(e);
            assert(outcome_at(ws, m as int, k as int, r));
            return r;
        },
    };
    match approval_params(entity.as_slice()) {
        Ok(approval) => {
            let r = Ok(DispatchPlan { module_index: m, account_cell_index: k, approval });
            assert(outcome_at(ws, m as int, k as int, r));
            r
        },
        Err(e) => {
            let r = Err(e);
            assert(outcome_at(ws, m as int, k as int, r));
            r
        },
    }
}

/// The verdict once the selected module has checked the signature.
pub fn conclude(plan: &DispatchPlan, signature_valid: bool) -> (r: Result<(), Error>)
    ensures
        signature_valid ==> r is Ok,
        !signature_valid ==> r == Err::<(), Error>(Error::SignatureRejected),
{
    if signature_valid {
        Ok(())
    } else {
        Err(Error::SignatureRejected)
    }
}

} // verus!
