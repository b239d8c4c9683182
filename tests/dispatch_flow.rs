use das_dispatch::cache::WitnessesParser;
use das_dispatch::digest::module_digest;
use das_dispatch::dispatch::{check_module_integrity, conclude, dispatch, find_module, DispatchPlan, ModuleEntry};
use das_dispatch::error::Error;
use das_dispatch::locator::{bytes_eq, find_only_cell_by_type_id};

const ACCOUNT_TYPE_ID: [u8; 32] = [0xacu8; 32];

fn type_id_witness(script: u8, hash: [u8; 32]) -> Vec<u8> {
    let mut w = b"das".to_vec();
    w.extend_from_slice(&0u32.to_le_bytes());
    w.push(script);
    w.extend_from_slice(&hash);
    w
}

fn account_witness(index: u32, approval: &[u8]) -> Vec<u8> {
    let mut entity = (approval.len() as u32).to_le_bytes().to_vec();
    entity.extend_from_slice(approval);
    entity.extend_from_slice(b"account");
    let mut w = b"das".to_vec();
    w.extend_from_slice(&1u32.to_le_bytes());
    w.push(0);
    w.extend_from_slice(&index.to_le_bytes());
    w.extend_from_slice(&(entity.len() as u32).to_le_bytes());
    w.extend_from_slice(&entity);
    w
}

fn module(selector: u8, binary: &[u8]) -> ModuleEntry {
    ModuleEntry { selector, digest: module_digest(binary), binary: binary.to_vec() }
}

fn manifest() -> Vec<ModuleEntry> {
    vec![module(3, b"eth module code"), module(0, b"ckb module code"), module(6, b"ed25519 module code")]
}

// The signature module stand-in: counts its invocations and accepts a
// signature that equals the message.
fn run(
    parser: &mut WitnessesParser,
    manifest: &Vec<ModuleEntry>,
    selector: u8,
    cells: &Vec<Option<Vec<u8>>>,
    message: &[u8],
    signature: &[u8],
    invocations: &mut u32,
) -> Result<(), Error> {
    let plan: DispatchPlan = dispatch(parser, manifest, selector, cells)?;
    *invocations += 1;
    let valid = manifest[plan.module_index].selector == selector && message == signature;
    conclude(&plan, valid)
}

#[test]
fn locator_one_match() {
    let cells = vec![None, Some(vec![1u8; 32]), Some(vec![2u8; 32])];
    assert_eq!(find_only_cell_by_type_id(&cells, &[2u8; 32]), Ok(2));
}

#[test]
fn locator_no_match() {
    let cells = vec![None, Some(vec![1u8; 32])];
    assert_eq!(find_only_cell_by_type_id(&cells, &[2u8; 32]), Err(Error::CellAbsent));
    assert_eq!(find_only_cell_by_type_id(&vec![], &[2u8; 32]), Err(Error::CellAbsent));
}

#[test]
fn locator_two_matches() {
    let cells = vec![Some(vec![2u8; 32]), None, Some(vec![2u8; 32]), Some(vec![2u8; 32])];
    assert_eq!(find_only_cell_by_type_id(&cells, &[2u8; 32]), Err(Error::CellAmbiguous));
}

#[test]
fn bytes_eq_compares_content() {
    assert!(bytes_eq(&[1, 2], &[1, 2]));
    assert!(!bytes_eq(&[1, 2], &[1, 3]));
    assert!(!bytes_eq(&[1, 2], &[1, 2, 3]));
}

#[test]
fn digest_of_empty_input() {
    let d = module_digest(&[]);
    let expected: Vec<u8> = vec![
        0x44, 0xf4, 0xc6, 0x97, 0x44, 0xd5, 0xf8, 0xc5, 0x5d, 0x64, 0x20, 0x62, 0x94, 0x9d, 0xca, 0xe4,
        0x9b, 0xc4, 0xe7, 0xef, 0x43, 0xd3, 0x88, 0xc5, 0xa1, 0x2f, 0x42, 0xb5, 0x63, 0x3d, 0x16, 0x3e,
    ];
    assert_eq!(d, expected);
}

#[test]
fn digest_is_not_the_input() {
    let input = [7u8; 32];
    let d = module_digest(&input);
    assert_eq!(d.len(), 32);
    assert_ne!(d, input.to_vec());
    assert_eq!(d, module_digest(&input));
    assert_ne!(d, module_digest(&[7u8; 31]));
}

#[test]
fn find_module_by_selector() {
    let m = manifest();
    assert_eq!(find_module(&m, 0), Ok(1));
    assert_eq!(find_module(&m, 6), Ok(2));
    assert_eq!(find_module(&m, 9), Err(Error::UnsupportedAlgorithm));
}

#[test]
fn intact_module_passes_integrity() {
    let m = manifest();
    assert_eq!(check_module_integrity(&m[0]), Ok(()));
}

#[test]
fn tampered_module_is_rejected_before_invocation() {
    let mut m = manifest();
    m[0].binary[3] ^= 0x01;
    assert_eq!(check_module_integrity(&m[0]), Err(Error::IntegrityViolation));
    let mut p = WitnessesParser::new(vec![type_id_witness(0, ACCOUNT_TYPE_ID), account_witness(0, &[])]);
    let cells = vec![Some(ACCOUNT_TYPE_ID.to_vec())];
    let mut invocations = 0u32;
    let r = run(&mut p, &m, 3, &cells, b"msg", b"msg", &mut invocations);
    assert_eq!(r, Err(Error::IntegrityViolation));
    assert_eq!(invocations, 0);
    assert_eq!(p.parse_count(), 0);
}

#[test]
fn unsupported_selector_is_rejected() {
    let m = manifest();
    let mut p = WitnessesParser::new(vec![type_id_witness(0, ACCOUNT_TYPE_ID), account_witness(0, &[])]);
    let cells = vec![Some(ACCOUNT_TYPE_ID.to_vec())];
    let mut invocations = 0u32;
    let r = run(&mut p, &m, 42, &cells, b"msg", b"msg", &mut invocations);
    assert_eq!(r, Err(Error::UnsupportedAlgorithm));
    assert_eq!(invocations, 0);
    assert_eq!(p.parse_count(), 0);
}

#[test]
fn scenario_accept() {
    let m = manifest();
    let mut p = WitnessesParser::new(vec![
        vec![0x55; 65],
        type_id_witness(0, ACCOUNT_TYPE_ID),
        account_witness(0, &[]),
    ]);
    let cells = vec![Some(ACCOUNT_TYPE_ID.to_vec()), None, Some(vec![1u8; 32])];
    let plan = dispatch(&mut p, &m, 0, &cells).unwrap();
    assert_eq!(plan.module_index, 1);
    assert_eq!(plan.account_cell_index, 0);
    assert!(plan.approval.is_empty());
    let mut fresh = WitnessesParser::new(vec![vec![0x55; 65], type_id_witness(0, ACCOUNT_TYPE_ID), account_witness(0, &[])]);
    let mut invocations = 0u32;
    assert_eq!(run(&mut fresh, &m, 0, &cells, b"msg", b"msg", &mut invocations), Ok(()));
    assert_eq!(invocations, 1);
}

#[test]
fn scenario_accept_carries_approval() {
    let m = manifest();
    let mut p = WitnessesParser::new(vec![type_id_witness(0, ACCOUNT_TYPE_ID), account_witness(1, &[5, 6])]);
    let cells = vec![Some(vec![1u8; 32]), Some(ACCOUNT_TYPE_ID.to_vec())];
    let plan = dispatch(&mut p, &m, 6, &cells).unwrap();
    assert_eq!(plan.module_index, 2);
    assert_eq!(plan.account_cell_index, 1);
    assert_eq!(plan.approval, vec![5, 6]);
}

#[test]
fn scenario_bad_signature() {
    let m = manifest();
    let mut p = WitnessesParser::new(vec![type_id_witness(0, ACCOUNT_TYPE_ID), account_witness(0, &[])]);
    let cells = vec![Some(ACCOUNT_TYPE_ID.to_vec())];
    let mut invocations = 0u32;
    assert_eq!(run(&mut p, &m, 0, &cells, b"msg", b"bad", &mut invocations), Err(Error::SignatureRejected));
    assert_eq!(invocations, 1);
}

#[test]
fn scenario_truncated_witness() {
    let m = manifest();
    let mut w = account_witness(0, &[]);
    w.truncate(w.len() - 3);
    let mut p = WitnessesParser::new(vec![type_id_witness(0, ACCOUNT_TYPE_ID), w]);
    let cells = vec![Some(ACCOUNT_TYPE_ID.to_vec())];
    let mut invocations = 0u32;
    assert_eq!(run(&mut p, &m, 0, &cells, b"msg", b"msg", &mut invocations), Err(Error::WitnessDecode));
    assert_eq!(invocations, 0);
}

#[test]
fn scenario_two_account_cells() {
    let m = manifest();
    let mut p = WitnessesParser::new(vec![type_id_witness(0, ACCOUNT_TYPE_ID), account_witness(0, &[])]);
    let cells = vec![Some(ACCOUNT_TYPE_ID.to_vec()), Some(ACCOUNT_TYPE_ID.to_vec())];
    let mut invocations = 0u32;
    assert_eq!(run(&mut p, &m, 0, &cells, b"msg", b"msg", &mut invocations), Err(Error::CellAmbiguous));
    assert_eq!(invocations, 0);
}

#[test]
fn scenario_unknown_selector() {
    let m = manifest();
    let mut p = WitnessesParser::new(vec![type_id_witness(0, ACCOUNT_TYPE_ID), account_witness(0, &[])]);
    let cells = vec![Some(ACCOUNT_TYPE_ID.to_vec())];
    let mut invocations = 0u32;
    assert_eq!(run(&mut p, &m, 200, &cells, b"msg", b"msg", &mut invocations), Err(Error::UnsupportedAlgorithm));
    assert_eq!(invocations, 0);
}

#[test]
fn scenario_missing_account_cell() {
    let m = manifest();
    let mut p = WitnessesParser::new(vec![type_id_witness(0, ACCOUNT_TYPE_ID), account_witness(0, &[])]);
    let cells = vec![None, Some(vec![3u8; 32])];
    assert_eq!(dispatch(&mut p, &m, 0, &cells).unwrap_err(), Error::CellAbsent);
}

#[test]
fn scenario_entity_of_other_cell_is_absent() {
    let m = manifest();
    let mut p = WitnessesParser::new(vec![type_id_witness(0, ACCOUNT_TYPE_ID), account_witness(0, &[])]);
    let cells = vec![None, Some(ACCOUNT_TYPE_ID.to_vec())];
    assert_eq!(dispatch(&mut p, &m, 0, &cells).unwrap_err(), Error::EntityAbsent);
}

#[test]
fn scenario_unresolved_account_script() {
    let m = manifest();
    let mut p = WitnessesParser::new(vec![type_id_witness(1, ACCOUNT_TYPE_ID), account_witness(0, &[])]);
    let cells = vec![Some(ACCOUNT_TYPE_ID.to_vec())];
    assert_eq!(
        dispatch(&mut p, &m, 0, &cells).unwrap_err(),
        Error::TypeIdNotFound(das_dispatch::witness::TypeScript::AccountCellType)
    );
    assert_eq!(p.parse_count(), 1);
}
