use nft_id_contract::addr::AccountAddress;
use nft_id_contract::binder::bind_metadata;
use nft_id_contract::binder::build_registry_call;
use nft_id_contract::derive::derive_metadata_address;
use nft_id_contract::errors::IssueError;
use nft_id_contract::errors::RegistryRejection;
use nft_id_contract::issuer::create_mint;
use nft_id_contract::ledger::AccountData;
use nft_id_contract::ledger::Ledger;
use nft_id_contract::ledger::LedgerConfig;
use nft_id_contract::orchestrator::issue;
use nft_id_contract::poll::Poll;
use nft_id_contract::registry::process_create_metadata;
use nft_id_contract::registry::process_instruction;
use nft_id_contract::registry::process_update_metadata;
use nft_id_contract::registry::CreateMetadataArgs;
use nft_id_contract::registry::MetadataInstruction;
use nft_id_contract::registry::TransferArgs;
use nft_id_contract::registry::TransferUpdateAuthorityArgs;
use nft_id_contract::registry::UpdateArgs;
use nft_id_contract::registry::UpdateMetadataArgs;

fn addr(b: u8) -> AccountAddress {
    AccountAddress::from_bytes(vec![b; 32]).unwrap()
}

fn config() -> LedgerConfig {
    LedgerConfig {
        registry_program: addr(0xE0),
        token_program: addr(0xE1),
        system_program: addr(0xE2),
        rent_sysvar: addr(0xE3),
        rent_per_byte: 2,
    }
}

fn funded_ledger(payer: &AccountAddress, balance: u64) -> Ledger {
    let mut l = Ledger::new(config());
    l.open_wallet(payer, balance).unwrap();
    l
}

fn create_args(
    metadata_address: AccountAddress,
    mint: &AccountAddress,
    authority: &AccountAddress,
    payer: &AccountAddress,
    is_mutable: bool,
) -> CreateMetadataArgs {
    CreateMetadataArgs {
        metadata_address,
        mint_address: mint.dup(),
        mint_authority: authority.dup(),
        payer: payer.dup(),
        update_authority: authority.dup(),
        name: String::from("Artifact#1"),
        symbol: String::from("ART"),
        uri: String::from("https://example/1.json"),
        update_authority_is_signer: true,
        is_mutable,
        space: 208,
        mint_authority_signed: true,
        payer_signed: true,
        update_authority_signed: true,
    }
}

#[test]
fn derive_twice_yields_identical_results() {
    let program = addr(0xE0);
    let seeds: Vec<Vec<u8>> = vec![b"metadata".to_vec(), vec![7u8; 32], vec![9u8; 32]];
    let (a1, b1) = nft_id_contract::derive::derive(&seeds, &program).unwrap();
    let (a2, b2) = nft_id_contract::derive::derive(&seeds, &program).unwrap();
    assert!(a1 == a2);
    assert_eq!(b1, b2);

    let mint = addr(3);
    let (d1, e1) = derive_metadata_address(&program, &mint).unwrap();
    let (d2, e2) = derive_metadata_address(&program, &mint).unwrap();
    assert!(d1 == d2);
    assert_eq!(e1, e2);
    // the derived address is a fresh program-owned address, not an input
    assert!(!(d1 == mint));
    assert!(!(d1 == program));
    // another mint derives another address
    let (d3, _) = derive_metadata_address(&program, &addr(4)).unwrap();
    assert!(!(d1 == d3));

    // the seed tuple is exactly ["metadata", registry, mint]
    let raw_seeds: Vec<Vec<u8>> =
        vec![b"metadata".to_vec(), program.bytes().clone(), mint.bytes().clone()];
    let (raw_addr, raw_bump) = nft_id_contract::derive::derive(&raw_seeds, &program).unwrap();
    assert!(raw_addr == d1);
    assert_eq!(raw_bump, e1);

    // and the result is the host SDK's own derivation
    let pk = solana_program::pubkey::Pubkey::try_from(program.bytes().as_slice()).unwrap();
    let mk = solana_program::pubkey::Pubkey::try_from(mint.bytes().as_slice()).unwrap();
    let (expect, expect_bump) = solana_program::pubkey::Pubkey::find_program_address(
        &[b"metadata", pk.as_ref(), mk.as_ref()],
        &pk,
    );
    assert_eq!(d1.bytes().as_slice(), expect.to_bytes().as_slice());
    assert_eq!(e1, expect_bump);
}

#[test]
fn immutable_metadata_rejects_update() {
    let payer = addr(1);
    let authority = addr(2);
    let mint = addr(3);
    let mut l = funded_ledger(&payer, 10_000);
    let uri = String::from("https://example/1.json");
    issue(&mut l, &payer, &authority, &mint, &String::from("Artifact#1"), &String::from("ART"), &uri, true, true)
        .unwrap();
    let (derived, _) = derive_metadata_address(&addr(0xE0), &mint).unwrap();
    let upd = UpdateMetadataArgs {
        metadata_address: derived.dup(),
        update_authority: authority.dup(),
        update_authority_signed: true,
        new_uri: String::from("https://example/2.json"),
    };
    let r = process_update_metadata(&mut l, &upd);
    assert!(matches!(r, Err(RegistryRejection::ImmutableRecord)));
    match &l.lookup_entry(&derived).unwrap().data {
        AccountData::Metadata(m) => assert!(m.uri == uri),
        _ => panic!("expected a metadata record"),
    }
}

#[test]
fn immutable_metadata_rejects_authority_transfer() {
    let payer = addr(1);
    let authority = addr(2);
    let mint = addr(3);
    let mut l = funded_ledger(&payer, 10_000);
    issue(
        &mut l,
        &payer,
        &authority,
        &mint,
        &String::from("Artifact#1"),
        &String::from("ART"),
        &String::from("https://example/1.json"),
        true,
        true,
    )
    .unwrap();
    let (derived, _) = derive_metadata_address(&addr(0xE0), &mint).unwrap();
    let t = MetadataInstruction::Transfer(TransferArgs::V1(TransferUpdateAuthorityArgs {
        metadata_address: derived.dup(),
        update_authority: authority.dup(),
        update_authority_signed: true,
        new_update_authority: addr(9),
    }));
    let r = process_instruction(&mut l, &t);
    assert!(matches!(r, Err(RegistryRejection::ImmutableRecord)));
}

#[test]
fn mutable_metadata_accepts_update_and_transfer() {
    let payer = addr(1);
    let authority = addr(2);
    let mint = addr(3);
    let mut l = funded_ledger(&payer, 10_000);
    create_mint(&mut l, &payer, &mint, &authority, 0, true, true).unwrap();
    let (derived, _) = derive_metadata_address(&addr(0xE0), &mint).unwrap();
    process_create_metadata(&mut l, &create_args(derived.dup(), &mint, &authority, &payer, true))
        .unwrap();
    let new_uri = String::from("https://example/2.json");
    let upd = UpdateMetadataArgs {
        metadata_address: derived.dup(),
        update_authority: authority.dup(),
        update_authority_signed: true,
        new_uri: new_uri.clone(),
    };
    process_update_metadata(&mut l, &upd).unwrap();
    match &l.lookup_entry(&derived).unwrap().data {
        AccountData::Metadata(m) => assert!(m.uri == new_uri),
        _ => panic!("expected a metadata record"),
    }
    let new_authority = addr(9);
    let t = MetadataInstruction::Transfer(TransferArgs::V1(TransferUpdateAuthorityArgs {
        metadata_address: derived.dup(),
        update_authority: authority.dup(),
        update_authority_signed: true,
        new_update_authority: new_authority.dup(),
    }));
    process_instruction(&mut l, &t).unwrap();
    match &l.lookup_entry(&derived).unwrap().data {
        AccountData::Metadata(m) => assert!(m.update_authority == new_authority),
        _ => panic!("expected a metadata record"),
    }
}

#[test]
fn registry_rejects_wrong_metadata_address() {
    let payer = addr(1);
    let authority = addr(2);
    let mint = addr(3);
    let mut l = funded_ledger(&payer, 10_000);
    create_mint(&mut l, &payer, &mint, &authority, 0, true, true).unwrap();
    let r = process_create_metadata(&mut l, &create_args(addr(0x55), &mint, &authority, &payer, false));
    assert!(matches!(r, Err(RegistryRejection::BadSeeds)));
}

#[test]
fn registry_rejects_missing_payer_signature() {
    let payer = addr(1);
    let authority = addr(2);
    let mint = addr(3);
    let mut l = funded_ledger(&payer, 10_000);
    create_mint(&mut l, &payer, &mint, &authority, 0, true, true).unwrap();
    let (derived, _) = derive_metadata_address(&addr(0xE0), &mint).unwrap();
    let mut args = create_args(derived, &mint, &authority, &payer, false);
    args.payer_signed = false;
    let r = process_create_metadata(&mut l, &args);
    assert!(matches!(r, Err(RegistryRejection::MissingSigner)));
}

#[test]
fn binding_twice_reports_duplicate_metadata() {
    let payer = addr(1);
    let authority = addr(2);
    let mint = addr(3);
    let mut l = funded_ledger(&payer, 10_000);
    create_mint(&mut l, &payer, &mint, &authority, 0, true, true).unwrap();
    let name = String::from("Artifact#1");
    let symbol = String::from("ART");
    let uri = String::from("https://example/1.json");
    bind_metadata(&mut l, &mint, &authority, &payer, &name, &symbol, &uri, true, true).unwrap();
    let r = bind_metadata(&mut l, &mint, &authority, &payer, &name, &symbol, &uri, true, true);
    assert!(matches!(
        r,
        Err(IssueError::MetadataBindingFailed(RegistryRejection::DuplicateMetadata))
    ));
}

#[test]
fn binding_without_mint_is_account_mismatch() {
    let payer = addr(1);
    let authority = addr(2);
    let mut l = funded_ledger(&payer, 10_000);
    let r = bind_metadata(
        &mut l,
        &addr(3),
        &authority,
        &payer,
        &String::from("Artifact#1"),
        &String::from("ART"),
        &String::from("https://example/1.json"),
        true,
        true,
    );
    assert!(matches!(r, Err(IssueError::AccountMismatch)));
}

#[test]
fn binding_with_wrong_authority_is_unauthorized() {
    let payer = addr(1);
    let authority = addr(2);
    let mint = addr(3);
    let mut l = funded_ledger(&payer, 10_000);
    create_mint(&mut l, &payer, &mint, &authority, 0, true, true).unwrap();
    let r = bind_metadata(
        &mut l,
        &mint,
        &addr(9),
        &payer,
        &String::from("Artifact#1"),
        &String::from("ART"),
        &String::from("https://example/1.json"),
        true,
        true,
    );
    assert!(matches!(r, Err(IssueError::Unauthorized)));
}

#[test]
fn registry_rejects_overlong_field() {
    let payer = addr(1);
    let authority = addr(2);
    let mint = addr(3);
    let mut l = funded_ledger(&payer, 10_000);
    create_mint(&mut l, &payer, &mint, &authority, 0, true, true).unwrap();
    let (derived, _) = derive_metadata_address(&addr(0xE0), &mint).unwrap();
    let mut args = create_args(derived, &mint, &authority, &payer, false);
    args.name = "n".repeat(33);
    let r = process_create_metadata(&mut l, &args);
    assert!(matches!(r, Err(RegistryRejection::FieldTooLong)));
}

#[test]
fn registry_rejects_too_small_budget() {
    let payer = addr(1);
    let authority = addr(2);
    let mint = addr(3);
    let mut l = funded_ledger(&payer, 10_000);
    create_mint(&mut l, &payer, &mint, &authority, 0, true, true).unwrap();
    let (derived, _) = derive_metadata_address(&addr(0xE0), &mint).unwrap();
    let mut args = create_args(derived, &mint, &authority, &payer, false);
    // the record needs 85 fixed bytes plus its field contents
    args.space = 84;
    let r = process_create_metadata(&mut l, &args);
    assert!(matches!(r, Err(RegistryRejection::InsufficientSpace)));
}

#[test]
fn registry_rejects_create_without_mint() {
    let payer = addr(1);
    let authority = addr(2);
    let mint = addr(3);
    let mut l = funded_ledger(&payer, 10_000);
    let (derived, _) = derive_metadata_address(&addr(0xE0), &mint).unwrap();
    let r = process_create_metadata(&mut l, &create_args(derived, &mint, &authority, &payer, false));
    assert!(matches!(r, Err(RegistryRejection::AccountMismatch)));
}

#[test]
fn issue_succeeds_at_exact_budget() {
    let payer = addr(1);
    let authority = addr(2);
    let mint = addr(3);
    let mut l = funded_ledger(&payer, 10_000);
    // 85 fixed bytes + 10 + 3 + 110 = 208, exactly the pre-funded budget
    let uri = "u".repeat(110);
    issue(
        &mut l,
        &payer,
        &authority,
        &mint,
        &String::from("Artifact#1"),
        &String::from("ART"),
        &uri,
        true,
        true,
    )
    .unwrap();
    let (derived, _) = derive_metadata_address(&addr(0xE0), &mint).unwrap();
    assert!(l.lookup_entry(&derived).is_some());
}

#[test]
fn registry_call_wire_format() {
    let args = CreateMetadataArgs {
        metadata_address: addr(10),
        mint_address: addr(11),
        mint_authority: addr(12),
        payer: addr(13),
        update_authority: addr(14),
        name: String::from("AB"),
        symbol: String::from("S"),
        uri: String::from("u"),
        update_authority_is_signer: true,
        is_mutable: false,
        space: 208,
        mint_authority_signed: true,
        payer_signed: true,
        update_authority_signed: true,
    };
    let system_program = addr(0xE2);
    let rent = addr(0xE3);
    let (handles, data) = build_registry_call(&args, 0, &system_program, &rent);

    let mut expected: Vec<u8> = vec![33];
    expected.extend_from_slice(&2u32.to_le_bytes());
    expected.extend_from_slice(b"AB");
    expected.extend_from_slice(&1u32.to_le_bytes());
    expected.extend_from_slice(b"S");
    expected.extend_from_slice(&1u32.to_le_bytes());
    expected.extend_from_slice(b"u");
    expected.extend_from_slice(&0u16.to_le_bytes());
    expected.extend_from_slice(&[0, 0, 0]); // creators, collection, uses: absent
    expected.push(0); // is_mutable = false
    expected.push(0); // collection details: absent
    assert_eq!(data, expected);

    assert_eq!(handles.len(), 7);
    assert!(handles[0].address == args.metadata_address && !handles[0].is_signer
        && handles[0].is_writable);
    assert!(handles[1].address == args.mint_address && !handles[1].is_signer
        && !handles[1].is_writable);
    assert!(handles[2].address == args.mint_authority && handles[2].is_signer
        && !handles[2].is_writable);
    assert!(handles[3].address == args.payer && handles[3].is_signer && handles[3].is_writable);
    assert!(handles[4].address == args.update_authority && handles[4].is_signer
        && !handles[4].is_writable);
    assert!(handles[5].address == system_program && !handles[5].is_signer);
    assert!(handles[6].address == rent && !handles[6].is_signer);

    // the mutability flag lands in the serialized call
    let mut mutable_args = args;
    mutable_args.is_mutable = true;
    let (_, data2) = build_registry_call(&mutable_args, 0, &system_program, &rent);
    assert_eq!(data2[data2.len() - 2], 1);
    assert!(data != data2);
}

#[test]
fn poll_record_bounds() {
    let p = Poll::new(7, String::from("favorite artifact"), 10, 20, 3).unwrap();
    assert_eq!(p.id, 7);
    assert_eq!(p.start, 10);
    assert_eq!(p.end, 20);
    assert_eq!(p.candidates, 3);
    let r = Poll::new(8, "d".repeat(281), 0, 1, 2);
    assert!(matches!(r, Err(IssueError::FieldTooLong)));
    assert_eq!(Poll::capacity(), 324);
}
