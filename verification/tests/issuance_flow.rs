use nft_id_contract::addr::AccountAddress;
use nft_id_contract::derive::derive_metadata_address;
use nft_id_contract::errors::IssueError;
use nft_id_contract::errors::RegistryRejection;
use nft_id_contract::issuer::create_mint;
use nft_id_contract::ledger::AccountData;
use nft_id_contract::ledger::Ledger;
use nft_id_contract::ledger::LedgerConfig;
use nft_id_contract::orchestrator::initialize;
use nft_id_contract::orchestrator::issue;
use nft_id_contract::orchestrator::Initialize;

fn addr(b: u8) -> AccountAddress {
    AccountAddress::from_bytes(vec![b; 32]).unwrap()
}

fn config() -> LedgerConfig {
    LedgerConfig {
        registry_program: addr(0xE0),
        token_program: addr(0xE1),
        system_program: addr(0xE2),
        rent_sysvar: addr(0xE3),
        rent_per_byte: 2,
    }
}

// With rent_per_byte = 2: a mint record (33 bytes) costs 66 and the
// metadata budget (208 bytes) costs 416; one issuance costs 482.
fn funded_ledger(payer: &AccountAddress, balance: u64) -> Ledger {
    let mut l = Ledger::new(config());
    l.open_wallet(payer, balance).unwrap();
    l
}

fn metadata_count(l: &Ledger) -> usize {
    l.accounts.iter().filter(|e| matches!(e.data, AccountData::Metadata(_))).count()
}

#[test]
fn issue_end_to_end() {
    let payer = addr(1);
    let authority = addr(2);
    let mint = addr(3);
    let mut l = funded_ledger(&payer, 1_000);
    let name = String::from("Artifact#1");
    let symbol = String::from("ART");
    let uri = String::from("https://example/1.json");
    let got = issue(&mut l, &payer, &authority, &mint, &name, &symbol, &uri, true, true).unwrap();
    assert!(got == mint);

    let (derived, _bump) = derive_metadata_address(&addr(0xE0), &mint).unwrap();
    let e = l.lookup_entry(&derived).unwrap();
    assert!(e.owner == addr(0xE0));
    match &e.data {
        AccountData::Metadata(m) => {
            assert!(m.name == name);
            assert!(m.symbol == symbol);
            assert!(m.uri == uri);
            assert!(!m.is_mutable);
            assert!(m.mint == mint);
            assert!(m.update_authority == authority);
        }
        _ => panic!("expected a metadata record at the derived address"),
    }
    let me = l.lookup_entry(&mint).unwrap();
    assert!(me.owner == addr(0xE1));
    match &me.data {
        AccountData::Mint(mr) => {
            assert_eq!(mr.decimals, 0);
            assert!(mr.mint_authority == authority);
        }
        _ => panic!("expected a mint record"),
    }
    assert_eq!(l.balance_of(&payer), Some(1_000 - 482));
    assert_eq!(l.accounts.len(), 3);
}

#[test]
fn initialize_entry_point_succeeds() {
    let payer = addr(1);
    let authority = addr(2);
    let mint = addr(3);
    let mut l = funded_ledger(&payer, 482);
    let accounts = Initialize {
        payer: payer.dup(),
        mint: mint.dup(),
        authority: authority.dup(),
        payer_signed: true,
        authority_signed: true,
    };
    let name = String::from("Artifact#1");
    let symbol = String::from("ART");
    let uri = String::from("https://example/1.json");
    let got = initialize(&mut l, &accounts, &name, &symbol, &uri).unwrap();
    assert!(got == mint);
    assert_eq!(l.balance_of(&payer), Some(0));
    assert_eq!(metadata_count(&l), 1);
}

#[test]
fn overlong_uri_fails_and_rolls_back() {
    let payer = addr(1);
    let authority = addr(2);
    let mint = addr(3);
    let mut l = funded_ledger(&payer, 1_000);
    let name = String::from("Artifact#1");
    let symbol = String::from("ART");
    let uri = "u".repeat(201);
    let r = issue(&mut l, &payer, &authority, &mint, &name, &symbol, &uri, true, true);
    assert!(matches!(r, Err(IssueError::FieldTooLong)));
    assert!(l.lookup_entry(&mint).is_none());
    assert_eq!(metadata_count(&l), 0);
    assert_eq!(l.balance_of(&payer), Some(1_000));
    assert_eq!(l.accounts.len(), 1);
}

#[test]
fn overlong_name_and_symbol_fail() {
    let payer = addr(1);
    let authority = addr(2);
    let mut l = funded_ledger(&payer, 10_000);
    let r = issue(
        &mut l,
        &payer,
        &authority,
        &addr(3),
        &"n".repeat(33),
        &String::from("ART"),
        &String::from("https://example/1.json"),
        true,
        true,
    );
    assert!(matches!(r, Err(IssueError::FieldTooLong)));
    let r = issue(
        &mut l,
        &payer,
        &authority,
        &addr(3),
        &String::from("Artifact#1"),
        &"s".repeat(11),
        &String::from("https://example/1.json"),
        true,
        true,
    );
    assert!(matches!(r, Err(IssueError::FieldTooLong)));
    assert_eq!(l.accounts.len(), 1);
}

#[test]
fn payload_over_budget_fails_with_insufficient_space() {
    let payer = addr(1);
    let authority = addr(2);
    let mint = addr(3);
    let mut l = funded_ledger(&payer, 10_000);
    // Each field is within its own bound, but the record (85 fixed bytes
    // plus the field contents) exceeds the 208-byte budget.
    let r = issue(
        &mut l,
        &payer,
        &authority,
        &mint,
        &String::from("A"),
        &String::from("A"),
        &"u".repeat(200),
        true,
        true,
    );
    assert!(matches!(r, Err(IssueError::InsufficientSpace)));
    assert_eq!(l.accounts.len(), 1);
}

#[test]
fn second_issue_of_same_mint_fails() {
    let payer = addr(1);
    let authority = addr(2);
    let mint = addr(3);
    let mut l = funded_ledger(&payer, 10_000);
    let name = String::from("Artifact#1");
    let symbol = String::from("ART");
    let uri = String::from("https://example/1.json");
    issue(&mut l, &payer, &authority, &mint, &name, &symbol, &uri, true, true).unwrap();
    let len_after_first = l.accounts.len();
    let r = issue(&mut l, &payer, &authority, &mint, &name, &symbol, &uri, true, true);
    assert!(matches!(r, Err(IssueError::AccountAlreadyInitialized)));
    assert_eq!(l.accounts.len(), len_after_first);
    assert_eq!(metadata_count(&l), 1);
    // the one metadata record still describes an existing mint
    for e in l.accounts.iter() {
        if let AccountData::Metadata(m) = &e.data {
            assert!(l.lookup_entry(&m.mint).is_some());
        }
    }
}

#[test]
fn unsigned_issue_is_unauthorized() {
    let payer = addr(1);
    let authority = addr(2);
    let mut l = funded_ledger(&payer, 10_000);
    let name = String::from("Artifact#1");
    let symbol = String::from("ART");
    let uri = String::from("https://example/1.json");
    let r = issue(&mut l, &payer, &authority, &addr(3), &name, &symbol, &uri, false, true);
    assert!(matches!(r, Err(IssueError::Unauthorized)));
    let r = issue(&mut l, &payer, &authority, &addr(3), &name, &symbol, &uri, true, false);
    assert!(matches!(r, Err(IssueError::Unauthorized)));
    assert_eq!(l.accounts.len(), 1);
}

#[test]
fn missing_payer_wallet_is_account_mismatch() {
    let payer = addr(1);
    let authority = addr(2);
    let mut l = Ledger::new(config());
    let r = issue(
        &mut l,
        &payer,
        &authority,
        &addr(3),
        &String::from("Artifact#1"),
        &String::from("ART"),
        &String::from("https://example/1.json"),
        true,
        true,
    );
    assert!(matches!(r, Err(IssueError::AccountMismatch)));
    assert_eq!(l.accounts.len(), 0);
}

#[test]
fn underfunded_mint_step_fails() {
    let payer = addr(1);
    let authority = addr(2);
    let mut l = funded_ledger(&payer, 10);
    let r = issue(
        &mut l,
        &payer,
        &authority,
        &addr(3),
        &String::from("Artifact#1"),
        &String::from("ART"),
        &String::from("https://example/1.json"),
        true,
        true,
    );
    assert!(matches!(r, Err(IssueError::InsufficientFunds)));
    assert_eq!(l.balance_of(&payer), Some(10));
}

#[test]
fn underfunded_binding_rolls_back_the_mint() {
    let payer = addr(1);
    let authority = addr(2);
    let mint = addr(3);
    // enough for the mint record (66) but not the metadata budget (416)
    let mut l = funded_ledger(&payer, 100);
    let r = issue(
        &mut l,
        &payer,
        &authority,
        &mint,
        &String::from("Artifact#1"),
        &String::from("ART"),
        &String::from("https://example/1.json"),
        true,
        true,
    );
    assert!(matches!(
        r,
        Err(IssueError::MetadataBindingFailed(RegistryRejection::InsufficientFunds))
    ));
    assert!(l.lookup_entry(&mint).is_none());
    assert_eq!(l.balance_of(&payer), Some(100));
    assert_eq!(l.accounts.len(), 1);
}

#[test]
fn create_mint_rejects_nonzero_decimals() {
    let payer = addr(1);
    let authority = addr(2);
    let mut l = funded_ledger(&payer, 10_000);
    let r = create_mint(&mut l, &payer, &addr(3), &authority, 1, true, true);
    assert!(matches!(r, Err(IssueError::InvalidDecimals)));
}

#[test]
fn open_wallet_twice_fails() {
    let payer = addr(1);
    let mut l = Ledger::new(config());
    l.open_wallet(&payer, 5).unwrap();
    let r = l.open_wallet(&payer, 5);
    assert!(matches!(r, Err(IssueError::AccountAlreadyInitialized)));
}

#[test]
fn address_needs_exactly_32_bytes() {
    assert!(AccountAddress::from_bytes(vec![1u8; 31]).is_none());
    assert!(AccountAddress::from_bytes(vec![1u8; 33]).is_none());
    assert!(AccountAddress::from_bytes(vec![1u8; 32]).is_some());
}
