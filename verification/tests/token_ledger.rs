use nft_registry::erc721::{Call, Error, Event, Module};
use nft_registry::hash::H256;

const ALICE: u64 = 1;
const BOB: u64 = 2;
const CHARLIE: u64 = 3;

fn seed() -> H256 {
    H256([7u8; 32])
}

fn token(n: u8) -> H256 {
    H256([n; 32])
}

fn create_token_test(ledger: &mut Module, sender: u64) {
    let result = ledger.create_token(sender, seed());
    assert_eq!(result.map(|_| ()), Ok(()));
    assert!(matches!(result, Ok(Event::Transfer(None, _, _))));
}

fn mint_token_test(ledger: &mut Module, sender: u64, token_id: H256, result: Result<(), Error>) {
    let outcome = ledger.mint(sender, token_id);
    assert_eq!(outcome.map(|_| ()), result);
    if result.is_ok() {
        assert!(matches!(outcome, Ok(Event::Transfer(None, _, _))));
    }
}

fn transfer_token_test(
    ledger: &mut Module,
    token_id: H256,
    sender: u64,
    from: u64,
    to: u64,
    result: Result<(), Error>,
) {
    let outcome = ledger.transfer_from(sender, from, to, token_id);
    assert_eq!(outcome.map(|_| ()), result);
    if result.is_ok() {
        assert!(matches!(outcome, Ok(Event::Transfer(_, _, _))));
        assert_eq!(ledger.owner_of(&token_id).unwrap(), to);
    }
}

fn burn_token_test(ledger: &mut Module, sender: u64, token_id: H256, result: Result<(), Error>) {
    let outcome = ledger.burn(sender, token_id);
    assert_eq!(outcome.map(|_| ()), result);
    if result.is_ok() {
        assert!(matches!(outcome, Ok(Event::Transfer(_, None, _))));
        assert_eq!(ledger.owner_of(&token_id), None);
    }
}

fn approve_token_test(
    ledger: &mut Module,
    sender: u64,
    to_account: u64,
    token_id: H256,
    result: Result<(), Error>,
) {
    let outcome = ledger.approve(sender, to_account, token_id);
    assert_eq!(outcome.map(|_| ()), result);
    if result.is_ok() {
        assert!(matches!(outcome, Ok(Event::Approval(_, _, _))));
        assert_eq!(ledger.get_approved(&token_id).unwrap(), to_account);
    }
}

fn approve_for_all_test(
    ledger: &mut Module,
    sender: u64,
    to_account: u64,
    approved: bool,
    result: Result<(), Error>,
) {
    let outcome = ledger.set_approval_for_all(sender, to_account, approved);
    assert_eq!(outcome.map(|_| ()), result);
    if result.is_ok() {
        assert!(matches!(outcome, Ok(Event::ApprovalForAll(_, _, _))));
        assert_eq!(ledger.is_approved_for_all(&sender, &to_account), approved);
    }
}

/// Checks by brute force what the ledger promises of its enumerations.
fn assert_consistent(ledger: &Module, accounts: &[u64]) {
    let total = ledger.total_supply();
    let mut counted = 0;
    for &account in accounts {
        let owned = ledger.get_tokens_owned_account(account);
        assert_eq!(owned.len() as u64, ledger.balance_of(&account));
        for (i, t) in owned.iter().enumerate() {
            assert_eq!(ledger.owner_of(t), Some(account));
            assert_eq!(ledger.token_of_owner_by_index(&account, i as u64), Some(*t));
            for (j, u) in owned.iter().enumerate() {
                assert!(i == j || t != u);
            }
        }
        assert_eq!(ledger.token_of_owner_by_index(&account, owned.len() as u64), None);
        counted += owned.len() as u64;
    }
    assert_eq!(counted, total);
    for i in 0..total {
        let t = ledger.token_by_index(i).unwrap();
        assert!(ledger._exists(&t));
        for j in 0..total {
            assert!(i == j || ledger.token_by_index(j).unwrap() != t);
        }
    }
    assert_eq!(ledger.token_by_index(total), None);
}

#[test]
fn create_token() {
    let mut ledger = Module::new();
    let account_id = ALICE;
    create_token_test(&mut ledger, account_id);
}

#[test]
fn transfer_token() {
    let mut ledger = Module::new();
    let account_id = ALICE;
    let to_account = BOB;

    let (token_id, _) = ledger._create_token(&account_id, &seed()).unwrap();
    transfer_token_test(&mut ledger, token_id, account_id, account_id, to_account, Ok(()));
}

#[test]
fn burn_token() {
    let mut ledger = Module::new();
    let account_id = ALICE;

    let (token_id, _) = ledger._create_token(&account_id, &seed()).unwrap();
    burn_token_test(&mut ledger, account_id, token_id, Ok(()));
}

#[test]
fn approve_token() {
    let mut ledger = Module::new();
    let account_id = ALICE;
    let to_account = BOB;

    let (token_id, _) = ledger._create_token(&account_id, &seed()).unwrap();
    approve_token_test(&mut ledger, account_id, to_account, token_id, Ok(()));
}

#[test]
fn approve_for_all() {
    let mut ledger = Module::new();
    let account_id = ALICE;
    let to_account = BOB;
    approve_for_all_test(&mut ledger, account_id, to_account, true, Ok(()));
    approve_for_all_test(&mut ledger, account_id, to_account, false, Ok(()));
}

#[test]
fn approve_then_transfer() {
    let mut ledger = Module::new();
    let account_id = ALICE;
    let approver_account = BOB;
    let to_account = CHARLIE;

    let (token_id, _) = ledger._create_token(&account_id, &seed()).unwrap();
    approve_token_test(&mut ledger, account_id, approver_account, token_id, Ok(()));
    transfer_token_test(&mut ledger, token_id, approver_account, account_id, to_account, Ok(()));
}

#[test]
fn approve_for_all_then_transfer() {
    let mut ledger = Module::new();
    let account_id = ALICE;
    let approver_account = BOB;
    let to_account = CHARLIE;

    let (token_id, _) = ledger._create_token(&account_id, &seed()).unwrap();
    approve_for_all_test(&mut ledger, account_id, approver_account, true, Ok(()));
    transfer_token_test(&mut ledger, token_id, approver_account, account_id, to_account, Ok(()));
}

#[test]
fn token_already_exists() {
    let mut ledger = Module::new();
    let account_id = ALICE;

    let (token_id, _) = ledger._create_token(&account_id, &seed()).unwrap();
    mint_token_test(&mut ledger, account_id, token_id, Err(Error::TokenAlreadyExists));
}

#[test]
fn token_not_existed() {
    let mut ledger = Module::new();
    let account_id = ALICE;
    let to_account = CHARLIE;

    let token_id: H256 = H256([0 as u8; 32]);
    transfer_token_test(
        &mut ledger,
        token_id,
        account_id,
        account_id,
        to_account,
        Err(Error::TokenNotExisted),
    );
}

#[test]
fn not_token_owner_trasfer() {
    let mut ledger = Module::new();
    let account_id = ALICE;
    let to_account = CHARLIE;

    let (token_id, _) = ledger._create_token(&account_id, &seed()).unwrap();
    transfer_token_test(
        &mut ledger,
        token_id,
        account_id,
        to_account,
        to_account,
        Err(Error::NotTokenOwner),
    );
}

#[test]
fn not_token_owner_or_approver_trasfer() {
    let mut ledger = Module::new();
    let account_id = ALICE;
    let to_account = CHARLIE;

    let (token_id, _) = ledger._create_token(&account_id, &seed()).unwrap();
    transfer_token_test(
        &mut ledger,
        token_id,
        to_account,
        account_id,
        to_account,
        Err(Error::NotOwnerOrApprover),
    );
}

#[test]
fn approve_token_self() {
    let mut ledger = Module::new();
    let account_id = ALICE;

    let (token_id, _) = ledger._create_token(&account_id, &seed()).unwrap();
    approve_token_test(
        &mut ledger,
        account_id,
        account_id,
        token_id,
        Err(Error::OwnerAlwaysCanApprove),
    );
}

#[test]
fn new_ledger_is_empty() {
    let ledger = Module::new();
    assert_eq!(ledger.total_supply(), 0);
    assert_eq!(ledger.balance_of(&ALICE), 0);
    assert_eq!(ledger.owner_of(&token(1)), None);
    assert_eq!(ledger.get_approved(&token(1)), None);
    assert!(!ledger.is_approved_for_all(&ALICE, &BOB));
    assert!(!ledger._exists(&token(1)));
    assert_eq!(ledger.token_by_index(0), None);
    assert_eq!(ledger.get_tokens_owned_account(ALICE), Vec::<H256>::new());
}

#[test]
fn mint_appends_to_both_enumerations() {
    let mut ledger = Module::new();
    assert_eq!(
        ledger._mint(&ALICE, &token(1)),
        Ok(Event::Transfer(None, Some(ALICE), token(1)))
    );
    assert_eq!(
        ledger._mint(&BOB, &token(2)),
        Ok(Event::Transfer(None, Some(BOB), token(2)))
    );
    assert_eq!(
        ledger._mint(&ALICE, &token(3)),
        Ok(Event::Transfer(None, Some(ALICE), token(3)))
    );
    assert_eq!(ledger.total_supply(), 3);
    assert_eq!(ledger.balance_of(&ALICE), 2);
    assert_eq!(ledger.balance_of(&BOB), 1);
    assert_eq!(ledger.owner_of(&token(3)), Some(ALICE));
    assert_eq!(ledger.token_by_index(0), Some(token(1)));
    assert_eq!(ledger.token_by_index(1), Some(token(2)));
    assert_eq!(ledger.token_by_index(2), Some(token(3)));
    assert_eq!(ledger.token_of_owner_by_index(&ALICE, 0), Some(token(1)));
    assert_eq!(ledger.token_of_owner_by_index(&ALICE, 1), Some(token(3)));
    assert_eq!(ledger.token_of_owner_by_index(&BOB, 0), Some(token(2)));
    assert_eq!(ledger.get_tokens_owned_account(ALICE), vec![token(1), token(3)]);
    assert_consistent(&ledger, &[ALICE, BOB, CHARLIE]);
}

#[test]
fn burning_the_middle_token_moves_the_last_into_its_place() {
    let mut ledger = Module::new();
    for n in 1..=3 {
        ledger._mint(&ALICE, &token(n)).unwrap();
    }
    assert_eq!(
        ledger._burn(&token(2)),
        Ok(Event::Transfer(Some(ALICE), None, token(2)))
    );
    assert_eq!(ledger.balance_of(&ALICE), 2);
    assert_eq!(ledger.total_supply(), 2);
    assert_eq!(ledger.get_tokens_owned_account(ALICE), vec![token(1), token(3)]);
    assert_eq!(ledger.token_of_owner_by_index(&ALICE, 0), Some(token(1)));
    assert_eq!(ledger.token_of_owner_by_index(&ALICE, 1), Some(token(3)));
    assert_eq!(ledger.token_of_owner_by_index(&ALICE, 2), None);
    assert_eq!(ledger.token_by_index(0), Some(token(1)));
    assert_eq!(ledger.token_by_index(1), Some(token(3)));
    assert_eq!(ledger.token_by_index(2), None);
    assert_eq!(ledger.owner_of(&token(2)), None);
    assert_consistent(&ledger, &[ALICE]);
}

#[test]
fn burning_the_first_token_moves_the_last_into_its_place() {
    let mut ledger = Module::new();
    for n in 1..=3 {
        ledger._mint(&ALICE, &token(n)).unwrap();
    }
    ledger._burn(&token(1)).unwrap();
    assert_eq!(ledger.get_tokens_owned_account(ALICE), vec![token(3), token(2)]);
    assert_eq!(ledger.token_by_index(0), Some(token(3)));
    assert_eq!(ledger.token_by_index(1), Some(token(2)));
    assert_consistent(&ledger, &[ALICE]);
}

#[test]
fn burning_the_last_token_moves_nothing() {
    let mut ledger = Module::new();
    for n in 1..=3 {
        ledger._mint(&ALICE, &token(n)).unwrap();
    }
    ledger._burn(&token(3)).unwrap();
    assert_eq!(ledger.get_tokens_owned_account(ALICE), vec![token(1), token(2)]);
    assert_eq!(ledger.token_by_index(0), Some(token(1)));
    assert_eq!(ledger.token_by_index(1), Some(token(2)));
    assert_consistent(&ledger, &[ALICE]);
}

#[test]
fn burning_the_only_token_empties_the_ledger() {
    let mut ledger = Module::new();
    ledger._mint(&ALICE, &token(1)).unwrap();
    ledger._burn(&token(1)).unwrap();
    assert_eq!(ledger.total_supply(), 0);
    assert_eq!(ledger.balance_of(&ALICE), 0);
    assert_eq!(ledger.get_tokens_owned_account(ALICE), Vec::<H256>::new());
    assert_eq!(ledger._mint(&BOB, &token(1)).map(|_| ()), Ok(()));
    assert_eq!(ledger.owner_of(&token(1)), Some(BOB));
    assert_consistent(&ledger, &[ALICE, BOB]);
}

#[test]
fn burn_of_a_missing_token_fails() {
    let mut ledger = Module::new();
    assert_eq!(ledger._burn(&token(1)), Err(Error::TokenNotExisted));
    assert_eq!(ledger.burn(ALICE, token(1)), Err(Error::TokenNotExisted));
}

#[test]
fn only_the_owner_burns_through_the_call() {
    let mut ledger = Module::new();
    ledger._mint(&ALICE, &token(1)).unwrap();
    ledger.approve(ALICE, BOB, token(1)).unwrap();
    assert_eq!(ledger.burn(BOB, token(1)), Err(Error::NotTokenOwner));
    assert_eq!(ledger.owner_of(&token(1)), Some(ALICE));
    assert_eq!(ledger.get_approved(&token(1)), Some(BOB));
}

#[test]
fn transfer_keeps_the_global_enumeration_and_moves_the_owner_entries() {
    let mut ledger = Module::new();
    for n in 1..=3 {
        ledger._mint(&ALICE, &token(n)).unwrap();
    }
    ledger._mint(&BOB, &token(4)).unwrap();
    assert_eq!(
        ledger._transfer_from(&ALICE, &ALICE, &BOB, &token(1)),
        Ok(Event::Transfer(Some(ALICE), Some(BOB), token(1)))
    );
    assert_eq!(ledger.get_tokens_owned_account(ALICE), vec![token(3), token(2)]);
    assert_eq!(ledger.get_tokens_owned_account(BOB), vec![token(4), token(1)]);
    assert_eq!(ledger.balance_of(&ALICE), 2);
    assert_eq!(ledger.balance_of(&BOB), 2);
    assert_eq!(ledger.total_supply(), 4);
    for n in 1..=4u8 {
        assert_eq!(ledger.token_by_index(n as u64 - 1), Some(token(n)));
    }
    assert_consistent(&ledger, &[ALICE, BOB]);
}

#[test]
fn transfer_to_oneself_moves_the_token_to_the_end() {
    let mut ledger = Module::new();
    for n in 1..=3 {
        ledger._mint(&ALICE, &token(n)).unwrap();
    }
    ledger._transfer_from(&ALICE, &ALICE, &ALICE, &token(1)).unwrap();
    assert_eq!(ledger.balance_of(&ALICE), 3);
    assert_eq!(ledger.get_tokens_owned_account(ALICE), vec![token(3), token(2), token(1)]);
    assert_consistent(&ledger, &[ALICE]);
}

#[test]
fn transfer_clears_the_delegate() {
    let mut ledger = Module::new();
    ledger._mint(&ALICE, &token(1)).unwrap();
    assert_eq!(
        ledger._approve(&ALICE, &BOB, &token(1)),
        Ok(Event::Approval(ALICE, BOB, token(1)))
    );
    ledger._transfer_from(&BOB, &ALICE, &CHARLIE, &token(1)).unwrap();
    assert_eq!(ledger.get_approved(&token(1)), None);
    assert_eq!(
        ledger._transfer_from(&BOB, &CHARLIE, &BOB, &token(1)),
        Err(Error::NotOwnerOrApprover)
    );
}

#[test]
fn burn_clears_the_delegate() {
    let mut ledger = Module::new();
    ledger._mint(&ALICE, &token(1)).unwrap();
    ledger._approve(&ALICE, &BOB, &token(1)).unwrap();
    ledger._burn(&token(1)).unwrap();
    ledger._mint(&ALICE, &token(1)).unwrap();
    assert_eq!(ledger.get_approved(&token(1)), None);
}

#[test]
fn operator_approves_and_is_switched_off() {
    let mut ledger = Module::new();
    ledger._mint(&ALICE, &token(1)).unwrap();
    assert_eq!(
        ledger._set_approval_for_all(&ALICE, &BOB, true),
        Ok(Event::ApprovalForAll(ALICE, BOB, true))
    );
    assert!(ledger._is_approved_or_owner(&BOB, &token(1)));
    assert_eq!(
        ledger._approve(&BOB, &CHARLIE, &token(1)),
        Ok(Event::Approval(ALICE, CHARLIE, token(1)))
    );
    assert!(ledger._is_approved_or_owner(&CHARLIE, &token(1)));
    ledger._set_approval_for_all(&ALICE, &BOB, false).unwrap();
    assert!(!ledger._is_approved_or_owner(&BOB, &token(1)));
    assert_eq!(
        ledger._approve(&BOB, &BOB, &token(1)),
        Err(Error::NotOwnerOrApprover)
    );
}

#[test]
fn approve_of_a_missing_token_fails() {
    let mut ledger = Module::new();
    assert_eq!(ledger._approve(&ALICE, &BOB, &token(1)), Err(Error::TokenNotExisted));
}

#[test]
fn delegate_cannot_approve() {
    let mut ledger = Module::new();
    ledger._mint(&ALICE, &token(1)).unwrap();
    ledger._approve(&ALICE, &BOB, &token(1)).unwrap();
    assert_eq!(
        ledger._approve(&BOB, &CHARLIE, &token(1)),
        Err(Error::NotOwnerOrApprover)
    );
    assert_eq!(ledger.get_approved(&token(1)), Some(BOB));
}

#[test]
fn operator_of_oneself_is_refused() {
    let mut ledger = Module::new();
    assert_eq!(
        ledger._set_approval_for_all(&ALICE, &ALICE, true),
        Err(Error::OwnerAlwaysCanApprove)
    );
    assert!(!ledger.is_approved_for_all(&ALICE, &ALICE));
}

#[test]
fn ensure_functions_name_their_errors() {
    let mut ledger = Module::new();
    assert_eq!(ledger.ensure_get_token_owner(&token(1)), Err(Error::TokenOwnerNotSet));
    assert_eq!(ledger.ensure_token_exists(&token(1)), Err(Error::TokenNotExisted));
    assert_eq!(ledger.ensure_token_not_existed(&token(1)), Ok(()));
    ledger._mint(&ALICE, &token(1)).unwrap();
    assert_eq!(ledger.ensure_get_token_owner(&token(1)), Ok(ALICE));
    assert_eq!(ledger.ensure_token_exists(&token(1)), Ok(()));
    assert_eq!(ledger.ensure_token_not_existed(&token(1)), Err(Error::TokenAlreadyExists));
    assert_eq!(ledger.ensure_approver_or_owner(&ALICE, &token(1)), Ok(()));
    assert_eq!(ledger.ensure_approver_or_owner(&BOB, &token(1)), Err(Error::NotOwnerOrApprover));
    assert_eq!(ledger.ensure_owner_or_approved_for_all(&ALICE, &ALICE), Ok(()));
    assert_eq!(
        ledger.ensure_owner_or_approved_for_all(&BOB, &ALICE),
        Err(Error::NotOwnerOrApprover)
    );
    ledger._set_approval_for_all(&ALICE, &BOB, true).unwrap();
    assert_eq!(ledger.ensure_owner_or_approved_for_all(&BOB, &ALICE), Ok(()));
    assert_eq!(ledger.ensure_owner_or_approved_for_all(&ALICE, &BOB), Err(Error::NotOwnerOrApprover));
}

#[test]
fn checks_agree_with_the_calls() {
    let mut ledger = Module::new();
    assert_eq!(ledger.check_mint(&ALICE, &token(1)), None);
    assert_eq!(ledger.check_burn(&token(1)), Some(Error::TokenNotExisted));
    ledger._mint(&ALICE, &token(1)).unwrap();
    assert_eq!(ledger.check_mint(&ALICE, &token(1)), Some(Error::TokenAlreadyExists));
    assert_eq!(ledger.check_burn(&token(1)), None);
    assert_eq!(ledger.check_transfer_from(&ALICE, &ALICE, &BOB, &token(1)), None);
    assert_eq!(
        ledger.check_transfer_from(&ALICE, &BOB, &BOB, &token(1)),
        Some(Error::NotTokenOwner)
    );
    assert_eq!(
        ledger.check_transfer_from(&BOB, &ALICE, &BOB, &token(1)),
        Some(Error::NotOwnerOrApprover)
    );
    assert_eq!(
        ledger.check_transfer_from(&ALICE, &ALICE, &BOB, &token(2)),
        Some(Error::TokenNotExisted)
    );
    assert_eq!(ledger.check_approve(&ALICE, &BOB, &token(1)), None);
    assert_eq!(
        ledger.check_approve(&ALICE, &ALICE, &token(1)),
        Some(Error::OwnerAlwaysCanApprove)
    );
    assert_eq!(ledger.owner_of(&token(1)), Some(ALICE));
}

#[test]
fn rejected_call_repeats_and_changes_nothing() {
    let mut ledger = Module::new();
    ledger._mint(&ALICE, &token(1)).unwrap();
    ledger._mint(&ALICE, &token(2)).unwrap();
    ledger._approve(&ALICE, &BOB, &token(1)).unwrap();
    let calls = [
        (ALICE, Call::Mint { token_id: token(1) }, Error::TokenAlreadyExists),
        (BOB, Call::Burn { token_id: token(1) }, Error::NotTokenOwner),
        (CHARLIE, Call::TransferFrom { from: ALICE, to: CHARLIE, token_id: token(1) }, Error::NotOwnerOrApprover),
        (ALICE, Call::TransferFrom { from: BOB, to: CHARLIE, token_id: token(1) }, Error::NotTokenOwner),
        (ALICE, Call::Approve { to: ALICE, token_id: token(1) }, Error::OwnerAlwaysCanApprove),
        (ALICE, Call::SetApprovalForAll { to: ALICE, approved: true }, Error::OwnerAlwaysCanApprove),
        (ALICE, Call::Burn { token_id: token(9) }, Error::TokenNotExisted),
    ];
    for (origin, call, error) in calls {
        for _ in 0..2 {
            assert_eq!(ledger.dispatch(origin, call), Err(error));
            assert_eq!(ledger.total_supply(), 2);
            assert_eq!(ledger.get_tokens_owned_account(ALICE), vec![token(1), token(2)]);
            assert_eq!(ledger.balance_of(&BOB), 0);
            assert_eq!(ledger.balance_of(&CHARLIE), 0);
            assert_eq!(ledger.get_approved(&token(1)), Some(BOB));
            assert_eq!(ledger.get_approved(&token(2)), None);
            assert!(!ledger.is_approved_for_all(&ALICE, &ALICE));
        }
    }
}

#[test]
fn dispatch_makes_the_call() {
    let mut ledger = Module::new();
    assert_eq!(
        ledger.dispatch(ALICE, Call::Mint { token_id: token(1) }),
        Ok(Event::Transfer(None, Some(ALICE), token(1)))
    );
    assert_eq!(
        ledger.dispatch(ALICE, Call::Approve { to: BOB, token_id: token(1) }),
        Ok(Event::Approval(ALICE, BOB, token(1)))
    );
    assert_eq!(
        ledger.dispatch(BOB, Call::TransferFrom { from: ALICE, to: CHARLIE, token_id: token(1) }),
        Ok(Event::Transfer(Some(ALICE), Some(CHARLIE), token(1)))
    );
    assert_eq!(
        ledger.dispatch(CHARLIE, Call::SetApprovalForAll { to: ALICE, approved: true }),
        Ok(Event::ApprovalForAll(CHARLIE, ALICE, true))
    );
    assert_eq!(
        ledger.dispatch(CHARLIE, Call::Burn { token_id: token(1) }),
        Ok(Event::Transfer(Some(CHARLIE), None, token(1)))
    );
    assert!(matches!(
        ledger.dispatch(BOB, Call::CreateToken { seed: seed() }),
        Ok(Event::Transfer(None, Some(BOB), _))
    ));
    assert_eq!(ledger.total_supply(), 1);
    assert_eq!(ledger.balance_of(&BOB), 1);
    assert_consistent(&ledger, &[ALICE, BOB, CHARLIE]);
}

#[test]
fn ledger_stays_consistent_through_a_sequence_of_calls() {
    let mut ledger = Module::new();
    let accounts = [ALICE, BOB, CHARLIE];
    let mut step: u32 = 12345;
    for _ in 0..400 {
        step = step.wrapping_mul(1103515245).wrapping_add(12345);
        let origin = accounts[(step >> 8) as usize % 3];
        let other = accounts[(step >> 12) as usize % 3];
        let third = accounts[(step >> 20) as usize % 3];
        let id = token(((step >> 16) % 12) as u8);
        let call = match (step >> 4) % 5 {
            0 | 1 => Call::Mint { token_id: id },
            2 => Call::Burn { token_id: id },
            3 => Call::TransferFrom { from: other, to: third, token_id: id },
            _ => Call::Approve { to: other, token_id: id },
        };
        let _ = ledger.dispatch(origin, call);
        assert_consistent(&ledger, &accounts);
    }
    assert!(ledger.total_supply() > 0);
}

#[test]
fn created_token_is_named_by_seed_account_and_counter() {
    let mut ledger = Module::new();
    let (first, event) = ledger._create_token(&ALICE, &seed()).unwrap();
    assert_eq!(
        first,
        H256([
            214, 155, 90, 211, 44, 198, 30, 68, 72, 249, 10, 7, 101, 208, 108, 85, 99, 75, 54,
            75, 154, 166, 146, 141, 124, 24, 20, 107, 150, 41, 171, 37,
        ])
    );
    assert_eq!(event, Event::Transfer(None, Some(ALICE), first));
    let (second, _) = ledger._create_token(&ALICE, &seed()).unwrap();
    assert_eq!(
        second,
        H256([
            177, 193, 144, 179, 245, 176, 44, 117, 142, 191, 243, 151, 92, 5, 52, 22, 136, 42,
            81, 181, 252, 150, 23, 75, 83, 18, 149, 114, 79, 216, 18, 238,
        ])
    );
    assert_eq!(ledger.get_tokens_owned_account(ALICE), vec![first, second]);
}

#[test]
fn token_identifier_is_hashed_from_seed_account_and_counter() {
    let bytes = Module::token_seed_bytes(&seed(), 0x0102_0304_0506_0708, 0x1112_1314_1516_1718);
    let mut expected = vec![7u8; 32];
    expected.extend_from_slice(&[8, 7, 6, 5, 4, 3, 2, 1]);
    expected.extend_from_slice(&[0x18, 0x17, 0x16, 0x15, 0x14, 0x13, 0x12, 0x11]);
    assert_eq!(bytes, expected);
    let mut ledger = Module::new();
    let (first, _) = ledger._create_token(&BOB, &seed()).unwrap();
    assert_eq!(first, H256(sp_io::hashing::blake2_256(&Module::token_seed_bytes(&seed(), BOB, 0))));
    let (second, _) = ledger._create_token(&CHARLIE, &seed()).unwrap();
    assert_eq!(
        second,
        H256(sp_io::hashing::blake2_256(&Module::token_seed_bytes(&seed(), CHARLIE, 1)))
    );
}
