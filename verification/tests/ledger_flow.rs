use usdt_clone::{init_mint, init_token_account, mint_to, transfer, ErrorCode, Identity};

fn party(tag: u8) -> Identity {
    Identity { bytes: [tag; 32] }
}

#[test]
fn issue_then_transfer_then_refusals() {
    let a = party(1);
    let b = party(2);

    let mint = init_mint(6, a);
    assert_eq!(mint.decimals, 6);
    assert_eq!(mint.mint_authority, a);

    let mut x = init_token_account(a, 0);
    assert_eq!(x.owner, a);
    assert_eq!(x.balance, 0);

    assert_eq!(mint_to(&mint, &mut x, a, 1000), Ok(()));
    assert_eq!(x.balance, 1000);

    let mut y = init_token_account(b, 0);
    assert_eq!(y.owner, b);
    assert_eq!(y.balance, 0);

    assert_eq!(transfer(&mut x, &mut y, a, 400), Ok(()));
    assert_eq!(x.balance, 600);
    assert_eq!(y.balance, 400);

    assert_eq!(transfer(&mut x, &mut y, a, 1000), Err(ErrorCode::InsufficientFunds));
    assert_eq!(x.balance, 600);
    assert_eq!(y.balance, 400);

    assert_eq!(transfer(&mut x, &mut y, b, 100), Err(ErrorCode::Unauthorized));
    assert_eq!(x.balance, 600);
    assert_eq!(y.balance, 400);

    assert_eq!(x.owner, a);
    assert_eq!(y.owner, b);
    assert_eq!(mint.decimals, 6);
    assert_eq!(mint.mint_authority, a);
}

#[test]
fn init_mint_records_precision_and_authority() {
    let authority = party(9);
    let mint = init_mint(0, authority);
    assert_eq!(mint.decimals, 0);
    assert_eq!(mint.mint_authority, authority);

    let fine = init_mint(u8::MAX, party(0));
    assert_eq!(fine.decimals, 255);
    assert_eq!(fine.mint_authority, party(0));
}

#[test]
fn init_token_account_starts_at_the_policy_balance() {
    let owner = party(3);
    let empty = init_token_account(owner, 0);
    assert_eq!(empty.owner, owner);
    assert_eq!(empty.balance, 0);

    let granted = init_token_account(owner, 1000);
    assert_eq!(granted.owner, owner);
    assert_eq!(granted.balance, 1000);

    let full = init_token_account(owner, u64::MAX);
    assert_eq!(full.balance, u64::MAX);
}

#[test]
fn supply_is_issued_amount_through_a_run_of_operations() {
    let a = party(1);
    let b = party(2);
    let c = party(3);
    let mint = init_mint(2, a);
    let mut x = init_token_account(a, 0);
    let mut y = init_token_account(b, 0);
    let mut z = init_token_account(c, 0);

    assert_eq!(mint_to(&mint, &mut x, a, 700), Ok(()));
    assert_eq!(mint_to(&mint, &mut y, a, 300), Ok(()));
    assert_eq!(x.balance + y.balance + z.balance, 1000);

    assert_eq!(transfer(&mut x, &mut z, a, 250), Ok(()));
    assert_eq!(transfer(&mut y, &mut x, b, 300), Ok(()));
    assert_eq!(transfer(&mut z, &mut y, c, 1), Ok(()));
    assert_eq!(transfer(&mut z, &mut y, c, 250), Err(ErrorCode::InsufficientFunds));
    assert_eq!(transfer(&mut z, &mut y, a, 1), Err(ErrorCode::Unauthorized));
    assert_eq!(mint_to(&mint, &mut z, c, 5), Err(ErrorCode::Unauthorized));

    assert_eq!(x.balance, 750);
    assert_eq!(y.balance, 1);
    assert_eq!(z.balance, 249);
    assert_eq!(x.balance + y.balance + z.balance, 1000);
}
