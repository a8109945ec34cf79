use lottery::{transfer_sol, ErrorCode, Pubkey};

#[test]
fn relay_to_fixed_receiver() {
    let fixed = Pubkey::new([7; 32]);
    let mut payer: u64 = 500;
    let mut recv: u64 = 10;
    assert_eq!(transfer_sol(&mut payer, &fixed, &mut recv, &fixed, 200), Ok(()));
    assert_eq!((payer, recv), (300, 210));
}

#[test]
fn relay_to_other_receiver_is_refused() {
    let fixed = Pubkey::new([7; 32]);
    let other = Pubkey::new([8; 32]);
    let mut payer: u64 = 500;
    let mut recv: u64 = 10;
    assert_eq!(
        transfer_sol(&mut payer, &other, &mut recv, &fixed, 200),
        Err(ErrorCode::InvalidFixedDestination)
    );
    assert_eq!((payer, recv), (500, 10));
}

#[test]
fn relay_short_payer_is_refused() {
    let fixed = Pubkey::new([7; 32]);
    let mut payer: u64 = 100;
    let mut recv: u64 = 0;
    assert_eq!(
        transfer_sol(&mut payer, &fixed, &mut recv, &fixed, 101),
        Err(ErrorCode::InsufficientFunds)
    );
    let mut full: u64 = u64::MAX;
    assert_eq!(
        transfer_sol(&mut payer, &fixed, &mut full, &fixed, 1),
        Err(ErrorCode::BalanceOverflow)
    );
    assert_eq!((payer, full), (100, u64::MAX));
}
