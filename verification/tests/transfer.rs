use spl_pod::solana_pubkey::Pubkey;
use tokenscope::address::Address;
use tokenscope::cli::CliError;
use tokenscope::token_account::ixs::AccountRef;
use tokenscope::token_account::ixs::InstructionData;
use tokenscope::token_account::ixs::TokenAccountInstructions;

fn address(fill: u8) -> Address {
    Address { bytes: [fill; 32] }
}

#[test]
fn transfer_names_its_accounts_and_packs_its_amount() {
    let built = TokenAccountInstructions::transfer_instruction(
        &address(1),
        &address(2),
        &address(3),
        &address(4),
        5,
        6,
    )
        .unwrap();
    let mut data = vec![12u8];
    data.extend_from_slice(&5_000_000u64.to_le_bytes());
    data.push(6);
    assert_eq!(
        built,
        InstructionData {
            program_id: Address { bytes: spl_token::ID.to_bytes() },
            accounts: vec![
                AccountRef { address: address(1), is_signer: false, is_writable: true },
                AccountRef { address: address(2), is_signer: false, is_writable: false },
                AccountRef { address: address(3), is_signer: false, is_writable: true },
                AccountRef { address: address(4), is_signer: false, is_writable: false },
                AccountRef { address: address(4), is_signer: true, is_writable: false },
            ],
            data,
        }
    );
}

#[test]
fn transfer_is_what_the_token_program_builds() {
    let wallet = Pubkey::new_from_array([9; 32]);
    let theirs = spl_token_2022::instruction::transfer_checked(
        &spl_token::ID,
        &Pubkey::new_from_array([7; 32]),
        &Pubkey::new_from_array([8; 32]),
        &Pubkey::new_from_array([6; 32]),
        &wallet,
        &[&wallet],
        1_230,
        1,
    )
        .unwrap();
    let ours = TokenAccountInstructions::transfer_instruction(
        &address(7),
        &address(8),
        &address(6),
        &address(9),
        123,
        1,
    )
        .unwrap();
    assert_eq!(ours.program_id.bytes, theirs.program_id.to_bytes());
    assert_eq!(ours.data, theirs.data);
    assert_eq!(ours.accounts.len(), theirs.accounts.len());
    for (mine, meta) in ours.accounts.iter().zip(theirs.accounts.iter()) {
        assert_eq!(mine.address.bytes, meta.pubkey.to_bytes());
        assert_eq!(mine.is_signer, meta.is_signer);
        assert_eq!(mine.is_writable, meta.is_writable);
    }
}

#[test]
fn transfer_to_the_same_account_is_refused() {
    assert_eq!(
        TokenAccountInstructions::transfer_instruction(
            &address(1),
            &address(2),
            &address(1),
            &address(4),
            5,
            6
        ),
        Err(CliError::SameSourceAndDestination)
    );
    assert_eq!(
        TokenAccountInstructions::transfer_instruction(
            &address(1),
            &address(2),
            &address(1),
            &address(4),
            u64::MAX,
            6
        ),
        Err(CliError::SameSourceAndDestination)
    );
}

#[test]
fn transfer_of_an_amount_that_does_not_fit_is_refused() {
    assert_eq!(
        TokenAccountInstructions::transfer_instruction(
            &address(1),
            &address(2),
            &address(3),
            &address(4),
            u64::MAX,
            1
        ),
        Err(CliError::AmountOverflow)
    );
}
