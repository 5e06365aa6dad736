use spl_token::solana_program::program_option::COption;
use spl_token::solana_program::program_pack::Pack;
use spl_token::solana_program::pubkey::Pubkey;
use tokenscope::address::Address;
use tokenscope::address::OptionalAddress;
use tokenscope::cli::TokenProgram;
use tokenscope::error::DecodeError;
use tokenscope::mint::account::decode_mint;
use tokenscope::mint::account::MintBase;
use tokenscope::mint::account::MintState;
use tokenscope::token_account::account::decode_account;
use tokenscope::token_account::account::AccountState;
use tokenscope::token_account::account::TokenAccountBase;
use tokenscope::token_account::account::TokenAccountState;

fn address(fill: u8) -> Address {
    let mut bytes = [fill; 32];
    bytes[31] = fill.wrapping_add(1);
    Address { bytes }
}

fn sample_mint() -> MintBase {
    MintBase {
        mint_authority: OptionalAddress::Present(address(7)),
        supply: 0x0102_0304_0506_0708,
        decimals: 9,
        is_initialized: true,
        freeze_authority: OptionalAddress::Absent,
    }
}

fn sample_account() -> TokenAccountBase {
    TokenAccountBase {
        mint: address(1),
        owner: address(2),
        amount: 1_000_000,
        delegate: OptionalAddress::Present(address(3)),
        state: AccountState::Frozen,
        is_native: Some(2_039_280),
        delegated_amount: 77,
        close_authority: OptionalAddress::Present(address(4)),
    }
}

#[test]
fn zeroed_legacy_mint_decodes_to_an_empty_mint() {
    let data = vec![0u8; 82];
    let base = decode_mint(&data).unwrap();
    assert_eq!(base.mint_authority, OptionalAddress::Absent);
    assert_eq!(base.supply, 0);
    assert_eq!(base.decimals, 0);
    assert!(!base.is_initialized);
    assert_eq!(base.freeze_authority, OptionalAddress::Absent);
    let state = MintState::decode(TokenProgram::LegacyToken, &data, None).unwrap();
    assert_eq!(state.base, base);
    assert!(state.extensions.is_empty());
    assert_eq!(state.metadata, None);
}

#[test]
fn short_mint_buffer_is_truncated() {
    for len in [0usize, 1, 36, 81] {
        let data = vec![0u8; len];
        assert_eq!(
            decode_mint(&data),
            Err(DecodeError::TruncatedBuffer { required: 82, actual: len })
        );
    }
}

#[test]
fn mint_fields_are_read_from_their_offsets() {
    let mut data = vec![0u8; 82];
    data[0] = 1;
    for k in 0..32 {
        data[4 + k] = 100 + k as u8;
    }
    data[36..44].copy_from_slice(&[0x08, 0x07, 0x06, 0x05, 0x04, 0x03, 0x02, 0x01]);
    data[44] = 6;
    data[45] = 1;
    data[46] = 1;
    for k in 0..32 {
        data[50 + k] = 200 + k as u8;
    }
    let base = decode_mint(&data).unwrap();
    let mut authority = [0u8; 32];
    let mut freeze = [0u8; 32];
    for k in 0..32 {
        authority[k] = 100 + k as u8;
        freeze[k] = 200 + k as u8;
    }
    assert_eq!(base.mint_authority, OptionalAddress::Present(Address { bytes: authority }));
    assert_eq!(base.supply, 0x0102_0304_0506_0708);
    assert_eq!(base.decimals, 6);
    assert!(base.is_initialized);
    assert_eq!(base.freeze_authority, OptionalAddress::Present(Address { bytes: freeze }));
    assert_eq!(base.get_decimals(), 6);
}

#[test]
fn any_nonzero_byte_is_a_true_flag() {
    let mut data = vec![0u8; 82];
    data[45] = 0xff;
    assert!(decode_mint(&data).unwrap().is_initialized);
    data[45] = 2;
    assert!(decode_mint(&data).unwrap().is_initialized);
}

#[test]
fn mint_tags_outside_their_domain_are_malformed() {
    let mut data = vec![0u8; 82];
    data[0] = 2;
    assert_eq!(decode_mint(&data), Err(DecodeError::MalformedField { offset: 0 }));
    data[0] = 0;
    data[1] = 1;
    assert_eq!(decode_mint(&data), Err(DecodeError::MalformedField { offset: 0 }));
    data[1] = 0;
    data[49] = 1;
    assert_eq!(decode_mint(&data), Err(DecodeError::MalformedField { offset: 46 }));
    data[0] = 9;
    assert_eq!(decode_mint(&data), Err(DecodeError::MalformedField { offset: 0 }));
}

#[test]
fn bytes_after_the_mint_layout_are_ignored_by_the_fixed_decoder() {
    let mut data = sample_mint().encode();
    data.extend_from_slice(&[0xaa; 40]);
    assert_eq!(decode_mint(&data), Ok(sample_mint()));
}

#[test]
fn mint_survives_encoding_and_decoding() {
    let mint = sample_mint();
    let data = mint.encode();
    assert_eq!(data.len(), 82);
    assert_eq!(decode_mint(&data), Ok(mint));
    for program in [TokenProgram::LegacyToken, TokenProgram::Token2022] {
        let state = MintState::decode(program, &data, None).unwrap();
        assert_eq!(state.base, mint);
        assert!(state.extensions.is_empty());
    }
}

#[test]
fn absent_address_is_encoded_as_zeroes() {
    let mint = MintBase {
        mint_authority: OptionalAddress::Absent,
        supply: 1,
        decimals: 0,
        is_initialized: false,
        freeze_authority: OptionalAddress::Absent,
    };
    let mut expected = vec![0u8; 82];
    expected[36] = 1;
    assert_eq!(mint.encode(), expected);
}

#[test]
fn mint_layout_is_the_one_of_the_token_program() {
    let theirs = spl_token::state::Mint {
        mint_authority: COption::Some(Pubkey::new_from_array(address(9).bytes)),
        supply: 123_456_789_012,
        decimals: 6,
        is_initialized: true,
        freeze_authority: COption::None,
    };
    let mut data = vec![0u8; 82];
    spl_token::state::Mint::pack(theirs, &mut data).unwrap();
    let ours = decode_mint(&data).unwrap();
    assert_eq!(ours.mint_authority, OptionalAddress::Present(address(9)));
    assert_eq!(ours.supply, 123_456_789_012);
    assert_eq!(ours.decimals, 6);
    assert!(ours.is_initialized);
    assert_eq!(ours.freeze_authority, OptionalAddress::Absent);
    assert_eq!(ours.encode(), data);
}

#[test]
fn short_account_buffer_is_truncated() {
    for len in [0usize, 82, 164] {
        let data = vec![0u8; len];
        assert_eq!(
            decode_account(&data),
            Err(DecodeError::TruncatedBuffer { required: 165, actual: len })
        );
    }
}

#[test]
fn zeroed_account_is_uninitialized() {
    let data = vec![0u8; 165];
    let base = decode_account(&data).unwrap();
    assert_eq!(base.mint, Address { bytes: [0; 32] });
    assert_eq!(base.owner, Address { bytes: [0; 32] });
    assert_eq!(base.amount, 0);
    assert_eq!(base.delegate, OptionalAddress::Absent);
    assert_eq!(base.state, AccountState::Uninitialized);
    assert_eq!(base.is_native, None);
    assert_eq!(base.delegated_amount, 0);
    assert_eq!(base.close_authority, OptionalAddress::Absent);
}

#[test]
fn account_state_bytes_map_to_states() {
    let mut data = vec![0u8; 165];
    data[108] = 1;
    assert_eq!(decode_account(&data).unwrap().state, AccountState::Initialized);
    data[108] = 2;
    assert_eq!(decode_account(&data).unwrap().state, AccountState::Frozen);
    data[108] = 3;
    assert_eq!(decode_account(&data), Err(DecodeError::MalformedField { offset: 108 }));
    data[108] = 255;
    assert_eq!(decode_account(&data), Err(DecodeError::MalformedField { offset: 108 }));
}

#[test]
fn account_tags_outside_their_domain_are_malformed() {
    let mut data = vec![0u8; 165];
    data[129] = 2;
    assert_eq!(decode_account(&data), Err(DecodeError::MalformedField { offset: 129 }));
    data[109] = 2;
    assert_eq!(decode_account(&data), Err(DecodeError::MalformedField { offset: 109 }));
    data[108] = 9;
    assert_eq!(decode_account(&data), Err(DecodeError::MalformedField { offset: 108 }));
    data[72] = 7;
    assert_eq!(decode_account(&data), Err(DecodeError::MalformedField { offset: 72 }));
}

#[test]
fn native_reserve_is_read_only_under_tag_one() {
    let mut data = vec![0u8; 165];
    data[113..121].copy_from_slice(&2_039_280u64.to_le_bytes());
    assert_eq!(decode_account(&data).unwrap().is_native, None);
    data[109] = 1;
    assert_eq!(decode_account(&data).unwrap().is_native, Some(2_039_280));
}

#[test]
fn account_survives_encoding_and_decoding() {
    let account = sample_account();
    let data = account.encode();
    assert_eq!(data.len(), 165);
    assert_eq!(decode_account(&data), Ok(account));
    for program in [TokenProgram::LegacyToken, TokenProgram::Token2022] {
        let state = TokenAccountState::decode(program, &data).unwrap();
        assert_eq!(state.base, account);
        assert!(state.extensions.is_empty());
    }
    let plain = TokenAccountBase {
        delegate: OptionalAddress::Absent,
        state: AccountState::Initialized,
        is_native: None,
        close_authority: OptionalAddress::Absent,
        ..account
    };
    assert_eq!(decode_account(&plain.encode()), Ok(plain));
}

#[test]
fn account_layout_is_the_one_of_the_token_program() {
    let theirs = spl_token::state::Account {
        mint: Pubkey::new_from_array(address(1).bytes),
        owner: Pubkey::new_from_array(address(2).bytes),
        amount: 1_000_000,
        delegate: COption::Some(Pubkey::new_from_array(address(3).bytes)),
        state: spl_token::state::AccountState::Frozen,
        is_native: COption::Some(2_039_280),
        delegated_amount: 77,
        close_authority: COption::Some(Pubkey::new_from_array(address(4).bytes)),
    };
    let mut data = vec![0u8; 165];
    spl_token::state::Account::pack(theirs, &mut data).unwrap();
    assert_eq!(decode_account(&data), Ok(sample_account()));
    assert_eq!(sample_account().encode(), data);
}

#[test]
fn getters_give_the_fixed_fields() {
    let state = MintState::decode(TokenProgram::LegacyToken, &sample_mint().encode(), None)
        .unwrap();
    assert_eq!(state.mint_authority(), OptionalAddress::Present(address(7)));
    assert_eq!(state.supply(), 0x0102_0304_0506_0708);
    assert_eq!(state.decimals(), 9);
    assert!(state.is_initialized());
    assert_eq!(state.freeze_authority(), OptionalAddress::Absent);
    let held = TokenAccountState::decode(TokenProgram::LegacyToken, &sample_account().encode())
        .unwrap();
    assert_eq!(held.mint(), address(1));
    assert_eq!(held.owner(), address(2));
    assert_eq!(held.amount(), 1_000_000);
    assert_eq!(held.delegate(), OptionalAddress::Present(address(3)));
    assert_eq!(held.state(), AccountState::Frozen);
    assert_eq!(held.is_native(), Some(2_039_280));
    assert_eq!(held.delegated_amount(), 77);
    assert_eq!(held.close_authority(), OptionalAddress::Present(address(4)));
}
