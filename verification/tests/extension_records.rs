use spl_pod::optional_keys::OptionalNonZeroPubkey;
use spl_pod::solana_pubkey::Pubkey;
use spl_token_2022::extension::ExtensionType;
use tokenscope::address::Address;
use tokenscope::address::OptionalAddress;
use tokenscope::error::DecodeError;
use tokenscope::extension::metadata::EmbeddedMetadata;
use tokenscope::extension::record::ExtensionHost;
use tokenscope::extension::record::ExtensionRecord;
use tokenscope::extension::record::InterestBearingConfig;
use tokenscope::extension::record::Pointer;
use tokenscope::extension::record::TokenGroup;
use tokenscope::extension::record::TokenGroupMember;
use tokenscope::extension::record::TransferFee;
use tokenscope::extension::record::TransferFeeConfig;
use tokenscope::token_account::account::AccountState;

fn address(fill: u8) -> Address {
    Address { bytes: [fill; 32] }
}

fn text(s: &str) -> Vec<u8> {
    let mut out = (s.len() as u32).to_le_bytes().to_vec();
    out.extend_from_slice(s.as_bytes());
    out
}

fn metadata_payload(pairs: &[(&str, &str)]) -> Vec<u8> {
    let mut p = vec![0u8; 32];
    p.extend_from_slice(&[8u8; 32]);
    p.extend_from_slice(&text("Dollar"));
    p.extend_from_slice(&text("USD"));
    p.extend_from_slice(&text("https://example.org/\u{20ac}.json"));
    p.extend_from_slice(&(pairs.len() as u32).to_le_bytes());
    for (key, value) in pairs {
        p.extend_from_slice(&text(key));
        p.extend_from_slice(&text(value));
    }
    p
}

#[test]
fn unknown_code_keeps_its_payload() {
    for host in [ExtensionHost::Mint, ExtensionHost::Account] {
        assert_eq!(
            ExtensionRecord::decode(host, 0xffff, &[1, 2, 3]),
            Ok(ExtensionRecord::Unknown { type_code: 0xffff, payload: vec![1, 2, 3] })
        );
        assert_eq!(
            ExtensionRecord::decode(host, 0, &[]),
            Ok(ExtensionRecord::Unknown { type_code: 0, payload: vec![] })
        );
        assert!(!host.knows(0xffff));
        assert!(!host.knows(0));
        assert_eq!(host.expected_len(0xffff), None);
    }
}

#[test]
fn code_of_the_other_kind_of_account_is_unknown() {
    assert_eq!(
        ExtensionRecord::decode(ExtensionHost::Account, 3, &[7; 8]),
        Ok(ExtensionRecord::Unknown { type_code: 3, payload: vec![7; 8] })
    );
    assert_eq!(
        ExtensionRecord::decode(ExtensionHost::Mint, 2, &[7; 8]),
        Ok(ExtensionRecord::Unknown { type_code: 2, payload: vec![7; 8] })
    );
    assert!(ExtensionHost::Mint.knows(3));
    assert!(!ExtensionHost::Account.knows(3));
    assert!(ExtensionHost::Account.knows(2));
    assert!(!ExtensionHost::Mint.knows(2));
    assert!(ExtensionHost::Mint.knows(19));
    assert!(!ExtensionHost::Account.knows(19));
}

#[test]
fn table_holds_the_payload_sizes() {
    let mint = [
        (1u16, 108usize),
        (3, 32),
        (6, 1),
        (9, 0),
        (10, 52),
        (12, 32),
        (14, 64),
        (18, 64),
        (20, 64),
        (21, 80),
        (22, 64),
        (23, 72),
        (26, 33),
    ];
    for (code, len) in mint {
        assert_eq!(ExtensionHost::Mint.expected_len(code), Some(len));
        assert_eq!(ExtensionHost::Account.expected_len(code), None);
        assert!(!ExtensionHost::Mint.is_variable(code));
    }
    let account = [(2u16, 8usize), (7, 0), (8, 1), (11, 1), (13, 0), (15, 1), (27, 0)];
    for (code, len) in account {
        assert_eq!(ExtensionHost::Account.expected_len(code), Some(len));
        assert_eq!(ExtensionHost::Mint.expected_len(code), None);
    }
    assert_eq!(ExtensionHost::Mint.expected_len(19), None);
    assert!(ExtensionHost::Mint.is_variable(19));
    assert!(!ExtensionHost::Account.is_variable(19));
}

#[test]
fn known_code_with_wrong_size_is_malformed() {
    let mint = [1u16, 3, 6, 9, 10, 12, 14, 18, 20, 21, 22, 23, 26];
    for code in mint {
        let len = ExtensionHost::Mint.expected_len(code).unwrap();
        assert_eq!(
            ExtensionRecord::decode(ExtensionHost::Mint, code, &vec![0u8; len + 1]),
            Err(DecodeError::MalformedExtension { type_code: code })
        );
        if len > 0 {
            assert_eq!(
                ExtensionRecord::decode(ExtensionHost::Mint, code, &vec![0u8; len - 1]),
                Err(DecodeError::MalformedExtension { type_code: code })
            );
        }
        let decoded = ExtensionRecord::decode(ExtensionHost::Mint, code, &vec![0u8; len]);
        assert_eq!(decoded.unwrap().type_code(), code);
    }
    for code in [2u16, 7, 8, 11, 13, 15, 27] {
        let len = ExtensionHost::Account.expected_len(code).unwrap();
        assert_eq!(
            ExtensionRecord::decode(ExtensionHost::Account, code, &vec![0u8; len + 1]),
            Err(DecodeError::MalformedExtension { type_code: code })
        );
        let decoded = ExtensionRecord::decode(ExtensionHost::Account, code, &vec![0u8; len]);
        assert_eq!(decoded.unwrap().type_code(), code);
    }
    assert_eq!(
        ExtensionRecord::decode(ExtensionHost::Mint, 19, &metadata_payload(&[]))
            .unwrap()
            .type_code(),
        19
    );
    assert_eq!(
        ExtensionRecord::decode(ExtensionHost::Mint, 4242, &[1]).unwrap().type_code(),
        4242
    );
}

#[test]
fn records_without_fields() {
    assert_eq!(
        ExtensionRecord::decode(ExtensionHost::Mint, 9, &[]),
        Ok(ExtensionRecord::NonTransferable)
    );
    assert_eq!(
        ExtensionRecord::decode(ExtensionHost::Account, 7, &[]),
        Ok(ExtensionRecord::ImmutableOwner)
    );
    assert_eq!(
        ExtensionRecord::decode(ExtensionHost::Account, 13, &[]),
        Ok(ExtensionRecord::NonTransferableAccount)
    );
    assert_eq!(
        ExtensionRecord::decode(ExtensionHost::Account, 27, &[]),
        Ok(ExtensionRecord::PausableAccount)
    );
}

#[test]
fn flags_of_one_byte() {
    assert_eq!(
        ExtensionRecord::decode(ExtensionHost::Account, 8, &[1]),
        Ok(ExtensionRecord::MemoTransfer { require_incoming_transfer_memos: true })
    );
    assert_eq!(
        ExtensionRecord::decode(ExtensionHost::Account, 8, &[0]),
        Ok(ExtensionRecord::MemoTransfer { require_incoming_transfer_memos: false })
    );
    assert_eq!(
        ExtensionRecord::decode(ExtensionHost::Account, 11, &[200]),
        Ok(ExtensionRecord::CpiGuard { lock_cpi: true })
    );
    assert_eq!(
        ExtensionRecord::decode(ExtensionHost::Account, 15, &[0]),
        Ok(ExtensionRecord::TransferHookAccount { transferring: false })
    );
}

#[test]
fn withheld_amount_is_little_endian() {
    assert_eq!(
        ExtensionRecord::decode(ExtensionHost::Account, 2, &[0x10, 0x27, 0, 0, 0, 0, 0, 0]),
        Ok(ExtensionRecord::TransferFeeAmount { withheld_amount: 10_000 })
    );
    assert_eq!(
        ExtensionRecord::decode(ExtensionHost::Account, 2, &[0xff; 8]),
        Ok(ExtensionRecord::TransferFeeAmount { withheld_amount: u64::MAX })
    );
}

#[test]
fn default_account_state_checks_its_byte() {
    assert_eq!(
        ExtensionRecord::decode(ExtensionHost::Mint, 6, &[2]),
        Ok(ExtensionRecord::DefaultAccountState { state: AccountState::Frozen })
    );
    assert_eq!(
        ExtensionRecord::decode(ExtensionHost::Mint, 6, &[0]),
        Ok(ExtensionRecord::DefaultAccountState { state: AccountState::Uninitialized })
    );
    assert_eq!(
        ExtensionRecord::decode(ExtensionHost::Mint, 6, &[3]),
        Err(DecodeError::MalformedField { offset: 0 })
    );
}

#[test]
fn optional_addresses_inside_records_are_absent_when_zero() {
    assert_eq!(
        ExtensionRecord::decode(ExtensionHost::Mint, 3, &[0; 32]),
        Ok(ExtensionRecord::MintCloseAuthority { close_authority: OptionalAddress::Absent })
    );
    let mut one = [0u8; 32];
    one[31] = 1;
    assert_eq!(
        ExtensionRecord::decode(ExtensionHost::Mint, 3, &one),
        Ok(
            ExtensionRecord::MintCloseAuthority {
                close_authority: OptionalAddress::Present(Address { bytes: one })
            }
        )
    );
    assert_eq!(
        ExtensionRecord::decode(ExtensionHost::Mint, 12, &[4; 32]),
        Ok(ExtensionRecord::PermanentDelegate { delegate: OptionalAddress::Present(address(4)) })
    );
}

#[test]
fn pointers_hold_two_optional_addresses() {
    let mut payload = vec![0u8; 32];
    payload.extend_from_slice(&[6u8; 32]);
    let pointer = Pointer {
        authority: OptionalAddress::Absent,
        target: OptionalAddress::Present(address(6)),
    };
    assert_eq!(
        ExtensionRecord::decode(ExtensionHost::Mint, 14, &payload),
        Ok(ExtensionRecord::TransferHook(pointer))
    );
    assert_eq!(
        ExtensionRecord::decode(ExtensionHost::Mint, 18, &payload),
        Ok(ExtensionRecord::MetadataPointer(pointer))
    );
    assert_eq!(
        ExtensionRecord::decode(ExtensionHost::Mint, 20, &payload),
        Ok(ExtensionRecord::GroupPointer(pointer))
    );
    assert_eq!(
        ExtensionRecord::decode(ExtensionHost::Mint, 22, &payload),
        Ok(ExtensionRecord::GroupMemberPointer(pointer))
    );
}

#[test]
fn groups_and_members() {
    let mut payload = vec![1u8; 32];
    payload.extend_from_slice(&[2u8; 32]);
    payload.extend_from_slice(&3u64.to_le_bytes());
    payload.extend_from_slice(&100u64.to_le_bytes());
    assert_eq!(
        ExtensionRecord::decode(ExtensionHost::Mint, 21, &payload),
        Ok(
            ExtensionRecord::TokenGroup(
                TokenGroup {
                    update_authority: OptionalAddress::Present(address(1)),
                    mint: address(2),
                    size: 3,
                    max_size: 100,
                }
            )
        )
    );
    let mut payload = vec![0u8; 32];
    payload.extend_from_slice(&[2u8; 32]);
    payload.extend_from_slice(&17u64.to_le_bytes());
    assert_eq!(
        ExtensionRecord::decode(ExtensionHost::Mint, 23, &payload),
        Ok(
            ExtensionRecord::TokenGroupMember(
                TokenGroupMember { mint: address(0), group: address(2), member_number: 17 }
            )
        )
    );
}

#[test]
fn pausable_holds_authority_and_flag() {
    let mut payload = vec![3u8; 32];
    payload.push(1);
    assert_eq!(
        ExtensionRecord::decode(ExtensionHost::Mint, 26, &payload),
        Ok(
            ExtensionRecord::Pausable {
                authority: OptionalAddress::Present(address(3)),
                paused: true
            }
        )
    );
}

#[test]
fn interest_rates_and_timestamps_are_signed() {
    let mut payload = vec![0u8; 32];
    payload.extend_from_slice(&(-5i64).to_le_bytes());
    payload.extend_from_slice(&(-300i16).to_le_bytes());
    payload.extend_from_slice(&i64::MAX.to_le_bytes());
    payload.extend_from_slice(&i16::MIN.to_le_bytes());
    assert_eq!(
        ExtensionRecord::decode(ExtensionHost::Mint, 10, &payload),
        Ok(
            ExtensionRecord::InterestBearingConfig(
                InterestBearingConfig {
                    rate_authority: OptionalAddress::Absent,
                    initialization_timestamp: -5,
                    pre_update_average_rate: -300,
                    last_update_timestamp: i64::MAX,
                    current_rate: i16::MIN,
                }
            )
        )
    );
    let mut payload = vec![0u8; 32];
    payload.extend_from_slice(&i64::MIN.to_le_bytes());
    payload.extend_from_slice(&i16::MAX.to_le_bytes());
    payload.extend_from_slice(&1_700_000_000i64.to_le_bytes());
    payload.extend_from_slice(&(-1i16).to_le_bytes());
    match ExtensionRecord::decode(ExtensionHost::Mint, 10, &payload).unwrap() {
        ExtensionRecord::InterestBearingConfig(config) => {
            assert_eq!(config.initialization_timestamp, i64::MIN);
            assert_eq!(config.pre_update_average_rate, i16::MAX);
            assert_eq!(config.last_update_timestamp, 1_700_000_000);
            assert_eq!(config.current_rate, -1);
        },
        other => panic!("{:?}", other),
    }
}

#[test]
fn transfer_fee_config_layout_is_the_one_of_the_token_program() {
    let theirs = spl_token_2022::extension::transfer_fee::TransferFeeConfig {
        transfer_fee_config_authority: OptionalNonZeroPubkey(Pubkey::new_from_array([1; 32])),
        withdraw_withheld_authority: OptionalNonZeroPubkey(Pubkey::new_from_array([0; 32])),
        withheld_amount: 5_000u64.into(),
        older_transfer_fee: spl_token_2022::extension::transfer_fee::TransferFee {
            epoch: 10u64.into(),
            maximum_fee: 1_000_000u64.into(),
            transfer_fee_basis_points: 25u16.into(),
        },
        newer_transfer_fee: spl_token_2022::extension::transfer_fee::TransferFee {
            epoch: 11u64.into(),
            maximum_fee: 2_000_000u64.into(),
            transfer_fee_basis_points: 50u16.into(),
        },
    };
    let payload = spl_pod::bytemuck::pod_bytes_of(&theirs);
    assert_eq!(payload.len(), 108);
    assert_eq!(
        ExtensionRecord::decode(ExtensionHost::Mint, 1, payload),
        Ok(
            ExtensionRecord::TransferFeeConfig(
                TransferFeeConfig {
                    transfer_fee_config_authority: OptionalAddress::Present(address(1)),
                    withdraw_withheld_authority: OptionalAddress::Absent,
                    withheld_amount: 5_000,
                    older_transfer_fee: TransferFee {
                        epoch: 10,
                        maximum_fee: 1_000_000,
                        transfer_fee_basis_points: 25,
                    },
                    newer_transfer_fee: TransferFee {
                        epoch: 11,
                        maximum_fee: 2_000_000,
                        transfer_fee_basis_points: 50,
                    },
                }
            )
        )
    );
}

#[test]
fn interest_config_layout_is_the_one_of_the_token_program() {
    let theirs = spl_token_2022::extension::interest_bearing_mint::InterestBearingConfig {
        rate_authority: OptionalNonZeroPubkey(Pubkey::new_from_array([9; 32])),
        initialization_timestamp: 1_600_000_000i64.into(),
        pre_update_average_rate: 150i16.into(),
        last_update_timestamp: 1_700_000_000i64.into(),
        current_rate: (-20i16).into(),
    };
    let payload = spl_pod::bytemuck::pod_bytes_of(&theirs);
    assert_eq!(payload.len(), 52);
    assert_eq!(
        ExtensionRecord::decode(ExtensionHost::Mint, 10, payload),
        Ok(
            ExtensionRecord::InterestBearingConfig(
                InterestBearingConfig {
                    rate_authority: OptionalAddress::Present(address(9)),
                    initialization_timestamp: 1_600_000_000,
                    pre_update_average_rate: 150,
                    last_update_timestamp: 1_700_000_000,
                    current_rate: -20,
                }
            )
        )
    );
}

#[test]
fn type_codes_are_those_of_the_token_program() {
    let mint = [
        (ExtensionType::TransferFeeConfig, 1u16),
        (ExtensionType::MintCloseAuthority, 3),
        (ExtensionType::DefaultAccountState, 6),
        (ExtensionType::NonTransferable, 9),
        (ExtensionType::InterestBearingConfig, 10),
        (ExtensionType::PermanentDelegate, 12),
        (ExtensionType::TransferHook, 14),
        (ExtensionType::MetadataPointer, 18),
        (ExtensionType::TokenMetadata, 19),
        (ExtensionType::GroupPointer, 20),
        (ExtensionType::TokenGroup, 21),
        (ExtensionType::GroupMemberPointer, 22),
        (ExtensionType::TokenGroupMember, 23),
        (ExtensionType::Pausable, 26),
    ];
    for (theirs, ours) in mint {
        assert_eq!(u16::from(theirs), ours);
        assert!(ExtensionHost::Mint.knows(ours));
    }
    let account = [
        (ExtensionType::TransferFeeAmount, 2u16),
        (ExtensionType::ImmutableOwner, 7),
        (ExtensionType::MemoTransfer, 8),
        (ExtensionType::CpiGuard, 11),
        (ExtensionType::NonTransferableAccount, 13),
        (ExtensionType::TransferHookAccount, 15),
        (ExtensionType::PausableAccount, 27),
    ];
    for (theirs, ours) in account {
        assert_eq!(u16::from(theirs), ours);
        assert!(ExtensionHost::Account.knows(ours));
    }
}

#[test]
fn embedded_metadata_with_texts_and_pairs() {
    let payload = metadata_payload(&[("colour", "green"), ("", "\u{1f980}")]);
    let expected = EmbeddedMetadata {
        update_authority: OptionalAddress::Absent,
        mint: address(8),
        name: "Dollar".to_string(),
        symbol: "USD".to_string(),
        uri: "https://example.org/\u{20ac}.json".to_string(),
        additional_metadata: vec![
            ("colour".to_string(), "green".to_string()),
            ("".to_string(), "\u{1f980}".to_string()),
        ],
    };
    assert_eq!(EmbeddedMetadata::decode(&payload), Some(expected.clone()));
    assert_eq!(
        ExtensionRecord::decode(ExtensionHost::Mint, 19, &payload),
        Ok(ExtensionRecord::TokenMetadata(expected))
    );
    assert_eq!(
        ExtensionRecord::decode(ExtensionHost::Account, 19, &payload),
        Ok(ExtensionRecord::Unknown { type_code: 19, payload: payload.clone() })
    );
}

#[test]
fn embedded_metadata_without_pairs() {
    let payload = metadata_payload(&[]);
    let decoded = EmbeddedMetadata::decode(&payload).unwrap();
    assert_eq!(decoded.name, "Dollar");
    assert_eq!(decoded.symbol, "USD");
    assert!(decoded.additional_metadata.is_empty());
}

#[test]
fn embedded_metadata_of_another_shape_is_malformed() {
    let good = metadata_payload(&[("k", "v")]);
    let malformed = Err(DecodeError::MalformedExtension { type_code: 19 });
    for len in 0..good.len() {
        assert_eq!(ExtensionRecord::decode(ExtensionHost::Mint, 19, &good[..len]), malformed);
    }
    let mut longer = good.clone();
    longer.push(0);
    assert_eq!(ExtensionRecord::decode(ExtensionHost::Mint, 19, &longer), malformed);
    let mut more_pairs = metadata_payload(&[]);
    let at = more_pairs.len() - 4;
    more_pairs[at] = 1;
    assert_eq!(ExtensionRecord::decode(ExtensionHost::Mint, 19, &more_pairs), malformed);
    let mut huge = metadata_payload(&[]);
    huge[64..68].copy_from_slice(&[0xff, 0xff, 0xff, 0xff]);
    assert_eq!(ExtensionRecord::decode(ExtensionHost::Mint, 19, &huge), malformed);
}

#[test]
fn embedded_metadata_must_be_utf8() {
    let mut payload = metadata_payload(&[]);
    payload[68] = 0xff;
    assert_eq!(EmbeddedMetadata::decode(&payload), None);
    assert_eq!(
        ExtensionRecord::decode(ExtensionHost::Mint, 19, &payload),
        Err(DecodeError::MalformedExtension { type_code: 19 })
    );
    let mut cut = vec![0u8; 64];
    cut.extend_from_slice(&[1, 0, 0, 0, 0xe2]);
    cut.extend_from_slice(&[0u8; 12]);
    assert_eq!(EmbeddedMetadata::decode(&cut), None);
}
