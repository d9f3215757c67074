use account_decoder_client_types::Account;
use account_decoder_client_types::ParsedAccount;
use account_decoder_client_types::Pubkey;
use account_decoder_client_types::UiAccount;
use account_decoder_client_types::UiAccountData;
use account_decoder_client_types::UiAccountEncoding;
use account_decoder_client_types::UiDataSliceConfig;

fn token_account_json() -> serde_json::Value {
    serde_json::from_str(
        r#"{
            "info": {
                "mint": "So11111111111111111111111111111111111111112",
                "owner": "9WzDXwBbmkg8ZTbNMqUxvQRAyrZzDsGYdLVL9zYtAWWM",
                "tokenAmount": {
                    "amount": "1000000000",
                    "decimals": 9,
                    "uiAmount": 1.0
                }
            },
            "type": "account"
        }"#,
    )
    .unwrap()
}

#[test]
fn test_jsonparsed_account_decoding_fix() {
    // A sample account in the structured form (like a token account)
    let parsed_account = ParsedAccount {
        program: "spl-token".to_string(),
        parsed: token_account_json(),
        space: 165,
    };

    let ui_account = UiAccount {
        lamports: 2039280,
        data: UiAccountData::Json(parsed_account.clone()),
        owner: "TokenkegQfeZyiNwAJbNbGKPFXCWuBvf9Ss623VQ5DA".to_string(),
        executable: false,
        rent_epoch: 361,
        space: Some(165),
    };

    let decoded_account: Option<Account> = ui_account.decode();
    assert!(
        decoded_account.is_none(),
        "decode() should return None for JsonParsed accounts"
    );

    assert!(ui_account.is_json_parsed(), "should detect JsonParsed accounts");
    assert_eq!(
        ui_account.data.space(),
        Some(165),
        "should extract space from parsed data"
    );

    let parsed = ui_account.parsed_data().unwrap();
    assert_eq!(*parsed, parsed_account);
    assert_eq!(parsed.program, "spl-token");
    assert_eq!(parsed.space, 165);

    let (account, is_json_parsed) = ui_account.try_decode_with_fallback::<Account>().unwrap();
    assert!(is_json_parsed, "should indicate this was JsonParsed");
    assert_eq!(account.lamports, 2039280);
    assert_eq!(
        account.owner,
        Pubkey::parse("TokenkegQfeZyiNwAJbNbGKPFXCWuBvf9Ss623VQ5DA").unwrap()
    );
    assert!(account.data.is_empty(), "data should be empty for JsonParsed accounts");
}

#[test]
fn test_binary_account_still_works() {
    let ui_account = UiAccount {
        lamports: 1000000,
        data: UiAccountData::Binary(
            base64::Engine::encode(&base64::prelude::BASE64_STANDARD, b"test data"),
            UiAccountEncoding::Base64,
        ),
        owner: "11111111111111111111111111111111".to_string(),
        executable: false,
        rent_epoch: 361,
        space: Some(9),
    };

    let decoded_account: Option<Account> = ui_account.decode();
    assert!(decoded_account.is_some(), "decode() should work for binary accounts");

    let account = decoded_account.unwrap();
    assert_eq!(account.data, b"test data");

    let (fallback_account, is_json_parsed) =
        ui_account.try_decode_with_fallback::<Account>().unwrap();
    assert!(!is_json_parsed, "should not indicate JsonParsed for binary accounts");
    assert_eq!(fallback_account.data, b"test data");
}

#[test]
fn structured_fallback_preserves_metadata() {
    let parsed_account = ParsedAccount {
        program: "spl-token".to_string(),
        parsed: token_account_json(),
        space: 165,
    };
    let ui_account = UiAccount {
        lamports: 2039280,
        data: UiAccountData::Json(parsed_account),
        owner: "TokenkegQfeZyiNwAJbNbGKPFXCWuBvf9Ss623VQ5DA".to_string(),
        executable: true,
        rent_epoch: 361,
        space: Some(165),
    };

    let (account, was_structured) = ui_account.try_decode_with_fallback::<Account>().unwrap();
    assert!(was_structured);
    assert_eq!(account.lamports, 2039280);
    assert!(account.executable);
    assert_eq!(account.rent_epoch, 361);
    assert_eq!(
        account.owner,
        Pubkey::parse("TokenkegQfeZyiNwAJbNbGKPFXCWuBvf9Ss623VQ5DA").unwrap()
    );
    assert_eq!(account.data, Vec::<u8>::new());
}

#[test]
fn malformed_base64_gives_no_fallback() {
    // The container is not structured, so a corrupt blob must propagate as
    // failure rather than fall back to an empty account.
    let ui_account = UiAccount {
        lamports: 42,
        data: UiAccountData::Binary("not-valid-b64!!".to_string(), UiAccountEncoding::Base64),
        owner: "11111111111111111111111111111111".to_string(),
        executable: false,
        rent_epoch: 0,
        space: None,
    };

    assert!(ui_account.data.decode().is_none());
    let strict: Option<Account> = ui_account.decode();
    assert!(strict.is_none());
    let fallback: Option<(Account, bool)> = ui_account.try_decode_with_fallback();
    assert!(fallback.is_none());
}

#[test]
fn malformed_owner_fails_both_modes() {
    // Address validity is non-negotiable: even with decodable data, a
    // malformed owner string yields nothing in either mode.
    let good_blob = base64::Engine::encode(&base64::prelude::BASE64_STANDARD, b"test data");
    let bad_owners = ["not base58 0OIl", "abc", ""];
    for owner in bad_owners {
        let ui_account = UiAccount {
            lamports: 1,
            data: UiAccountData::Binary(good_blob.clone(), UiAccountEncoding::Base64),
            owner: owner.to_string(),
            executable: false,
            rent_epoch: 0,
            space: None,
        };
        let strict: Option<Account> = ui_account.decode();
        assert!(strict.is_none());
        let fallback: Option<(Account, bool)> = ui_account.try_decode_with_fallback();
        assert!(fallback.is_none());
    }
}

#[test]
fn pubkey_parse_accepts_exactly_32_bytes() {
    // 32 '1' characters are the base58 form of 32 zero bytes.
    let zero = Pubkey::parse("11111111111111111111111111111111").unwrap();
    assert_eq!(zero.as_bytes(), &vec![0u8; 32]);

    let system_program = Pubkey::parse("TokenkegQfeZyiNwAJbNbGKPFXCWuBvf9Ss623VQ5DA").unwrap();
    assert_eq!(system_program.as_bytes().len(), 32);

    // Wrong decoded length: "abc" is valid base58 but far too short.
    assert!(Pubkey::parse("abc").is_none());
    // Characters outside the base58 alphabet.
    assert!(Pubkey::parse("0OIl000000000000000000000000000000000000000").is_none());
    // Too long: 50 '1's decode to 50 zero bytes.
    assert!(Pubkey::parse("11111111111111111111111111111111111111111111111111").is_none());
}

#[test]
fn data_slice_config_holds_its_fields() {
    let slice = UiDataSliceConfig { offset: 4, length: 16 };
    let same = UiDataSliceConfig { offset: 4, length: 16 };
    assert_eq!(slice, same);
    assert_eq!(slice.offset, 4);
    assert_eq!(slice.length, 16);
}
