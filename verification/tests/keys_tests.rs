use sol_batch::keys::{
    expand_key_path, parse_key_material, resolve_key_path, KeyResolutionError, KEYPAIR_BYTES_LEN,
};
use sol_batch::ledger::{build_signed_transfer, parse_destination, source_address};
use sol_batch::models::{Args, Config, Transfer};
use solana_sdk::signer::keypair::Keypair;
use solana_sdk::signer::Signer;

#[test]
fn home_shorthand_is_substituted() {
    let home = Some(String::from("/home/payer"));
    let expanded = expand_key_path("~/wallet.json", &home).expect("home is known");
    assert_eq!(expanded, "/home/payer/wallet.json");
}

#[test]
fn literal_path_is_kept_as_it_is() {
    let home = Some(String::from("/home/payer"));
    let expanded = expand_key_path("/etc/keys/wallet.json", &home).expect("literal path");
    assert_eq!(expanded, "/etc/keys/wallet.json");
    let no_home: Option<String> = None;
    let expanded = expand_key_path("relative/wallet.json", &no_home).expect("literal path");
    assert_eq!(expanded, "relative/wallet.json");
}

#[test]
fn shorthand_without_home_directory_fails() {
    let no_home: Option<String> = None;
    let err = expand_key_path("~/wallet.json", &no_home).expect_err("no home directory");
    assert_eq!(err, KeyResolutionError::HomeDirUnavailable);
}

#[test]
fn resolving_a_literal_reference_never_touches_home() {
    let resolved = resolve_key_path("/etc/keys/wallet.json").expect("literal path");
    assert_eq!(resolved, "/etc/keys/wallet.json");
}

#[test]
fn valid_key_file_round_trips_to_same_identity() {
    let keypair = Keypair::new();
    let bytes: Vec<u8> = keypair.to_bytes().to_vec();
    let text = serde_json::to_string(&bytes).expect("byte array serializes");
    let parsed = parse_key_material(&text).expect("valid key material");
    assert_eq!(parsed.to_bytes(), keypair.to_bytes());
    assert_eq!(source_address(&parsed), keypair.pubkey().to_string());
}

#[test]
fn text_that_is_not_a_json_byte_array_is_malformed() {
    let err = parse_key_material("not json at all").expect_err("malformed");
    assert_eq!(err, KeyResolutionError::MalformedKeyFile);
    let err = parse_key_material("{\"key\": 1}").expect_err("malformed");
    assert_eq!(err, KeyResolutionError::MalformedKeyFile);
}

#[test]
fn short_byte_array_has_wrong_length() {
    let err = parse_key_material("[1, 2, 3]").expect_err("wrong length");
    assert_eq!(err, KeyResolutionError::WrongKeyLength);
}

#[test]
fn sixty_four_zero_bytes_are_not_valid_key_material() {
    let zeros = vec![0u8; KEYPAIR_BYTES_LEN];
    let text = serde_json::to_string(&zeros).expect("byte array serializes");
    let err = parse_key_material(&text).expect_err("invalid material");
    assert_eq!(err, KeyResolutionError::InvalidKeyMaterial);
}

#[test]
fn well_formed_address_parses() {
    let system_program = "11111111111111111111111111111111";
    let pubkey = parse_destination(system_program).expect("valid address");
    assert_eq!(pubkey.to_string(), system_program);
}

#[test]
fn malformed_address_is_rejected() {
    assert!(parse_destination("not-an-address!").is_err());
    assert!(parse_destination("").is_err());
}

#[test]
fn signed_transfer_carries_one_signature() {
    let keypair = Keypair::new();
    let destination = parse_destination("11111111111111111111111111111111").expect("valid");
    let anchor = solana_sdk::hash::Hash::default();
    let tx = build_signed_transfer(&keypair, &destination, 1_000, anchor);
    assert_eq!(tx.signatures.len(), 1);
    assert_eq!(tx.message.instructions.len(), 1);
}

#[test]
fn manifest_types_hold_plain_values() {
    let config = Config {
        transfers: vec![Transfer {
            sender_keypair_path: String::from("~/wallet.json"),
            receiver_address: String::from("11111111111111111111111111111111"),
            amount_lamports: 2_500_000_000,
        }],
        rpc_url: String::from("http://localhost:8899"),
    };
    assert_eq!(config.transfers.len(), 1);
    assert_eq!(config.transfers[0].amount_lamports, 2_500_000_000);
    let args = Args { config: String::from("config.yaml") };
    assert_eq!(args.config, "config.yaml");
}
