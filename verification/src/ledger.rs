use vstd::prelude::*;

use core::str::FromStr;
use solana_sdk::message::Message;
use solana_sdk::pubkey::Pubkey;
use solana_sdk::signer::keypair::Keypair;
use solana_sdk::signer::Signer;
use solana_sdk::transaction::Transaction;

verus! {

#[verifier::external_type_specification]
#[verifier::external_body]
pub struct ExPubkey(Pubkey);

#[verifier::external_type_specification]
#[verifier::external_body]
pub struct ExKeypair(Keypair);

#[verifier::external_type_specification]
#[verifier::external_body]
pub struct ExHash(solana_sdk::hash::Hash);

#[verifier::external_type_specification]
#[verifier::external_body]
pub struct ExTransaction(Transaction);

/// A destination address that the ledger's parser did not accept.
#[derive(Debug, Clone, Copy, PartialEq, Eq)]
pub struct AddressParseError;

/// Whether the ledger's address parser accepts this text as an address: a
/// function of the characters alone.
pub uninterp spec fn address_ok(s: Seq<char>) -> bool;

/// Relies on Pubkey::from_str: parsing an address (base58 text of a 32-byte
/// key) succeeds or fails on the characters alone.
#[verifier::external_body]
fn pubkey_from_str(s: &str) -> (r: Option<Pubkey>)
    ensures
        r is Some <==> address_ok(s@),
{
    Pubkey::from_str(s).ok()
}

/// Parses a destination address, rejecting malformed input.
pub fn parse_destination(address: &str) -> (r: Result<Pubkey, AddressParseError>)
    ensures
        r is Ok <==> address_ok(address@),
{
    match pubkey_from_str(address) {
        Some(p) => Ok(p),
        None => Err(AddressParseError),
    }
}

/// Relies on Signer::pubkey to read the public half of a signing identity.
#[verifier::external_body]
fn keypair_pubkey(keypair: &Keypair) -> (r: Pubkey) {
    keypair.pubkey()
}

/// Relies on Pubkey's base58 rendering (its Display impl) for the address
/// text of a public key.
#[verifier::external_body]
fn pubkey_to_string(p: &Pubkey) -> (r: String) {
    p.to_string()
}

/// The source address of a signing identity: the base58 text of its public
/// key. The value is opaque to the verifier; the pipeline only carries it.
pub fn source_address(keypair: &Keypair) -> String {
    let p = keypair_pubkey(keypair);
    pubkey_to_string(&p)
}

/// Relies on system_instruction::transfer, Message::new and Transaction::new
/// to build and sign the single-instruction transfer of exactly the given
/// lamports. The three calls are taken together because only this
/// composition is total: with the source as sole payer and signer the
/// message holds at most three distinct account keys (Message::new aborts
/// above 256) and its one required signer is exactly the source (Transaction
/// signing aborts on any other signer).
#[verifier::external_body]
fn sign_transfer(
    source: &Keypair,
    destination: &Pubkey,
    lamports: u64,
    recent_anchor: solana_sdk::hash::Hash,
) -> (r: Transaction) {
    let from = source.pubkey();
    let instruction = solana_sdk::system_instruction::transfer(&from, destination, lamports);
    let message = Message::new(&[instruction], Some(&from));
    Transaction::new(&[source], message, recent_anchor)
}

/// Builds and signs a transfer of exactly `amount_lamports` from the signing
/// identity to the destination, anchored to the given recent value. The
/// transaction is opaque to the verifier; this function only fixes what the
/// builder is handed: the exact requested amount, and the source account as
/// payer and signer.
pub fn build_signed_transfer(
    source: &Keypair,
    destination: &Pubkey,
    amount_lamports: u64,
    recent_anchor: solana_sdk::hash::Hash,
) -> Transaction {
    sign_transfer(source, destination, amount_lamports, recent_anchor)
}

} // verus!
