use vstd::prelude::*;
use vstd::string::*;

verus! {

/// Why a signing-identity reference could not be resolved: the
/// home-directory shorthand was used but no home directory is known, the key
/// file's text is not a JSON byte array, the array has the wrong length, or
/// the bytes are not valid key material.
#[derive(Debug, Clone, Copy, PartialEq, Eq)]
pub enum KeyResolutionError {
    HomeDirUnavailable,
    MalformedKeyFile,
    WrongKeyLength,
    InvalidKeyMaterial,
}

/// Expected byte length of serialized key material: the secret half followed
/// by the public half, 32 bytes each.
pub const KEYPAIR_BYTES_LEN: usize = 64;

/// Whether a signing-identity reference uses the home-directory shorthand
/// `~/`.
pub open spec fn home_shorthand(path: Seq<char>) -> bool {
    path.len() >= 2 && path[0] == '~' && path[1] == '/'
}

/// The path a reference resolves to against a given home directory: the
/// shorthand prefix `~` is replaced by the home directory, any other
/// reference is used literally.
pub open spec fn expanded_path(path: Seq<char>, home: Seq<char>) -> Seq<char> {
    if home_shorthand(path) {
        home + seq!['/'] + path.skip(2)
    } else {
        path
    }
}

/// Rewrites a signing-identity reference against the given home directory:
/// `~/rest` becomes `home/rest`, anything else is kept as it is. Fails only
/// when the shorthand is used and no home directory is known.
pub fn expand_key_path(path: &str, home: &Option<String>) -> (r: Result<String, KeyResolutionError>)
    ensures
        match r {
            Ok(p) => if home_shorthand(path@) {
                (*home) matches Some(h) && p@ == expanded_path(path@, h@)
            } else {
                p@ == path@
            },
            Err(e) => e == KeyResolutionError::HomeDirUnavailable && home_shorthand(path@)
                && (*home) is None,
        },
{
    let n = path.unicode_len();
    let shorthand = n >= 2 && path.get_char(0) == '~' && path.get_char(1) == '/';
    if shorthand {
        match home {
            Some(h) => {
                let mut out = h.clone();
                out.append("/");
                let rest = path.substring_char(2, n);
                let result = out.concat(rest);
                proof {
                    reveal_strlit("/");
                    assert(("/")@ =~= seq!['/']);
                    assert(result@ =~= expanded_path(path@, h@));
                }
                Ok(result)
            },
            None => Err(KeyResolutionError::HomeDirUnavailable),
        }
    } else {
        Ok(path.to_owned())
    }
}

/// Relies on dirs::home_dir for the caller's home directory. The result
/// depends on the environment, so nothing is promised of it.
#[verifier::external_body]
fn lookup_home_dir() -> (r: Option<String>) {
    dirs::home_dir().map(|p| p.to_string_lossy().into_owned())
}

/// Resolves a signing-identity reference to the filesystem path holding the
/// key material, substituting the caller's home directory for the `~/`
/// shorthand. A reference without the shorthand is always used literally;
/// failure can only mean the shorthand was used with no home directory
/// known.
pub fn resolve_key_path(path: &str) -> (r: Result<String, KeyResolutionError>)
    ensures
        !home_shorthand(path@) ==> (r matches Ok(p) && p@ == path@),
        r matches Err(e) ==> e == KeyResolutionError::HomeDirUnavailable && home_shorthand(path@),
        home_shorthand(path@) ==> (r matches Ok(p) ==> exists|h: Seq<char>|
            p@ == expanded_path(path@, h)),
{
    let home = lookup_home_dir();
    let r = expand_key_path(path, &home);
    proof {
        if home_shorthand(path@) {
            match &r {
                Ok(p) => {
                    match &home {
                        Some(h) => {
                            assert(p@ == expanded_path(path@, h@));
                        },
                        None => {},
                    }
                },
                Err(_) => {},
            }
        }
    }
    r
}

/// What serde_json parses a key file's text into, when the text is a JSON
/// array of bytes: a function of the text alone.
pub uninterp spec fn parsed_key_bytes(s: Seq<char>) -> Option<Seq<u8>>;

/// Relies on serde_json::from_str::<Vec<u8>> to parse the JSON byte array in
/// a key file; whether it parses, and into what, depends on the text alone.
#[verifier::external_body]
fn parse_json_bytes(contents: &str) -> (r: Option<Vec<u8>>)
    ensures
        r is Some <==> parsed_key_bytes(contents@) is Some,
        r matches Some(v) ==> parsed_key_bytes(contents@) == Some(v@),
{
    serde_json::from_str::<Vec<u8>>(contents).ok()
}

/// Whether Keypair::from_bytes accepts these bytes as serialized key
/// material: a function of the bytes alone.
pub uninterp spec fn keypair_bytes_ok(bytes: Seq<u8>) -> bool;

/// Relies on Keypair::from_bytes to rebuild a signing identity from
/// serialized bytes; success depends on the bytes alone.
#[verifier::external_body]
fn keypair_from_bytes(bytes: &Vec<u8>) -> (r: Option<solana_sdk::signer::keypair::Keypair>)
    ensures
        r is Some <==> keypair_bytes_ok(bytes@),
{
    solana_sdk::signer::keypair::Keypair::from_bytes(bytes.as_slice()).ok()
}

/// Parses the text of a key file into a signing identity. The text must be a
/// JSON byte array of exactly `KEYPAIR_BYTES_LEN` bytes holding valid key
/// material; each error names the first of these conditions that failed.
pub fn parse_key_material(contents: &str) -> (r: Result<
    solana_sdk::signer::keypair::Keypair,
    KeyResolutionError,
>)
    ensures
        match r {
            Ok(_) => parsed_key_bytes(contents@) matches Some(b) && b.len() == KEYPAIR_BYTES_LEN
                && keypair_bytes_ok(b),
            Err(e) => match e {
                KeyResolutionError::MalformedKeyFile => parsed_key_bytes(contents@) is None,
                KeyResolutionError::WrongKeyLength => parsed_key_bytes(contents@) matches Some(b)
                    && b.len() != KEYPAIR_BYTES_LEN,
                KeyResolutionError::InvalidKeyMaterial => parsed_key_bytes(contents@) matches Some(
                    b,
                ) && b.len() == KEYPAIR_BYTES_LEN && !keypair_bytes_ok(b),
                KeyResolutionError::HomeDirUnavailable => false,
            },
        },
{
    match parse_json_bytes(contents) {
        None => Err(KeyResolutionError::MalformedKeyFile),
        Some(bytes) => {
            if bytes.len() != KEYPAIR_BYTES_LEN {
                Err(KeyResolutionError::WrongKeyLength)
            } else {
                match keypair_from_bytes(&bytes) {
                    Some(keypair) => Ok(keypair),
                    None => Err(KeyResolutionError::InvalidKeyMaterial),
                }
            }
        },
    }
}

} // verus!
