//! Calls into the content-hashing and address-format crates.
use vstd::prelude::*;

verus! {

/// The SHA2-256 multihash of `input`: code byte, length byte, digest.
pub uninterp spec fn sha2_256_multihash(input: Seq<u8>) -> Seq<u8>;

/// The binary form of the multiaddress written `text`, when `text` is one.
pub uninterp spec fn multiaddr_bytes(text: Seq<char>) -> Option<Seq<u8>>;

/// Relies on `multihash::encode` with `Hash::SHA2256`: it writes the code
/// 0x12, the digest size 32 and the 32-byte digest, and fails only for hash
/// types it does not support, which SHA2-256 is not.
#[verifier::external_body]
pub(crate) fn multihash_sha2_256(input: &[u8]) -> (r: Vec<u8>)
    ensures
        r@ == sha2_256_multihash(input@),
        r@.len() == 34,
        r@[0] == 0x12,
        r@[1] == 32,
{
    match multihash::encode(multihash::Hash::SHA2256, input) {
        Ok(v) => v,
        Err(_) => Vec::new(),
    }
}

/// Relies on `<multiaddr::Multiaddr as FromStr>::from_str` and
/// `Multiaddr::to_vec`: the text is parsed into its binary form, and text
/// that does not start with `/` is refused.
#[verifier::external_body]
pub(crate) fn parse_multiaddr(text: &str) -> (r: Option<Vec<u8>>)
    ensures
        match r {
            Some(v) => multiaddr_bytes(text@) == Some(v@),
            None => multiaddr_bytes(text@) is None,
        },
        text@.len() > 0 && text@[0] != '/' ==> r is None,
{
    match text.parse::<multiaddr::Multiaddr>() {
        Ok(a) => Some(a.to_vec()),
        Err(_) => None,
    }
}

} // verus!
