//! Bitcoin public-key handling.

use vstd::prelude::*;

use crate::errors::ChainGuardError;
use crate::text::{decimal, decimal_text};

verus! {

/// Error text for a key of the wrong length.
pub const KEY_LENGTH_MESSAGE: &'static str = "Public key must be 65 bytes for compression";

/// Error text for an uncompressed key without the 0x04 prefix.
pub const KEY_PREFIX_MESSAGE: &'static str = "Invalid uncompressed public key prefix";

/// Start of the error text when no key can be found in a DER encoding; the
/// length and a closing parenthesis follow.
pub const DER_MESSAGE_PREFIX: &'static str = "Could not extract public key from DER encoding (length: ";

/// The compressed form of an uncompressed key `0x04 || x || y`: the prefix
/// 0x02 for an even `y`, 0x03 for an odd one, then `x`.
pub open spec fn compressed_form(key: Seq<u8>) -> Seq<u8> {
    seq![if key[64] % 2 == 0 { 0x02u8 } else { 0x03u8 }] + key.subrange(1, 33)
}

/// Whether position `pos` holds the first 0x04 byte of `bytes`.
pub open spec fn first_point_marker(bytes: Seq<u8>, pos: int) -> bool {
    &&& 0 <= pos < bytes.len()
    &&& bytes[pos] == 0x04u8
    &&& forall|k: int| 0 <= k < pos ==> bytes[k] != 0x04u8
}

/// The public key found in a DER-encoded key, if any: the 65 bytes from the
/// first 0x04 byte when that many remain, else the whole input when it is
/// already a 65-byte uncompressed or 33-byte compressed key.
pub open spec fn key_in_der(bytes: Seq<u8>) -> Option<Seq<u8>> {
    if exists|pos: int| first_point_marker(bytes, pos) && pos + 65 <= bytes.len() {
        let pos = choose|pos: int| first_point_marker(bytes, pos) && pos + 65 <= bytes.len();
        Some(bytes.subrange(pos, pos + 65))
    } else if bytes.len() == 65 && bytes[0] == 0x04u8 {
        Some(bytes)
    } else if bytes.len() == 33 && (bytes[0] == 0x02u8 || bytes[0] == 0x03u8) {
        Some(bytes)
    } else {
        None
    }
}

/// Bitcoin address derivation utilities.
pub struct BitcoinAddress;

impl BitcoinAddress {
    /// Extracts the EC point from a DER-encoded public key (a SEQUENCE of
    /// the algorithm identifiers and a BIT STRING holding `0x04 || x || y`).
    pub fn extract_public_key_from_der(der_key: &[u8]) -> (result: Result<Vec<u8>, ChainGuardError>)
        ensures
            match (result, key_in_der(der_key@)) {
                (Ok(key), Some(expected)) => key@ == expected,
                (Err(ChainGuardError::InvalidInput { msg }), None) => msg@ == DER_MESSAGE_PREFIX@
                    + decimal_text(der_key@.len()) + ")"@,
                _ => false,
            },
    {
        let n = der_key.len();
        let mut pos: usize = 0;
        while pos < n && der_key[pos] != 0x04
            invariant
                n == der_key@.len(),
                pos <= n,
                forall|k: int| 0 <= k < pos ==> der_key@[k] != 0x04u8,
            decreases n - pos,
        {
            pos = pos + 1;
        }
        proof {
            if exists|p: int| first_point_marker(der_key@, p) && p + 65 <= der_key@.len() {
                let p = choose|p: int| first_point_marker(der_key@, p) && p + 65 <= der_key@.len();
                if p < pos {
                    assert(der_key@[p] != 0x04u8);
                } else if p > pos {
                    assert(der_key@[pos as int] != 0x04u8);
                }
            }
        }
        if pos < n && n - pos >= 65 {
            assert(first_point_marker(der_key@, pos as int));
            return Ok(copy_range(der_key, pos, pos + 65));
        }
        if n == 65 && der_key[0] == 0x04 {
            return Ok(copy_range(der_key, 0, n));
        }
        if n == 33 && (der_key[0] == 0x02 || der_key[0] == 0x03) {
            return Ok(copy_range(der_key, 0, n));
        }
        let mut msg = String::from_str(DER_MESSAGE_PREFIX);
        msg.append(decimal(n as u64).as_str());
        msg.append(")");
        Err(ChainGuardError::InvalidInput { msg })
    }

    /// Compresses an uncompressed 65-byte public key to 33 bytes.
    pub fn compress_public_key(pubkey: &[u8]) -> (result: Result<Vec<u8>, ChainGuardError>)
        ensures
            pubkey@.len() != 65 ==> (result matches Err(ChainGuardError::InvalidInput { msg }) && msg@
                == KEY_LENGTH_MESSAGE@),
            pubkey@.len() == 65 && pubkey@[0] != 0x04u8 ==> (result matches Err(
                ChainGuardError::InvalidInput { msg },
            ) && msg@ == KEY_PREFIX_MESSAGE@),
            pubkey@.len() == 65 && pubkey@[0] == 0x04u8 ==> (result matches Ok(key) && key@
                == compressed_form(pubkey@)),
    {
        if pubkey.len() != 65 {
            return Err(ChainGuardError::InvalidInput { msg: String::from_str(KEY_LENGTH_MESSAGE) });
        }
        if pubkey[0] != 0x04 {
            return Err(ChainGuardError::InvalidInput { msg: String::from_str(KEY_PREFIX_MESSAGE) });
        }
        let prefix: u8 = if pubkey[64] % 2 == 0 {
            0x02
        } else {
            0x03
        };
        let mut compressed: Vec<u8> = Vec::new();
        compressed.push(prefix);
        let mut i: usize = 1;
        while i < 33
            invariant
                1 <= i <= 33,
                pubkey@.len() == 65,
                compressed@ == seq![prefix] + pubkey@.subrange(1, i as int),
            decreases 33 - i,
        {
            compressed.push(pubkey[i]);
            i = i + 1;
            assert(compressed@ =~= seq![prefix] + pubkey@.subrange(1, i as int));
        }
        Ok(compressed)
    }
}

/// The bytes of `bytes` from `from` up to `to`.
fn copy_range(bytes: &[u8], from: usize, to: usize) -> (r: Vec<u8>)
    requires
        from <= to <= bytes@.len(),
    ensures
        r@ == bytes@.subrange(from as int, to as int),
{
    let mut r: Vec<u8> = Vec::new();
    let mut i: usize = from;
    while i < to
        invariant
            from <= i <= to,
            to <= bytes@.len(),
            r@ == bytes@.subrange(from as int, i as int),
        decreases to - i,
    {
        r.push(bytes[i]);
        i = i + 1;
        assert(r@ =~= bytes@.subrange(from as int, i as int));
    }
    r
}

} // verus!
