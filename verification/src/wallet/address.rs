//! Addresses as the wallet reads them: from the text to the public key hash
//! that it stands for, by way of the bytes and their checksum.

use crate::crypto;
use crate::crypto::{base58_decoding, checksum4, is_base58_text, raw_address};
use crate::transaction::TxOut;
use crate::wallet::error::{Error, ErrorView};
use crate::wallet::Wallet;
use vstd::prelude::*;
use vstd::slice::slice_subrange;
use vstd::string::StringExecFns;

verus! {

pub const PUBLIC_KEY_HASH_LENGTH: usize = 20;

/// Version byte, public key hash and checksum.
pub const BASE58_DECODED_ADDRESS_LENGTH: usize = 25;

pub const CHECK_SUM_LENGTH: usize = 4;

/// The last four bytes of `slice`, if there are any before them.
pub open spec fn trailing_checksum(slice: Seq<u8>) -> Result<Seq<u8>, ErrorView> {
    if slice.len() > 4 {
        Ok(slice.subrange(slice.len() - 4, slice.len() as int))
    } else {
        Err(
            ErrorView::UnvalidAddressError(
                "Public key hash + version byte length is less than 4"@,
            ),
        )
    }
}

/// `slice` itself, if it has the length of a public key hash.
pub open spec fn hash_of_length(slice: Seq<u8>) -> Result<Seq<u8>, ErrorView> {
    if slice.len() == 20 {
        Ok(slice)
    } else {
        Err(
            ErrorView::UnvalidAddressError(
                "Public key hash length converted from the address you provided is not valid"@,
            ),
        )
    }
}

/// The public key hash inside `slice`, read as one version byte, the hash,
/// and the four-byte checksum of what stands before it.
pub open spec fn checked_hash(slice: Seq<u8>) -> Result<Seq<u8>, ErrorView> {
    match trailing_checksum(slice) {
        Err(e) => Err(e),
        Ok(checksum) => {
            let body = slice.subrange(0, slice.len() - 4);
            if checksum4(body) == checksum {
                hash_of_length(body.subrange(1, body.len() as int))
            } else {
                Err(ErrorView::UnvalidCheckSumError)
            }
        },
    }
}

/// The public key hash of an address, given what Base58 decoding made of
/// its text: the description of a refusal, or bytes.
pub open spec fn address_hash(decoded: Result<Seq<u8>, Seq<char>>) -> Result<Seq<u8>, ErrorView> {
    match decoded {
        Err(description) => Err(ErrorView::Base58Error(description)),
        Ok(raw) => if raw.len() == 25 {
            checked_hash(raw)
        } else {
            Err(ErrorView::UnvalidAddressError("Invalid Base58 decoded address length"@))
        },
    }
}

/// The output that pays `amount` to `address`.
pub open spec fn output_for(amount: [u8; 4], decoded: Result<Seq<u8>, Seq<char>>) -> Result<
    ([u8; 4], Seq<u8>),
    ErrorView,
> {
    match address_hash(decoded) {
        Ok(hash) => Ok((amount, hash)),
        Err(e) => Err(e),
    }
}

/// Whether the address `address` decodes, and to the public key hash `hash`.
pub open spec fn reads_as(address: Seq<char>, hash: Seq<u8>) -> bool {
    address_hash(base58_decoding(address)) == Ok::<Seq<u8>, ErrorView>(hash)
}

/// `byte` with the bit at position `bit` inverted.
pub open spec fn flip_bit(byte: u8, bit: u8) -> u8 {
    byte ^ (1u8 << bit)
}

/// What an address is: exactly 25 bytes whose last four are the checksum of
/// the 21 before them. The hash of such an address is what stands between
/// the version byte and the checksum.
pub proof fn lemma_address_is_its_checksum(raw: Seq<u8>)
    ensures
        address_hash(Ok(raw)) is Ok <==> raw.len() == 25 && checksum4(raw.subrange(0, 21))
            == raw.subrange(21, 25),
        address_hash(Ok(raw)) matches Ok(hash) ==> hash == raw.subrange(1, 21),
{
}

/// Decoding inverts encoding: the bytes of the address of a public key hash,
/// under any version byte, decode to that hash.
pub proof fn lemma_raw_address_reads_back(version: u8, hash: Seq<u8>)
    requires
        hash.len() == 20,
    ensures
        checked_hash(raw_address(version, hash)) matches Ok(found) && found == hash,
        address_hash(Ok(raw_address(version, hash))) matches Ok(found) && found == hash,
{
    let payload = seq![version] + hash;
    let raw = raw_address(version, hash);
    assert(raw.subrange(0, raw.len() - 4) =~= payload);
    assert(raw.subrange(raw.len() - 4, raw.len() as int) =~= checksum4(payload));
}

/// Bytes that are not 25 in number are refused for their length, whatever
/// they hold.
pub proof fn lemma_other_lengths_are_refused(raw: Seq<u8>)
    requires
        raw.len() != 25,
    ensures
        address_hash(Ok(raw)) matches Err(e) && e == ErrorView::UnvalidAddressError(
            "Invalid Base58 decoded address length"@,
        ),
{
}

/// One inverted bit is detected: if `raw` are the bytes of an address that
/// decodes, the same bytes with one bit inverted are refused for their
/// checksum. A bit of the checksum is always detected. A bit of the version
/// byte or of the hash is detected unless the four-byte checksum of the
/// changed bytes is the one of the unchanged bytes, which `requires` leaves
/// out.
pub proof fn lemma_flipped_bit_is_refused(raw: Seq<u8>, position: int, bit: u8)
    requires
        address_hash(Ok(raw)) is Ok,
        0 <= position < 25,
        bit < 8,
        position < 21 ==> checksum4(
            raw.update(position, flip_bit(raw[position], bit)).subrange(0, 21),
        ) != checksum4(raw.subrange(0, 21)),
    ensures
        address_hash(Ok(raw.update(position, flip_bit(raw[position], bit)))) matches Err(e) && e
            == ErrorView::UnvalidCheckSumError,
{
    let byte = raw[position];
    let flipped = raw.update(position, flip_bit(byte, bit));
    assert(flip_bit(byte, bit) != byte) by (bit_vector)
        requires
            bit < 8,
    ;
    if position < 21 {
        assert(flipped.subrange(21, 25) =~= raw.subrange(21, 25));
    } else {
        assert(flipped.subrange(0, 21) =~= raw.subrange(0, 21));
        assert(flipped.subrange(21, 25)[position - 21] != raw.subrange(21, 25)[position - 21]);
    }
}

/// A result as a mathematical value.
pub open spec fn view_result<T: View>(r: Result<T, Error>) -> Result<T::V, ErrorView> {
    match r {
        Ok(value) => Ok(value@),
        Err(e) => Err(e@),
    }
}

/// An output, or the failure to make one, as a mathematical value: the
/// amount and the public key hash.
pub open spec fn output_view(r: Result<TxOut, Error>) -> Result<([u8; 4], Seq<u8>), ErrorView> {
    match r {
        Ok(out) => Ok((out.value, out.public_key_hash@)),
        Err(e) => Err(e@),
    }
}

impl Wallet {
    /// The public key hash that the address `address` stands for. A text
    /// with a character outside the Base58 alphabet is refused as such; bytes
    /// that are not 25 in number are refused for their length; and bytes
    /// whose last four are not the checksum of the others, for their
    /// checksum.
    pub fn decode_address(address: &str) -> (r: Result<[u8; PUBLIC_KEY_HASH_LENGTH], Error>)
        ensures
            view_result(r) == address_hash(base58_decoding(address@)),
            r matches Err(Error::Base58Error(_)) <==> !is_base58_text(address@),
    {
        match crypto::base58_decode(address) {
            Err(description) => Err(Error::Base58Error(description)),
            Ok(slice) => {
                if slice.len() == BASE58_DECODED_ADDRESS_LENGTH {
                    Self::get_public_key_hash(slice.as_slice())
                } else {
                    Err(
                        Error::UnvalidAddressError(
                            String::from_str("Invalid Base58 decoded address length"),
                        ),
                    )
                }
            },
        }
    }

    /// The output that pays the amount `data.0` to the address `data.1`.
    pub fn create_vout(data: ([u8; 4], String)) -> (r: Result<TxOut, Error>)
        ensures
            output_view(r) == output_for(data.0, base58_decoding(data.1@)),
            r matches Err(Error::Base58Error(_)) <==> !is_base58_text(data.1@),
    {
        match Self::decode_address(data.1.as_str()) {
            Ok(public_key_hash) => Ok(TxOut::new(data.0, public_key_hash)),
            Err(e) => Err(e),
        }
    }

    /// The public key hash in `slice`, after its checksum has been checked.
    pub fn get_public_key_hash(slice: &[u8]) -> (r: Result<[u8; PUBLIC_KEY_HASH_LENGTH], Error>)
        ensures
            view_result(r) == checked_hash(slice@),
    {
        let checksum = match Self::get_checksum(slice) {
            Ok(checksum) => checksum,
            Err(e) => { return Err(e); },
        };
        let checksum_index: usize = slice.len() - CHECK_SUM_LENGTH;
        let body = slice_subrange(slice, 0, checksum_index);
        let expected = crypto::get_checksum(body);
        if expected[0] == checksum[0] && expected[1] == checksum[1] && expected[2] == checksum[2]
            && expected[3] == checksum[3] {
            assert(expected@ =~= checksum@);
            let payload = slice_subrange(slice, 1, checksum_index);
            assert(payload@ =~= body@.subrange(1, body@.len() as int));
            return Self::get_public_key_hash_from_slice(payload);
        }
        Err(Error::UnvalidCheckSumError)
    }

    /// The last four bytes of `slice`.
    pub fn get_checksum(slice: &[u8]) -> (r: Result<[u8; CHECK_SUM_LENGTH], Error>)
        ensures
            view_result(r) == trailing_checksum(slice@),
    {
        if slice.len() > CHECK_SUM_LENGTH {
            let check_sum_index: usize = slice.len() - CHECK_SUM_LENGTH;
            let checksum: [u8; 4] = [
                slice[check_sum_index],
                slice[check_sum_index + 1],
                slice[check_sum_index + 2],
                slice[check_sum_index + 3],
            ];
            assert(checksum@ =~= slice@.subrange(slice@.len() - 4, slice@.len() as int));
            return Ok(checksum);
        }
        Err(
            Error::UnvalidAddressError(
                String::from_str("Public key hash + version byte length is less than 4"),
            ),
        )
    }

    /// `slice` as a public key hash, if it has the length of one.
    pub fn get_public_key_hash_from_slice(slice: &[u8]) -> (r: Result<
        [u8; PUBLIC_KEY_HASH_LENGTH],
        Error,
    >)
        ensures
            view_result(r) == hash_of_length(slice@),
    {
        if slice.len() == PUBLIC_KEY_HASH_LENGTH {
            let mut public_key_hash = [0u8; PUBLIC_KEY_HASH_LENGTH];
            let mut i: usize = 0;
            while i < PUBLIC_KEY_HASH_LENGTH
                invariant
                    i <= 20,
                    slice@.len() == 20,
                    forall|k: int| 0 <= k < i ==> public_key_hash@[k] == slice@[k],
                decreases 20 - i,
            {
                public_key_hash[i] = slice[i];
                i += 1;
            }
            assert(public_key_hash@ =~= slice@);
            return Ok(public_key_hash);
        }
        Err(
            Error::UnvalidAddressError(
                String::from_str(
                    "Public key hash length converted from the address you provided is not valid",
                ),
            ),
        )
    }
}

} // verus!
