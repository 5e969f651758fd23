use ledger_wallet::crypto::{address_from_hash, get_checksum};
use ledger_wallet::transaction::TxOut;
use ledger_wallet::wallet::error::Error;
use ledger_wallet::wallet::address::{
    BASE58_DECODED_ADDRESS_LENGTH, CHECK_SUM_LENGTH, PUBLIC_KEY_HASH_LENGTH,
};
use ledger_wallet::wallet::Wallet;

const ADDRESS: &str = "1BgGZ9tcN4rm9KBzDn7KprQz87SZ26SAMH";

fn address_hash() -> [u8; 20] {
    let mut hash = [0u8; 20];
    hash.copy_from_slice(&hex::decode("751e76e8199196d454941c45d1b3a323f1433bd6").unwrap());
    hash
}

fn address_bytes() -> Vec<u8> {
    let mut raw = vec![0u8];
    raw.extend_from_slice(&address_hash());
    raw.extend_from_slice(&[0x51, 0x0d, 0x16, 0x34]);
    raw
}

fn length_error() -> Error {
    Error::UnvalidAddressError(String::from("Invalid Base58 decoded address length"))
}

#[test]
fn lengths_of_an_address() {
    assert_eq!(PUBLIC_KEY_HASH_LENGTH, 20);
    assert_eq!(BASE58_DECODED_ADDRESS_LENGTH, 25);
    assert_eq!(CHECK_SUM_LENGTH, 4);
}

#[test]
fn known_address_decodes_to_its_hash() {
    assert_eq!(Wallet::decode_address(ADDRESS), Ok(address_hash()));
}

#[test]
fn decoding_inverts_encoding() {
    let mut hash = [0u8; 20];
    for version in [0u8, 1, 5, 111, 128, 255] {
        for seed in 0u8..20 {
            for (i, byte) in hash.iter_mut().enumerate() {
                *byte = seed.wrapping_mul(37).wrapping_add((i as u8).wrapping_mul(11)) ^ version;
            }
            let address = address_from_hash(version, &hash);
            assert_eq!(Wallet::decode_address(&address), Ok(hash));
        }
    }
    assert_eq!(Wallet::decode_address(&address_from_hash(0, &[0u8; 20])), Ok([0u8; 20]));
    assert_eq!(Wallet::decode_address(&address_from_hash(255, &[255u8; 20])), Ok([255u8; 20]));
}

#[test]
fn every_flipped_bit_of_an_address_is_caught() {
    let raw = address_bytes();
    assert_eq!(Wallet::get_public_key_hash(&raw), Ok(address_hash()));
    for position in 0..raw.len() {
        for bit in 0..8 {
            let mut flipped = raw.clone();
            flipped[position] ^= 1 << bit;
            assert_eq!(Wallet::get_public_key_hash(&flipped), Err(Error::UnvalidCheckSumError));
            let text = bs58::encode(&flipped).into_string();
            assert_eq!(Wallet::decode_address(&text), Err(Error::UnvalidCheckSumError));
        }
    }
}

#[test]
fn corrupted_fifth_byte_is_a_checksum_error() {
    let mut raw = address_bytes();
    raw[4] ^= 0xff;
    let text = bs58::encode(&raw).into_string();
    assert_eq!(text, "1BgGYw3D8HZgJzzxUvJhxTeZBqfYT4YtXu");
    let decoded = Wallet::decode_address(&text);
    assert_eq!(decoded, Err(Error::UnvalidCheckSumError));
    assert_ne!(decoded, Ok(address_hash()));
}

#[test]
fn shorter_and_longer_addresses_are_refused_for_their_length() {
    let raw = address_bytes();
    let shorter = bs58::encode(&raw[..24]).into_string();
    assert_eq!(Wallet::decode_address(&shorter), Err(length_error()));
    let mut longer = raw.clone();
    longer.push(0);
    let longer = bs58::encode(&longer).into_string();
    assert_eq!(longer, "1p8KevEo5z2dqhHVZQ6v6D6s8PRnKpz4GVd");
    assert_eq!(Wallet::decode_address(&longer), Err(length_error()));
    assert_eq!(Wallet::decode_address(""), Err(length_error()));
    assert_eq!(Wallet::decode_address("1"), Err(length_error()));
    assert_eq!(Wallet::decode_address("2g"), Err(length_error()));
}

#[test]
fn length_is_examined_before_the_checksum() {
    // 26 bytes whose last four are the checksum of the first 22
    let mut raw = vec![7u8; 22];
    let checksum = get_checksum(&raw);
    raw.extend_from_slice(&checksum);
    let text = bs58::encode(&raw).into_string();
    assert_eq!(Wallet::decode_address(&text), Err(length_error()));
}

#[test]
fn characters_outside_the_alphabet_are_refused() {
    for text in ["0BgGZ9tcN4rm9KBzDn7KprQz87SZ26SAMH", "O", "I", "l", "1BgG Z9", "abc-def", "é"] {
        match Wallet::decode_address(text) {
            Err(Error::Base58Error(description)) => assert!(!description.is_empty()),
            other => panic!("{:?}", other),
        }
    }
}

#[test]
fn description_of_a_refused_character_is_the_decoder_s() {
    let expected = bs58::decode("0").into_vec().unwrap_err().to_string();
    assert_eq!(Wallet::decode_address("0"), Err(Error::Base58Error(expected)));
}

#[test]
fn trailing_checksum_of_a_slice() {
    assert_eq!(Wallet::get_checksum(&[1, 2, 3, 4, 5]), Ok([2, 3, 4, 5]));
    assert_eq!(Wallet::get_checksum(&address_bytes()), Ok([0x51, 0x0d, 0x16, 0x34]));
    let short = Error::UnvalidAddressError(String::from(
        "Public key hash + version byte length is less than 4",
    ));
    assert_eq!(Wallet::get_checksum(&[1, 2, 3, 4]), Err(short.clone()));
    assert_eq!(Wallet::get_checksum(&[]), Err(short));
}

#[test]
fn hash_from_a_slice_of_twenty_bytes() {
    let bytes: Vec<u8> = (0u8..20).collect();
    let mut expected = [0u8; 20];
    expected.copy_from_slice(&bytes);
    assert_eq!(Wallet::get_public_key_hash_from_slice(&bytes), Ok(expected));
    let wrong = Error::UnvalidAddressError(String::from(
        "Public key hash length converted from the address you provided is not valid",
    ));
    assert_eq!(Wallet::get_public_key_hash_from_slice(&bytes[..19]), Err(wrong.clone()));
    assert_eq!(Wallet::get_public_key_hash_from_slice(&[0u8; 21]), Err(wrong.clone()));
    assert_eq!(Wallet::get_public_key_hash_from_slice(&[]), Err(wrong));
}

#[test]
fn checked_hash_of_slices_of_any_length() {
    assert_eq!(Wallet::get_public_key_hash(&address_bytes()), Ok(address_hash()));
    // too short to hold a checksum
    assert_eq!(
        Wallet::get_public_key_hash(&[1, 2, 3]),
        Err(Error::UnvalidAddressError(String::from(
            "Public key hash + version byte length is less than 4"
        )))
    );
    // a good checksum over a payload of the wrong length
    let mut raw = vec![9u8; 10];
    let checksum = get_checksum(&raw);
    raw.extend_from_slice(&checksum);
    assert_eq!(
        Wallet::get_public_key_hash(&raw),
        Err(Error::UnvalidAddressError(String::from(
            "Public key hash length converted from the address you provided is not valid"
        )))
    );
    // a bad checksum is found before the wrong length
    raw[13] ^= 1;
    assert_eq!(Wallet::get_public_key_hash(&raw), Err(Error::UnvalidCheckSumError));
}

#[test]
fn output_for_an_amount_and_an_address() {
    let amount = 1.5f32.to_ne_bytes();
    assert_eq!(
        Wallet::create_vout((amount, String::from(ADDRESS))),
        Ok(TxOut::new(amount, address_hash()))
    );
    assert_eq!(
        Wallet::create_vout((amount, String::from("1BgGZ9tcN4rm9KBzDn7KprQz87SZ26SAMJ"))),
        Err(Error::UnvalidCheckSumError)
    );
    assert_eq!(Wallet::create_vout((amount, String::from("11"))), Err(length_error()));
    assert!(matches!(
        Wallet::create_vout((amount, String::from("not an address"))),
        Err(Error::Base58Error(_))
    ));
}

#[test]
fn flipped_bit_that_keeps_the_checksum_is_not_caught() {
    // two hashes that differ in one bit and have the same four-byte checksum
    let mut hash = [0u8; 20];
    hash[0] = 0x0e;
    hash[1] = 0xca;
    hash[2] = 0xf7;
    hash[3] = 0xe3;
    hash[19] = 0x5a;
    let mut flipped = hash;
    flipped[1] ^= 0x04;
    let address = address_from_hash(0, &hash);
    assert_eq!(address, "12MDcAunackUEkM9Miv49oCMKXyGrXHouy");
    let mut raw = bs58::decode(&address).into_vec().unwrap();
    assert_eq!(raw[21..], [0x89, 0x82, 0x3a, 0x38]);
    raw[2] ^= 0x04;
    assert_eq!(Wallet::get_public_key_hash(&raw), Ok(flipped));
    let text = bs58::encode(&raw).into_string();
    assert_eq!(text, "12MJQ6Z4GsQkH39u5UHYXX9rd9aWUoAjBd");
    assert_eq!(Wallet::decode_address(&text), Ok(flipped));
}
