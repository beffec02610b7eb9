use transfer_contract::cpi::AccountMeta;
use transfer_contract::instructions::deposit_from_user::call_relay_send;
use transfer_contract::instructions::deposit_from_user::encode_evm_message;
use transfer_contract::instructions::deposit_from_user::LAYERZERO_OAPP_PROGRAM_ID;
use transfer_contract::instructions::deposit_from_user::RELAY_SEND_DISCRIMINATOR;
use transfer_contract::instructions::deposit_from_user::TAG_TOKEN_PAYOUT;
use transfer_contract::state::Pubkey;
use transfer_contract::wire::u64_to_be_bytes;

fn key(n: u8) -> Pubkey {
    Pubkey { bytes: [n; 32] }
}

#[test]
fn payout_message_has_four_words() {
    let dst = [0x11u8; 32];
    let merchant = [0x22u8; 32];
    let message = encode_evm_message(101, &dst, &merchant, 0x0102_0304_0506_0708);
    assert_eq!(message.len(), 128);
    assert_eq!(&message[0..31], &[0u8; 31][..]);
    assert_eq!(message[31], 101);
    assert_eq!(&message[32..64], &dst[..]);
    assert_eq!(&message[64..96], &merchant[..]);
    assert_eq!(&message[96..120], &[0u8; 24][..]);
    assert_eq!(&message[120..128], &[1u8, 2, 3, 4, 5, 6, 7, 8][..]);
}

#[test]
fn payout_tag_is_101() {
    assert_eq!(TAG_TOKEN_PAYOUT, 101);
    let message = encode_evm_message(TAG_TOKEN_PAYOUT, &[0u8; 32], &[0u8; 32], 0);
    assert_eq!(message[31], 0x65);
}

#[test]
fn payout_amount_reads_back_as_big_endian() {
    for amount in [0u64, 1, 255, 256, 1_000_000, 0x0123_4567_89ab_cdef, u64::MAX - 1, u64::MAX] {
        let message = encode_evm_message(101, &[7u8; 32], &[9u8; 32], amount);
        assert_eq!(message.len(), 128);
        let mut low = [0u8; 8];
        low.copy_from_slice(&message[120..128]);
        assert_eq!(u64::from_be_bytes(low), amount);
        let mut high = [0u8; 16];
        high.copy_from_slice(&message[96..112]);
        assert_eq!(u128::from_be_bytes(high), 0);
        assert_eq!(&message[112..120], &[0u8; 8][..]);
    }
}

#[test]
fn payout_message_is_the_same_on_every_call() {
    let first = encode_evm_message(101, &[3u8; 32], &[4u8; 32], 42);
    let second = encode_evm_message(101, &[3u8; 32], &[4u8; 32], 42);
    assert_eq!(first, second);
}

#[test]
fn big_endian_bytes_of_a_value() {
    assert_eq!(u64_to_be_bytes(0), [0u8; 8]);
    assert_eq!(u64_to_be_bytes(1), [0, 0, 0, 0, 0, 0, 0, 1]);
    assert_eq!(u64_to_be_bytes(0x0102_0304_0506_0708), [1, 2, 3, 4, 5, 6, 7, 8]);
    assert_eq!(u64_to_be_bytes(u64::MAX), [0xff; 8]);
    assert_eq!(u64_to_be_bytes(0xdead_beef), 0xdead_beefu64.to_be_bytes());
}

#[test]
fn relay_call_data_is_framed_field_by_field() {
    let call = call_relay_send(
        &key(1),
        &key(2),
        &key(3),
        &key(4),
        &key(5),
        &key(6),
        0x0a0b_0c0d,
        vec![0x00, 0x9f, 0xab],
        vec![0xee, 0xff],
        0x0102_0304_0506_0708,
        7,
        254,
        key(8),
    )
    .unwrap();
    let mut expected: Vec<u8> = vec![152, 242, 87, 43, 84, 188, 143, 155];
    expected.extend_from_slice(&[0x0d, 0x0c, 0x0b, 0x0a]);
    expected.extend_from_slice(&[8, 0, 0, 0]);
    expected.extend_from_slice(b"0x009fab");
    expected.extend_from_slice(&[2, 0, 0, 0]);
    expected.extend_from_slice(&[0xee, 0xff]);
    expected.extend_from_slice(&[8, 7, 6, 5, 4, 3, 2, 1]);
    expected.extend_from_slice(&[7, 0, 0, 0, 0, 0, 0, 0]);
    assert_eq!(call.instruction.data, expected);
    assert_eq!(&call.instruction.data[0..8], &RELAY_SEND_DISCRIMINATOR[..]);
}

#[test]
fn relay_call_names_its_accounts_and_signer() {
    let call = call_relay_send(
        &key(1),
        &key(2),
        &key(3),
        &key(4),
        &key(5),
        &key(6),
        30101,
        vec![1, 2, 3],
        vec![],
        1_000_000,
        0,
        253,
        key(8),
    )
    .unwrap();
    assert_eq!(call.instruction.program_id, key(1));
    assert_eq!(
        call.instruction.accounts,
        vec![
            AccountMeta { pubkey: key(2), is_signer: false, is_writable: false },
            AccountMeta { pubkey: key(3), is_signer: false, is_writable: false },
            AccountMeta { pubkey: key(4), is_signer: false, is_writable: false },
            AccountMeta { pubkey: key(6), is_signer: true, is_writable: false },
        ]
    );
    assert_eq!(call.account_infos, vec![key(2), key(3), key(4), key(6), key(5)]);
    assert_eq!(call.signer_seeds, vec![b"vault".to_vec(), vec![8u8; 32], vec![253u8]]);
}

#[test]
fn relay_call_of_a_payout_message() {
    let message = encode_evm_message(101, &[0xabu8; 32], &[0xcdu8; 32], 258);
    let call = call_relay_send(
        &key(1),
        &key(2),
        &key(3),
        &key(4),
        &key(5),
        &key(6),
        1,
        message.clone(),
        vec![],
        1_000_000,
        0,
        255,
        key(8),
    )
    .unwrap();
    let data = &call.instruction.data;
    assert_eq!(data.len(), 8 + 4 + 4 + 258 + 4 + 8 + 8);
    assert_eq!(&data[12..16], &[2, 1, 0, 0][..]);
    let text = std::str::from_utf8(&data[16..274]).unwrap();
    assert!(text.starts_with("0x"));
    assert_eq!(&text[2..], hex::encode(&message));
    assert_eq!(&text[2..66], "0000000000000000000000000000000000000000000000000000000000000065");
    assert_eq!(&text[66..130], "ab".repeat(32));
    assert_eq!(&text[130..194], "cd".repeat(32));
    assert_eq!(&text[194..258], "0000000000000000000000000000000000000000000000000000000000000102");
    assert_eq!(&data[274..278], &[0, 0, 0, 0][..]);
    assert_eq!(&data[278..286], &1_000_000u64.to_le_bytes()[..]);
    assert_eq!(&data[286..294], &[0u8; 8][..]);
}

#[test]
fn relay_call_with_an_empty_message() {
    let call = call_relay_send(
        &key(1),
        &key(2),
        &key(3),
        &key(4),
        &key(5),
        &key(6),
        0,
        vec![],
        vec![],
        0,
        0,
        1,
        key(8),
    )
    .unwrap();
    let mut expected: Vec<u8> = RELAY_SEND_DISCRIMINATOR.to_vec();
    expected.extend_from_slice(&[0, 0, 0, 0]);
    expected.extend_from_slice(&[2, 0, 0, 0]);
    expected.extend_from_slice(b"0x");
    expected.extend_from_slice(&[0, 0, 0, 0]);
    expected.extend_from_slice(&[0u8; 16]);
    assert_eq!(call.instruction.data, expected);
}

#[test]
fn relay_program_address_is_the_published_one() {
    let published: anchor_lang::prelude::Pubkey =
        "CV1qjq8phMMpxv62TExA9PpvTyZx58TNCqkFB2QQgJXH".parse().unwrap();
    assert_eq!(LAYERZERO_OAPP_PROGRAM_ID, published.to_bytes());
}
