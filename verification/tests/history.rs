use base64::engine::general_purpose::STANDARD;
use base64::Engine;
use indexer_core::{
    decrypt_batch, decrypt_history, decrypt_transaction_with_ufvk, params_for,
    parse_transaction_at_height, parse_viewing_key, BatchError, CoreError, DecryptedNote, Network,
    ShieldedProtocol, TransferType, TxInput,
};
use orchard::builder::{Builder, BundleType};
use orchard::bundle::BundleVersion;
use orchard::primitives::redpallas::Signature;
use orchard::{Anchor, Proof};
use rand::rngs::StdRng;
use rand::SeedableRng;
use sapling_crypto::bundle::{GrothProofBytes, OutputDescription};
use sapling_crypto::note_encryption::{sapling_note_encryption, SaplingDomain};
use sapling_crypto::value::{NoteValue, ValueCommitTrapdoor, ValueCommitment};
use sapling_crypto::{PaymentAddress, Rseed};
use zcash_address::unified::{Encoding, Fvk, Revision, Ufvk, Uitem};
use zcash_keys::keys::{UnifiedFullViewingKey, UnifiedSpendingKey};
use zcash_note_encryption::Domain;
use zcash_primitives::transaction::{Authorized, TransactionData, TxVersion};
use zcash_protocol::consensus::{BlockHeight, BranchId, NetworkType, MAIN_NETWORK, TEST_NETWORK};
use zcash_protocol::value::ZatBalance;
use zip32::{AccountId, Scope};

type SaplingOutput = OutputDescription<GrothProofBytes>;
type OrchardBundle = orchard::Bundle<orchard::bundle::Authorized, ZatBalance>;

fn full_key(seed: u8) -> UnifiedFullViewingKey {
    UnifiedSpendingKey::from_seed(&MAIN_NETWORK, &[seed; 32], AccountId::ZERO)
        .unwrap()
        .to_unified_full_viewing_key()
}

fn key_text(seed: u8) -> String {
    full_key(seed).encode(&MAIN_NETWORK).unwrap()
}

fn sapling_only_key_text(seed: u8) -> String {
    let bytes = full_key(seed).sapling().unwrap().to_bytes();
    Ufvk::try_from_items(Revision::R0, vec![Uitem::Data(Fvk::Sapling(bytes))])
        .unwrap()
        .encode(&NetworkType::Main)
}

fn orchard_only_key_text(seed: u8) -> String {
    let bytes = full_key(seed).orchard().unwrap().to_bytes();
    Ufvk::try_from_items(Revision::R0, vec![Uitem::Data(Fvk::Orchard(bytes))])
        .unwrap()
        .encode(&NetworkType::Main)
}

fn sapling_address(seed: u8) -> PaymentAddress {
    full_key(seed).sapling().unwrap().default_address().1
}

fn orchard_address(seed: u8) -> orchard::Address {
    full_key(seed).orchard().unwrap().address_at(0u32, Scope::External)
}

fn sapling_output(rng: &mut StdRng, to: PaymentAddress, value: u64) -> SaplingOutput {
    let value = NoteValue::from_raw(value);
    let cv = ValueCommitment::derive(value, ValueCommitTrapdoor::random(&mut *rng));
    let note = to.create_note(value, Rseed::AfterZip212([7; 32]));
    let cmu = note.cmu();
    let encryptor = sapling_note_encryption(None, note, [0; 512], &mut *rng);
    let epk = SaplingDomain::epk_bytes(encryptor.epk());
    let out_ciphertext = encryptor.encrypt_outgoing_plaintext(&cv, &cmu, &mut *rng);
    OutputDescription::from_parts(
        cv,
        cmu,
        epk,
        encryptor.encrypt_note_plaintext().0,
        out_ciphertext,
        [0u8; 192],
    )
}

fn orchard_bundle(rng: &mut StdRng, to: orchard::Address, value: u64) -> OrchardBundle {
    let version = BundleVersion::orchard_insecure_v1();
    let mut builder =
        Builder::new(BundleType::DEFAULT, version, version.default_flags(), Anchor::empty_tree())
            .unwrap();
    builder.add_output(None, to, orchard::value::NoteValue::from_raw(value), [0; 512]).unwrap();
    let (unauthorized, _) = builder.build::<ZatBalance>(&mut *rng).unwrap().unwrap();
    let actions = unauthorized.actions().len();
    unauthorized.map_authorization(
        &mut (),
        |_, _, _| Signature::from([0u8; 64]),
        |_, _| {
            orchard::bundle::Authorized::from_parts(
                Proof::new(vec![0u8; 7264 + 2272 * (actions - 1)]),
                Signature::from([0u8; 64]),
            )
        },
    )
}

fn transaction(sapling: Vec<SaplingOutput>, orchard: Option<OrchardBundle>) -> Vec<u8> {
    let sapling = sapling_crypto::Bundle::from_parts(
        vec![],
        sapling,
        ZatBalance::from_i64(-1000).unwrap(),
        sapling_crypto::bundle::Authorized { binding_sig: [0u8; 64].into() },
    );
    let data: TransactionData<Authorized> = TransactionData::from_parts(
        TxVersion::V5,
        BranchId::Nu5,
        0,
        BlockHeight::from(0u32),
        None,
        None,
        sapling,
        orchard,
    );
    let mut bytes = Vec::new();
    data.freeze().unwrap().write(&mut bytes).unwrap();
    bytes
}

fn input(bytes: &[u8], height: u32) -> TxInput {
    TxInput { raw_tx: STANDARD.encode(bytes), height }
}

fn values(notes: &[DecryptedNote]) -> Vec<(u64, u32)> {
    notes.iter().map(|n| (n.value, n.height)).collect()
}

/// Three transactions: two Sapling outputs for wallet 1, nothing for it, one Orchard output.
fn batch() -> Vec<TxInput> {
    let mut rng = StdRng::seed_from_u64(21);
    let first = transaction(
        vec![
            sapling_output(&mut rng, sapling_address(1), 11),
            sapling_output(&mut rng, sapling_address(2), 12),
            sapling_output(&mut rng, sapling_address(1), 13),
        ],
        None,
    );
    let second = transaction(vec![sapling_output(&mut rng, sapling_address(2), 21)], None);
    let third = transaction(vec![], Some(orchard_bundle(&mut rng, orchard_address(1), 31)));
    vec![input(&first, 1_700_001), input(&second, 1_700_002), input(&third, 1_700_003)]
}

#[test]
fn history_lists_notes_in_batch_order() {
    let notes = decrypt_history(&key_text(1), &batch(), "mainnet").unwrap();
    assert_eq!(values(&notes), vec![(11, 1_700_001), (13, 1_700_001), (31, 1_700_003)]);
    assert_eq!(notes[0].index, 0);
    assert_eq!(notes[1].index, 2);
    assert_eq!(notes[2].protocol, ShieldedProtocol::Orchard);
    assert!(notes.iter().all(|n| n.transfer_type == TransferType::Incoming));
    assert_ne!(notes[0].txid, notes[2].txid);
    assert_eq!(notes[0].txid, notes[1].txid);
}

#[test]
fn history_of_another_wallet_sees_its_own_notes() {
    let notes = decrypt_history(&key_text(2), &batch(), "MAINNET").unwrap();
    assert_eq!(values(&notes), vec![(12, 1_700_001), (21, 1_700_002)]);
}

#[test]
fn history_of_an_empty_batch_is_empty() {
    assert_eq!(decrypt_history(&key_text(1), &[], "mainnet"), Ok(vec![]));
}

#[test]
fn batch_agrees_with_one_transaction_at_a_time() {
    let params = params_for(Network::Mainnet);
    let ufvk = parse_viewing_key(&key_text(1), Network::Mainnet).unwrap();
    let inputs = batch();
    let mut expected = Vec::new();
    for input in &inputs {
        let bytes = STANDARD.decode(&input.raw_tx).unwrap();
        let tx = parse_transaction_at_height(&params, input.height, &bytes).unwrap();
        expected.extend(decrypt_transaction_with_ufvk(&params, input.height, &ufvk, &tx));
    }
    assert_eq!(decrypt_batch(&params, &ufvk, &inputs), Ok(expected));
}

#[test]
fn history_rejects_an_unsupported_network_first() {
    assert_eq!(
        decrypt_history("not a key", &[input(&[1, 2, 3], 5)], "regtest"),
        Err(CoreError::UnsupportedNetwork(
            "unsupported network 'regtest', expected 'mainnet' or 'testnet'".to_string()
        ))
    );
}

#[test]
fn history_rejects_a_bad_key_before_the_batch() {
    let outcome = decrypt_history("not a key", &[input(&[1, 2, 3], 5)], "mainnet");
    match outcome {
        Err(CoreError::InvalidEncoding(message)) => {
            assert!(message.starts_with("invalid viewing key: "), "{message}")
        }
        other => panic!("unexpected outcome: {other:?}"),
    }
}

#[test]
fn history_rejects_a_key_of_the_other_network() {
    let testnet_key = UnifiedSpendingKey::from_seed(&TEST_NETWORK, &[1; 32], AccountId::ZERO)
        .unwrap()
        .to_unified_full_viewing_key()
        .encode(&TEST_NETWORK)
        .unwrap();
    assert!(matches!(
        decrypt_history(&testnet_key, &[], "mainnet"),
        Err(CoreError::InvalidEncoding(_))
    ));
    assert_eq!(decrypt_history(&testnet_key, &[], "testnet"), Ok(vec![]));
    assert!(matches!(
        decrypt_history(&key_text(1), &[], "testnet"),
        Err(CoreError::InvalidEncoding(_))
    ));
}

#[test]
fn batch_fails_at_the_first_input_that_is_not_base64() {
    let params = params_for(Network::Mainnet);
    let ufvk = parse_viewing_key(&key_text(1), Network::Mainnet).unwrap();
    let mut inputs = batch();
    inputs[1].raw_tx = "***".to_string();
    inputs[2].raw_tx = "AAAA".to_string();
    match decrypt_batch(&params, &ufvk, &inputs) {
        Err(BatchError { index, error: CoreError::MalformedTransaction(message) }) => {
            assert_eq!(index, 1);
            assert!(message.starts_with("failed to decode transaction: "), "{message}");
        }
        other => panic!("unexpected outcome: {other:?}"),
    }
    assert!(matches!(
        decrypt_history(&key_text(1), &inputs, "mainnet"),
        Err(CoreError::MalformedTransaction(_))
    ));
}

#[test]
fn batch_fails_at_the_first_input_that_does_not_parse() {
    let params = params_for(Network::Mainnet);
    let ufvk = parse_viewing_key(&key_text(1), Network::Mainnet).unwrap();
    let mut inputs = batch();
    inputs[2] = input(&[0, 0, 0, 0], 7);
    match decrypt_batch(&params, &ufvk, &inputs) {
        Err(BatchError { index, error: CoreError::MalformedTransaction(message) }) => {
            assert_eq!(index, 2);
            assert!(
                message.starts_with("failed to parse tx: failed to parse transaction: "),
                "{message}"
            );
        }
        other => panic!("unexpected outcome: {other:?}"),
    }
}

#[test]
fn key_without_orchard_component_skips_the_orchard_pool() {
    let mut rng = StdRng::seed_from_u64(22);
    let bytes = transaction(
        vec![sapling_output(&mut rng, sapling_address(1), 5)],
        Some(orchard_bundle(&mut rng, orchard_address(1), 6)),
    );
    let inputs = vec![input(&bytes, 1_700_000)];
    let parsed = parse_viewing_key(&sapling_only_key_text(1), Network::Mainnet).unwrap();
    assert!(parsed.sapling().is_some());
    assert!(parsed.orchard().is_none());
    let notes = decrypt_history(&sapling_only_key_text(1), &inputs, "mainnet").unwrap();
    assert_eq!(values(&notes), vec![(5, 1_700_000)]);
    assert_eq!(notes[0].protocol, ShieldedProtocol::Sapling);
}

#[test]
fn key_without_sapling_component_skips_the_sapling_pool() {
    let mut rng = StdRng::seed_from_u64(23);
    let bytes = transaction(
        vec![sapling_output(&mut rng, sapling_address(1), 5)],
        Some(orchard_bundle(&mut rng, orchard_address(1), 6)),
    );
    let inputs = vec![input(&bytes, 1_700_000)];
    let parsed = parse_viewing_key(&orchard_only_key_text(1), Network::Mainnet).unwrap();
    assert!(parsed.sapling().is_none());
    assert!(parsed.orchard().is_some());
    let notes = decrypt_history(&orchard_only_key_text(1), &inputs, "mainnet").unwrap();
    assert_eq!(values(&notes), vec![(6, 1_700_000)]);
    assert_eq!(notes[0].protocol, ShieldedProtocol::Orchard);
    let full = decrypt_history(&key_text(1), &inputs, "mainnet").unwrap();
    assert_eq!(values(&full), vec![(5, 1_700_000), (6, 1_700_000)]);
}
