use indexer_core::{
    decrypt_transaction_with_ufvk, params_for, parse_transaction, parse_transaction_at_height,
    parse_viewing_key, DecryptedNote, Network, ShieldedProtocol, TransferType,
};
use orchard::builder::{Builder, BundleType};
use orchard::bundle::BundleVersion;
use orchard::primitives::redpallas::Signature;
use orchard::{Anchor, Proof};
use rand::rngs::StdRng;
use rand::SeedableRng;
use sapling_crypto::bundle::{GrothProofBytes, OutputDescription};
use sapling_crypto::note_encryption::{sapling_note_encryption, SaplingDomain};
use sapling_crypto::value::{NoteValue, ValueCommitTrapdoor, ValueCommitment};
use sapling_crypto::{PaymentAddress, Rseed};
use zcash_keys::keys::{UnifiedFullViewingKey, UnifiedSpendingKey};
use zcash_note_encryption::Domain;
use zcash_primitives::transaction::{Authorized, TransactionData, TxVersion};
use zcash_protocol::consensus::{BlockHeight, BranchId, MAIN_NETWORK};
use zcash_protocol::value::ZatBalance;
use zip32::{AccountId, Scope};

const NU5_HEIGHT: u32 = 1_700_000;
const CANOPY: u32 = 1_046_400;
const GRACE_END: u32 = 1_046_400 + 32_256;

type SaplingOutput = OutputDescription<GrothProofBytes>;
type OrchardBundle = orchard::Bundle<orchard::bundle::Authorized, ZatBalance>;

fn wallet(seed: u8) -> UnifiedFullViewingKey {
    let usk = UnifiedSpendingKey::from_seed(&MAIN_NETWORK, &[seed; 32], AccountId::ZERO).unwrap();
    let encoded = usk.to_unified_full_viewing_key().encode(&MAIN_NETWORK).unwrap();
    parse_viewing_key(&encoded, Network::Mainnet).unwrap()
}

fn sapling_external(ufvk: &UnifiedFullViewingKey) -> PaymentAddress {
    ufvk.sapling().unwrap().default_address().1
}

fn sapling_internal(ufvk: &UnifiedFullViewingKey) -> PaymentAddress {
    ufvk.sapling().unwrap().change_address().1
}

fn sapling_ovk(ufvk: &UnifiedFullViewingKey) -> sapling_crypto::keys::OutgoingViewingKey {
    ufvk.sapling().unwrap().fvk().ovk
}

fn orchard_address(ufvk: &UnifiedFullViewingKey, scope: Scope) -> orchard::Address {
    ufvk.orchard().unwrap().address_at(0u32, scope)
}

fn orchard_ovk(ufvk: &UnifiedFullViewingKey) -> orchard::keys::OutgoingViewingKey {
    ufvk.orchard().unwrap().to_ovk(Scope::External)
}

fn memo(fill: u8) -> [u8; 512] {
    [fill; 512]
}

fn sapling_output_with(
    rng: &mut StdRng,
    to: PaymentAddress,
    value: u64,
    memo: [u8; 512],
    ovk: Option<sapling_crypto::keys::OutgoingViewingKey>,
    rseed: Rseed,
) -> SaplingOutput {
    let value = NoteValue::from_raw(value);
    let cv = ValueCommitment::derive(value, ValueCommitTrapdoor::random(&mut *rng));
    let note = to.create_note(value, rseed);
    let cmu = note.cmu();
    let encryptor = sapling_note_encryption(ovk, note, memo, &mut *rng);
    let epk = SaplingDomain::epk_bytes(encryptor.epk());
    let out_ciphertext = encryptor.encrypt_outgoing_plaintext(&cv, &cmu, &mut *rng);
    OutputDescription::from_parts(
        cv,
        cmu,
        epk,
        encryptor.encrypt_note_plaintext().0,
        out_ciphertext,
        [0u8; 192],
    )
}

fn sapling_output(
    rng: &mut StdRng,
    to: PaymentAddress,
    value: u64,
    memo: [u8; 512],
    ovk: Option<sapling_crypto::keys::OutgoingViewingKey>,
) -> SaplingOutput {
    sapling_output_with(rng, to, value, memo, ovk, Rseed::AfterZip212([7; 32]))
}

/// An Orchard bundle with one action per output, and the action that holds each output.
fn orchard_bundle(
    rng: &mut StdRng,
    outputs: Vec<(Option<orchard::keys::OutgoingViewingKey>, orchard::Address, u64, [u8; 512])>,
) -> (OrchardBundle, Vec<usize>) {
    let version = BundleVersion::orchard_insecure_v1();
    let mut builder =
        Builder::new(BundleType::DEFAULT, version, version.default_flags(), Anchor::empty_tree())
            .unwrap();
    let count = outputs.len();
    for (ovk, to, value, memo) in outputs {
        builder.add_output(ovk, to, orchard::value::NoteValue::from_raw(value), memo).unwrap();
    }
    let (unauthorized, meta) = builder.build::<ZatBalance>(&mut *rng).unwrap().unwrap();
    let places = (0..count).map(|n| meta.output_action_index(n).unwrap()).collect();
    let actions = unauthorized.actions().len();
    let bundle = unauthorized.map_authorization(
        &mut (),
        |_, _, _| Signature::from([0u8; 64]),
        |_, _| {
            orchard::bundle::Authorized::from_parts(
                Proof::new(vec![0u8; 7264 + 2272 * (actions - 1)]),
                Signature::from([0u8; 64]),
            )
        },
    );
    (bundle, places)
}

fn transaction(sapling: Vec<SaplingOutput>, orchard: Option<OrchardBundle>) -> Vec<u8> {
    let sapling = sapling_crypto::Bundle::from_parts(
        vec![],
        sapling,
        ZatBalance::from_i64(-1000).unwrap(),
        sapling_crypto::bundle::Authorized { binding_sig: [0u8; 64].into() },
    );
    let data: TransactionData<Authorized> = TransactionData::from_parts(
        TxVersion::V5,
        BranchId::Nu5,
        0,
        BlockHeight::from(0u32),
        None,
        None,
        sapling,
        orchard,
    );
    let mut bytes = Vec::new();
    data.freeze().unwrap().write(&mut bytes).unwrap();
    bytes
}

fn scan(ufvk: &UnifiedFullViewingKey, bytes: &[u8], height: u32) -> Vec<DecryptedNote> {
    let tx = parse_transaction(bytes).unwrap();
    decrypt_transaction_with_ufvk(&params_for(Network::Mainnet), height, ufvk, &tx)
}

fn summary(notes: &[DecryptedNote]) -> Vec<(ShieldedProtocol, usize, TransferType, u64)> {
    notes.iter().map(|n| (n.protocol, n.index, n.transfer_type, n.value)).collect()
}

#[test]
fn sapling_output_to_external_address_is_incoming() {
    let mut rng = StdRng::seed_from_u64(1);
    let ufvk = wallet(1);
    let bytes = transaction(
        vec![sapling_output(&mut rng, sapling_external(&ufvk), 1000, memo(0), None)],
        None,
    );
    let notes = scan(&ufvk, &bytes, NU5_HEIGHT);
    assert_eq!(notes.len(), 1);
    assert_eq!(notes[0].value, 1000);
    assert_eq!(notes[0].protocol, ShieldedProtocol::Sapling);
    assert_eq!(notes[0].transfer_type, TransferType::Incoming);
    assert_eq!(notes[0].memo, vec![0u8; 512]);
    assert_eq!(notes[0].index, 0);
    assert_eq!(notes[0].height, NU5_HEIGHT);
}

#[test]
fn note_carries_the_transaction_identifier() {
    let mut rng = StdRng::seed_from_u64(2);
    let ufvk = wallet(1);
    let bytes = transaction(
        vec![sapling_output(&mut rng, sapling_external(&ufvk), 5, memo(1), None)],
        None,
    );
    let tx = parse_transaction(&bytes).unwrap();
    let notes = scan(&ufvk, &bytes, NU5_HEIGHT);
    assert_eq!(&notes[0].txid, tx.txid().as_ref());
    assert_eq!(notes[0].txid_hex(), tx.txid().to_string());
    assert_eq!(notes[0].txid_hex().len(), 64);
}

#[test]
fn sapling_output_to_internal_address_is_internal() {
    let mut rng = StdRng::seed_from_u64(3);
    let ufvk = wallet(1);
    let bytes = transaction(
        vec![sapling_output(&mut rng, sapling_internal(&ufvk), 77, memo(9), None)],
        None,
    );
    let notes = scan(&ufvk, &bytes, NU5_HEIGHT);
    assert_eq!(summary(&notes), vec![(ShieldedProtocol::Sapling, 0, TransferType::Internal, 77)]);
    assert_eq!(notes[0].memo, vec![9u8; 512]);
}

#[test]
fn sapling_output_sent_to_another_wallet_is_outgoing() {
    let mut rng = StdRng::seed_from_u64(4);
    let ufvk = wallet(1);
    let other = wallet(2);
    let bytes = transaction(
        vec![sapling_output(
            &mut rng,
            sapling_external(&other),
            31,
            memo(4),
            Some(sapling_ovk(&ufvk)),
        )],
        None,
    );
    let notes = scan(&ufvk, &bytes, NU5_HEIGHT);
    assert_eq!(summary(&notes), vec![(ShieldedProtocol::Sapling, 0, TransferType::Outgoing, 31)]);
    assert_eq!(notes[0].memo, vec![4u8; 512]);
    let theirs = scan(&other, &bytes, NU5_HEIGHT);
    assert_eq!(summary(&theirs), vec![(ShieldedProtocol::Sapling, 0, TransferType::Incoming, 31)]);
}

#[test]
fn outputs_of_other_wallets_are_passed_over_in_silence() {
    let mut rng = StdRng::seed_from_u64(5);
    let ufvk = wallet(1);
    let other = wallet(2);
    let (orchard, _) = orchard_bundle(
        &mut rng,
        vec![(Some(orchard_ovk(&other)), orchard_address(&other, Scope::External), 8, memo(0))],
    );
    let bytes = transaction(
        vec![
            sapling_output(&mut rng, sapling_external(&other), 1, memo(0), None),
            sapling_output(
                &mut rng,
                sapling_internal(&other),
                2,
                memo(0),
                Some(sapling_ovk(&other)),
            ),
        ],
        Some(orchard),
    );
    assert!(scan(&ufvk, &bytes, NU5_HEIGHT).is_empty());
    assert_eq!(scan(&other, &bytes, NU5_HEIGHT).len(), 3);
}

#[test]
fn first_matching_strategy_wins() {
    let mut rng = StdRng::seed_from_u64(6);
    let ufvk = wallet(1);
    let ovk = Some(sapling_ovk(&ufvk));
    let bytes = transaction(
        vec![
            sapling_output(&mut rng, sapling_external(&ufvk), 10, memo(0), ovk),
            sapling_output(&mut rng, sapling_internal(&ufvk), 20, memo(0), ovk),
        ],
        None,
    );
    let notes = scan(&ufvk, &bytes, NU5_HEIGHT);
    assert_eq!(
        summary(&notes),
        vec![
            (ShieldedProtocol::Sapling, 0, TransferType::Incoming, 10),
            (ShieldedProtocol::Sapling, 1, TransferType::Internal, 20),
        ]
    );
}

#[test]
fn index_is_the_position_in_the_bundle() {
    let mut rng = StdRng::seed_from_u64(7);
    let ufvk = wallet(1);
    let other = wallet(2);
    let bytes = transaction(
        vec![
            sapling_output(&mut rng, sapling_external(&other), 1, memo(0), None),
            sapling_output(&mut rng, sapling_external(&ufvk), 2, memo(0), None),
            sapling_output(&mut rng, sapling_external(&other), 3, memo(0), None),
            sapling_output(&mut rng, sapling_internal(&ufvk), 4, memo(0), None),
            sapling_output(
                &mut rng,
                sapling_external(&other),
                5,
                memo(0),
                Some(sapling_ovk(&ufvk)),
            ),
        ],
        None,
    );
    let notes = scan(&ufvk, &bytes, NU5_HEIGHT);
    assert_eq!(
        summary(&notes),
        vec![
            (ShieldedProtocol::Sapling, 1, TransferType::Incoming, 2),
            (ShieldedProtocol::Sapling, 3, TransferType::Internal, 4),
            (ShieldedProtocol::Sapling, 4, TransferType::Outgoing, 5),
        ]
    );
    let tx = parse_transaction(&bytes).unwrap();
    assert_eq!(tx.sapling_bundle().unwrap().shielded_outputs().len(), 5);
}

#[test]
fn decryption_is_deterministic() {
    let mut rng = StdRng::seed_from_u64(8);
    let ufvk = wallet(1);
    let (orchard, _) = orchard_bundle(
        &mut rng,
        vec![(None, orchard_address(&ufvk, Scope::External), 8, memo(3))],
    );
    let bytes = transaction(
        vec![sapling_output(&mut rng, sapling_external(&ufvk), 1, memo(2), None)],
        Some(orchard),
    );
    let first = scan(&ufvk, &bytes, NU5_HEIGHT);
    let second = scan(&ufvk, &bytes, NU5_HEIGHT);
    assert_eq!(first.len(), 2);
    assert_eq!(first, second);
}

#[test]
fn orchard_outputs_are_classified_like_sapling_ones() {
    let mut rng = StdRng::seed_from_u64(9);
    let ufvk = wallet(1);
    let other = wallet(2);
    let (orchard, places) = orchard_bundle(
        &mut rng,
        vec![
            (None, orchard_address(&ufvk, Scope::External), 100, memo(1)),
            (None, orchard_address(&ufvk, Scope::Internal), 200, memo(2)),
            (Some(orchard_ovk(&ufvk)), orchard_address(&other, Scope::External), 300, memo(3)),
            (Some(orchard_ovk(&ufvk)), orchard_address(&ufvk, Scope::External), 400, memo(4)),
            (None, orchard_address(&other, Scope::External), 500, memo(5)),
        ],
    );
    let actions = orchard.actions().len();
    let bytes = transaction(vec![], Some(orchard));
    let notes = scan(&ufvk, &bytes, NU5_HEIGHT);
    let mut expected = vec![
        (ShieldedProtocol::Orchard, places[0], TransferType::Incoming, 100),
        (ShieldedProtocol::Orchard, places[1], TransferType::Internal, 200),
        (ShieldedProtocol::Orchard, places[2], TransferType::Outgoing, 300),
        (ShieldedProtocol::Orchard, places[3], TransferType::Incoming, 400),
    ];
    expected.sort_by_key(|e| e.1);
    assert_eq!(summary(&notes), expected);
    for note in &notes {
        assert!(note.index < actions);
        assert_eq!(note.memo.len(), 512);
    }
    let incoming = notes.iter().find(|n| n.value == 100).unwrap();
    assert_eq!(incoming.memo, vec![1u8; 512]);
}

#[test]
fn sapling_notes_come_before_orchard_notes() {
    let mut rng = StdRng::seed_from_u64(10);
    let ufvk = wallet(1);
    let (orchard, places) = orchard_bundle(
        &mut rng,
        vec![(None, orchard_address(&ufvk, Scope::External), 8, memo(3))],
    );
    let bytes = transaction(
        vec![
            sapling_output(&mut rng, sapling_external(&ufvk), 1, memo(2), None),
            sapling_output(&mut rng, sapling_internal(&ufvk), 2, memo(2), None),
        ],
        Some(orchard),
    );
    assert_eq!(
        summary(&scan(&ufvk, &bytes, NU5_HEIGHT)),
        vec![
            (ShieldedProtocol::Sapling, 0, TransferType::Incoming, 1),
            (ShieldedProtocol::Sapling, 1, TransferType::Internal, 2),
            (ShieldedProtocol::Orchard, places[0], TransferType::Incoming, 8),
        ]
    );
}

#[test]
fn pools_do_not_affect_each_other() {
    let mut rng = StdRng::seed_from_u64(11);
    let ufvk = wallet(1);
    let outputs = vec![
        sapling_output(&mut rng, sapling_external(&ufvk), 1, memo(2), None),
        sapling_output(&mut rng, sapling_internal(&ufvk), 2, memo(2), None),
    ];
    let (orchard, _) = orchard_bundle(
        &mut rng,
        vec![(None, orchard_address(&ufvk, Scope::External), 8, memo(3))],
    );
    let both = scan(&ufvk, &transaction(outputs.clone(), Some(orchard.clone())), NU5_HEIGHT);
    let sapling_only = scan(&ufvk, &transaction(outputs, None), NU5_HEIGHT);
    let orchard_only = scan(&ufvk, &transaction(vec![], Some(orchard)), NU5_HEIGHT);
    let without_txid = |notes: &[DecryptedNote], protocol: ShieldedProtocol| -> Vec<DecryptedNote> {
        notes
            .iter()
            .filter(|n| n.protocol == protocol)
            .map(|n| DecryptedNote { txid: [0; 32], ..n.clone() })
            .collect()
    };
    assert_eq!(both.len(), 3);
    assert_eq!(
        without_txid(&both, ShieldedProtocol::Sapling),
        without_txid(&sapling_only, ShieldedProtocol::Sapling)
    );
    assert_eq!(
        without_txid(&both, ShieldedProtocol::Orchard),
        without_txid(&orchard_only, ShieldedProtocol::Orchard)
    );
    assert!(without_txid(&sapling_only, ShieldedProtocol::Orchard).is_empty());
    assert!(without_txid(&orchard_only, ShieldedProtocol::Sapling).is_empty());
}

#[test]
fn transaction_without_shielded_bundles_gives_nothing() {
    let bytes = transaction(vec![], None);
    let tx = parse_transaction(&bytes).unwrap();
    assert!(tx.sapling_bundle().is_none());
    assert!(tx.orchard_bundle().is_none());
    assert!(scan(&wallet(1), &bytes, NU5_HEIGHT).is_empty());
    assert!(scan(&wallet(2), &bytes, 0).is_empty());
}

#[test]
fn height_is_reported_as_given() {
    let mut rng = StdRng::seed_from_u64(12);
    let ufvk = wallet(1);
    let bytes = transaction(
        vec![sapling_output(&mut rng, sapling_external(&ufvk), 1, memo(0), None)],
        None,
    );
    assert_eq!(scan(&ufvk, &bytes, GRACE_END)[0].height, GRACE_END);
    assert_eq!(scan(&ufvk, &bytes, u32::MAX)[0].height, u32::MAX);
}

#[test]
fn note_plaintext_format_follows_the_height() {
    let mut rng = StdRng::seed_from_u64(13);
    let ufvk = wallet(1);
    let before = Rseed::BeforeZip212(jubjub::Fr::from(5u64));
    let after = Rseed::AfterZip212([5; 32]);
    let old_format = transaction(
        vec![sapling_output_with(&mut rng, sapling_external(&ufvk), 1, memo(0), None, before)],
        None,
    );
    let new_format = transaction(
        vec![sapling_output_with(&mut rng, sapling_external(&ufvk), 2, memo(0), None, after)],
        None,
    );
    assert_eq!(scan(&ufvk, &old_format, 0).len(), 1);
    assert_eq!(scan(&ufvk, &old_format, CANOPY - 1).len(), 1);
    assert_eq!(scan(&ufvk, &old_format, CANOPY).len(), 1);
    assert_eq!(scan(&ufvk, &old_format, GRACE_END - 1).len(), 1);
    assert_eq!(scan(&ufvk, &old_format, GRACE_END).len(), 0);
    assert_eq!(scan(&ufvk, &new_format, CANOPY - 1).len(), 0);
    assert_eq!(scan(&ufvk, &new_format, CANOPY).len(), 1);
    assert_eq!(scan(&ufvk, &new_format, GRACE_END).len(), 1);
}

#[test]
fn parsing_at_a_height_reads_the_same_transaction() {
    let mut rng = StdRng::seed_from_u64(14);
    let ufvk = wallet(1);
    let bytes = transaction(
        vec![sapling_output(&mut rng, sapling_external(&ufvk), 6, memo(0), None)],
        None,
    );
    let params = params_for(Network::Mainnet);
    let fixed = parse_transaction(&bytes).unwrap();
    let by_height = parse_transaction_at_height(&params, NU5_HEIGHT, &bytes).unwrap();
    assert_eq!(fixed.txid(), by_height.txid());
    assert_eq!(
        decrypt_transaction_with_ufvk(&params, NU5_HEIGHT, &ufvk, &by_height),
        decrypt_transaction_with_ufvk(&params, NU5_HEIGHT, &ufvk, &fixed)
    );
}

#[test]
fn truncated_transaction_is_malformed() {
    let mut rng = StdRng::seed_from_u64(15);
    let ufvk = wallet(1);
    let bytes = transaction(
        vec![sapling_output(&mut rng, sapling_external(&ufvk), 6, memo(0), None)],
        None,
    );
    assert!(parse_transaction(&bytes[..bytes.len() - 1]).is_err());
    assert!(parse_transaction(&bytes[..100]).is_err());
}
