//! Trial decryption of shielded transaction outputs under a wallet's viewing keys.

pub mod consensus;
pub mod decrypt;
pub mod encoding;
pub mod history;
pub mod keys;
pub mod model;
pub mod orchard_pool;
pub mod sapling_pool;
pub mod scan;
pub mod store;
pub mod transaction;

pub use consensus::params_for;
pub use decrypt::decrypt_transaction_with_ufvk;
pub use history::{decode_raw_tx, decrypt_batch, decrypt_history, map_network, BatchError, TxInput};
pub use keys::parse_viewing_key;
pub use model::{CoreError, DecryptedNote, Network, ShieldedProtocol, TransferType};
pub use store::{bootstrap_sample_data, effective_limit, list_txs, InMemoryTxStore, TxRecord};
pub use transaction::{parse_transaction, parse_transaction_at_height};
