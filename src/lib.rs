//! Core of a local-first password manager: the vault (key derivation,
//! authenticated encryption, lock state) and the peer synchronisation engine.
pub mod primitives;
pub mod crypto;
pub mod clock;
pub mod device_info;
pub mod sync;
pub mod p2p_connection;
pub mod smart_sync;
pub mod host;
pub mod discovery;
pub mod sync_manager;
