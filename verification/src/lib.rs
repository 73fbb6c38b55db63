//! Core engine of a secure disk-image burner: multi-pass erase patterns,
//! streaming digests, key derivation and volume-header construction, and the
//! cancellable burn pipeline with its shared progress state.

pub mod burn;
pub mod drives;
pub mod encryption;
pub mod errors;
pub mod hashing;
pub mod image;
pub mod rng;
pub mod secure_erase;
pub mod state;
pub mod text;
pub mod veracrypt_algorithms;
pub mod veracrypt_hashes;

pub use errors::ErrorKind;
pub use secure_erase::SecureEraseMethod;
