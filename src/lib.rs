//! A password store: OpenPGP-encrypted entries in a directory tree, with a commit history.
pub mod text;
pub mod entry;
pub mod keyring;
pub mod decrypt;
pub mod paths;
pub mod ledger;
pub mod encrypt;
pub mod store;
pub mod settings;
pub mod tree;
pub mod otp;
