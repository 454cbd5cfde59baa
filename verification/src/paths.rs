//! The file names of the library's stores, rooted at the data directory
//! the shell resolves at startup.

use vstd::prelude::*;

verus! {

/// `settings.json`: the plaintext settings file.
pub fn get_settings_path(data_dir: &str) -> (r: String)
    ensures
        r@ == data_dir@ + "/settings.json"@,
{
    String::from_str(data_dir).concat("/settings.json")
}

/// `peers.json`: the legacy plaintext peer store.
pub fn get_peers_path(data_dir: &str) -> (r: String)
    ensures
        r@ == data_dir@ + "/peers.json"@,
{
    String::from_str(data_dir).concat("/peers.json")
}

/// `identity.json`: the legacy plaintext identity store.
pub fn get_identity_path(data_dir: &str) -> (r: String)
    ensures
        r@ == data_dir@ + "/identity.json"@,
{
    String::from_str(data_dir).concat("/identity.json")
}

/// `private_key.bin`: the legacy private-key file.
pub fn get_private_key_path(data_dir: &str) -> (r: String)
    ensures
        r@ == data_dir@ + "/private_key.bin"@,
{
    String::from_str(data_dir).concat("/private_key.bin")
}

/// `libp2p_keypair.bin`: the overlay keypair kept outside the vault during
/// bootstrap.
pub fn get_libp2p_keypair_path(data_dir: &str) -> (r: String)
    ensures
        r@ == data_dir@ + "/libp2p_keypair.bin"@,
{
    String::from_str(data_dir).concat("/libp2p_keypair.bin")
}

/// `auth-method.json`: which unlock path the vault uses.
pub fn get_auth_method_path(data_dir: &str) -> (r: String)
    ensures
        r@ == data_dir@ + "/auth-method.json"@,
{
    String::from_str(data_dir).concat("/auth-method.json")
}

/// `salt.bin`: the Argon2id salt.
pub fn get_salt_path(data_dir: &str) -> (r: String)
    ensures
        r@ == data_dir@ + "/salt.bin"@,
{
    String::from_str(data_dir).concat("/salt.bin")
}

/// `vault.enc`: the encrypted vault file.
pub fn get_vault_path(data_dir: &str) -> (r: String)
    ensures
        r@ == data_dir@ + "/vault.enc"@,
{
    String::from_str(data_dir).concat("/vault.enc")
}

} // verus!
