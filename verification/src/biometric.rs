//! Optional Touch ID unlock: what the unlock and disable requests answer given
//! what the keychain reported, and the answers on platforms without Touch ID.
//!
//! The keychain and the system prompt themselves are platform services; the
//! app talks to them and hands the outcome to these functions.

use vstd::prelude::*;

use crate::text::owned;

verus! {

/// What reading the stored master key from the keychain gave.
pub enum KeychainRead {
    /// The stored key.
    Found(Vec<u8>),
    /// No key is stored.
    Missing,
    /// The keychain failed, with its message.
    Failed(String),
}

/// What deleting the stored master key from the keychain gave.
pub enum KeychainDelete {
    Deleted,
    /// No key was stored.
    Missing,
    /// The keychain failed, with its message.
    Failed(String),
}

/// The answer to an unlock request: `read` is `None` when the Touch ID prompt
/// was declined, so the keychain was not read. A declined prompt and a
/// missing key both answer `Ok(None)`; a stored key answers `Ok(Some(key))`;
/// a keychain failure answers its message.
pub fn unlock_result(read: Option<KeychainRead>) -> (r: Result<Option<Vec<u8>>, String>)
    ensures
        match read {
            None => r == Ok::<Option<Vec<u8>>, String>(None),
            Some(KeychainRead::Found(key)) => r matches Ok(Some(k)) && k@ == key@,
            Some(KeychainRead::Missing) => r == Ok::<Option<Vec<u8>>, String>(None),
            Some(KeychainRead::Failed(m)) => r matches Err(e) && e@ == m@,
        },
{
    match read {
        None => Ok(None),
        Some(KeychainRead::Found(key)) => Ok(Some(key)),
        Some(KeychainRead::Missing) => Ok(None),
        Some(KeychainRead::Failed(m)) => Err(m),
    }
}

/// The answer to a disable request: removing the key, or finding none, both
/// succeed; a keychain failure answers its message.
pub fn disable_result(deleted: KeychainDelete) -> (r: Result<(), String>)
    ensures
        match deleted {
            KeychainDelete::Failed(m) => r matches Err(e) && e@ == m@,
            _ => r is Ok,
        },
{
    match deleted {
        KeychainDelete::Deleted => Ok(()),
        KeychainDelete::Missing => Ok(()),
        KeychainDelete::Failed(m) => Err(m),
    }
}

/// Enabling Touch ID where it does not exist: refused.
pub fn enable(key: &[u8]) -> (r: Result<(), String>)
    ensures
        r matches Err(m) && m@ == "Touch ID is only available on macOS"@,
{
    Err(owned("Touch ID is only available on macOS"))
}

/// Unlocking with Touch ID where it does not exist: no key.
pub fn unlock() -> (r: Result<Option<Vec<u8>>, String>)
    ensures
        r == Ok::<Option<Vec<u8>>, String>(None),
{
    Ok(None)
}

/// Whether Touch ID unlock is enabled where it does not exist: never.
pub fn is_enabled() -> (r: bool)
    ensures
        !r,
{
    false
}

/// Disabling Touch ID where it does not exist: nothing to remove.
pub fn disable() -> (r: Result<(), String>)
    ensures
        r is Ok,
{
    Ok(())
}

} // verus!
