//! Looking a user's home directory up in the operating system's account
//! database, by name or by the calling process's own user id.

use vstd::prelude::*;

verus! {

/// The decoding of a byte sequence as UTF-8: the characters, when the
/// bytes are valid UTF-8, and nothing otherwise.
pub uninterp spec fn utf8_decode(b: Seq<u8>) -> Option<Seq<char>>;

/// Why a home-directory lookup yielded no home directory.
#[derive(Clone, Copy, PartialEq, Eq, Debug)]
pub enum LookupError {
    /// The username cannot be handed to the account database: it holds a
    /// NUL byte or is not valid UTF-8.
    InvalidName,
    /// No account matches the username (or the current user id).
    NotFound,
    /// The account-database query itself failed, with this system error
    /// code.
    LookupFailed(i32),
}

/// Is `name` a username that the resolver refuses outright, without
/// querying the account database?
pub open spec fn name_malformed(name: Seq<u8>) -> bool {
    name.contains(0u8) || (name.len() > 0 && utf8_decode(name) is None)
}

/// Relies on core::str::from_utf8: it accepts exactly the valid UTF-8
/// byte sequences, and its result is a function of the bytes alone.
#[verifier::external_body]
fn bytes_as_str(b: &[u8]) -> (r: Option<&str>)
    ensures
        r matches Some(t) ==> utf8_decode(b@) == Some(t@),
        r is None ==> utf8_decode(b@) is None,
{
    core::str::from_utf8(b).ok()
}

/// Relies on nix::unistd::getuid (getuid(2)): the calling process's real
/// user id. Nothing is assumed of its value.
#[verifier::external_body]
fn os_current_uid() -> u32 {
    nix::unistd::getuid().as_raw()
}

/// Relies on nix::unistd::User::from_uid (getpwuid_r(3)): `Ok(Some(h))`
/// carries the matched account's home-directory path, `Ok(None)` means no
/// account matches, `Err(code)` a system error. The outcome depends on
/// the machine's account database, so nothing is assumed of it. The path
/// is handed on byte for byte: the OS string's encoded bytes are, on
/// Unix, exactly the bytes of the account record's home field.
#[verifier::external_body]
fn os_home_by_uid(uid: u32) -> Result<Option<Vec<u8>>, i32> {
    match nix::unistd::User::from_uid(nix::unistd::Uid::from_raw(uid)) {
        Ok(Some(user)) => Ok(Some(user.dir.into_os_string().into_encoded_bytes())),
        Ok(None) => Ok(None),
        Err(e) => Err(e as i32),
    }
}

/// Relies on nix::unistd::User::from_name (getpwnam_r(3)): `Ok(Some(h))`
/// carries the matched account's home-directory path, `Ok(None)` means no
/// account matches, `Err(code)` a system error. The outcome depends on
/// the machine's account database, so nothing is assumed of it. The path
/// is handed on byte for byte: the OS string's encoded bytes are, on
/// Unix, exactly the bytes of the account record's home field.
#[verifier::external_body]
fn os_home_by_name(name: &str) -> Result<Option<Vec<u8>>, i32> {
    match nix::unistd::User::from_name(name) {
        Ok(Some(user)) => Ok(Some(user.dir.into_os_string().into_encoded_bytes())),
        Ok(None) => Ok(None),
        Err(e) => Err(e as i32),
    }
}

/// Does `b` hold a NUL byte?
fn contains_nul(b: &[u8]) -> (r: bool)
    ensures
        r == b@.contains(0u8),
{
    let n = b.len();
    let mut i: usize = 0;
    while i < n
        invariant
            n == b@.len(),
            0 <= i <= n,
            forall|j: int| 0 <= j < i ==> b@[j] != 0u8,
        decreases n - i,
    {
        if b[i] == 0 {
            assert(b@.contains(0u8));
            return true;
        }
        i = i + 1;
    }
    assert(!b@.contains(0u8));
    false
}

/// Looks a user's home directory up in the account database and returns a
/// byte-for-byte copy of it. An empty `username` means the calling
/// process's own user, resolved by its user id; any other username is
/// matched exactly by name. A malformed username is refused with
/// `InvalidName` and with nothing else; whether a well-formed lookup
/// succeeds is the account database's to decide.
pub fn resolve_home(username: &[u8]) -> (r: Result<Vec<u8>, LookupError>)
    ensures
        (r matches Err(e) && e == LookupError::InvalidName) <==> name_malformed(username@),
{
    if username.len() == 0 {
        match os_home_by_uid(os_current_uid()) {
            Ok(Some(home)) => Ok(home),
            Ok(None) => Err(LookupError::NotFound),
            Err(code) => Err(LookupError::LookupFailed(code)),
        }
    } else if contains_nul(username) {
        Err(LookupError::InvalidName)
    } else {
        match bytes_as_str(username) {
            None => Err(LookupError::InvalidName),
            Some(name) => match os_home_by_name(name) {
                Ok(Some(home)) => Ok(home),
                Ok(None) => Err(LookupError::NotFound),
                Err(code) => Err(LookupError::LookupFailed(code)),
            },
        }
    }
}

} // verus!
