//! Input validation: malformed passphrase/salt pairs are rejected before any
//! expensive key derivation runs.

use vstd::prelude::*;
use vstd::string::StrSliceExecFns;
use vstd::string::StringSliceAdditionalSpecFns;

verus! {

/// Why a passphrase/salt pair was rejected.
#[derive(Clone, Copy, Debug, PartialEq, Eq, Structural)]
pub enum ValidationError {
    /// The passphrase is empty.
    EmptyPassphrase,
    /// The salt is empty.
    EmptySalt,
    /// The salt is not shaped like an email address.
    BadSalt,
    /// The passphrase holds a character outside printable ASCII.
    BadPassphrase,
}

/// A passphrase and salt as raw bytes, independent of any text encoding.
pub struct Input {
    pub passphrase: Vec<u8>,
    pub salt: Vec<u8>,
}

impl Input {
    /// An input built from the UTF-8 bytes of two strings.
    pub fn new(passphrase: &str, salt: &str) -> (r: Input)
        ensures
            r.passphrase@ == passphrase.spec_bytes(),
            r.salt@ == salt.spec_bytes(),
    {
        Input { passphrase: passphrase.as_bytes_vec(), salt: salt.as_bytes_vec() }
    }
}

/// Whether the salt is shaped like an email address: at least one byte, then
/// `@`, then at least one byte, then `.`, then at least one byte.
pub open spec fn salt_pattern_ok(s: Seq<u8>) -> bool {
    exists|i: int, j: int|
        {
            &&& 1 <= i
            &&& i + 2 <= j
            &&& j + 2 <= s.len()
            &&& s[i] == 0x40u8
            &&& s[j] == 0x2eu8
        }
}

/// Whether every byte of the passphrase is printable ASCII (0x20 through 0x7e
/// inclusive).
pub open spec fn passphrase_printable(p: Seq<u8>) -> bool {
    forall|i: int| 0 <= i < p.len() ==> 0x20 <= #[trigger] p[i] <= 0x7e
}

/// The rejection, if any, for a passphrase/salt pair; rules are checked in
/// order and the first failing rule wins.
pub open spec fn validation_of(p: Seq<u8>, s: Seq<u8>) -> Option<ValidationError> {
    if p.len() == 0 {
        Some(ValidationError::EmptyPassphrase)
    } else if s.len() == 0 {
        Some(ValidationError::EmptySalt)
    } else if !salt_pattern_ok(s) {
        Some(ValidationError::BadSalt)
    } else if !passphrase_printable(p) {
        Some(ValidationError::BadPassphrase)
    } else {
        None
    }
}

/// Whether the salt bytes match the email shape.
fn salt_matches(s: &[u8]) -> (r: bool)
    ensures
        r == salt_pattern_ok(s@),
{
    let n = s.len();
    let mut i: usize = 1;
    while i < n
        invariant
            n == s@.len(),
            1 <= i <= n || n == 0,
            forall|k: int| 1 <= k < i ==> s@[k] != 0x40u8,
        decreases n - i,
    {
        if s[i] == 0x40 {
            // first `@` at an index with at least one byte before it
            let at = i;
            if n - at < 4 {
                proof {
                    assert forall|a: int, b: int|
                        !{
                            &&& 1 <= a
                            &&& a + 2 <= b
                            &&& b + 2 <= s@.len()
                            &&& s@[a] == 0x40u8
                            &&& s@[b] == 0x2eu8
                        } by {
                        if 1 <= a && a + 2 <= b && b + 2 <= s@.len() && s@[a] == 0x40u8 {
                            assert(a >= at);
                        }
                    }
                }
                return false;
            }
            let mut j: usize = at + 2;
            while j + 1 < n
                invariant
                    n == s@.len(),
                    s@[at as int] == 0x40u8,
                    1 <= at,
                    at + 2 <= j < n,
                    forall|k: int| at + 2 <= k < j ==> s@[k] != 0x2eu8,
                decreases n - j,
            {
                if s[j] == 0x2e {
                    proof {
                        assert(salt_pattern_ok(s@));
                    }
                    return true;
                }
                j = j + 1;
            }
            proof {
                assert forall|a: int, b: int|
                    !{
                        &&& 1 <= a
                        &&& a + 2 <= b
                        &&& b + 2 <= s@.len()
                        &&& s@[a] == 0x40u8
                        &&& s@[b] == 0x2eu8
                    } by {
                    if 1 <= a && a + 2 <= b && b + 2 <= s@.len() && s@[a] == 0x40u8 {
                        assert(a >= at);
                        assert(at + 2 <= b < s@.len() - 1);
                    }
                }
            }
            return false;
        }
        i = i + 1;
    }
    proof {
        assert forall|a: int, b: int|
            !{
                &&& 1 <= a
                &&& a + 2 <= b
                &&& b + 2 <= s@.len()
                &&& s@[a] == 0x40u8
                &&& s@[b] == 0x2eu8
            } by {
            if 1 <= a && a + 2 <= b && b + 2 <= s@.len() {
                assert(s@[a] != 0x40u8);
            }
        }
    }
    false
}

/// Whether every passphrase byte is printable ASCII.
fn passphrase_matches(p: &[u8]) -> (r: bool)
    ensures
        r == passphrase_printable(p@),
{
    let n = p.len();
    let mut i: usize = 0;
    while i < n
        invariant
            n == p@.len(),
            i <= n,
            forall|k: int| 0 <= k < i ==> 0x20 <= #[trigger] p@[k] <= 0x7e,
        decreases n - i,
    {
        if p[i] < 0x20 || p[i] > 0x7e {
            return false;
        }
        i = i + 1;
    }
    true
}

/// Checks a passphrase/salt pair against the validation rules, in order:
/// non-empty passphrase, non-empty salt, email-shaped salt, printable-ASCII
/// passphrase. Returns the validated input unchanged on success.
pub fn validate(passphrase: &[u8], salt: &[u8]) -> (r: Result<Input, ValidationError>)
    ensures
        match r {
            Ok(input) => {
                &&& validation_of(passphrase@, salt@) is None
                &&& input.passphrase@ == passphrase@
                &&& input.salt@ == salt@
            },
            Err(e) => validation_of(passphrase@, salt@) == Some(e),
        },
{
    if passphrase.len() == 0 {
        return Err(ValidationError::EmptyPassphrase);
    }
    if salt.len() == 0 {
        return Err(ValidationError::EmptySalt);
    }
    if !salt_matches(salt) {
        return Err(ValidationError::BadSalt);
    }
    if !passphrase_matches(passphrase) {
        return Err(ValidationError::BadPassphrase);
    }
    let mut p: Vec<u8> = Vec::new();
    p.extend_from_slice(passphrase);
    let mut s: Vec<u8> = Vec::new();
    s.extend_from_slice(salt);
    proof {
        assert(p@ =~= passphrase@);
        assert(s@ =~= salt@);
    }
    Ok(Input { passphrase: p, salt: s })
}

} // verus!
