use vstd::prelude::*;

verus! {

#[verifier::external_type_specification]
#[verifier::external_body]
pub struct ExPwhashError(pwhash::error::Error);

/// Whether a sequence of characters holds only the characters from space
/// (U+0020) through U+007F.
pub open spec fn printable_ascii(s: Seq<char>) -> bool {
    forall|i: int| 0 <= i < s.len() ==> ' ' <= #[trigger] s[i] && s[i] <= '\x7f'
}

/// Whether a character belongs to the Base64 alphabet of bcrypt:
/// `.`, `/`, `A`-`Z`, `a`-`z` and `0`-`9`.
pub open spec fn bcrypt_base64_char(c: char) -> bool {
    c == '.' || c == '/' || ('A' <= c && c <= 'Z') || ('a' <= c && c <= 'z') || ('0' <= c
        && c <= '9')
}

/// Whether a string has the shape of the hashes that `pwhash::bcrypt::hash`
/// makes: `$2b$10$` (variant 2b, cost 10), then 53 characters of the bcrypt
/// Base64 alphabet (22 for the salt, 31 for the checksum), 60 in all.
pub open spec fn bcrypt_hash_shape(h: Seq<char>) -> bool {
    &&& h.len() == 60
    &&& h[0] == '$'
    &&& h[1] == '2'
    &&& h[2] == 'b'
    &&& h[3] == '$'
    &&& h[4] == '1'
    &&& h[5] == '0'
    &&& h[6] == '$'
    &&& forall|i: int| 7 <= i < 60 ==> bcrypt_base64_char(#[trigger] h[i])
}

/// What `pwhash::bcrypt::verify` answers for a password and a stored hash.
pub uninterp spec fn bcrypt_verifies(password: Seq<char>, hash: Seq<char>) -> bool;

/// Calls `pwhash::bcrypt::hash`, which draws a random salt and returns the
/// bcrypt hash string `$2b$10${salt}{checksum}` of the password. The salt is
/// random, so nothing is said of the string beyond this: the call returns
/// `Ok` (its body formats the hash and cannot fail); the hash has the shape
/// that `do_bcrypt` formats (`$2b$10$`, then the salt's 16 bytes and 23
/// bytes of the checksum in the bcrypt Base64 alphabet, 22 and 31
/// characters); and `pwhash::bcrypt::verify` accepts the password against it
/// (verification recomputes the hash with the salt and cost read back from
/// the string). The call panics only when the system random source cannot
/// be read, which depends on the machine and not on the password.
#[verifier::external_body]
fn bcrypt_hash(password: &str) -> (r: Result<String, pwhash::error::Error>)
    ensures
        r is Ok,
        r matches Ok(h) ==> bcrypt_hash_shape(h@) && bcrypt_verifies(password@, h@),
{
    pwhash::bcrypt::hash(password)
}

/// Calls `pwhash::bcrypt::verify`, whose answer is a function of the password
/// and the hash string alone, named `bcrypt_verifies`. The call decodes the
/// salt of the hash with `b as u32 - 0x20` and a table of 96 entries, which
/// panics on a character below U+0020 or equal to U+0080; such hashes are
/// left out.
#[verifier::external_body]
fn bcrypt_verify(password: &str, hash: &str) -> (r: bool)
    requires
        printable_ascii(hash@),
    ensures
        r == bcrypt_verifies(password@, hash@),
{
    pwhash::bcrypt::verify(password, hash)
}

/// Every string of the bcrypt hash shape is printable ASCII.
pub proof fn lemma_hash_shape_printable(h: Seq<char>)
    requires
        bcrypt_hash_shape(h),
    ensures
        printable_ascii(h),
{
    assert forall|i: int| 0 <= i < h.len() implies ' ' <= #[trigger] h[i] && h[i] <= '\x7f' by {
        if i >= 7 {
            assert(bcrypt_base64_char(h[i]));
        }
    }
}

/// Hashes a password for storage with bcrypt, under a fresh random salt.
/// The hash has the bcrypt shape, verifies against the password, and so is
/// never the password itself unless that password has the bcrypt shape.
pub fn hash_password(password: &str) -> (h: String)
    ensures
        bcrypt_hash_shape(h@),
        printable_ascii(h@),
        bcrypt_verifies(password@, h@),
        !bcrypt_hash_shape(password@) ==> h@ != password@,
{
    match bcrypt_hash(password) {
        Ok(h) => {
            proof {
                lemma_hash_shape_printable(h@);
            }
            h
        },
        Err(_) => {
            proof {
                assert(false);
            }
            String::new()
        },
    }
}

/// Whether a stored hash holds only printable ASCII characters.
pub fn is_printable_ascii(s: &str) -> (r: bool)
    ensures
        r == printable_ascii(s@),
{
    let n = s.unicode_len();
    let mut i: usize = 0;
    while i < n
        invariant
            n == s@.len(),
            i <= n,
            forall|j: int| 0 <= j < i ==> ' ' <= #[trigger] s@[j] && s@[j] <= '\x7f',
        decreases n - i,
    {
        let c = s.get_char(i);
        if c < ' ' || c > '\x7f' {
            return false;
        }
        i = i + 1;
    }
    true
}

/// Whether a password matches a stored bcrypt hash. A stored string with a
/// character outside U+0020..U+007F is no bcrypt hash and matches nothing.
pub fn password_matches(password: &str, hash: &str) -> (r: bool)
    ensures
        r == (printable_ascii(hash@) && bcrypt_verifies(password@, hash@)),
{
    if is_printable_ascii(hash) {
        bcrypt_verify(password, hash)
    } else {
        false
    }
}

} // verus!
