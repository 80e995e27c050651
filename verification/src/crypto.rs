//! Encryption of sensitive profile data (BVN, NIN) at rest.

use magic_crypt::MagicCryptTrait;
use vstd::prelude::*;
use vstd::string::*;

verus! {

/// magic_crypt's AES-256 cipher.
#[verifier::external_type_specification]
#[verifier::external_body]
pub struct ExMagicCrypt256(magic_crypt::MagicCrypt256);

/// magic_crypt's error type.
#[verifier::external_type_specification]
#[verifier::external_body]
pub struct ExMagicCryptError(magic_crypt::MagicCryptError);

/// The Base64 text that AES-256 (key hashed with SHA-256, zero IV, CBC,
/// PKCS#7) makes of `plain` under `key`.
pub uninterp spec fn aes256_encrypt_base64(key: Seq<char>, plain: Seq<char>) -> Seq<char>;

/// What decrypting the Base64 text `cipher` under `key` gives: `Some(text)`
/// when it decodes, decrypts and is UTF-8, `None` otherwise.
pub uninterp spec fn aes256_decrypt_base64(key: Seq<char>, cipher: Seq<char>) -> Option<
    Seq<char>,
>;

/// A character of the standard Base64 alphabet, or the padding `=`.
pub open spec fn is_base64_symbol(c: char) -> bool {
    let u = c as u32;
    ||| 0x41 <= u && u <= 0x5A
    ||| 0x61 <= u && u <= 0x7A
    ||| 0x30 <= u && u <= 0x39
    ||| c == '+'
    ||| c == '/'
    ||| c == '='
}

/// `s` is not padded Base64 text: it holds a character outside the alphabet
/// and `=`, or its length is not a multiple of four, or a `=` comes before a
/// character that is not `=`, or a `=` stands in the first or second place of
/// a group of four.
pub open spec fn not_base64(s: Seq<char>) -> bool {
    ||| exists|i: int| 0 <= i < s.len() && !is_base64_symbol(#[trigger] s[i])
    ||| s.len() % 4 != 0
    ||| exists|i: int, j: int| 0 <= i < j < s.len() && #[trigger] s[i] == '=' && #[trigger] s[j] != '='
    ||| exists|i: int| 0 <= i < s.len() && #[trigger] s[i] == '=' && i % 4 < 2
}

/// The service that encrypts and decrypts sensitive fields with one key.
pub struct CryptoService {
    crypt: magic_crypt::MagicCrypt256,
    key: Ghost<Seq<char>>,
}

impl View for CryptoService {
    type V = Seq<char>;

    /// The key the service was made with.
    closed spec fn view(&self) -> Seq<char> {
        self.key@
    }
}

/// magic_crypt's `MagicCrypt256::new(key, None)` (what `new_magic_crypt!(key, 256)`
/// expands to); the cipher is opaque.
#[verifier::external_body]
fn new_aes256(key: &str) -> magic_crypt::MagicCrypt256 {
    magic_crypt::MagicCrypt256::new(key, None::<String>)
}

/// magic_crypt's `encrypt_str_to_base64`: deterministic in the key and the
/// text (named `aes256_encrypt_base64`); its documentation shows that
/// `decrypt_base64_to_string` gives the text back.
#[verifier::external_body]
fn aes256_encrypt(svc: &CryptoService, plain_text: &str) -> (r: String)
    ensures
        r@ == aes256_encrypt_base64(svc@, plain_text@),
        aes256_decrypt_base64(svc@, r@) == Some(plain_text@),
{
    svc.crypt.encrypt_str_to_base64(plain_text)
}

/// magic_crypt's `decrypt_base64_to_string`: a function of the key and the
/// text (named `aes256_decrypt_base64`). It decodes the text with base64's
/// standard engine first, which requires canonical padding: it refuses any
/// character outside the alphabet and `=`, a length that is not a multiple
/// of four, and a `=` that is not part of the final padding of one or two;
/// which error it fails with is left unsaid.
#[verifier::external_body]
fn aes256_decrypt(svc: &CryptoService, base64_encrypted: &str) -> (r: Result<
    String,
    magic_crypt::MagicCryptError,
>)
    ensures
        match aes256_decrypt_base64(svc@, base64_encrypted@) {
            Some(p) => r matches Ok(t) && t@ == p,
            None => r is Err,
        },
        not_base64(base64_encrypted@) ==> r is Err,
{
    svc.crypt.decrypt_base64_to_string(base64_encrypted)
}

/// magic_crypt's `Clone` for the cipher: a copy of the same cipher.
#[verifier::external_body]
fn clone_aes256(c: &magic_crypt::MagicCrypt256) -> magic_crypt::MagicCrypt256 {
    c.clone()
}

impl Clone for CryptoService {
    fn clone(&self) -> (r: Self)
        ensures
            r@ == self@,
    {
        CryptoService { crypt: clone_aes256(&self.crypt), key: Ghost(self.key@) }
    }
}

/// The `Display` text of a magic_crypt error; nothing is said of it.
#[verifier::external_body]
fn crypt_error_text(e: &magic_crypt::MagicCryptError) -> String {
    e.to_string()
}

impl CryptoService {
    /// The service for `key`.
    pub fn new(key: &str) -> (s: Self)
        ensures
            s@ == key@,
    {
        CryptoService { crypt: new_aes256(key), key: Ghost(key@) }
    }

    /// Encrypts a text; the result is Base64 and decrypts back to `plain_text`.
    pub fn encrypt(&self, plain_text: &str) -> (r: String)
        ensures
            r@ == aes256_encrypt_base64(self@, plain_text@),
            aes256_decrypt_base64(self@, r@) == Some(plain_text@),
    {
        aes256_encrypt(self, plain_text)
    }

    /// Decrypts a Base64 text; fails when it is not padded Base64 or does not
    /// decrypt to UTF-8 text.
    pub fn decrypt(&self, base64_encrypted: &str) -> (r: Result<String, String>)
        ensures
            match aes256_decrypt_base64(self@, base64_encrypted@) {
                Some(p) => r matches Ok(t) && t@ == p,
                None => r is Err,
            },
            not_base64(base64_encrypted@) ==> r is Err,
    {
        match aes256_decrypt(self, base64_encrypted) {
            Ok(t) => Ok(t),
            Err(e) => Err(crypt_error_text(&e)),
        }
    }
}

} // verus!
