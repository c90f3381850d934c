//! Password hashing with Argon2.

use argon2::password_hash::rand_core::OsRng;
use argon2::password_hash::{Salt, SaltString};
use argon2::{Argon2, PasswordHash, PasswordHasher, PasswordVerifier};
use vstd::prelude::*;
use vstd::utf8::encode_utf8;

use crate::encoding::base64_unpadded;
use crate::text::characters;

verus! {

/// Declares the error of the password hashing crates to the verifier.
#[verifier::external_type_specification]
#[verifier::external_body]
pub struct ExError(argon2::password_hash::Error);

/// Whether a text is what sixteen bytes give in base64 without padding.
pub open spec fn is_salt(text: Seq<char>) -> bool {
    exists|bytes: Seq<u8>| bytes.len() == 16 && text == #[trigger] base64_unpadded(bytes)
}

/// A fresh random salt.
///
/// Trusted: `argon2::password_hash::SaltString::generate` with the random numbers of the operating
/// system. The contract claims of every outcome that it is the unpadded base64 text of sixteen
/// bytes. Which bytes they are is chance. The call panics where the operating system has no random
/// numbers to give.
#[verifier::external_body]
pub(crate) fn fresh_salt() -> (salt: String)
    ensures
        is_salt(salt@),
{
    SaltString::generate(&mut OsRng).to_string()
}

/// What Argon2 with its default settings gives for a password and a salt: the hash as a text in
/// the format of the Password Hashing Competition (PHC), or the reason why there is none.
pub uninterp spec fn argon2_hash(password: Seq<char>, salt: Seq<char>) -> Result<
    Seq<char>,
    argon2::password_hash::Error,
>;

/// The parameter field of a text that can be read as a PHC hash, and `None` for any other text.
pub uninterp spec fn phc_parameters(hash: Seq<char>) -> Option<Seq<char>>;

/// Whether Argon2 accepts a password for a hash in PHC format.
pub uninterp spec fn argon2_accepts(password: Seq<char>, hash: Seq<char>) -> bool;

/// Whether a parameter starts at position `i`: parameters are parted by commas.
pub open spec fn parameter_starts(parameters: Seq<char>, i: int) -> bool {
    i == 0 || parameters[i - 1] == ','
}

/// Whether a parameter ends before position `end`.
pub open spec fn parameter_ends(parameters: Seq<char>, end: int) -> bool {
    end == parameters.len() || (end < parameters.len() && parameters[end] == ',')
}

/// Whether the parameter that holds position `i` ends within `width` characters from there.
pub open spec fn parameter_ends_within(parameters: Seq<char>, i: int, width: int) -> bool {
    exists|end: int| i <= end <= i + width && #[trigger] parameter_ends(parameters, end)
}

/// Whether a parameter `p`, the degree of parallelism, starts at position `i`.
pub open spec fn is_parallelism(parameters: Seq<char>, i: int) -> bool {
    &&& 0 <= i
    &&& i + 1 < parameters.len()
    &&& parameter_starts(parameters, i)
    &&& parameters[i] == 'p'
    &&& parameters[i + 1] == '='
}

/// Whether the degree of parallelism is written with at most eight characters. Where it is given
/// several times, the last one counts. Eight times a number of eight digits stays within thirty-two
/// bits, and Argon2 accepts nobody for a hash whose degree of parallelism is written with more.
pub open spec fn parallelism_fits(parameters: Seq<char>) -> bool {
    forall|i: int| #[trigger]
        is_parallelism(parameters, i) && (forall|j: int|
            i < j ==> !#[trigger] is_parallelism(parameters, j)) ==> parameter_ends_within(
            parameters,
            i + 2,
            8,
        )
}

/// Whether a text is a hash that a password can be checked against.
pub open spec fn is_checkable_hash(hash: Seq<char>) -> bool {
    match phc_parameters(hash) {
        Some(parameters) => parallelism_fits(parameters),
        None => false,
    }
}

/// The outcome of hashing, with the hash taken as its characters.
pub open spec fn outcome_view(hashed: Result<String, argon2::password_hash::Error>) -> Result<
    Seq<char>,
    argon2::password_hash::Error,
> {
    match hashed {
        Ok(hash) => Ok(hash@),
        Err(error) => Err(error),
    }
}

/// The hash of a password under a salt.
///
/// Trusted: `argon2::password_hash::Salt::from_b64` and `hash_password` of `argon2::Argon2` with
/// its default settings. The contract names the outcome, which depends on the password and the
/// salt alone. It claims further: a salt of sixteen bytes and a password of less than four
/// gibibytes are hashed; a salt that is accepted has at most sixty-four bytes; a hash that comes out
/// can be checked, and is accepted for the same password.
#[verifier::external_body]
pub(crate) fn hash_password(password: &str, salt: &str) -> (hashed: Result<
    String,
    argon2::password_hash::Error,
>)
    ensures
        outcome_view(hashed) == argon2_hash(password@, salt@),
        is_salt(salt@) && encode_utf8(password@).len() <= 0xffff_ffff ==> hashed is Ok,
        hashed is Ok ==> encode_utf8(salt@).len() <= 64,
        hashed matches Ok(hash) ==> is_checkable_hash(hash@) && argon2_accepts(password@, hash@),
{
    let salt = Salt::from_b64(salt)?;
    let hash = Argon2::default().hash_password(password.as_bytes(), salt)?;
    Ok(hash.to_string())
}

/// The parameter field of a hash, if the text is one.
///
/// Trusted: `argon2::PasswordHash::new`. The contract names the outcome.
#[verifier::external_body]
pub(crate) fn read_parameters(hash: &str) -> (parameters: Option<String>)
    ensures
        match parameters {
            Some(parameters) => phc_parameters(hash@) == Some(parameters@),
            None => phc_parameters(hash@) is None,
        },
{
    match PasswordHash::new(hash) {
        Ok(parsed) => Some(parsed.params.as_str().to_owned()),
        Err(_) => None,
    }
}

/// Whether a password is the one that a hash was made from.
///
/// Trusted: `verify_password` of `argon2::Argon2`, on the hash as `argon2::PasswordHash::new`
/// reads it. The contract names the outcome. The call panics on a text that is no hash, and can
/// overflow where the degree of parallelism is written with more than eight characters. It takes as much memory as
/// the hash asks for.
#[verifier::external_body]
pub(crate) fn verify_password(password: &str, hash: &str) -> (accepted: bool)
    requires
        is_checkable_hash(hash@),
    ensures
        accepted == argon2_accepts(password@, hash@),
{
    let parsed = PasswordHash::new(hash).expect("Failed to parse hash string");
    Argon2::default().verify_password(password.as_bytes(), &parsed).is_ok()
}

/// Whether the parameter that holds position `i` ends within eight characters from there.
fn ends_within_eight(parameters: &Vec<char>, i: usize) -> (ends: bool)
    requires
        i <= parameters.len(),
    ensures
        ends == parameter_ends_within(parameters@, i as int, 8),
{
    let mut end: usize = i;
    while end < parameters.len() && end - i <= 8
        invariant
            i <= end <= parameters.len(),
            end <= i + 9,
            forall|k: int| i <= k < end ==> !#[trigger] parameter_ends(parameters@, k),
        decreases parameters.len() - end,
    {
        if parameters[end] == ',' {
            assert(parameter_ends(parameters@, end as int));
            return true;
        }
        end += 1;
    }
    assert(end == parameters.len() ==> parameter_ends(parameters@, end as int));
    end - i <= 8
}

/// Whether the degree of parallelism is written with at most eight characters.
fn has_fitting_parallelism(parameters: &str) -> (fits: bool)
    ensures
        fits == parallelism_fits(parameters@),
{
    let chars = characters(parameters);
    let mut rest: usize = chars.len();
    while rest > 0
        invariant
            rest <= chars.len(),
            chars@ == parameters@,
            forall|j: int| rest <= j ==> !#[trigger] is_parallelism(chars@, j),
        decreases rest,
    {
        let i: usize = rest - 1;
        let starts = i == 0 || chars[i - 1] == ',';
        if starts && chars[i] == 'p' && i < chars.len() - 1 && chars[i + 1] == '=' {
            assert(is_parallelism(chars@, i as int));
            return ends_within_eight(&chars, i + 2);
        }
        assert(!is_parallelism(chars@, i as int));
        rest = i;
    }
    true
}

/// Whether a text can be read as a PHC hash.
pub fn can_read(hash: &str) -> (readable: bool)
    ensures
        readable == (phc_parameters(hash@) is Some),
{
    read_parameters(hash).is_some()
}

/// Whether a text is a hash that a password can be checked against.
pub fn can_check(hash: &str) -> (checkable: bool)
    ensures
        checkable == is_checkable_hash(hash@),
{
    match read_parameters(hash) {
        Some(parameters) => has_fitting_parallelism(parameters.as_str()),
        None => false,
    }
}

} // verus!
