use vstd::prelude::*;

verus! {

/// Whether bcrypt accepts `digest` as well-formed: a 60-byte hash string
/// whose version, cost, salt and hash parts all parse. Whether verification
/// of a digest succeeds or errs is determined by the digest alone, so this is
/// a function of the digest.
pub uninterp spec fn wf_digest(digest: Seq<char>) -> bool;

/// Whether `password`, re-hashed under the cost and salt embedded in
/// `digest`, reproduces `digest`'s hash part. bcrypt's verification is a
/// deterministic function of the password and the digest.
pub uninterp spec fn digest_matches(password: Seq<char>, digest: Seq<char>) -> bool;

#[verifier::external_type_specification]
#[verifier::external_body]
pub struct ExBcryptError(bcrypt::BcryptError);

/// Relies on bcrypt::hash with the crate's default cost: on success it
/// returns the fixed 60-character digest string (the salt and cost it embeds
/// parse back) that verifies against the hashed password. It fails only when
/// gathering salt randomness from the OS fails.
#[verifier::external_body]
pub(crate) fn hash_password(password: &String) -> (r: Result<String, bcrypt::BcryptError>)
    ensures
        r matches Ok(digest) ==> wf_digest(digest@) && digest_matches(password@, digest@)
            && digest@.len() == 60,
{
    bcrypt::hash(password.as_str(), bcrypt::DEFAULT_COST)
}

/// Relies on bcrypt::verify: it returns Ok exactly when the digest parses and
/// its embedded cost lies in bcrypt's allowed range (a mismatching password
/// is an ordinary Ok(false), a malformed digest an error), and the boolean is
/// a deterministic function of password and digest.
#[verifier::external_body]
pub(crate) fn verify_password(password: &String, digest: &String) -> (r: Result<
    bool,
    bcrypt::BcryptError,
>)
    ensures
        r is Ok <==> wf_digest(digest@),
        r matches Ok(b) ==> b == digest_matches(password@, digest@),
{
    bcrypt::verify(password.as_str(), digest.as_str())
}

} // verus!
