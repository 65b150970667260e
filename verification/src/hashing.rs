//! Argon2id password hashing behind trusted wrappers.
//!
//! The outcome of a verification is a function of the candidate password and
//! the PHC string alone, so it is given a name (`argon2_verify_code`) rather
//! than a transcription of the algorithm; a freshly derived digest depends on
//! a random salt, so the hashing wrapper states only what holds of every
//! outcome.

use vstd::prelude::*;

verus! {

/// Whether `PasswordHash::new` accepts the string as a PHC-format digest.
pub uninterp spec fn phc_parse_ok(phc: Seq<char>) -> bool;

/// What `Argon2::verify_password` returns for a candidate password and a
/// PHC digest: 0 when the recomputed digest matches, 1 for a password
/// mismatch (`Error::Password`), 2 for any other failure (an algorithm,
/// version or parameter the digest names that Argon2 rejects).
pub uninterp spec fn argon2_verify_code(password: Seq<char>, phc: Seq<char>) -> int;

/// The digest parses and the candidate password reproduces it.
pub open spec fn phc_verifies(password: Seq<char>, phc: Seq<char>) -> bool {
    phc_parse_ok(phc) && argon2_verify_code(password, phc) == 0
}

/// The digest parses and is processable, but the candidate password does not
/// reproduce it.
pub open spec fn phc_mismatch(password: Seq<char>, phc: Seq<char>) -> bool {
    phc_parse_ok(phc) && argon2_verify_code(password, phc) == 1
}

/// The stored digest cannot be checked at all: it does not parse as a PHC
/// string, or Argon2 rejects what it names.
pub open spec fn phc_unusable(password: Seq<char>, phc: Seq<char>) -> bool {
    !phc_parse_ok(phc) || argon2_verify_code(password, phc) == 2
}

/// What holds of every digest that `compute_password_hash` hands out: it
/// parses, the hashed password reproduces it, and checking any candidate
/// within the hashing length bound against it ends in a match or a
/// mismatch, never in a processing failure. (A candidate beyond the 2^32-1
/// byte cap is itself refused by the algorithm, whatever the digest.)
pub open spec fn hash_output_for(password: Seq<char>, phc: Seq<char>) -> bool {
    &&& phc_verifies(password, phc)
    &&& forall|other: Seq<char>|
        password_within_hash_bound(other) ==> argon2_verify_code(other, phc) != 2
}

/// The digit character of a decimal digit.
pub open spec fn spec_digit(d: int) -> char {
    if d == 0 {
        '0'
    } else if d == 1 {
        '1'
    } else if d == 2 {
        '2'
    } else if d == 3 {
        '3'
    } else if d == 4 {
        '4'
    } else if d == 5 {
        '5'
    } else if d == 6 {
        '6'
    } else if d == 7 {
        '7'
    } else if d == 8 {
        '8'
    } else {
        '9'
    }
}

/// The decimal rendering of a number, as PHC parameter strings carry it.
pub open spec fn spec_decimal(n: int) -> Seq<char>
    recommends
        n >= 0,
    decreases n,
{
    if n < 10 {
        seq![spec_digit(n)]
    } else {
        spec_decimal(n / 10) + seq![spec_digit(n % 10)]
    }
}

/// The prefix of every digest the hashing wrapper hands out: the Argon2id
/// algorithm identifier, version 19 (0x13) and the cost parameters, in PHC
/// form, before the salt and the digest itself.
pub open spec fn phc_prefix(m_cost: u32, t_cost: u32, p_cost: u32) -> Seq<char> {
    "$argon2id$v=19$m="@ + spec_decimal(m_cost as int) + ",t="@ + spec_decimal(t_cost as int)
        + ",p="@ + spec_decimal(p_cost as int) + "$"@
}

/// The cost triples that `Params::new` accepts: memory at least 8 KiB and 8
/// KiB per lane, at least one iteration, parallelism between 1 and 2^24 - 1.
pub open spec fn argon2_params_valid(m_cost: u32, t_cost: u32, p_cost: u32) -> bool {
    &&& m_cost >= 8
    &&& m_cost as int >= 8 * (p_cost as int)
    &&& t_cost >= 1
    &&& 1 <= p_cost <= 0xFFFFFF
}

/// Passwords this long always hash: UTF-8 spends at most four bytes per
/// character, so this many characters stay within the 2^32 - 1 bytes the
/// algorithm accepts.
pub open spec fn password_within_hash_bound(password: Seq<char>) -> bool {
    password.len() <= 0x3FFF_FFFF
}

/// The three ways checking a candidate password against a stored digest can
/// end.
#[derive(Clone, Copy, Debug, PartialEq, Eq, Structural)]
pub enum HashCheckOutcome {
    Verified,
    Mismatch,
    Malformed,
}

/// Relies on argon2's `PasswordHash::new` and `Argon2::verify_password`:
/// the digest is parsed from PHC form, the candidate is hashed with the
/// algorithm, version, parameters and salt the digest names, and the outputs
/// are compared; `Error::Password` is the only mismatch error. Both results
/// depend on the two strings alone.
///
/// One guard stands before the verify call: argon2's `Params::new`
/// multiplies the digest's `p` parameter by eight before checking it
/// against the 2^24 - 1 maximum, so a digest naming `p` of 2^29 or more
/// aborts on the overflow in builds that check arithmetic. Such a `p` is
/// over the maximum in any case, so the guard answers `Malformed` for it —
/// the verdict the bounds check itself reaches when the multiplication
/// wraps.
#[verifier::external_body]
pub(crate) fn argon2_check(candidate: &str, phc: &str) -> (r: HashCheckOutcome)
    ensures
        (r == HashCheckOutcome::Verified) == (phc_parse_ok(phc@) && argon2_verify_code(
            candidate@,
            phc@,
        ) == 0),
        (r == HashCheckOutcome::Mismatch) == (phc_parse_ok(phc@) && argon2_verify_code(
            candidate@,
            phc@,
        ) == 1),
        (r == HashCheckOutcome::Malformed) == (!phc_parse_ok(phc@) || argon2_verify_code(
            candidate@,
            phc@,
        ) == 2),
{
    let parsed = match argon2::PasswordHash::new(phc) {
        Ok(parsed) => parsed,
        Err(_) => return HashCheckOutcome::Malformed,
    };
    if parsed.params.get_decimal("p").map_or(false, |p| p > 0xFFFFFF) {
        return HashCheckOutcome::Malformed;
    }
    match argon2::PasswordVerifier::verify_password(&argon2::Argon2::default(), candidate.as_bytes(), &parsed) {
        Ok(()) => HashCheckOutcome::Verified,
        Err(argon2::password_hash::Error::Password) => HashCheckOutcome::Mismatch,
        Err(_) => HashCheckOutcome::Malformed,
    }
}

/// Relies on argon2's `Params::new`, `Argon2::new` and
/// `PasswordHasher::hash_password`, and on password-hash's
/// `SaltString::generate`: a fresh random salt is drawn, so nothing relates
/// two calls; every digest handed out prints as `$argon2id$v=19$` followed
/// by the given costs, a salt and a digest, all of which `verify_password`
/// accepts, and verifying the hashed password against it succeeds. With
/// costs that `Params::new` accepts, a sixteen-byte generated salt and the
/// default 32-byte output, the only failure the source leaves is a password
/// over 2^32 - 1 bytes, which the character bound rules out. Parallelism is
/// bounded up front because `Params::new` multiplies it by eight before its
/// own bounds check, which would abort on the overflow.
#[verifier::external_body]
pub(crate) fn argon2_hash(password: &str, m_cost: u32, t_cost: u32, p_cost: u32) -> (r: Option<String>)
    requires
        p_cost <= 0xFFFFFF,
    ensures
        r matches Some(phc) ==> hash_output_for(password@, phc@),
        r matches Some(phc) ==> (phc@.len() > phc_prefix(m_cost, t_cost, p_cost).len() && phc@
            .subrange(0, phc_prefix(m_cost, t_cost, p_cost).len() as int) == phc_prefix(
            m_cost,
            t_cost,
            p_cost,
        )),
        argon2_params_valid(m_cost, t_cost, p_cost) && password_within_hash_bound(password@)
            ==> r is Some,
{
    let salt = argon2::password_hash::SaltString::generate(&mut rand::thread_rng());
    let params = match argon2::Params::new(m_cost, t_cost, p_cost, None) {
        Ok(params) => params,
        Err(_) => return None,
    };
    let hasher = argon2::Argon2::new(argon2::Algorithm::Argon2id, argon2::Version::V0x13, params);
    match argon2::PasswordHasher::hash_password(&hasher, password.as_bytes(), &salt) {
        Ok(phc) => Some(phc.to_string()),
        Err(_) => None,
    }
}

/// Argon2 memory cost, in KiB.
pub const ARGON2_M_COST: u32 = 15000;

/// Argon2 iteration count.
pub const ARGON2_T_COST: u32 = 2;

/// Argon2 degree of parallelism.
pub const ARGON2_P_COST: u32 = 1;

/// Hash-then-verify round trip: any digest the hasher hands out for a
/// password verifies that password, and checking it can never end in a
/// processing failure.
pub proof fn lemma_hash_verifies_own_password(password: Seq<char>, phc: Seq<char>)
    requires
        hash_output_for(password, phc),
    ensures
        phc_verifies(password, phc),
        forall|candidate: Seq<char>|
            password_within_hash_bound(candidate) ==> !phc_unusable(candidate, phc),
{
}

/// A candidate that does not reproduce a hasher-produced digest fails
/// verification as a mismatch, never as a processing fault. Whether two
/// distinct passwords can ever reproduce one digest (a hash collision) is
/// left open, so the premise is the non-reproduction itself.
pub proof fn lemma_hash_rejects_other_candidates(
    candidate: Seq<char>,
    password: Seq<char>,
    phc: Seq<char>,
)
    requires
        hash_output_for(password, phc),
        password_within_hash_bound(candidate),
        argon2_verify_code(candidate, phc) != 0,
    ensures
        !phc_verifies(candidate, phc),
        !phc_unusable(candidate, phc),
{
}

/// The digest prefix under the fixed cost parameters, written out.
pub proof fn lemma_fixed_params_prefix()
    ensures
        phc_prefix(ARGON2_M_COST, ARGON2_T_COST, ARGON2_P_COST)
            == "$argon2id$v=19$m=15000,t=2,p=1$"@,
        phc_prefix(ARGON2_M_COST, ARGON2_T_COST, ARGON2_P_COST).len() == 31,
{
    reveal_strlit("$argon2id$v=19$m=");
    reveal_strlit(",t=");
    reveal_strlit(",p=");
    reveal_strlit("$");
    reveal_strlit("$argon2id$v=19$m=15000,t=2,p=1$");
    assert(spec_decimal(1) =~= seq!['1']);
    assert(spec_decimal(15) =~= seq!['1', '5']);
    assert(spec_decimal(150) =~= seq!['1', '5', '0']);
    assert(spec_decimal(1500) =~= seq!['1', '5', '0', '0']);
    assert(spec_decimal(15000) =~= seq!['1', '5', '0', '0', '0']);
    assert(spec_decimal(2) =~= seq!['2']);
    assert(spec_decimal(1) =~= seq!['1']);
    assert(phc_prefix(ARGON2_M_COST, ARGON2_T_COST, ARGON2_P_COST)
        =~= "$argon2id$v=19$m=15000,t=2,p=1$"@);
}

} // verus!
