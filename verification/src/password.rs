//! Salted, memory-hard password hashing.
//!
//! The hashing itself is Argon2id from the `argon2` crate; what this module
//! adds is the cost parameters as a checked value, the mapping of failures to
//! [`AuthError`], and contracts that say which hash a password gets and which
//! passwords a hash accepts.

use vstd::prelude::*;
use vstd::string::*;
use vstd::utf8::encode_utf8;

use crate::decimal::{all_digits, decimal, digits_exceed, digits_value, lemma_decimal_reads_back};
use crate::error::AuthError;

verus! {

/// The largest degree of parallelism Argon2 accepts.
pub const MAX_PARALLELISM: u32 = 0xFF_FFFF;

/// The least memory cost, in KiB, for each lane.
pub const MEMORY_PER_LANE: u32 = 8;

/// The shortest output Argon2 accepts, in bytes.
pub const MIN_OUTPUT_LEN: u32 = 4;

/// The cost of one hash: memory in KiB, passes over the memory, lanes, and the
/// length of the output in bytes.
#[derive(Debug, Clone, Copy, PartialEq, Eq, Structural)]
pub struct HashParams {
    memory_cost: u32,
    iterations: u32,
    parallelism: u32,
    output_len: u32,
}

/// The ranges Argon2 accepts its parameters in.
pub open spec fn valid_costs(memory_cost: u32, iterations: u32, parallelism: u32, output_len: u32) -> bool {
    &&& 1 <= parallelism <= MAX_PARALLELISM
    &&& memory_cost >= MEMORY_PER_LANE * parallelism
    &&& iterations >= 1
    &&& output_len >= MIN_OUTPUT_LEN
}

impl HashParams {
    pub closed spec fn memory(self) -> u32 {
        self.memory_cost
    }

    pub closed spec fn passes(self) -> u32 {
        self.iterations
    }

    pub closed spec fn lanes(self) -> u32 {
        self.parallelism
    }

    pub closed spec fn output(self) -> u32 {
        self.output_len
    }

    /// The parameters lie in the ranges Argon2 accepts. Every value of the
    /// type does: there is no other way to make one.
    #[verifier::type_invariant]
    pub open spec fn wf(self) -> bool {
        valid_costs(self.memory(), self.passes(), self.lanes(), self.output())
    }

    /// Checked construction: parameters outside Argon2's ranges are refused
    /// with [`AuthError::PasswordHashError`].
    pub fn new(memory_cost: u32, iterations: u32, parallelism: u32, output_len: u32) -> (made: Result<
        HashParams,
        AuthError,
    >)
        ensures
            valid_costs(memory_cost, iterations, parallelism, output_len) ==> made is Ok,
            !valid_costs(memory_cost, iterations, parallelism, output_len) ==> made == Err::<
                HashParams,
                AuthError,
            >(AuthError::PasswordHashError),
            made matches Ok(params) ==> {
                &&& params.wf()
                &&& params.memory() == memory_cost
                &&& params.passes() == iterations
                &&& params.lanes() == parallelism
                &&& params.output() == output_len
            },
    {
        if parallelism < 1 || parallelism > MAX_PARALLELISM {
            return Err(AuthError::PasswordHashError);
        }
        if memory_cost < MEMORY_PER_LANE * parallelism || iterations < 1 || output_len
            < MIN_OUTPUT_LEN {
            return Err(AuthError::PasswordHashError);
        }
        Ok(HashParams { memory_cost, iterations, parallelism, output_len })
    }

    /// Cheap parameters that trade resistance to offline attack for latency:
    /// 256 KiB, two passes, one lane, sixteen bytes of output.
    pub fn fast() -> (params: HashParams)
        ensures
            params.wf(),
            params.memory() == 256,
            params.passes() == 2,
            params.lanes() == 1,
            params.output() == 16,
    {
        HashParams { memory_cost: 256, iterations: 2, parallelism: 1, output_len: 16 }
    }

    pub fn memory_cost(&self) -> (kib: u32)
        ensures
            kib == self.memory(),
    {
        self.memory_cost
    }

    pub fn iterations(&self) -> (passes: u32)
        ensures
            passes == self.passes(),
    {
        self.iterations
    }

    pub fn parallelism(&self) -> (lanes: u32)
        ensures
            lanes == self.lanes(),
    {
        self.parallelism
    }

    pub fn output_len(&self) -> (bytes: u32)
        ensures
            bytes == self.output(),
    {
        self.output_len
    }
}

/// The PHC string that Argon2id (version 0x13) gives for a password, a salt in
/// unpadded base64 and a set of costs, or `None` where it refuses them.
pub uninterp spec fn argon2id_phc(
    password: Seq<u8>,
    salt: Seq<char>,
    memory_cost: u32,
    iterations: u32,
    parallelism: u32,
    output_len: u32,
) -> Option<Seq<char>>;

/// The parameters of a PHC password hash, as pairs of name and value in the
/// order in which the string gives them, or `None` where the string does not
/// parse as a PHC password hash.
pub uninterp spec fn phc_parameters(hash: Seq<char>) -> Option<Seq<(Seq<char>, Seq<char>)>>;

/// The parameters that a hash made with these costs names.
pub open spec fn cost_parameters(params: HashParams) -> Seq<(Seq<char>, Seq<char>)> {
    seq![
        ("m"@, decimal(params.memory() as nat)),
        ("t"@, decimal(params.passes() as nat)),
        ("p"@, decimal(params.lanes() as nat)),
    ]
}

/// The value of the last parameter named `p`, the degree of parallelism. Where
/// a name occurs more than once, Argon2 goes by the last occurrence.
pub open spec fn last_lanes(parameters: Seq<(Seq<char>, Seq<char>)>) -> Option<Seq<char>>
    decreases parameters.len(),
{
    if parameters.len() == 0 {
        None
    } else if parameters.last().0 == "p"@ {
        Some(parameters.last().1)
    } else {
        last_lanes(parameters.drop_last())
    }
}

/// The parameters ask for more lanes than Argon2 has. Such a hash accepts no
/// password, and it is never handed to Argon2.
pub open spec fn lanes_overflow(parameters: Seq<(Seq<char>, Seq<char>)>) -> bool {
    last_lanes(parameters) matches Some(value) && all_digits(value) && digits_value(value)
        > MAX_PARALLELISM
}

/// The view of a list of parameters.
pub open spec fn pairs_view(parameters: Vec<(String, String)>) -> Seq<(Seq<char>, Seq<char>)> {
    Seq::new(parameters.len() as nat, |i: int| (parameters[i].0@, parameters[i].1@))
}

/// The view of a list of parameters that may be missing.
pub open spec fn parameters_view(parameters: Option<Vec<(String, String)>>) -> Option<
    Seq<(Seq<char>, Seq<char>)>,
> {
    match parameters {
        Some(pairs) => Some(pairs_view(pairs)),
        None => None,
    }
}

/// Whether recomputing the hash named by a PHC string for this password, with
/// the algorithm, costs and salt the string carries, gives the output the
/// string carries.
pub uninterp spec fn argon2_accepts(password: Seq<u8>, hash: Seq<char>) -> bool;

/// What checking `secret` against a stored `hash` comes to: a malformed hash
/// is an error, anything else is a yes or a no. A hash that asks for more
/// lanes than Argon2 has is a no.
pub open spec fn verify_outcome(secret: Seq<char>, hash: Seq<char>) -> Result<bool, AuthError> {
    match phc_parameters(hash) {
        None => Err(AuthError::PasswordHashError),
        Some(parameters) => Ok(
            !lanes_overflow(parameters) && argon2_accepts(encode_utf8(secret), hash),
        ),
    }
}

/// What hashing `secret` with `salt` comes to.
pub open spec fn hash_outcome(secret: Seq<char>, salt: Seq<char>, params: HashParams) -> Result<
    Seq<char>,
    AuthError,
> {
    match argon2id_phc(
        encode_utf8(secret),
        salt,
        params.memory(),
        params.passes(),
        params.lanes(),
        params.output(),
    ) {
        Some(hash) => Ok(hash),
        None => Err(AuthError::PasswordHashError),
    }
}

/// The view of a hashing result.
pub open spec fn hashed_view(hashed: Result<String, AuthError>) -> Result<Seq<char>, AuthError> {
    match hashed {
        Ok(hash) => Ok(hash@),
        Err(error) => Err(error),
    }
}

/// Calls `SaltString::generate` of `password-hash` on the operating system's
/// random number generator and hands out the salt as text. Nothing is claimed
/// of the salt: it is random. The generator does not return if the system has
/// no randomness to give.
#[verifier::external_body]
fn fresh_salt() -> String {
    argon2::password_hash::SaltString::generate(&mut argon2::password_hash::rand_core::OsRng)
        .as_str()
        .to_owned()
}

/// Calls `Argon2::hash_password` of `argon2` (as `PasswordHasher`) for
/// Argon2id, version 0x13, with the given costs and salt.
///
/// The result depends on the arguments alone, so it has a name. Two facts
/// about a hash that comes out are taken from the crate's source: it parses
/// as a PHC string whose parameters are the three costs `m`, `t` and `p` in
/// decimal, and `verify_password` accepts the password it was made from,
/// because verifying recomputes the hash from the algorithm, version, costs
/// and salt that the string carries.
#[verifier::external_body]
fn argon2id_hash(password: &[u8], salt: &str, params: &HashParams) -> (hashed: Option<String>)
    requires
        params.wf(),
    ensures
        hashed matches Some(hash) ==> argon2id_phc(
            password@,
            salt@,
            params.memory(),
            params.passes(),
            params.lanes(),
            params.output(),
        ) == Some(hash@),
        hashed is None ==> argon2id_phc(
            password@,
            salt@,
            params.memory(),
            params.passes(),
            params.lanes(),
            params.output(),
        ) is None,
        hashed matches Some(hash) ==> phc_parameters(hash@) == Some(cost_parameters(*params)),
        hashed matches Some(hash) ==> argon2_accepts(password@, hash@),
{
    let costs = argon2::Params::new(
        params.memory_cost,
        params.iterations,
        params.parallelism,
        Some(params.output_len as usize),
    ).ok()?;
    let salt = argon2::password_hash::SaltString::from_b64(salt).ok()?;
    let hasher = argon2::Argon2::new(argon2::Algorithm::Argon2id, argon2::Version::V0x13, costs);
    argon2::PasswordHasher::hash_password(&hasher, password, &salt).ok().map(|hash| hash.to_string())
}

/// Calls `PasswordHash::new` of `password-hash` and hands out the parameters
/// of the parsed hash, name and value as text, in the order of the string.
#[verifier::external_body]
fn phc_parse(hash: &str) -> (parameters: Option<Vec<(String, String)>>)
    ensures
        parameters_view(parameters) == phc_parameters(hash@),
{
    let parsed = argon2::PasswordHash::new(hash).ok()?;
    Some(
        parsed.params.iter().map(|(name, value)| (name.as_str().to_owned(), value.as_str().to_owned()))
            .collect(),
    )
}

/// Calls `Argon2::verify_password` of `argon2` (as `PasswordVerifier`) on a
/// default `Argon2` and the parsed hash, and says whether it accepted.
///
/// Argon2 multiplies the degree of parallelism that the hash names by eight
/// before it checks its range, which overflows for a degree that no hash of
/// this crate names; the call is not made for such a hash.
#[verifier::external_body]
fn argon2_verify(password: &[u8], hash: &str) -> (accepted: bool)
    requires
        phc_parameters(hash@) matches Some(parameters) && !lanes_overflow(parameters),
    ensures
        accepted == argon2_accepts(password@, hash@),
{
    match argon2::PasswordHash::new(hash) {
        Ok(parsed) => argon2::PasswordVerifier::verify_password(
            &argon2::Argon2::default(),
            password,
            &parsed,
        ).is_ok(),
        Err(_) => false,
    }
}

/// Whether the last parameter named `p` asks for more lanes than Argon2 has.
fn names_too_many_lanes(parameters: &Vec<(String, String)>) -> (over: bool)
    ensures
        over == lanes_overflow(pairs_view(*parameters)),
{
    let ghost pairs = pairs_view(*parameters);
    let lanes = String::from_str("p");
    let mut i: usize = parameters.len();
    assert(pairs.take(i as int) =~= pairs);
    while i > 0
        invariant
            i <= parameters.len(),
            pairs == pairs_view(*parameters),
            lanes@ == "p"@,
            last_lanes(pairs) == last_lanes(pairs.take(i as int)),
        decreases i,
    {
        i -= 1;
        assert(pairs.take(i + 1).drop_last() =~= pairs.take(i as int));
        assert(pairs.take(i + 1).last() == pairs[i as int]);
        if parameters[i].0 == lanes {
            return digits_exceed(parameters[i].1.as_str(), MAX_PARALLELISM);
        }
    }
    false
}

/// A hash made with valid costs does not ask for too many lanes.
proof fn lemma_own_hash_is_in_range(params: HashParams)
    requires
        params.wf(),
    ensures
        !lanes_overflow(cost_parameters(params)),
{
    lemma_decimal_reads_back(params.lanes() as nat);
    assert(cost_parameters(params).last() == ("p"@, decimal(params.lanes() as nat)));
}

/// Hashes `secret` with the given salt. The same secret, salt and costs always
/// give the same hash.
pub fn hash_with_salt(secret: &str, salt: &str, params: &HashParams) -> (hashed: Result<
    String,
    AuthError,
>)
    ensures
        hashed_view(hashed) == hash_outcome(secret@, salt@, *params),
        hashed matches Ok(hash) ==> verify_outcome(secret@, hash@) == Ok::<bool, AuthError>(true),
{
    proof {
        use_type_invariant(params);
        lemma_own_hash_is_in_range(*params);
    }
    match argon2id_hash(secret.as_bytes(), salt, params) {
        Some(hash) => Ok(hash),
        None => Err(AuthError::PasswordHashError),
    }
}

/// Hashes `secret` with a freshly generated random salt.
///
/// Whatever salt was drawn, a hash that comes out is the one Argon2id gives
/// for that salt, and checking the secret against it succeeds.
pub fn hash_password(secret: &str, params: &HashParams) -> (hashed: Result<String, AuthError>)
    ensures
        exists|salt: Seq<char>| hashed_view(hashed) == #[trigger] hash_outcome(secret@, salt, *params),
        hashed matches Ok(hash) ==> verify_outcome(secret@, hash@) == Ok::<bool, AuthError>(true),
        hashed matches Err(error) ==> error == AuthError::PasswordHashError,
{
    let salt = fresh_salt();
    let hashed = hash_with_salt(secret, salt.as_str(), params);
    assert(hashed_view(hashed) == hash_outcome(secret@, salt@, *params));
    hashed
}

/// Checks `secret` against a stored hash: an error if the hash is malformed,
/// otherwise whether the secret is the one the hash was made from.
pub fn verify_password(secret: &str, hash: &str) -> (verdict: Result<bool, AuthError>)
    ensures
        verdict == verify_outcome(secret@, hash@),
{
    match phc_parse(hash) {
        None => Err(AuthError::PasswordHashError),
        Some(parameters) => {
            if names_too_many_lanes(&parameters) {
                Ok(false)
            } else {
                Ok(argon2_verify(secret.as_bytes(), hash))
            }
        },
    }
}

} // verus!
