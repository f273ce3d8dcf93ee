use crypto::digest::Digest;
use rand::Rng;
use vstd::prelude::*;
use crate::sensitive::SensitiveValue;

verus! {

/// An authenticated requester: the user's email and the API key they
/// presented.
pub struct ApiKey {
    pub user: String,
    pub key: String,
}

/// The same requester with both fields protected.
pub struct BBoxApiKey {
    pub user: SensitiveValue<String>,
    pub key: SensitiveValue<String>,
}

impl BBoxApiKey {
    /// Protects copies of the email and key of `api_key`.
    pub fn new(api_key: &ApiKey) -> (r: BBoxApiKey)
        ensures
            r.user.inner()@ == api_key.user@,
            r.key.inner()@ == api_key.key@,
    {
        BBoxApiKey { user: SensitiveValue::wrap(api_key.user.clone()), key: SensitiveValue::wrap(api_key.key.clone()) }
    }
}

/// Why an API key does not identify a user.
#[derive(Debug, PartialEq, Eq, Structural)]
pub enum ApiKeyError {
    /// More than one user holds the key.
    Ambiguous,
    /// No user holds the key.
    Missing,
    /// The datastore could not be asked.
    BackendFailure,
}

/// `email` is one of the entries of `list`.
pub open spec fn in_list(list: Seq<String>, email: Seq<char>) -> bool {
    exists|i: int| 0 <= i < list.len() && #[trigger] list[i]@ == email
}

/// Whether `email` is one of the entries of `list`.
pub fn listed(list: &Vec<String>, email: &String) -> (r: bool)
    ensures
        r == in_list(list@, email@),
{
    let mut i: usize = 0;
    while i < list.len()
        invariant
            i <= list@.len(),
            forall|j: int| 0 <= j < i ==> #[trigger] list@[j]@ != email@,
        decreases list@.len() - i,
    {
        if list[i] == *email {
            return true;
        }
        i = i + 1;
    }
    false
}

/// Decides who holds an API key from the emails of the users stored with
/// that key: exactly one makes the key theirs.
pub fn resolve_api_key(holders: &Vec<String>) -> (r: Result<String, ApiKeyError>)
    ensures
        holders@.len() == 0 <==> r == Err::<String, ApiKeyError>(ApiKeyError::Missing),
        holders@.len() > 1 <==> r == Err::<String, ApiKeyError>(ApiKeyError::Ambiguous),
        holders@.len() == 1 <==> r is Ok,
        r matches Ok(email) ==> email@ == holders@[0]@,
{
    if holders.len() < 1 {
        Err(ApiKeyError::Missing)
    } else if holders.len() > 1 {
        Err(ApiKeyError::Ambiguous)
    } else {
        Ok(holders[0].clone())
    }
}

/// What a student gives when asking for an API key.
pub struct ApiKeyRequest {
    pub email: String,
    pub gender: String,
    pub age: u32,
    pub ethnicity: String,
    pub is_remote: bool,
    pub education: String,
}

/// A user as stored when an API key is issued.
pub struct UserRecord {
    pub email: String,
    pub apikey: String,
    pub is_admin: bool,
    pub is_manager: bool,
    pub pseudonym: String,
    pub gender: String,
    pub age: u32,
    pub ethnicity: String,
    pub is_remote: bool,
    pub education: String,
}

/// The lowercase hexadecimal SHA-256 digest of the UTF-8 bytes of `text`.
pub uninterp spec fn sha256_hex(text: Seq<char>) -> Seq<char>;

/// Relies on rust-crypto's `Sha256` through `Digest::input_str` (fed the
/// bytes of `first`, then those of `second`) and `Digest::result_str`, the
/// digest of all bytes fed, as 64 lowercase hexadecimal digits.
#[verifier::external_body]
fn sha256_hex_of_pair(first: &str, second: &str) -> (r: String)
    ensures
        r@ == sha256_hex(first@ + second@),
        r@.len() == 64,
{
    let mut hasher = crypto::sha2::Sha256::new();
    hasher.input_str(first);
    hasher.input_str(second);
    hasher.result_str()
}

/// `c` is an ASCII letter or digit.
pub open spec fn is_alphanumeric(c: char) -> bool {
    ('a' <= c && c <= 'z') || ('A' <= c && c <= 'Z') || ('0' <= c && c <= '9')
}

/// Relies on rand's `thread_rng` sampled with `Alphanumeric`: each
/// character is an ASCII letter or digit.
#[verifier::external_body]
fn random_alphanumeric(len: usize) -> (r: String)
    ensures
        r@.len() == len,
        forall|i: int| 0 <= i < len ==> is_alphanumeric(#[trigger] r@[i]),
{
    rand::thread_rng().sample_iter(&rand::distributions::Alphanumeric).take(len).map(char::from).collect()
}

/// The number of characters of a pseudonym.
pub const PSEUDONYM_LEN: usize = 16;

/// The API key of `email`: the SHA-256 digest of the email followed by the
/// server's secret, so that nobody without the secret can forge it.
pub fn api_key_for(email: &String, secret: &String) -> (r: String)
    ensures
        r@ == sha256_hex(email@ + secret@),
        r@.len() == 64,
{
    sha256_hex_of_pair(email.as_str(), secret.as_str())
}

/// `u` is what `new_user_record` stores for `request`.
pub open spec fn recorded_as(
    u: UserRecord,
    request: ApiKeyRequest,
    secret: Seq<char>,
    admins: Seq<String>,
    managers: Seq<String>,
) -> bool {
    &&& u.email@ == request.email@
    &&& u.apikey@ == sha256_hex(request.email@ + secret)
    &&& u.is_admin == in_list(admins, request.email@)
    &&& u.is_manager == in_list(managers, request.email@)
    &&& u.gender@ == request.gender@
    &&& u.age == request.age
    &&& u.ethnicity@ == request.ethnicity@
    &&& u.is_remote == request.is_remote
    &&& u.education@ == request.education@
}

/// The user to store for a key request: the key derived from the email and
/// `secret`, the roles the email is listed for, and the given pseudonym.
pub fn new_user_record(
    request: &ApiKeyRequest,
    secret: &String,
    admins: &Vec<String>,
    managers: &Vec<String>,
    pseudonym: String,
) -> (r: UserRecord)
    ensures
        recorded_as(r, *request, secret@, admins@, managers@),
        r.pseudonym@ == pseudonym@,
{
    UserRecord {
        email: request.email.clone(),
        apikey: api_key_for(&request.email, secret),
        is_admin: listed(admins, &request.email),
        is_manager: listed(managers, &request.email),
        pseudonym,
        gender: request.gender.clone(),
        age: request.age,
        ethnicity: request.ethnicity.clone(),
        is_remote: request.is_remote,
        education: request.education.clone(),
    }
}

/// The user to store for a key request, under a fresh random pseudonym of
/// `PSEUDONYM_LEN` letters and digits.
pub fn generate_user_record(
    request: &ApiKeyRequest,
    secret: &String,
    admins: &Vec<String>,
    managers: &Vec<String>,
) -> (r: UserRecord)
    ensures
        recorded_as(r, *request, secret@, admins@, managers@),
        r.pseudonym@.len() == PSEUDONYM_LEN,
        forall|i: int| 0 <= i < PSEUDONYM_LEN ==> is_alphanumeric(#[trigger] r.pseudonym@[i]),
{
    let pseudonym = random_alphanumeric(PSEUDONYM_LEN);
    new_user_record(request, secret, admins, managers, pseudonym)
}

} // verus!
