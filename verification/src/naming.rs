//! Random identifiers over the lowercase alphanumeric alphabet.

use rand::rngs::ThreadRng;
use rand::Rng;
use vstd::prelude::*;

verus! {

/// Length of a generated database and role name.
pub const NAME_LENGTH: usize = 20;

/// Length of a generated password.
pub const PASSWORD_LENGTH: usize = 32;

/// `c` is one of `a`..`z` or `0`..`9`.
pub open spec fn is_identifier_char(c: char) -> bool {
    ('a' <= c && c <= 'z') || ('0' <= c && c <= '9')
}

/// Every character of `s` is one of `a`..`z` or `0`..`9`.
pub open spec fn is_identifier(s: Seq<char>) -> bool {
    forall|i: int| 0 <= i < s.len() ==> is_identifier_char(#[trigger] s[i])
}

/// `c` is an ASCII letter of either case or an ASCII digit.
pub open spec fn is_ascii_alphanumeric(c: char) -> bool {
    ('a' <= c && c <= 'z') || ('A' <= c && c <= 'Z') || ('0' <= c && c <= '9')
}

/// `c` with the ASCII capitals moved onto their small letters.
pub open spec fn ascii_lowercase(c: char) -> char {
    if 'A' <= c && c <= 'Z' {
        ((c as u8 + 32) as u8) as char
    } else {
        c
    }
}

/// `chars` with each ASCII capital replaced by its small letter.
pub open spec fn lowercased(chars: Seq<char>) -> Seq<char> {
    Seq::new(chars.len(), |i: int| ascii_lowercase(chars[i]))
}

#[verifier::external_type_specification]
#[verifier::external_body]
pub struct ExThreadRng(ThreadRng);

/// `char::to_ascii_lowercase`: the ASCII capitals map to their small letters,
/// every other character is returned as it is.
pub assume_specification[ char::to_ascii_lowercase ](c: &char) -> (lower: char)
    ensures
        lower == ascii_lowercase(*c),
;

/// `String::push`: appends one character at the end.
pub assume_specification[ String::push ](s: &mut String, c: char)
    ensures
        final(s)@ == old(s)@.push(c),
;

/// `rand::thread_rng`: a handle to the generator of the calling thread.
/// Nothing is claimed of it.
#[verifier::external_body]
fn thread_generator() -> (rng: ThreadRng) {
    rand::thread_rng()
}

/// `rand::Rng::sample` with `rand::distributions::Alphanumeric`: the character
/// drawn is an ASCII letter or digit. Which one is left open.
#[verifier::external_body]
fn sample_alphanumeric(rng: &mut ThreadRng) -> (c: char)
    ensures
        is_ascii_alphanumeric(c),
{
    rng.sample(rand::distributions::Alphanumeric)
}

/// The string of `sampled` in lowercase.
pub fn to_identifier(sampled: &Vec<char>) -> (s: String)
    ensures
        s@ == lowercased(sampled@),
        (forall|i: int| 0 <= i < sampled@.len() ==> is_ascii_alphanumeric(#[trigger] sampled@[i]))
            ==> is_identifier(s@),
{
    let mut s = String::new();
    let mut i: usize = 0;
    while i < sampled.len()
        invariant
            i <= sampled.len(),
            s@ == lowercased(sampled@.take(i as int)),
        decreases sampled.len() - i,
    {
        let lower = sampled[i].to_ascii_lowercase();
        s.push(lower);
        assert(lowercased(sampled@.take(i as int)).push(lower) =~= lowercased(
            sampled@.take(i + 1),
        ));
        i += 1;
    }
    assert(sampled@.take(i as int) =~= sampled@);
    s
}

/// A random string of `length` characters, each one of `a`..`z` or `0`..`9`.
///
/// Lowercase only, so that an identifier means the same whether or not it is
/// quoted.
pub fn random_string(length: usize) -> (s: String)
    ensures
        s@.len() == length,
        is_identifier(s@),
{
    let mut rng = thread_generator();
    let mut sampled: Vec<char> = Vec::new();
    let mut i: usize = 0;
    while i < length
        invariant
            i <= length,
            sampled@.len() == i,
            forall|k: int| 0 <= k < i ==> is_ascii_alphanumeric(#[trigger] sampled@[k]),
        decreases length - i,
    {
        let c = sample_alphanumeric(&mut rng);
        sampled.push(c);
        i += 1;
    }
    to_identifier(&sampled)
}

/// The names under which one sandbox lives: a database, the login role that
/// owns it, and that role's password.
#[derive(Clone, Debug, PartialEq, Eq)]
pub struct SandboxIdentity {
    pub database: String,
    pub role: String,
    pub password: String,
}

impl SandboxIdentity {
    /// The role is named like the database, both names and the password are
    /// of the generated lengths, and all three are plain identifiers.
    pub open spec fn wf(&self) -> bool {
        &&& self.database@.len() == NAME_LENGTH
        &&& is_identifier(self.database@)
        &&& self.role@ == self.database@
        &&& self.password@.len() == PASSWORD_LENGTH
        &&& is_identifier(self.password@)
    }

    /// The identity whose database and role are both called `name`.
    pub fn new(name: String, password: String) -> (identity: SandboxIdentity)
        ensures
            identity.database@ == name@,
            identity.role@ == name@,
            identity.password@ == password@,
    {
        let role = name.clone();
        SandboxIdentity { database: name, role, password }
    }

    /// A fresh identity with random names.
    pub fn generate() -> (identity: SandboxIdentity)
        ensures
            identity.wf(),
    {
        let name = random_string(NAME_LENGTH);
        let password = random_string(PASSWORD_LENGTH);
        SandboxIdentity::new(name, password)
    }
}

} // verus!
