//! What is drawn at random when an entry is made: its identifier and its
//! password.

use passwords::PasswordGenerator;
use vstd::prelude::*;

verus! {

/// The rules that a generated password follows.
pub struct PasswordPolicy {
    /// Number of characters.
    pub length: usize,
    /// Digits may occur.
    pub numbers: bool,
    /// Lowercase letters may occur.
    pub lowercase_letters: bool,
    /// Uppercase letters may occur.
    pub uppercase_letters: bool,
    /// Punctuation may occur.
    pub symbols: bool,
    /// Spaces may occur.
    pub spaces: bool,
    /// Characters that look alike are left out.
    pub exclude_similar_characters: bool,
    /// Every kind that may occur does occur.
    pub strict: bool,
}

/// The ten digits.
pub open spec fn is_number(c: char) -> bool {
    '0' <= c <= '9'
}

/// The lowercase letters of ASCII.
pub open spec fn is_lowercase(c: char) -> bool {
    'a' <= c <= 'z'
}

/// The uppercase letters of ASCII.
pub open spec fn is_uppercase(c: char) -> bool {
    'A' <= c <= 'Z'
}

/// The 32 punctuation characters of ASCII.
pub open spec fn is_symbol(c: char) -> bool {
    ('!' <= c <= '/') || (':' <= c <= '@') || ('[' <= c <= '`') || ('{' <= c <= '~')
}

/// Tells whether a character of the given kind occurs in `password`.
pub open spec fn has(password: Seq<char>, kind: spec_fn(char) -> bool) -> bool {
    exists|i: int| 0 <= i < password.len() && kind(#[trigger] password[i])
}

impl PasswordPolicy {
    /// The number of kinds of characters that may occur.
    pub open spec fn kinds(self) -> int {
        (if self.numbers {
            1int
        } else {
            0
        }) + (if self.lowercase_letters {
            1int
        } else {
            0
        }) + (if self.uppercase_letters {
            1int
        } else {
            0
        }) + (if self.symbols {
            1int
        } else {
            0
        }) + (if self.spaces {
            1int
        } else {
            0
        })
    }

    /// A policy can be followed when it asks for at least one character, lets
    /// at least one kind occur and, where it is strict, has room for one
    /// character of each kind.
    pub open spec fn valid(self) -> bool {
        &&& self.length > 0
        &&& self.kinds() > 0
        &&& self.strict ==> self.length >= self.kinds()
    }

    /// Tells whether `c` is of a kind that may occur.
    pub open spec fn allows(self, c: char) -> bool {
        ||| self.numbers && is_number(c)
        ||| self.lowercase_letters && is_lowercase(c)
        ||| self.uppercase_letters && is_uppercase(c)
        ||| self.symbols && is_symbol(c)
        ||| self.spaces && c == ' '
    }

    /// Tells whether `password` follows the policy.
    pub open spec fn met_by(self, password: Seq<char>) -> bool {
        &&& password.len() == self.length
        &&& forall|i: int| 0 <= i < password.len() ==> self.allows(#[trigger] password[i])
        &&& self.strict ==> {
            &&& self.numbers ==> has(password, |c: char| is_number(c))
            &&& self.lowercase_letters ==> has(password, |c: char| is_lowercase(c))
            &&& self.uppercase_letters ==> has(password, |c: char| is_uppercase(c))
            &&& self.symbols ==> has(password, |c: char| is_symbol(c))
            &&& self.spaces ==> has(password, |c: char| c == ' ')
        }
    }

    /// The policy for the passwords of new entries: twelve characters, with
    /// at least one digit, one lowercase letter, one uppercase letter and one
    /// punctuation character, and no space.
    pub fn standard() -> (policy: PasswordPolicy)
        ensures
            policy == standard_policy(),
    {
        PasswordPolicy {
            length: 12,
            numbers: true,
            lowercase_letters: true,
            uppercase_letters: true,
            symbols: true,
            spaces: false,
            exclude_similar_characters: false,
            strict: true,
        }
    }
}

/// The policy for the passwords of new entries.
pub open spec fn standard_policy() -> PasswordPolicy {
    PasswordPolicy {
        length: 12,
        numbers: true,
        lowercase_letters: true,
        uppercase_letters: true,
        symbols: true,
        spaces: false,
        exclude_similar_characters: false,
        strict: true,
    }
}

/// Draws one password at random.
///
/// Trusted: calls `PasswordGenerator::generate_one` of the `passwords` crate
/// with the policy's fields as the generator's. The contract claims that a
/// password comes back exactly for a valid policy, and that it then has the
/// policy's length, holds only characters of the kinds that may occur and,
/// under a strict policy, at least one of each such kind.
#[verifier::external_body]
fn generate_one(policy: &PasswordPolicy) -> (password: Option<String>)
    ensures
        password is Some <==> policy.valid(),
        password matches Some(p) ==> policy.met_by(p@),
{
    let generator = PasswordGenerator {
        length: policy.length,
        numbers: policy.numbers,
        lowercase_letters: policy.lowercase_letters,
        uppercase_letters: policy.uppercase_letters,
        symbols: policy.symbols,
        spaces: policy.spaces,
        exclude_similar_characters: policy.exclude_similar_characters,
        strict: policy.strict,
    };
    generator.generate_one().ok()
}

/// Draws a fresh identifier for an entry.
///
/// Trusted: calls `keepass::db::Entry::new`, which draws a random version 4
/// UUID, and hands the identifier on as a number. Nothing is claimed of it.
#[verifier::external_body]
pub(crate) fn fresh_uuid() -> u128 {
    keepass::db::Entry::new().uuid.as_u128()
}

/// Draws a password for a new entry.
pub fn random_password() -> (password: String)
    ensures
        standard_policy().met_by(password@),
{
    let policy = PasswordPolicy::standard();
    generate_one(&policy).unwrap()
}

} // verus!
