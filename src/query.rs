use vstd::prelude::*;

verus! {

/// A character that may appear in a search query or a package coordinate.
pub open spec fn is_allowed_char(c: char) -> bool {
    ('a' <= c && c <= 'z') || ('0' <= c && c <= '9') || c == '-'
}

/// Every character of `s` is a lowercase ASCII letter, an ASCII digit or a hyphen.
pub open spec fn is_valid_query(s: Seq<char>) -> bool {
    forall|i: int| 0 <= i < s.len() ==> is_allowed_char(#[trigger] s[i])
}

/// Returns true exactly when every character of `val` is in `[a-z0-9-]`.
pub fn validate_string(val: &str) -> (r: bool)
    ensures
        r == is_valid_query(val@),
{
    let n = val.unicode_len();
    let mut i: usize = 0;
    while i < n
        invariant
            n == val@.len(),
            i <= n,
            forall|j: int| 0 <= j < i ==> is_allowed_char(#[trigger] val@[j]),
        decreases n - i,
    {
        let c = val.get_char(i);
        if !(('a' <= c && c <= 'z') || ('0' <= c && c <= '9') || c == '-') {
            return false;
        }
        i = i + 1;
    }
    true
}

/// Why a query or a package coordinate was turned away.
#[derive(Debug, Clone, Copy, PartialEq, Eq)]
pub enum QueryError {
    /// A character outside `[a-z0-9-]`.
    InvalidCharacters,
}

impl QueryError {
    /// The user-facing text of this error.
    pub fn message(&self) -> (r: &'static str)
        ensures
            r@ == "Allowed characters: digits (0-9), lowercase letters (a-z), hyphen (-)"@,
    {
        match self {
            QueryError::InvalidCharacters => "Allowed characters: digits (0-9), lowercase letters (a-z), hyphen (-)",
        }
    }
}

/// Joins a package author and a package name into `author/name`.
///
/// The pair is turned away only when neither part is valid on its own.
pub fn validate_package(username: &str, package: &str) -> (r: Result<String, QueryError>)
    ensures
        r is Err <==> !is_valid_query(username@) && !is_valid_query(package@),
        r is Err ==> r == Err::<String, QueryError>(QueryError::InvalidCharacters),
        r is Ok ==> r->Ok_0@ == username@ + seq!['/'] + package@,
{
    if !validate_string(username) && !validate_string(package) {
        return Err(QueryError::InvalidCharacters);
    }
    let mut joined = username.to_owned();
    joined.append("/");
    joined.append(package);
    proof {
        reveal_strlit("/");
    }
    Ok(joined)
}

} // verus!
