//! Namespaced identifiers such as `minecraft:stone`.

use vstd::prelude::*;
use vstd::string::StringExecFns;
use core::str::FromStr;
use regex::Regex;

verus! {

/// The pattern that a namespace has to match somewhere.
pub const NAMESPACE_PATTERN: &'static str = "[a-z0-9.-_]";

/// The pattern that a value has to match somewhere.
pub const VALUE_PATTERN: &'static str = "[a-z0-9.-_/]";

/// The namespace of an identifier that names none.
pub const DEFAULT_NAMESPACE: &'static str = "minecraft";

/// A namespace and a value in it. Written as text, the two stand with a
/// colon between them; a text without a colon is a value in the namespace
/// `minecraft`.
#[derive(Debug, Clone, PartialEq, Eq)]
pub struct Identifier {
    pub namespace: String,
    pub value: String,
}

/// Which part of an identifier was refused.
#[derive(Debug, Clone, Copy, PartialEq, Eq, PartialOrd, Ord, Structural)]
pub enum IdentifierError {
    /// The namespace does not match its pattern.
    NameSpace,
    /// The value does not match its pattern.
    Value,
}

/// What a search for the regular expression `pattern` in `haystack`
/// gives: nothing where the pattern is refused as a regular expression,
/// else whether it matches anywhere in the haystack.
pub uninterp spec fn regex_search(pattern: Seq<char>, haystack: Seq<char>) -> Option<bool>;

/// Compiles `pattern` with `regex::Regex::new` and searches `haystack`
/// with `Regex::is_match`. The outcome depends on the two texts alone and
/// goes by the name [`regex_search`]; nothing more is claimed of it.
#[verifier::external_body]
fn regex_is_match(pattern: &str, haystack: &str) -> (r: Option<bool>)
    ensures
        r == regex_search(pattern@, haystack@),
{
    match Regex::new(pattern) {
        Ok(regex) => Some(regex.is_match(haystack)),
        Err(_) => None,
    }
}

/// Splits `s` at the first `delimiter` with `str::split_once`: the text
/// before it, which holds no delimiter, and the text after it; nothing
/// where `s` holds no delimiter.
#[verifier::external_body]
fn split_once_at(s: &str, delimiter: char) -> (r: Option<(&str, &str)>)
    ensures
        match r {
            Some((before, after)) => s@ == before@ + seq![delimiter] + after@ && !before@.contains(
                delimiter,
            ),
            None => !s@.contains(delimiter),
        },
{
    s.split_once(delimiter)
}

/// The index of the first `c` in `s`, or the length of `s` where it holds
/// none.
pub open spec fn first_index(s: Seq<char>, c: char) -> int
    decreases s.len(),
{
    if s.len() == 0 || s[0] == c {
        0
    } else {
        1 + first_index(s.drop_first(), c)
    }
}

/// The namespace that a text names: what stands before its first colon,
/// or `minecraft` where it has no colon.
pub open spec fn namespace_of(s: Seq<char>) -> Seq<char> {
    if s.contains(':') {
        s.take(first_index(s, ':'))
    } else {
        DEFAULT_NAMESPACE@
    }
}

/// The value that a text names: what stands behind its first colon, or
/// all of it where it has no colon.
pub open spec fn value_of(s: Seq<char>) -> Seq<char> {
    if s.contains(':') {
        s.skip(first_index(s, ':') + 1)
    } else {
        s
    }
}

/// What the two searches say of an identifier: the namespace is refused
/// unless its search found a match, then the value likewise. A search
/// that gave nothing found no match.
pub open spec fn refused(namespace_found: Option<bool>, value_found: Option<bool>) -> Option<
    IdentifierError,
> {
    if namespace_found != Some(true) {
        Some(IdentifierError::NameSpace)
    } else if value_found != Some(true) {
        Some(IdentifierError::Value)
    } else {
        None
    }
}

/// Where `before` holds no `c`, the first `c` of `before + c + after` is
/// the one in the middle.
proof fn lemma_first_index(before: Seq<char>, c: char, after: Seq<char>)
    requires
        !before.contains(c),
    ensures
        first_index(before + seq![c] + after, c) == before.len(),
        (before + seq![c] + after).contains(c),
    decreases before.len(),
{
    let whole = before + seq![c] + after;
    assert(whole[before.len() as int] == c);
    if before.len() > 0 {
        assert(before[0] != c) by {
            if before[0] == c {
                assert(before.contains(c));
            }
        }
        assert(whole[0] == before[0]);
        let rest = before.drop_first();
        assert(!rest.contains(c)) by {
            if rest.contains(c) {
                let i = choose|i: int| 0 <= i < rest.len() && rest[i] == c;
                assert(before[i + 1] == c);
                assert(before.contains(c));
            }
        }
        assert(whole.drop_first() =~= rest + seq![c] + after);
        lemma_first_index(rest, c, after);
    }
}

impl Identifier {
    /// Makes the identifier once the two patterns were searched for: see
    /// [`refused`].
    pub fn from_searches(
        namespace: String,
        value: String,
        namespace_found: Option<bool>,
        value_found: Option<bool>,
    ) -> (r: Result<Identifier, IdentifierError>)
        ensures
            r == match refused(namespace_found, value_found) {
                Some(e) => Err::<Identifier, IdentifierError>(e),
                None => Ok::<Identifier, IdentifierError>((Identifier { namespace, value })),
            },
    {
        match namespace_found {
            Some(true) => {},
            _ => {
                return Err(IdentifierError::NameSpace);
            },
        }
        match value_found {
            Some(true) => {},
            _ => {
                return Err(IdentifierError::Value);
            },
        }
        Ok(Identifier { namespace, value })
    }

    /// Makes an identifier of a namespace that matches
    /// [`NAMESPACE_PATTERN`] somewhere and a value that matches
    /// [`VALUE_PATTERN`] somewhere.
    pub fn new(namespace: String, value: String) -> (r: Result<Identifier, IdentifierError>)
        ensures
            r == match refused(
                regex_search(NAMESPACE_PATTERN@, namespace@),
                regex_search(VALUE_PATTERN@, value@),
            ) {
                Some(e) => Err::<Identifier, IdentifierError>(e),
                None => Ok::<Identifier, IdentifierError>((Identifier { namespace, value })),
            },
    {
        let namespace_found = regex_is_match(NAMESPACE_PATTERN, namespace.as_str());
        let value_found = regex_is_match(VALUE_PATTERN, value.as_str());
        Self::from_searches(namespace, value, namespace_found, value_found)
    }

    /// The identifier as text: the namespace, a colon and the value.
    pub fn to_string(&self) -> (r: String)
        ensures
            r@ == self.namespace@ + seq![':'] + self.value@,
    {
        proof {
            reveal_strlit(":");
        }
        let text: String = self.namespace.clone().concat(":").concat(self.value.as_str());
        assert(text@ =~= self.namespace@ + seq![':'] + self.value@);
        text
    }
}

impl FromStr for Identifier {
    type Err = IdentifierError;

    /// Reads an identifier from text: [`namespace_of`] and [`value_of`]
    /// part it, and the parts are checked as [`Identifier::new`] checks
    /// them.
    fn from_str(s: &str) -> (r: Result<Identifier, IdentifierError>)
        ensures
            match refused(
                regex_search(NAMESPACE_PATTERN@, namespace_of(s@)),
                regex_search(VALUE_PATTERN@, value_of(s@)),
            ) {
                Some(e) => r == Err::<Identifier, IdentifierError>(e),
                None => r.is_ok() && r.unwrap().namespace@ == namespace_of(s@)
                    && r.unwrap().value@ == value_of(s@),
            },
    {
        let (namespace, value): (&str, &str) = match split_once_at(s, ':') {
            Some((before, after)) => {
                proof {
                    lemma_first_index(before@, ':', after@);
                    assert(s@.take(before@.len() as int) =~= before@);
                    assert(s@.skip(before@.len() as int + 1) =~= after@);
                }
                (before, after)
            },
            None => (DEFAULT_NAMESPACE, s),
        };
        let namespace_found = regex_is_match(NAMESPACE_PATTERN, namespace);
        let value_found = regex_is_match(VALUE_PATTERN, value);
        Self::from_searches(namespace.to_owned(), value.to_owned(), namespace_found, value_found)
    }
}

} // verus!
