//! Anchored prefix matching for route prefixes.
//!
//! A [`RoutePrefix`] holds a route string together with a matcher compiled
//! from the pattern `^` + route.  Construction accepts only non-empty routes
//! made of characters without special significance to the pattern syntax, so
//! the compiled matcher provably tests exactly "does the path start with the
//! route".  Routes that would be read as patterns rather than literal
//! prefixes are rejected with [`InvalidPrefix`].

use vstd::prelude::*;
use vstd::string::*;

verus! {

/// Raised at construction when a route cannot be used as a literal anchored
/// prefix: it is empty, it contains characters that the pattern syntax
/// treats specially, or it fails to compile.
#[derive(Clone, Copy, Debug, PartialEq, Eq, Structural)]
pub struct InvalidPrefix;

/// A character with special significance to the pattern syntax.  The set is
/// the one the pattern compiler itself escapes, and is fixed across
/// compatible releases of it.
pub open spec fn is_meta_char(c: char) -> bool {
    ||| c == '\\'
    ||| c == '.'
    ||| c == '+'
    ||| c == '*'
    ||| c == '?'
    ||| c == '('
    ||| c == ')'
    ||| c == '|'
    ||| c == '['
    ||| c == ']'
    ||| c == '{'
    ||| c == '}'
    ||| c == '^'
    ||| c == '$'
    ||| c == '#'
    ||| c == '&'
    ||| c == '~'
}

/// A route that reads as literal text: none of its characters is special to
/// the pattern syntax.
pub open spec fn literal_route(s: Seq<char>) -> bool {
    forall|i: int| 0 <= i < s.len() ==> !is_meta_char(s[i])
}

/// A route accepted at construction: non-empty and literal.
pub open spec fn valid_route(s: Seq<char>) -> bool {
    s.len() > 0 && literal_route(s)
}

/// The pattern compiled for a route: the route anchored at position 0.
pub open spec fn anchored(route: Seq<char>) -> Seq<char> {
    seq!['^'] + route
}

/// A pattern of the shape `^` + literal text.
pub open spec fn anchored_literal(p: Seq<char>) -> bool {
    p.len() > 0 && p[0] == '^' && literal_route(p.skip(1))
}

/// The pattern text a compiled matcher holds: the string it was built from.
pub uninterp spec fn matcher_pattern(re: regex::Regex) -> Seq<char>;

/// Whether a pattern matches somewhere in a text.  The matcher is
/// deterministic: the same pattern and text give the same answer everywhere.
pub uninterp spec fn regex_match(pattern: Seq<char>, text: Seq<char>) -> bool;

#[verifier::external_type_specification]
#[verifier::external_body]
pub struct ExRegex(regex::Regex);

#[verifier::external_type_specification]
#[verifier::external_body]
pub struct ExRegexError(regex::Error);

/// Relies on `regex::Regex::new`: it compiles the pattern, returning `Err`
/// only on malformed pattern syntax or when the compiled program would
/// exceed the configured size limit.  A pattern of anchor-plus-literal shape
/// is well-formed syntax, and one of at most a few thousand characters stays
/// far below the default size limit, so such a pattern compiles.
#[verifier::external_body]
fn regex_new(pattern: &str) -> (r: Result<regex::Regex, regex::Error>)
    ensures
        (r matches Ok(re) ==> matcher_pattern(re) == pattern@),
        anchored_literal(pattern@) && pattern@.len() <= 4096 ==> r is Ok,
{
    regex::Regex::new(pattern)
}

/// Relies on `regex::Regex::is_match`: true if and only if the pattern
/// matches somewhere in the text.  For a pattern of the shape `^` + literal
/// text, `^` matches only at the start of the text and each non-special
/// character matches only itself, so a match exists exactly when the literal
/// text is a prefix of the searched text.
#[verifier::external_body]
fn regex_is_match(re: &regex::Regex, text: &str) -> (r: bool)
    ensures
        r == regex_match(matcher_pattern(*re), text@),
        anchored_literal(matcher_pattern(*re)) ==> (r <==> matcher_pattern(
            *re,
        ).skip(1).is_prefix_of(text@)),
{
    re.is_match(text)
}

/// True exactly when `c` is special to the pattern syntax.
pub fn is_meta(c: char) -> (r: bool)
    ensures
        r == is_meta_char(c),
{
    c == '\\' || c == '.' || c == '+' || c == '*' || c == '?' || c == '(' || c == ')' || c == '|'
        || c == '[' || c == ']' || c == '{' || c == '}' || c == '^' || c == '$' || c == '#'
        || c == '&' || c == '~'
}

/// True exactly when `route` is accepted as a route prefix: non-empty and
/// made of characters the pattern syntax reads literally.
pub fn check_valid_route(route: &str) -> (r: bool)
    ensures
        r == valid_route(route@),
{
    let n = route.unicode_len();
    if n == 0 {
        return false;
    }
    let mut i: usize = 0;
    while i < n
        invariant
            i <= n,
            n == route@.len(),
            forall|j: int| 0 <= j < i ==> !is_meta_char(route@[j]),
        decreases n - i,
    {
        let c = route.get_char(i);
        if is_meta(c) {
            return false;
        }
        i += 1;
    }
    true
}

/// A route prefix: an immutable string anchored at the start of a request
/// path, matched as a literal.  Every value holds a matcher compiled from
/// the anchored route, so matching is exactly a prefix test on the route.
pub struct RoutePrefix {
    route: String,
    matches: regex::Regex,
}

impl RoutePrefix {
    /// The route string this prefix was built from.
    pub closed spec fn route_view(self) -> Seq<char> {
        self.route@
    }

    #[verifier::type_invariant]
    spec fn inv(self) -> bool {
        valid_route(self.route@) && matcher_pattern(self.matches) == anchored(self.route@)
    }

    /// Builds the anchored matcher for `route`.  Fails with [`InvalidPrefix`]
    /// exactly when the route is empty, contains a character special to the
    /// pattern syntax, or does not compile.
    pub fn new(route: &str) -> (r: Result<RoutePrefix, InvalidPrefix>)
        ensures
            (r matches Ok(m) ==> m.route_view() == route@),
            r is Ok ==> valid_route(route@),
            valid_route(route@) && route@.len() < 4096 ==> r is Ok,
    {
        if !check_valid_route(route) {
            return Err(InvalidPrefix);
        }
        let pattern = "^".to_owned().concat(route);
        proof {
            reveal_strlit("^");
            assert(pattern@ =~= anchored(route@));
            assert(pattern@.skip(1) =~= route@);
        }
        match regex_new(pattern.as_str()) {
            Ok(re) => Ok(RoutePrefix { route: route.to_owned(), matches: re }),
            Err(_) => Err(InvalidPrefix),
        }
    }

    /// True exactly when `path` starts with this route.
    pub fn is_match(&self, path: &str) -> (r: bool)
        ensures
            r == self.route_view().is_prefix_of(path@),
    {
        proof {
            use_type_invariant(&*self);
            assert(anchored(self.route@).skip(1) =~= self.route@);
        }
        regex_is_match(&self.matches, path)
    }

    /// The route string itself.
    pub fn route_str(&self) -> (r: &str)
        ensures
            r@ == self.route_view(),
    {
        self.route.as_str()
    }
}

} // verus!
