//! The regular-expression engine of the `regex` crate, as the classification
//! rules use it. Compiling a pattern, searching it in a text and reading a
//! capture group are done by the crate; what they return is named here and
//! the trusted functions below tie each call to those names.

use vstd::prelude::*;

verus! {

/// Whether `regex::Regex::new` accepts the pattern (it compiles it without error).
pub uninterp spec fn regex_valida(patron: Seq<char>) -> bool;

/// What `regex::Regex::is_match` answers for the compiled pattern and the text:
/// whether the pattern matches somewhere in the text.
pub uninterp spec fn regex_coincide(patron: Seq<char>, texto: Seq<char>) -> bool;

/// The text of capture group `grupo` in the first match of the compiled
/// pattern in the text, as `regex::Regex::captures` followed by
/// `regex::Captures::get` and `regex::Match::as_str` give it; `None` when the
/// pattern does not match or the group took no part in the match.
pub uninterp spec fn regex_grupo(patron: Seq<char>, texto: Seq<char>, grupo: nat) -> Option<
    Seq<char>,
>;

/// Compiles the pattern with `regex::Regex::new` and reports whether that
/// succeeded. Trusted: the result is the name `regex_valida` of the pattern.
#[verifier::external_body]
pub(crate) fn compila_regex(patron: &str) -> (r: bool)
    ensures
        r == regex_valida(patron@),
{
    regex::Regex::new(patron).is_ok()
}

/// Compiles the pattern with `regex::Regex::new` and asks `Regex::is_match`
/// whether it matches somewhere in `texto`. Trusted: the result is the name
/// `regex_coincide` of the pattern and the text. The pattern must compile.
#[verifier::external_body]
pub(crate) fn coincide_regex(patron: &str, texto: &str) -> (r: bool)
    requires
        regex_valida(patron@),
    ensures
        r == regex_coincide(patron@, texto@),
{
    match regex::Regex::new(patron) {
        Ok(re) => re.is_match(texto),
        Err(_) => false,
    }
}

/// Compiles the pattern with `regex::Regex::new`, takes the first match in
/// `texto` with `Regex::captures` and returns the text of capture group
/// `grupo` (`Captures::get`, `Match::as_str`). Trusted: the result is the name
/// `regex_grupo` of the three arguments. The pattern must compile.
#[verifier::external_body]
pub(crate) fn grupo_regex(patron: &str, texto: &str, grupo: usize) -> (r: Option<String>)
    requires
        regex_valida(patron@),
    ensures
        r is None <==> regex_grupo(patron@, texto@, grupo as nat) is None,
        r matches Some(s) ==> regex_grupo(patron@, texto@, grupo as nat) == Some(s@),
{
    match regex::Regex::new(patron) {
        Ok(re) => match re.captures(texto) {
            Some(c) => match c.get(grupo) {
                Some(m) => Some(m.as_str().to_string()),
                None => None,
            },
            None => None,
        },
        Err(_) => None,
    }
}

} // verus!
