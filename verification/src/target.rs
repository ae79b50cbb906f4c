//! Targets: the text a caller hands over to say where a request goes.

use vstd::prelude::*;

verus! {

/// Whether `target` already names its scheme, plaintext or secure.
pub open spec fn has_scheme(target: Seq<char>) -> bool {
    "http://"@.is_prefix_of(target) || "https://"@.is_prefix_of(target)
}

/// The text that is parsed for `target`: the target itself where it names its
/// scheme, and the target behind `http://` where it does not.
pub open spec fn normalized(target: Seq<char>) -> Seq<char> {
    if has_scheme(target) {
        target
    } else {
        "http://"@ + target
    }
}

/// Settling the scheme is done once: the text that is parsed names its
/// scheme, and is what would be parsed for itself.
pub proof fn lemma_normalized_is_settled(target: Seq<char>)
    ensures
        has_scheme(normalized(target)),
        normalized(normalized(target)) == normalized(target),
{
    if !has_scheme(target) {
        assert(("http://"@ + target).subrange(0, "http://"@.len() as int) =~= "http://"@);
    }
}

/// Tells whether `text` begins with `prefix`, character by character.
pub fn starts_with(text: &str, prefix: &str) -> (found: bool)
    ensures
        found == prefix@.is_prefix_of(text@),
{
    let wanted: usize = prefix.unicode_len();
    let given: usize = text.unicode_len();
    if given < wanted {
        return false;
    }
    let mut at: usize = 0;
    while at < wanted
        invariant
            at <= wanted,
            wanted == prefix@.len(),
            given == text@.len(),
            wanted <= given,
            forall|i: int| 0 <= i < at ==> text@[i] == prefix@[i],
        decreases wanted - at,
    {
        if text.get_char(at) != prefix.get_char(at) {
            return false;
        }
        at += 1;
    }
    true
}

/// Whether `target` names its scheme, as [`has_scheme`] defines it.
pub fn names_scheme(target: &str) -> (named: bool)
    ensures
        named == has_scheme(target@),
{
    starts_with(target, "http://") || starts_with(target, "https://")
}

/// Writes out what is parsed for `target`: a target without a scheme is
/// taken for a host, with its port and path where it has them, and is
/// reached over plaintext HTTP.
///
/// The scheme is matched as it is written, in lower case. A bare target is
/// sent in the clear even where its host would have answered over HTTPS: a
/// caller who wants the secure scheme names it.
pub fn normalize(target: &str) -> (text: String)
    ensures
        text@ == normalized(target@),
{
    if names_scheme(target) {
        target.to_owned()
    } else {
        String::from_str("http://").concat(target)
    }
}

/// What `reqwest::Url::parse` makes of a text: the serialization of the URL
/// that it reads from the text, or the message of the error with which it
/// turns the text down.
pub uninterp spec fn url_parse(text: Seq<char>) -> Result<Seq<char>, Seq<char>>;

/// Parses `text` as an absolute URL with `reqwest::Url::parse`.
///
/// Trusted: the parser is a function of the text alone, so that its result is
/// `url_parse` of the text. On success the URL is handed back as its
/// serialization, on failure the error as the message that it displays.
/// Nothing is claimed of which texts parse.
#[verifier::external_body]
pub(crate) fn parse_absolute(text: &str) -> (parsed: Result<String, String>)
    ensures
        match parsed {
            Ok(url) => url_parse(text@) == Ok::<Seq<char>, Seq<char>>(url@),
            Err(message) => url_parse(text@) == Err::<Seq<char>, Seq<char>>(message@),
        },
{
    match reqwest::Url::parse(text) {
        Ok(url) => Ok(String::from(url)),
        Err(error) => Err(error.to_string()),
    }
}

} // verus!
