//! Playback parameters: the action a client may request for its stream,
//! parsed from the request's raw value.

use vstd::prelude::*;

verus! {

/// The lowercase mapping of a character sequence. The mapping takes pages
/// to state, so it is named here and left to the standard library to
/// compute; contracts speak of the name.
pub uninterp spec fn lower_of(s: Seq<char>) -> Seq<char>;

/// Relies on str::to_lowercase: the Unicode lowercase mapping of the
/// string, a function of its characters alone.
#[verifier::external_body]
fn lowercase(s: &str) -> (r: String)
    ensures
        r@ == lower_of(s@),
{
    s.to_lowercase()
}

/// What a client asked to be done with its stream: pass it through
/// untouched, silence its advertisement segments, or splice in ads for a
/// supported language.
#[derive(Debug)]
pub enum PlayAction {
    /// Pass the stream through untouched.
    Passthrough,
    /// Substitute silence over advertisement segments.
    Silence,
    /// Splice in ads for the given (lowercased, supported) language.
    Lang(String),
}

impl PartialEq for PlayAction {
    fn eq(&self, other: &Self) -> (r: bool) {
        match (self, other) {
            (PlayAction::Passthrough, PlayAction::Passthrough) => true,
            (PlayAction::Silence, PlayAction::Silence) => true,
            (PlayAction::Lang(a), PlayAction::Lang(b)) => *a == *b,
            _ => false,
        }
    }
}

impl vstd::std_specs::cmp::PartialEqSpecImpl for PlayAction {
    open spec fn obeys_eq_spec() -> bool {
        true
    }

    open spec fn eq_spec(&self, other: &Self) -> bool {
        match (self, other) {
            (PlayAction::Passthrough, PlayAction::Passthrough) => true,
            (PlayAction::Silence, PlayAction::Silence) => true,
            (PlayAction::Lang(a), PlayAction::Lang(b)) => a@ == b@,
            _ => false,
        }
    }
}

impl Eq for PlayAction {

}

/// A language the service can splice ads for.
pub open spec fn is_supported_lang(s: Seq<char>) -> bool {
    s == "en"@ || s == "nl"@ || s == "fr"@
}

/// Whether `lang` is one of the supported languages.
pub fn is_lang_supported(lang: &str) -> (r: bool)
    ensures
        r == is_supported_lang(lang@),
{
    let l = lang.to_owned();
    l == "en".to_owned() || l == "nl".to_owned() || l == "fr".to_owned()
}

/// A rejected action value: the (lowercased) value the request carried,
/// which names neither a built-in action nor a supported language.
#[derive(Debug)]
pub struct ActionError {
    /// The offending value, lowercased.
    pub received: String,
}

/// What parsing an action value yields, as a function of the value's
/// lowercase mapping `low`: the matching built-in action, a language
/// action for a supported language, and an error for everything else —
/// exactly then.
pub open spec fn parsed_action(low: Seq<char>, r: Result<Option<PlayAction>, ActionError>) -> bool {
    if low == "passthrough"@ {
        r == Result::<Option<PlayAction>, ActionError>::Ok(Some(PlayAction::Passthrough))
    } else if low == "silence"@ {
        r == Result::<Option<PlayAction>, ActionError>::Ok(Some(PlayAction::Silence))
    } else if is_supported_lang(low) {
        &&& r matches Ok(Some(PlayAction::Lang(s))) && s@ == low
    } else {
        &&& r matches Err(e) && e.received@ == low
    }
}

/// Parses a request's action value, case-insensitively: a missing value
/// defaults to passing the stream through; `passthrough` and `silence`
/// name those actions; a supported language code asks for ad splicing in
/// that language; anything else is rejected.
pub fn parse_play_action(value: Option<String>) -> (r: Result<Option<PlayAction>, ActionError>)
    ensures
        value is None ==> r == Result::<Option<PlayAction>, ActionError>::Ok(
            Some(PlayAction::Passthrough),
        ),
        value matches Some(v) ==> parsed_action(lower_of(v@), r),
{
    let v = match value {
        None => {
            return Ok(Some(PlayAction::Passthrough));
        },
        Some(v) => v,
    };
    let low = lowercase(v.as_str());
    if low == "passthrough".to_owned() {
        Ok(Some(PlayAction::Passthrough))
    } else if low == "silence".to_owned() {
        Ok(Some(PlayAction::Silence))
    } else if is_lang_supported(low.as_str()) {
        Ok(Some(PlayAction::Lang(low)))
    } else {
        Err(ActionError { received: low })
    }
}

} // verus!
