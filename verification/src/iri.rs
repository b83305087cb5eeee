use activitystreams::iri_string::types::IriString;
use vstd::prelude::*;

verus! {

/// Whether `text` is an IRI with a scheme, as `iri_string` reads RFC 3987.
pub uninterp spec fn is_iri(text: Seq<char>) -> bool;

/// `text` once more, where it is an IRI.
///
/// Stands for `IriString`'s `FromStr`, which checks the text against the grammar and keeps it
/// unchanged. Whether a text passes is left to that grammar; the address of everyone does.
#[verifier::external_body]
pub(crate) fn parse_iri(text: &str) -> (iri: Option<String>)
    ensures
        iri is Some == is_iri(text@),
        iri matches Some(t) ==> t@ == text@,
        text@ == "https://www.w3.org/ns/activitystreams#Public"@ ==> iri is Some,
{
    match text.parse::<IriString>() {
        Ok(iri) => Some(iri.as_str().to_owned()),
        Err(_) => None,
    }
}

} // verus!
