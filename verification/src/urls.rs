use vstd::prelude::*;

verus! {

/// The absolute URL that standard URL-reference resolution gives for a
/// reference against a base, or `None` when the base is no absolute URL or
/// the reference cannot be resolved against it. The outcome depends on the
/// two strings alone.
pub uninterp spec fn resolved_url(base: Seq<char>, reference: Seq<char>) -> Option<Seq<char>>;

/// Relies on `url::Url::parse` and `url::Url::join`: parses the base as an
/// absolute URL and resolves the reference against it per RFC 3986; both are
/// deterministic in their string arguments, so the serialized result is a
/// function of the two strings.
#[verifier::external_body]
pub(crate) fn resolve_reference(base: &str, reference: &str) -> (r: Option<String>)
    ensures
        (r matches Some(u) ==> resolved_url(base@, reference@) == Some(u@)),
        (r is None ==> resolved_url(base@, reference@) is None),
{
    let base_url = match url::Url::parse(base) {
        Ok(b) => b,
        Err(_) => return None,
    };
    match base_url.join(reference) {
        Ok(u) => Some(u.as_str().to_string()),
        Err(_) => None,
    }
}

} // verus!
