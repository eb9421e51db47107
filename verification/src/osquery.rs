use vstd::prelude::*;

verus! {

/// Relies on dunce::canonicalize: a successful result is the canonical,
/// absolute form of the path — hence a nonempty string. Whether a path
/// resolves depends on what is on disk, so nothing more is promised; a
/// failure, including a resolved path that is not valid Unicode, is
/// reported as its diagnostic text.
#[verifier::external_body]
pub(crate) fn canonicalize_path(path: &str) -> (r: Result<String, String>)
    ensures
        r is Ok ==> (r->Ok_0)@.len() > 0,
{
    match dunce::canonicalize(path) {
        Ok(resolved) => match resolved.to_str() {
            Some(s) => Ok(s.to_string()),
            None => Err("Cannot decode path".to_string()),
        },
        Err(e) => Err(e.to_string()),
    }
}

/// Relies on whoami::username: the invoking user's name as the platform
/// reports it. The outcome depends on the environment, so nothing is
/// promised of the name; a failure is reported as its diagnostic text.
#[verifier::external_body]
pub(crate) fn query_username() -> (r: Result<String, String>) {
    match whoami::username() {
        Ok(user) => Ok(user),
        Err(e) => Err(e.to_string()),
    }
}

} // verus!
