use vstd::prelude::*;
use vstd::string::StringExecFns;
use crate::error::{ErrorKind, ErrorView};

verus! {

/// `Service <name> already exist`: a second registration under a live name.
pub open spec fn already_exists_desc(name: Seq<char>) -> Seq<char> {
    "Service "@ + name + " already exist"@
}

/// `Service <name> not found`: deletion of a name with no registration.
pub open spec fn not_found_desc(name: Seq<char>) -> Seq<char> {
    "Service "@ + name + " not found"@
}

/// `Service <name> created with success`: the reported outcome of create.
pub open spec fn created_desc(name: Seq<char>) -> Seq<char> {
    "Service "@ + name + " created with success"@
}

/// `Service <name> deleted with success`: the reported outcome of delete.
pub open spec fn deleted_desc(name: Seq<char>) -> Seq<char> {
    "Service "@ + name + " deleted with success"@
}

/// The text of the privilege failure.
pub open spec fn root_desc() -> Seq<char> {
    "Without root privileges."@
}

/// The text of the name-validation failure.
pub open spec fn invalid_name_desc() -> Seq<char> {
    "Invalid service name"@
}

/// The text of the missing service-host configuration failure.
pub open spec fn host_unset_desc() -> Seq<char> {
    "Environment variable SOMBRA_WINDOWS_SERVICE_PATH not found"@
}

/// The privilege failure: create on the POSIX platform demands elevation.
pub open spec fn root_error() -> ErrorView {
    ErrorView { kind: ErrorKind::Other, desc: root_desc(), content: None }
}

/// The validation failure for a name that is not [`valid_name`]; it carries
/// the offending name.
pub open spec fn invalid_name_error(name: Seq<char>) -> ErrorView {
    ErrorView { kind: ErrorKind::Other, desc: invalid_name_desc(), content: Some(name) }
}

/// `<prefix><name><suffix>` as one string.
pub fn enclose(prefix: &str, name: &str, suffix: &str) -> (r: String)
    ensures
        r@ == prefix@ + name@ + suffix@,
{
    let mut s = String::new();
    s.append(prefix);
    s.append(name);
    s.append(suffix);
    proof {
        assert(s@ =~= prefix@ + name@ + suffix@);
    }
    s
}

/// The text of [`already_exists_desc`] for this name.
pub fn already_exists_message(name: &str) -> (r: String)
    ensures
        r@ == already_exists_desc(name@),
{
    enclose("Service ", name, " already exist")
}

/// The text of [`not_found_desc`] for this name.
pub fn not_found_message(name: &str) -> (r: String)
    ensures
        r@ == not_found_desc(name@),
{
    enclose("Service ", name, " not found")
}

/// The text of [`created_desc`] for this name.
pub fn created_message(name: &str) -> (r: String)
    ensures
        r@ == created_desc(name@),
{
    enclose("Service ", name, " created with success")
}

/// The text of [`deleted_desc`] for this name.
pub fn deleted_message(name: &str) -> (r: String)
    ensures
        r@ == deleted_desc(name@),
{
    enclose("Service ", name, " deleted with success")
}

} // verus!
