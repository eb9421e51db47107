use vstd::prelude::*;

mod args;
mod error;
mod laws;
mod linux;
mod messages;
mod osquery;
mod registry;
mod systemctl;
mod windows;

pub use args::{check_name, clone_args, drop_empty_args, keep_nonempty, valid_name};
pub use error::{Error, ErrorKind, ErrorView};
pub use error::{kind_label, kind_name, rendered};
pub use laws::{lemma_argument_passthrough_linux, lemma_argument_passthrough_windows,
    lemma_delete_unregistered_linux, lemma_delete_unregistered_windows,
    lemma_distinct_names_linux, lemma_distinct_names_windows, lemma_double_delete,
    lemma_duplicate_create_rejected_linux, lemma_duplicate_create_rejected_windows,
    lemma_round_trip_linux, lemma_round_trip_windows, lemma_unprivileged_create_rejected};
pub use linux::{SombraLinux, check_root, exec_start_line, join_spaced, render_unit};
pub use linux::{spec_exec_start, spec_unit_content, unit_path_of};
pub use messages::{already_exists_desc, created_desc, deleted_desc, not_found_desc};
pub use messages::{already_exists_message, created_message, deleted_message, not_found_message};
pub use messages::{enclose, host_unset_desc, invalid_name_desc, invalid_name_error, root_desc,
    root_error};
pub use registry::{HostState, HostStateView, Registration, RegistrationView, ServiceRegistry};
pub use registry::{entries_map, names_distinct};
pub use systemctl::Systemctl;
pub use windows::{STOP_GRACE_PERIOD_MS, ServiceState, SombraWindows, service_desc_of};

verus! {

/// The uniform lifecycle contract over the two platform service models.
///
/// A value of an implementing type is a stateless descriptor: the host's own
/// service manager — modelled by [`HostState`] — is the only state the
/// lifecycle touches. `build` validates and resolves the description without
/// touching the host; `create` registers the service under its name and
/// starts it; `delete` stops it and removes the registration. Each
/// implementation fixes, through its spec functions, exactly when the
/// operations succeed, what they record, and which error they report.
pub trait Sombra: Sized {
    /// The name under which the service is registered.
    spec fn spec_name(&self) -> Seq<char>;

    /// The resolved path of the target executable.
    spec fn spec_path(&self) -> Seq<char>;

    /// The launch arguments of the target executable, in order.
    spec fn spec_args(&self) -> Seq<Seq<char>>;

    /// What `build` establishes and the lifecycle operations rely on.
    spec fn wf(&self) -> bool;

    /// Does `create` succeed against this observed host?
    spec fn create_allowed(&self, host: HostStateView) -> bool;

    /// The error `create` reports where it is not allowed.
    spec fn create_error(&self, host: HostStateView) -> ErrorView;

    /// What the service manager records for this descriptor.
    spec fn registration(&self, host: HostStateView) -> RegistrationView;

    /// The error `delete` reports where nothing is registered under the
    /// name.
    spec fn missing_error(&self) -> ErrorView;

    /// Validate the service name, resolve the executable path and drop
    /// empty arguments. No host state is touched: building is free of
    /// OS-visible side effects, and repeating it observes nothing and
    /// disturbs nothing. Whether the path resolves depends on what is on
    /// disk; a name that is not [`valid_name`] is rejected outright, and a
    /// path that does not resolve is reported as an I/O failure carrying
    /// that path.
    fn build(name: &str, path: &str, args: Vec<String>) -> (r: Result<Self, Error>)
        ensures
            r is Ok ==> (r->Ok_0).wf(),
            r is Ok ==> (r->Ok_0).spec_name() == name@,
            r is Ok ==> (r->Ok_0).spec_args() == keep_nonempty(args.deep_view()),
            r is Ok ==> valid_name(name@),
            r is Err && !valid_name(name@) ==> (r->Err_0)@ == invalid_name_error(name@),
            r is Err && valid_name(name@) ==> (r->Err_0)@.kind == ErrorKind::Io && (r->Err_0)@.content
                == Some(path@),
    ;

    /// Register the service under its name and start it. Succeeds exactly
    /// where the implementation allows it; then the registry gains this
    /// descriptor's registration and nothing else changes. A rejected
    /// create — a duplicate name, a missing precondition — reports the
    /// implementation's error and leaves the host exactly as it was.
    fn create(&self, host: &mut HostState) -> (r: Result<(), Error>)
        requires
            self.wf(),
            old(host).wf(),
        ensures
            final(host).wf(),
            r is Ok <==> self.create_allowed(old(host)@),
            r is Ok ==> final(host)@ == old(host)@.with_registry(
                old(host)@.registry.insert(self.spec_name(), self.registration(old(host)@)),
            ),
            r is Err ==> final(host)@ == old(host)@,
            r is Err ==> (r->Err_0)@ == self.create_error(old(host)@),
    ;

    /// Stop the service and remove its registration. Succeeds exactly when
    /// the name is registered; then the registry loses that name and
    /// nothing else changes. Deleting a name with no registration reports
    /// the implementation's "not found" error and leaves the host exactly
    /// as it was — so a second delete in immediate succession fails.
    fn delete(&self, host: &mut HostState) -> (r: Result<(), Error>)
        requires
            self.wf(),
            old(host).wf(),
        ensures
            final(host).wf(),
            r is Ok <==> old(host)@.registry.dom().contains(self.spec_name()),
            r is Ok ==> final(host)@ == old(host)@.with_registry(
                old(host)@.registry.remove(self.spec_name()),
            ),
            r is Err ==> final(host)@ == old(host)@,
            r is Err ==> (r->Err_0)@ == self.missing_error(),
    ;
}

/// The platform's own adapter for this build of the library: the POSIX one.
pub fn build(name: &str, path: &str, args: Vec<String>) -> (r: Result<SombraLinux, Error>)
    ensures
        r is Ok ==> (r->Ok_0).wf(),
        r is Ok ==> (r->Ok_0).spec_name() == name@,
        r is Ok ==> (r->Ok_0).spec_args() == keep_nonempty(args.deep_view()),
        r is Ok ==> valid_name(name@),
        r is Err && !valid_name(name@) ==> (r->Err_0)@ == invalid_name_error(name@),
        r is Err && valid_name(name@) ==> (r->Err_0)@.kind == ErrorKind::Io && (r->Err_0)@.content
            == Some(path@),
{
    <SombraLinux as Sombra>::build(name, path, args)
}

} // verus!
