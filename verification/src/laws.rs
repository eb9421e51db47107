use vstd::prelude::*;

use crate::Sombra;
use crate::error::ErrorKind;
use crate::linux::SombraLinux;
use crate::messages::{not_found_desc, root_error};
use crate::registry::HostStateView;
use crate::windows::SombraWindows;

verus! {

/// Create is not idempotent: once a name is registered, a second create of
/// any descriptor under the same name is not allowed, and — per the create
/// contract, which leaves the host untouched on failure — the first
/// registration stays in place, exactly as it was recorded.
pub proof fn lemma_duplicate_create_rejected_linux(
    first: SombraLinux,
    second: SombraLinux,
    host: HostStateView,
)
    requires
        first.create_allowed(host),
        second.spec_name() == first.spec_name(),
    ensures
        ({
            let after = host.with_registry(
                host.registry.insert(first.spec_name(), first.registration(host)),
            );
            &&& !second.create_allowed(after)
            &&& after.registry[first.spec_name()] == first.registration(host)
        }),
{
}

/// The same, for the Windows adapter.
pub proof fn lemma_duplicate_create_rejected_windows(
    first: SombraWindows,
    second: SombraWindows,
    host: HostStateView,
)
    requires
        first.create_allowed(host),
        second.spec_name() == first.spec_name(),
    ensures
        ({
            let after = host.with_registry(
                host.registry.insert(first.spec_name(), first.registration(host)),
            );
            &&& !second.create_allowed(after)
            &&& after.registry[first.spec_name()] == first.registration(host)
        }),
{
}

/// Round trip: a successful create followed immediately by delete leaves no
/// residual registration — the host is exactly as it was — and a subsequent
/// create under the same name succeeds again.
pub proof fn lemma_round_trip_linux(s: SombraLinux, host: HostStateView)
    requires
        s.create_allowed(host),
    ensures
        ({
            let created = host.with_registry(
                host.registry.insert(s.spec_name(), s.registration(host)),
            );
            let deleted = created.with_registry(created.registry.remove(s.spec_name()));
            &&& created.registry.dom().contains(s.spec_name())
            &&& deleted == host
            &&& s.create_allowed(deleted)
        }),
{
    assert(host.registry.insert(s.spec_name(), s.registration(host)).remove(s.spec_name())
        =~= host.registry);
    let created = host.with_registry(host.registry.insert(s.spec_name(), s.registration(host)));
    let deleted = created.with_registry(created.registry.remove(s.spec_name()));
    assert(deleted =~= host);
}

/// The same, for the Windows adapter.
pub proof fn lemma_round_trip_windows(s: SombraWindows, host: HostStateView)
    requires
        s.create_allowed(host),
    ensures
        ({
            let created = host.with_registry(
                host.registry.insert(s.spec_name(), s.registration(host)),
            );
            let deleted = created.with_registry(created.registry.remove(s.spec_name()));
            &&& created.registry.dom().contains(s.spec_name())
            &&& deleted == host
            &&& s.create_allowed(deleted)
        }),
{
    assert(host.registry.insert(s.spec_name(), s.registration(host)).remove(s.spec_name())
        =~= host.registry);
    let created = host.with_registry(host.registry.insert(s.spec_name(), s.registration(host)));
    let deleted = created.with_registry(created.registry.remove(s.spec_name()));
    assert(deleted =~= host);
}

/// Distinct names live side by side: where creates of two different names
/// are both allowed, the first create does not obstruct the second; with
/// both registered, each name carries its own registration, and deleting
/// either one leaves the other registered and intact.
pub proof fn lemma_distinct_names_linux(s1: SombraLinux, s2: SombraLinux, host: HostStateView)
    requires
        s1.create_allowed(host),
        s2.create_allowed(host),
        s2.spec_name() != s1.spec_name(),
    ensures
        ({
            let h1 = host.with_registry(
                host.registry.insert(s1.spec_name(), s1.registration(host)),
            );
            let h2 = h1.with_registry(h1.registry.insert(s2.spec_name(), s2.registration(h1)));
            &&& s2.create_allowed(h1)
            &&& h2.registry[s1.spec_name()] == s1.registration(host)
            &&& h2.registry[s2.spec_name()] == s2.registration(h1)
            &&& h2.registry.remove(s1.spec_name()).dom().contains(s2.spec_name())
            &&& h2.registry.remove(s1.spec_name())[s2.spec_name()] == s2.registration(h1)
            &&& h2.registry.remove(s2.spec_name()).dom().contains(s1.spec_name())
            &&& h2.registry.remove(s2.spec_name())[s1.spec_name()] == s1.registration(host)
        }),
{
}

/// The same, for the Windows adapter.
pub proof fn lemma_distinct_names_windows(
    s1: SombraWindows,
    s2: SombraWindows,
    host: HostStateView,
)
    requires
        s1.create_allowed(host),
        s2.create_allowed(host),
        s2.spec_name() != s1.spec_name(),
    ensures
        ({
            let h1 = host.with_registry(
                host.registry.insert(s1.spec_name(), s1.registration(host)),
            );
            let h2 = h1.with_registry(h1.registry.insert(s2.spec_name(), s2.registration(h1)));
            &&& s2.create_allowed(h1)
            &&& h2.registry[s1.spec_name()] == s1.registration(host)
            &&& h2.registry[s2.spec_name()] == s2.registration(h1)
            &&& h2.registry.remove(s1.spec_name()).dom().contains(s2.spec_name())
            &&& h2.registry.remove(s1.spec_name())[s2.spec_name()] == s2.registration(h1)
            &&& h2.registry.remove(s2.spec_name()).dom().contains(s1.spec_name())
            &&& h2.registry.remove(s2.spec_name())[s1.spec_name()] == s1.registration(host)
        }),
{
}

/// Delete without create fails with the "not found" failure and no other:
/// the POSIX adapter reports it as the I/O kind — the unit description is
/// not there to remove — and, per the delete contract, the host is left
/// exactly as it was.
pub proof fn lemma_delete_unregistered_linux(s: SombraLinux)
    ensures
        s.missing_error().kind == ErrorKind::Io,
        s.missing_error().desc == not_found_desc(s.spec_name()),
        s.missing_error().content is None,
{
}

/// The same for the Windows adapter, where the native manager reports the
/// missing name: the platform-service kind.
pub proof fn lemma_delete_unregistered_windows(s: SombraWindows)
    ensures
        s.missing_error().kind == ErrorKind::PlatformService,
        s.missing_error().desc == not_found_desc(s.spec_name()),
        s.missing_error().content is None,
{
}

/// Double delete: one delete of a registered name succeeds and removes it;
/// immediately afterwards the name is no longer registered, so — by the
/// delete contract — the second delete fails and changes nothing.
pub proof fn lemma_double_delete<T: Sombra>(s: &T, host: HostStateView)
    requires
        host.registry.dom().contains(s.spec_name()),
    ensures
        !host.with_registry(host.registry.remove(s.spec_name())).registry.dom().contains(
            s.spec_name(),
        ),
{
}

/// Argument passthrough, POSIX: what the service manager records launches
/// the target executable itself with exactly the stored arguments, in
/// order.
pub proof fn lemma_argument_passthrough_linux(s: SombraLinux, host: HostStateView)
    ensures
        s.registration(host).exec_path == s.spec_path(),
        s.registration(host).args == s.spec_args(),
{
}

/// Argument passthrough, Windows: what the service manager records launches
/// the service-host binary, handing it the target executable's path first
/// and then exactly the stored arguments, in order.
pub proof fn lemma_argument_passthrough_windows(s: SombraWindows, host: HostStateView)
    requires
        host.service_host is Some,
    ensures
        s.registration(host).exec_path == host.service_host->0,
        s.registration(host).args == seq![s.spec_path()] + s.spec_args(),
{
}

/// Create without elevation, POSIX: whatever the registry holds, an
/// invoking user other than `root` means create is not allowed and reports
/// the privilege failure — and, per the create contract, nothing on the
/// host changes before that failure.
pub proof fn lemma_unprivileged_create_rejected(s: SombraLinux, host: HostStateView)
    requires
        host.username != "root"@,
    ensures
        !s.create_allowed(host),
        s.create_error(host) == root_error(),
{
}

} // verus!
