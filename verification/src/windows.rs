use vstd::prelude::*;
use vstd::string::StringExecFns;

use crate::Sombra;
use crate::args::{check_name, drop_empty_args, keep_nonempty, lemma_keep_nonempty_entries,
    valid_name};
use crate::error::{Error, ErrorKind, ErrorView};
use crate::messages::{already_exists_desc, already_exists_message, host_unset_desc,
    invalid_name_error, not_found_desc, not_found_message};
use crate::osquery::canonicalize_path;
use crate::registry::{HostState, HostStateView, Registration, RegistrationView};

verus! {

/// States of a service as the native Service Control Manager reports them.
#[derive(Clone, Copy, Debug, PartialEq, Eq, Structural)]
pub enum ServiceState {
    Stopped,
    StartPending,
    StopPending,
    Running,
    ContinuePending,
    PausePending,
    Paused,
}

/// How long delete waits after issuing stop, in milliseconds: a fixed grace
/// period for the stopping process to exit, not a poll loop — it does not
/// guarantee termination.
pub const STOP_GRACE_PERIOD_MS: u64 = 100;

/// The human-readable description set on the created service entry.
pub open spec fn service_desc_of(name: Seq<char>) -> Seq<char> {
    "Sombra Service Wrapper on "@ + name
}

/// The Windows adapter: registers the target executable with the native
/// Service Control Manager by wrapping it in the fixed service-host binary,
/// which runs as the actual service and launches the target in turn. The
/// lifecycle is specified against the host model; the native API calls are
/// the caller's unverified edge.
#[derive(Debug)]
pub struct SombraWindows {
    pub process_path: String,
    pub process_name: String,
    pub process_args: Vec<String>,
}

impl SombraWindows {
    /// What `build` returns once the outcome of path resolution is fixed;
    /// the same validation as on the POSIX side.
    pub fn build_resolved(
        name: &str,
        path: &str,
        resolved: Result<String, String>,
        args: Vec<String>,
    ) -> (r: Result<SombraWindows, Error>)
        ensures
            r is Ok <==> valid_name(name@) && resolved is Ok,
            !valid_name(name@) ==> r is Err && (r->Err_0)@ == invalid_name_error(name@),
            valid_name(name@) && resolved is Err ==> r is Err && (r->Err_0)@ == (ErrorView {
                kind: ErrorKind::Io,
                desc: (resolved->Err_0)@,
                content: Some(path@),
            }),
            r is Ok ==> (r->Ok_0).wf(),
            r is Ok ==> (r->Ok_0).process_name@ == name@,
            r is Ok ==> (r->Ok_0).process_path@ == (resolved->Ok_0)@,
            r is Ok ==> (r->Ok_0).process_args.deep_view() == keep_nonempty(args.deep_view()),
    {
        if !check_name(name) {
            return Err(
                Error::new(ErrorKind::Other, String::from_str("Invalid service name")).content(
                    name.to_owned(),
                ),
            );
        }
        match resolved {
            Err(m) => Err(Error::new(ErrorKind::Io, m).content(path.to_owned())),
            Ok(p) => {
                let filtered = drop_empty_args(&args);
                proof {
                    lemma_keep_nonempty_entries(args.deep_view());
                }
                Ok(
                    SombraWindows {
                        process_path: p,
                        process_name: name.to_owned(),
                        process_args: filtered,
                    },
                )
            },
        }
    }

    /// The launch arguments handed to the service-host binary: the target
    /// executable's path first, then the stored arguments, exactly in
    /// order — the host binary starts the target with precisely these.
    pub fn launch_arguments(&self) -> (r: Vec<String>)
        ensures
            r.deep_view() == seq![self.process_path@] + self.process_args.deep_view(),
    {
        let mut v: Vec<String> = Vec::new();
        v.push(self.process_path.clone());
        let n = self.process_args.len();
        let mut i: usize = 0;
        while i < n
            invariant
                i <= n,
                n == self.process_args.len(),
                v.deep_view() == seq![self.process_path@] + self.process_args.deep_view().take(
                    i as int,
                ),
            decreases n - i,
        {
            let ghost old_v = v.deep_view();
            v.push(self.process_args[i].clone());
            proof {
                assert(v.deep_view() =~= old_v.push(self.process_args@[i as int]@));
                assert(v.deep_view() =~= seq![self.process_path@]
                    + self.process_args.deep_view().take(i + 1));
            }
            i += 1;
        }
        proof {
            assert(self.process_args.deep_view().take(n as int) =~= self.process_args.deep_view());
        }
        v
    }

    /// The description set on the newly created service entry.
    pub fn service_description(&self) -> (r: String)
        ensures
            r@ == service_desc_of(self.process_name@),
    {
        let mut s = String::from_str("Sombra Service Wrapper on ");
        s.append(self.process_name.as_str());
        proof {
            assert(s@ =~= service_desc_of(self.process_name@));
        }
        s
    }

    /// Must delete issue a stop before deregistering? Only a service that
    /// already reports `Stopped` is left alone.
    pub fn needs_stop(state: ServiceState) -> (r: bool)
        ensures
            r == (state != ServiceState::Stopped),
    {
        match state {
            ServiceState::Stopped => false,
            _ => true,
        }
    }
}

impl Sombra for SombraWindows {
    open spec fn spec_name(&self) -> Seq<char> {
        self.process_name@
    }

    open spec fn spec_path(&self) -> Seq<char> {
        self.process_path@
    }

    open spec fn spec_args(&self) -> Seq<Seq<char>> {
        self.process_args.deep_view()
    }

    open spec fn wf(&self) -> bool {
        &&& valid_name(self.process_name@)
        &&& forall|i: int|
            0 <= i < self.process_args.deep_view().len()
                ==> #[trigger] self.process_args.deep_view()[i].len() > 0
    }

    /// Create succeeds exactly where the service-host binary is configured
    /// and present and the name is not yet registered.
    open spec fn create_allowed(&self, host: HostStateView) -> bool {
        host.service_host is Some && !host.registry.dom().contains(self.process_name@)
    }

    /// A missing service-host configuration is an environment failure; a
    /// duplicate name is rejected by the native manager.
    open spec fn create_error(&self, host: HostStateView) -> ErrorView {
        if host.service_host is None {
            ErrorView { kind: ErrorKind::EnvVar, desc: host_unset_desc(), content: None }
        } else {
            ErrorView {
                kind: ErrorKind::PlatformService,
                desc: already_exists_desc(self.process_name@),
                content: None,
            }
        }
    }

    /// The manager launches the service-host binary, which receives the
    /// target path and the stored arguments as its launch arguments.
    open spec fn registration(&self, host: HostStateView) -> RegistrationView {
        RegistrationView {
            exec_path: host.service_host->0,
            args: seq![self.process_path@] + self.process_args.deep_view(),
        }
    }

    /// Deleting an unregistered name is rejected by the native manager.
    open spec fn missing_error(&self) -> ErrorView {
        ErrorView {
            kind: ErrorKind::PlatformService,
            desc: not_found_desc(self.process_name@),
            content: None,
        }
    }

    fn build(name: &str, path: &str, args: Vec<String>) -> (r: Result<SombraWindows, Error>) {
        let resolved = canonicalize_path(path);
        SombraWindows::build_resolved(name, path, resolved, args)
    }

    fn create(&self, host: &mut HostState) -> (r: Result<(), Error>) {
        let host_bin: String = match &host.service_host {
            None => {
                return Err(
                    Error::new(
                        ErrorKind::EnvVar,
                        String::from_str(
                            "Environment variable SOMBRA_WINDOWS_SERVICE_PATH not found",
                        ),
                    ),
                );
            },
            Some(h) => h.clone(),
        };
        if host.registry.contains(self.process_name.as_str()) {
            return Err(
                Error::new(
                    ErrorKind::PlatformService,
                    already_exists_message(self.process_name.as_str()),
                ),
            );
        }
        let reg = Registration { exec_path: host_bin, args: self.launch_arguments() };
        proof {
            assert(reg@ =~= self.registration(old(host)@));
        }
        host.registry.register(self.process_name.clone(), reg);
        proof {
            assert(host@ =~= old(host)@.with_registry(
                old(host)@.registry.insert(self.process_name@, self.registration(old(host)@)),
            ));
        }
        Ok(())
    }

    fn delete(&self, host: &mut HostState) -> (r: Result<(), Error>) {
        let removed = host.registry.deregister(self.process_name.as_str());
        if removed {
            proof {
                assert(host@ =~= old(host)@.with_registry(
                    old(host)@.registry.remove(self.process_name@),
                ));
            }
            Ok(())
        } else {
            proof {
                assert(old(host)@.registry.remove(self.process_name@) =~= old(host)@.registry);
                assert(host@ =~= old(host)@);
            }
            Err(
                Error::new(
                    ErrorKind::PlatformService,
                    not_found_message(self.process_name.as_str()),
                ),
            )
        }
    }
}

} // verus!
