use vstd::prelude::*;
use vstd::string::StringExecFns;

use crate::Sombra;
use crate::args::{check_name, clone_args, drop_empty_args, keep_nonempty,
    lemma_keep_nonempty_entries, valid_name};
use crate::error::{Error, ErrorKind, ErrorView};
use crate::messages::{already_exists_desc, already_exists_message, enclose, invalid_name_error,
    not_found_desc, not_found_message, root_error};
use crate::osquery::{canonicalize_path, query_username};
use crate::registry::{HostState, HostStateView, Registration, RegistrationView};
use crate::systemctl::Systemctl;

verus! {

/// The arguments joined by single spaces, as the unit description's start
/// line carries them after the executable path.
pub open spec fn join_spaced(args: Seq<Seq<char>>) -> Seq<char>
    decreases args.len(),
{
    if args.len() == 0 {
        Seq::empty()
    } else if args.len() == 1 {
        args[0]
    } else {
        join_spaced(args.drop_last()) + " "@ + args.last()
    }
}

/// The start line of the unit description: the executable path, then the
/// arguments joined by single spaces — no separator is injected beyond the
/// single space between entries.
pub open spec fn spec_exec_start(path: Seq<char>, args: Seq<Seq<char>>) -> Seq<char> {
    if args.len() == 0 {
        path
    } else {
        path + " "@ + join_spaced(args)
    }
}

pub proof fn lemma_exec_start_push(path: Seq<char>, t: Seq<Seq<char>>, x: Seq<char>)
    ensures
        spec_exec_start(path, t.push(x)) == spec_exec_start(path, t) + " "@ + x,
{
    let u = t.push(x);
    assert(u.drop_last() =~= t);
    assert(u.last() == x);
    if t.len() == 0 {
        assert(u[0] == x);
        assert(path + " "@ + x =~= path + " "@ + x);
    } else {
        assert(join_spaced(u) == join_spaced(t) + " "@ + x);
        assert(path + " "@ + (join_spaced(t) + " "@ + x) =~= (path + " "@ + join_spaced(t)) + " "@
            + x);
    }
}

/// The start line, built exactly as [`spec_exec_start`] states it.
pub fn exec_start_line(path: &str, args: &Vec<String>) -> (r: String)
    ensures
        r@ == spec_exec_start(path@, args.deep_view()),
{
    let mut s: String = path.to_owned();
    let n = args.len();
    let mut i: usize = 0;
    while i < n
        invariant
            i <= n,
            n == args.len(),
            s@ == spec_exec_start(path@, args.deep_view().take(i as int)),
        decreases n - i,
    {
        proof {
            assert(args.deep_view().take(i + 1) =~= args.deep_view().take(i as int).push(
                args@[i as int]@,
            ));
            lemma_exec_start_push(path@, args.deep_view().take(i as int), args@[i as int]@);
        }
        s.append(" ");
        s.append(args[i].as_str());
        proof {
            assert(s@ =~= spec_exec_start(path@, args.deep_view().take(i + 1)));
        }
        i += 1;
    }
    proof {
        assert(args.deep_view().take(n as int) =~= args.deep_view());
    }
    s
}

/// The complete unit description for one service: description, ordering
/// after the network target, restart rate limiting disabled, a simple
/// process type, the invoking user, and the start line.
pub open spec fn spec_unit_content(
    name: Seq<char>,
    path: Seq<char>,
    user: Seq<char>,
    args: Seq<Seq<char>>,
) -> Seq<char> {
    "[Unit]\nDescription="@ + name
        + " service\nAfter=network.target\nStartLimitIntervalSec=0\n\n[Service]\nType=simple\nUser="@
        + user + "\nExecStart="@ + spec_exec_start(path, args)
        + "\n\n[Install]\nWantedBy=multi-user.target"@
}

/// The unit description, built exactly as [`spec_unit_content`] states it.
pub fn render_unit(name: &str, path: &str, user: &str, args: &Vec<String>) -> (r: String)
    ensures
        r@ == spec_unit_content(name@, path@, user@, args.deep_view()),
{
    let mut s = String::new();
    s.append("[Unit]\nDescription=");
    s.append(name);
    s.append(" service\nAfter=network.target\nStartLimitIntervalSec=0\n\n[Service]\nType=simple\nUser=");
    s.append(user);
    s.append("\nExecStart=");
    let line = exec_start_line(path, args);
    s.append(line.as_str());
    s.append("\n\n[Install]\nWantedBy=multi-user.target");
    proof {
        assert(s@ =~= spec_unit_content(name@, path@, user@, args.deep_view()));
    }
    s
}

/// Where the unit description of a service of this name lives: the
/// platform's standard unit directory, `<name>` and the unit extension.
pub open spec fn unit_path_of(name: Seq<char>) -> Seq<char> {
    "/etc/systemd/system/"@ + name + ".service"@
}

/// Decide the privilege precondition from the invoking user's name:
/// elevated means `root`, anything else is rejected before any other work.
pub fn check_root(username: &String) -> (r: Result<(), Error>)
    ensures
        r is Ok <==> username@ == "root"@,
        r is Err ==> (r->Err_0)@ == root_error(),
{
    let root: String = String::from_str("root");
    if *username == root {
        Ok(())
    } else {
        Err(Error::new(ErrorKind::Other, String::from_str("Without root privileges.")))
    }
}

/// The POSIX adapter: maps the service description to a declarative unit
/// description under the platform's unit directory and drives it through
/// the init control utility. The lifecycle itself is specified against the
/// host model; writing the unit file and invoking the utility are the
/// caller's unverified edge.
#[derive(Debug)]
pub struct SombraLinux {
    pub process_path: String,
    pub process_name: String,
    pub process_args: Vec<String>,
    pub sysctl: Systemctl,
}

impl SombraLinux {
    /// What `build` returns once the outcome of path resolution is fixed:
    /// an invalid name is rejected with the validation error; a path that
    /// did not resolve is an I/O failure carrying the original path and the
    /// resolver's diagnostic; otherwise the descriptor, with empty
    /// arguments dropped.
    pub fn build_resolved(
        name: &str,
        path: &str,
        resolved: Result<String, String>,
        args: Vec<String>,
    ) -> (r: Result<SombraLinux, Error>)
        ensures
            r is Ok <==> valid_name(name@) && resolved is Ok,
            !valid_name(name@) ==> r is Err && (r->Err_0)@ == invalid_name_error(name@),
            valid_name(name@) && resolved is Err ==> r is Err && (r->Err_0)@ == (ErrorView {
                kind: ErrorKind::Io,
                desc: (resolved->Err_0)@,
                content: Some(path@),
            }),
            r is Ok ==> (r->Ok_0).wf(),
            r is Ok ==> (r->Ok_0).process_name@ == name@,
            r is Ok ==> (r->Ok_0).process_path@ == (resolved->Ok_0)@,
            r is Ok ==> (r->Ok_0).process_args.deep_view() == keep_nonempty(args.deep_view()),
    {
        if !check_name(name) {
            return Err(
                Error::new(ErrorKind::Other, String::from_str("Invalid service name")).content(
                    name.to_owned(),
                ),
            );
        }
        match resolved {
            Err(m) => Err(Error::new(ErrorKind::Io, m).content(path.to_owned())),
            Ok(p) => {
                let filtered = drop_empty_args(&args);
                proof {
                    lemma_keep_nonempty_entries(args.deep_view());
                }
                Ok(
                    SombraLinux {
                        process_path: p,
                        process_name: name.to_owned(),
                        process_args: filtered,
                        sysctl: Systemctl::new(name),
                    },
                )
            },
        }
    }

    /// The live privilege check: queries the invoking user's identity and
    /// applies [`check_root`] to it. Which user is invoking depends on the
    /// environment, so success cannot be promised; any failure is of the
    /// validation kind.
    pub fn is_root() -> (r: Result<(), Error>)
        ensures
            r is Err ==> (r->Err_0)@.kind == ErrorKind::Other,
    {
        match query_username() {
            Err(m) => Err(Error::new(ErrorKind::Other, m)),
            Ok(user) => check_root(&user),
        }
    }

    /// Where this service's unit description lives.
    pub fn unit_path(&self) -> (r: String)
        ensures
            r@ == unit_path_of(self.process_name@),
    {
        enclose("/etc/systemd/system/", self.process_name.as_str(), ".service")
    }

    /// The unit description for this service, rendered for the invoking
    /// user. Which user that is depends on the environment; the text is
    /// exactly [`spec_unit_content`] for whatever name came back.
    pub fn service_file_content(&self) -> (r: Result<String, Error>)
        ensures
            r is Ok ==> exists|user: Seq<char>|
                (r->Ok_0)@ == spec_unit_content(
                    self.process_name@,
                    self.process_path@,
                    user,
                    self.process_args.deep_view(),
                ),
            r is Err ==> (r->Err_0)@.kind == ErrorKind::Other,
    {
        match query_username() {
            Err(m) => Err(Error::new(ErrorKind::Other, m)),
            Ok(user) => {
                let content = render_unit(
                    self.process_name.as_str(),
                    self.process_path.as_str(),
                    user.as_str(),
                    &self.process_args,
                );
                proof {
                    assert(content@ == spec_unit_content(
                        self.process_name@,
                        self.process_path@,
                        user@,
                        self.process_args.deep_view(),
                    ));
                }
                Ok(content)
            },
        }
    }
}

impl Sombra for SombraLinux {
    open spec fn spec_name(&self) -> Seq<char> {
        self.process_name@
    }

    open spec fn spec_path(&self) -> Seq<char> {
        self.process_path@
    }

    open spec fn spec_args(&self) -> Seq<Seq<char>> {
        self.process_args.deep_view()
    }

    open spec fn wf(&self) -> bool {
        &&& valid_name(self.process_name@)
        &&& forall|i: int|
            0 <= i < self.process_args.deep_view().len()
                ==> #[trigger] self.process_args.deep_view()[i].len() > 0
        &&& self.sysctl.name@ == self.process_name@
    }

    /// Create succeeds exactly for an elevated caller and a name not yet
    /// registered.
    open spec fn create_allowed(&self, host: HostStateView) -> bool {
        host.username == "root"@ && !host.registry.dom().contains(self.process_name@)
    }

    /// Without elevation the privilege error; with it, the duplicate-name
    /// I/O error.
    open spec fn create_error(&self, host: HostStateView) -> ErrorView {
        if host.username != "root"@ {
            root_error()
        } else {
            ErrorView {
                kind: ErrorKind::Io,
                desc: already_exists_desc(self.process_name@),
                content: None,
            }
        }
    }

    /// The unit runs the target executable itself, with the stored
    /// arguments.
    open spec fn registration(&self, host: HostStateView) -> RegistrationView {
        RegistrationView { exec_path: self.process_path@, args: self.process_args.deep_view() }
    }

    /// Deleting an unregistered name surfaces as an I/O failure: the unit
    /// description is not there to remove.
    open spec fn missing_error(&self) -> ErrorView {
        ErrorView { kind: ErrorKind::Io, desc: not_found_desc(self.process_name@), content: None }
    }

    fn build(name: &str, path: &str, args: Vec<String>) -> (r: Result<SombraLinux, Error>) {
        let resolved = canonicalize_path(path);
        SombraLinux::build_resolved(name, path, resolved, args)
    }

    fn create(&self, host: &mut HostState) -> (r: Result<(), Error>) {
        match check_root(&host.username) {
            Err(e) => {
                return Err(e);
            },
            Ok(()) => {},
        }
        if host.registry.contains(self.process_name.as_str()) {
            return Err(
                Error::new(
                    ErrorKind::Io,
                    already_exists_message(self.process_name.as_str()),
                ),
            );
        }
        let reg = Registration {
            exec_path: self.process_path.clone(),
            args: clone_args(&self.process_args),
        };
        proof {
            assert(reg@ =~= self.registration(old(host)@));
        }
        host.registry.register(self.process_name.clone(), reg);
        proof {
            assert(host@ =~= old(host)@.with_registry(
                old(host)@.registry.insert(self.process_name@, self.registration(old(host)@)),
            ));
        }
        Ok(())
    }

    fn delete(&self, host: &mut HostState) -> (r: Result<(), Error>) {
        let removed = host.registry.deregister(self.process_name.as_str());
        if removed {
            proof {
                assert(host@ =~= old(host)@.with_registry(
                    old(host)@.registry.remove(self.process_name@),
                ));
            }
            Ok(())
        } else {
            proof {
                assert(old(host)@.registry.remove(self.process_name@) =~= old(host)@.registry);
                assert(host@ =~= old(host)@);
            }
            Err(Error::new(ErrorKind::Io, not_found_message(self.process_name.as_str())))
        }
    }
}

} // verus!
