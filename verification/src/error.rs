use vstd::prelude::*;
use vstd::string::StringExecFns;

verus! {

/// The closed taxonomy of failure kinds. Every lower-level failure
/// (filesystem, subprocess text decoding, native service-manager API,
/// missing environment configuration, validation and privilege checks)
/// is mapped into one of these kinds at the boundary where it is caught.
#[derive(Clone, Copy, Debug, PartialEq, Eq, Structural)]
pub enum ErrorKind {
    /// Privilege checks and input validation failures.
    Other,
    /// Filesystem and process I/O, including "not found", "already exists"
    /// and "permission denied".
    Io,
    /// Invalid text decoding from subprocess output.
    Utf8,
    /// Failures surfaced by the native service-manager API.
    PlatformService,
    /// Missing or invalid required environment configuration.
    EnvVar,
}

/// Mathematical model of an [`Error`]: its kind, description and
/// optional offending value, as sequences of characters.
pub struct ErrorView {
    pub kind: ErrorKind,
    pub desc: Seq<char>,
    pub content: Option<Seq<char>>,
}

/// A failure, represented as a `(kind, description, optional content)`
/// triple. `content` carries the offending value (a path, a service name)
/// so that the rendered message reads `<Kind> <content>: <description>`.
#[derive(Debug)]
pub struct Error {
    pub kind: ErrorKind,
    pub desc: String,
    pub content: Option<String>,
}

impl View for Error {
    type V = ErrorView;

    open spec fn view(&self) -> ErrorView {
        ErrorView {
            kind: self.kind,
            desc: self.desc@,
            content: match self.content {
                Some(c) => Some(c@),
                None => None,
            },
        }
    }
}

/// The name under which each kind is rendered in diagnostics.
pub open spec fn kind_label(kind: ErrorKind) -> Seq<char> {
    match kind {
        ErrorKind::Other => "Other"@,
        ErrorKind::Io => "Io"@,
        ErrorKind::Utf8 => "Utf8"@,
        ErrorKind::PlatformService => "PlatformService"@,
        ErrorKind::EnvVar => "EnvVar"@,
    }
}

/// The single-line diagnostic text of an error:
/// `<Kind> <content>: <description>`, or `<Kind> <description>` when
/// there is no content.
pub open spec fn rendered(e: ErrorView) -> Seq<char> {
    match e.content {
        Some(c) => "<"@ + kind_label(e.kind) + "> "@ + c + ": "@ + e.desc,
        None => "<"@ + kind_label(e.kind) + "> "@ + e.desc,
    }
}

/// The rendered name of a kind, as used between the angle brackets of a
/// diagnostic line.
pub fn kind_name(kind: ErrorKind) -> (r: &'static str)
    ensures
        r@ == kind_label(kind),
{
    match kind {
        ErrorKind::Other => "Other",
        ErrorKind::Io => "Io",
        ErrorKind::Utf8 => "Utf8",
        ErrorKind::PlatformService => "PlatformService",
        ErrorKind::EnvVar => "EnvVar",
    }
}

impl Error {
    /// An error of the given kind and description, with no content.
    pub fn new(kind: ErrorKind, desc: String) -> (r: Error)
        ensures
            r@ == (ErrorView { kind, desc: desc@, content: None }),
    {
        Error { kind, desc, content: None }
    }

    /// The same error, now carrying the offending value.
    pub fn content(self, content: String) -> (r: Error)
        ensures
            r@ == (ErrorView { content: Some(content@), ..self@ }),
    {
        Error { content: Some(content), ..self }
    }

    /// The single-line diagnostic text shown to the end user. This string
    /// is a compatibility surface: it is rendered deterministically as
    /// `<Kind> <content>: <description>` (or `<Kind> <description>`).
    pub fn to_string(&self) -> (r: String)
        ensures
            r@ == rendered(self@),
    {
        let mut s = String::new();
        s.append("<");
        s.append(kind_name(self.kind));
        s.append("> ");
        match &self.content {
            Some(c) => {
                s.append(c.as_str());
                s.append(": ");
            },
            None => {},
        }
        s.append(self.desc.as_str());
        proof {
            assert(s@ =~= rendered(self@));
        }
        s
    }
}

impl PartialEq for Error {
    fn eq(&self, other: &Error) -> (r: bool) {
        let kinds_eq = self.kind == other.kind;
        let descs_eq = self.desc == other.desc;
        let contents_eq = match (&self.content, &other.content) {
            (Some(a), Some(b)) => *a == *b,
            (None, None) => true,
            _ => false,
        };
        kinds_eq && descs_eq && contents_eq
    }
}

impl vstd::std_specs::cmp::PartialEqSpecImpl for Error {
    open spec fn obeys_eq_spec() -> bool {
        true
    }

    open spec fn eq_spec(&self, other: &Error) -> bool {
        self@ == other@
    }
}

} // verus!
