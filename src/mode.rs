use vstd::prelude::*;
use vstd::string::StringExecFns;

verus! {

/// How the current process was started.
#[derive(Clone, Copy, Debug, PartialEq, Eq, Structural)]
pub enum InvocationMode {
    /// Run as a standalone executable.
    Direct,
    /// Dispatched by the host tool as one of its plugin subcommands.
    ViaHostPlugin,
}

/// Why the invocation mode or the schema could not be determined.
#[derive(Clone, Copy, Debug, PartialEq, Eq, Structural)]
pub enum DetectError {
    /// The program path has no file name to take a stem from.
    MissingStem,
    /// The stem of the program path is not valid text.
    Encoding,
    /// The plugin name token is absent.
    MissingArgument,
    /// The schema for plugin mode could not read the plugin name.
    SchemaConstruction,
}

pub open spec fn error_message(e: DetectError) -> Seq<char> {
    match e {
        DetectError::MissingStem => "Failed to read subcommand filename!"@,
        DetectError::Encoding => "Failed to convert platform string to UTF-8!"@,
        DetectError::MissingArgument => "Failed to read subcommand name from arguments!"@,
        DetectError::SchemaConstruction => "Failed to read subcommand name from arguments!"@,
    }
}

impl DetectError {
    /// The human-readable message of this error.
    pub fn message(&self) -> (r: &'static str)
        ensures
            r@ == error_message(*self),
    {
        match self {
            DetectError::MissingStem => "Failed to read subcommand filename!",
            DetectError::Encoding => "Failed to convert platform string to UTF-8!",
            DetectError::MissingArgument => "Failed to read subcommand name from arguments!",
            DetectError::SchemaConstruction => "Failed to read subcommand name from arguments!",
        }
    }
}

/// What `std::path::Path::file_stem` gives for a path, followed by the
/// conversion of that stem to text: `None` when the path has no file name,
/// `Some(None)` when the stem is not valid text.
pub uninterp spec fn file_stem_of(path: Seq<char>) -> Option<Option<Seq<char>>>;

/// A non-empty name of ASCII letters, digits, `-` and `_` only: no directory
/// separator, no drive prefix and no extension.
pub open spec fn is_plain_name(s: Seq<char>) -> bool {
    &&& s.len() > 0
    &&& forall|i: int|
        0 <= i < s.len() ==> {
            let c = #[trigger] s[i];
            ('a' <= c <= 'z') || ('A' <= c <= 'Z') || ('0' <= c <= '9') || c == '-' || c == '_'
        }
}

pub open spec fn stem_view(r: Option<Option<String>>) -> Option<Option<Seq<char>>> {
    match r {
        None => None,
        Some(None) => Some(None),
        Some(Some(s)) => Some(Some(s@)),
    }
}

/// Relies on `std::path::Path::file_stem`: its result depends on the path
/// alone, and its documentation gives that a file name without an embedded
/// `.` is its own stem (a plain name is a path of one such component). The
/// stem is turned back into text by `OsStr::to_str`.
#[verifier::external_body]
fn path_file_stem(path: &str) -> (r: Option<Option<String>>)
    ensures
        stem_view(r) == file_stem_of(path@),
        is_plain_name(path@) ==> stem_view(r) == Some(Some(path@)),
{
    match std::path::Path::new(path).file_stem() {
        None => None,
        Some(stem) => Some(stem.to_str().map(String::from)),
    }
}

/// The stem of a program path: the file name without its directory and its
/// extension.
pub fn program_stem(path: &str) -> (r: Result<String, DetectError>)
    ensures
        match file_stem_of(path@) {
            None => r == Err::<String, DetectError>(DetectError::MissingStem),
            Some(None) => r == Err::<String, DetectError>(DetectError::Encoding),
            Some(Some(stem)) => r is Ok && r->Ok_0@ == stem,
        },
        is_plain_name(path@) ==> r is Ok && r->Ok_0@ == path@,
{
    match path_file_stem(path) {
        None => Err(DetectError::MissingStem),
        Some(None) => Err(DetectError::Encoding),
        Some(Some(stem)) => Ok(stem),
    }
}

/// The views of an argument vector's tokens.
pub open spec fn arg_views(args: Seq<String>) -> Seq<Seq<char>> {
    args.map_values(|s: String| s@)
}

/// The name under which the host tool launches its plugin `name`.
pub open spec fn plugin_file_name(host: Seq<char>, name: Seq<char>) -> Seq<char> {
    host + "-"@ + name
}

/// The invocation mode of a process with argument vector `args`, for a host
/// tool named `host`.
pub open spec fn detect_spec(args: Seq<Seq<char>>, host: Seq<char>) -> Result<
    InvocationMode,
    DetectError,
> {
    if args.len() < 2 {
        Ok(InvocationMode::Direct)
    } else {
        match file_stem_of(args[0]) {
            None => Err(DetectError::MissingStem),
            Some(None) => Err(DetectError::Encoding),
            Some(Some(stem)) => if stem == plugin_file_name(host, args[1]) {
                Ok(InvocationMode::ViaHostPlugin)
            } else {
                Ok(InvocationMode::Direct)
            },
        }
    }
}

/// Decides whether the process was launched directly or dispatched by the host
/// tool `host`, which runs its plugin `name` from an executable whose stem is
/// `host-name` and passes `name` as the second token.
pub fn detect_invocation_mode(args: &Vec<String>, host: &str) -> (r: Result<
    InvocationMode,
    DetectError,
>)
    ensures
        r == detect_spec(arg_views(args@), host@),
        args.len() >= 2 && is_plain_name(args[0]@) ==> r == Ok::<InvocationMode, DetectError>(
            if args[0]@ == plugin_file_name(host@, args[1]@) {
                InvocationMode::ViaHostPlugin
            } else {
                InvocationMode::Direct
            },
        ),
{
    broadcast use vstd::slice::axiom_slice_get_usize;

    if args.len() < 2 {
        return Ok(InvocationMode::Direct);
    }
    let stem = match program_stem(args[0].as_str()) {
        Ok(stem) => stem,
        Err(e) => return Err(e),
    };
    let name = match args.as_slice().get(1) {
        Some(name) => name,
        None => return Err(DetectError::MissingArgument),
    };
    let expected = String::from_str(host).concat("-").concat(name.as_str());
    assert(expected@ == plugin_file_name(host@, args[1]@));
    if stem == expected {
        Ok(InvocationMode::ViaHostPlugin)
    } else {
        Ok(InvocationMode::Direct)
    }
}

/// An argument vector with fewer than two tokens always means a direct launch.
pub proof fn lemma_short_args_direct(args: Seq<Seq<char>>, host: Seq<char>)
    requires
        args.len() < 2,
    ensures
        detect_spec(args, host) == Ok::<InvocationMode, DetectError>(InvocationMode::Direct),
{
}

/// With two or more tokens and a readable program stem, the mode is plugin
/// mode exactly when the stem is the host's name, a hyphen and the second
/// token; otherwise it is a direct launch.
pub proof fn lemma_plugin_iff_stem_matches(args: Seq<Seq<char>>, host: Seq<char>, stem: Seq<char>)
    requires
        args.len() >= 2,
        file_stem_of(args[0]) == Some(Some(stem)),
    ensures
        stem == plugin_file_name(host, args[1]) ==> detect_spec(args, host) == Ok::<
            InvocationMode,
            DetectError,
        >(InvocationMode::ViaHostPlugin),
        stem != plugin_file_name(host, args[1]) ==> detect_spec(args, host) == Ok::<
            InvocationMode,
            DetectError,
        >(InvocationMode::Direct),
{
}

/// Detection reads nothing but the first two tokens: two argument vectors that
/// agree on them (in particular, one vector read twice) give the same outcome.
pub proof fn lemma_detection_repeatable(a: Seq<Seq<char>>, b: Seq<Seq<char>>, host: Seq<char>)
    requires
        (a.len() < 2 && b.len() < 2) || (a.len() >= 2 && b.len() >= 2 && a[0] == b[0] && a[1]
            == b[1]),
    ensures
        detect_spec(a, host) == detect_spec(b, host),
{
}

} // verus!
