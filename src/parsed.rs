use vstd::prelude::*;
use vstd::string::StringExecFns;

verus! {

/// The subcommand selected on the command line, with its bound values.
pub enum Action {
    /// `add [NAME]`.
    Add { name: Option<String> },
    /// `environment`.
    Environment,
}

/// What the argument parser bound, after the global option's fallback.
pub struct ParsedArguments {
    /// The path of the host tool's executable, if known.
    pub cargo_bin: Option<String>,
    pub action: Action,
}

pub open spec fn opt_view(o: Option<String>) -> Option<Seq<char>> {
    match o {
        None => None,
        Some(s) => Some(s@),
    }
}

/// The value of an option given explicitly, else the value of its
/// environment variable, else none.
pub open spec fn resolve_spec(explicit: Option<Seq<char>>, env_value: Option<Seq<char>>) -> Option<
    Seq<char>,
> {
    match explicit {
        Some(v) => Some(v),
        None => env_value,
    }
}

/// The value of the global path option: the explicit one wins over the
/// environment variable's.
pub fn resolve_cargo_bin(explicit: Option<String>, env_value: Option<String>) -> (r: Option<String>)
    ensures
        opt_view(r) == resolve_spec(opt_view(explicit), opt_view(env_value)),
{
    match explicit {
        Some(v) => Some(v),
        None => env_value,
    }
}

/// Whether `subcommand` names one of the example subcommands.
pub open spec fn is_known_subcommand(subcommand: Seq<char>) -> bool {
    subcommand == "add"@ || subcommand == "environment"@
}

/// The action for a matched subcommand; `None` for a name outside the schema.
pub fn parse_action(subcommand: &str, name: Option<String>) -> (r: Option<Action>)
    ensures
        subcommand@ == "add"@ ==> (r matches Some(Action::Add { name: n }) && opt_view(n)
            == opt_view(name)),
        subcommand@ == "environment"@ ==> (r matches Some(Action::Environment)),
        !is_known_subcommand(subcommand@) ==> r is None,
{
    proof {
        reveal_strlit("add");
        reveal_strlit("environment");
        assert("add"@.len() != "environment"@.len());
    }
    let s = String::from_str(subcommand);
    if s == String::from_str("add") {
        Some(Action::Add { name })
    } else if s == String::from_str("environment") {
        Some(Action::Environment)
    } else {
        None
    }
}

pub open spec fn report_spec(cargo_bin: Option<Seq<char>>, action: Action) -> Seq<char> {
    match action {
        Action::Add { name } => match name {
            Some(n) => "add: "@ + n@,
            None => "add: no name given"@,
        },
        Action::Environment => match cargo_bin {
            Some(p) => "cargo-bin: "@ + p,
            None => "cargo-bin: not specified"@,
        },
    }
}

impl ParsedArguments {
    /// Combines what the parser matched: the subcommand's name, its positional
    /// value, the explicit global option and the environment variable's value.
    /// `None` when the subcommand is not one of the schema's.
    pub fn from_matches(
        subcommand: &str,
        name: Option<String>,
        explicit_bin: Option<String>,
        env_bin: Option<String>,
    ) -> (r: Option<ParsedArguments>)
        ensures
            is_known_subcommand(subcommand@) <==> r is Some,
            r matches Some(p) ==> opt_view(p.cargo_bin) == resolve_spec(
                opt_view(explicit_bin),
                opt_view(env_bin),
            ),
            subcommand@ == "add"@ ==> (r matches Some(p) && (p.action matches Action::Add { name: n }
                && opt_view(n) == opt_view(name))),
            subcommand@ == "environment"@ ==> (r matches Some(p) && (p.action matches Action::Environment)),
    {
        match parse_action(subcommand, name) {
            None => None,
            Some(action) => Some(
                ParsedArguments { cargo_bin: resolve_cargo_bin(explicit_bin, env_bin), action },
            ),
        }
    }

    /// The line printed for the selected subcommand.
    pub fn report(&self) -> (r: String)
        ensures
            r@ == report_spec(opt_view(self.cargo_bin), self.action),
    {
        match &self.action {
            Action::Add { name } => match name {
                Some(n) => String::from_str("add: ").concat(n.as_str()),
                None => String::from_str("add: no name given"),
            },
            Action::Environment => match &self.cargo_bin {
                Some(p) => String::from_str("cargo-bin: ").concat(p.as_str()),
                None => String::from_str("cargo-bin: not specified"),
            },
        }
    }
}

} // verus!
