use vstd::prelude::*;
use vstd::string::StringExecFns;
use crate::mode::{
    arg_views,
    detect_invocation_mode,
    detect_spec,
    DetectError,
    InvocationMode,
};

verus! {

/// The global option that carries the path of the host tool's own executable.
pub struct FlagDef {
    pub id: String,
    pub long: String,
    pub help: String,
    pub value_name: String,
    /// The environment variable that supplies the value when the option is not given.
    pub env_var: String,
    pub required: bool,
    pub global: bool,
}

pub struct FlagModel {
    pub id: Seq<char>,
    pub long: Seq<char>,
    pub help: Seq<char>,
    pub value_name: Seq<char>,
    pub env_var: Seq<char>,
    pub required: bool,
    pub global: bool,
}

impl View for FlagDef {
    type V = FlagModel;

    open spec fn view(&self) -> FlagModel {
        FlagModel {
            id: self.id@,
            long: self.long@,
            help: self.help@,
            value_name: self.value_name@,
            env_var: self.env_var@,
            required: self.required,
            global: self.global,
        }
    }
}

/// A positional argument of a subcommand.
pub struct PositionalDef {
    pub id: String,
    pub value_name: String,
}

pub struct PositionalModel {
    pub id: Seq<char>,
    pub value_name: Seq<char>,
}

impl View for PositionalDef {
    type V = PositionalModel;

    open spec fn view(&self) -> PositionalModel {
        PositionalModel { id: self.id@, value_name: self.value_name@ }
    }
}

/// One of the example subcommands.
pub struct SubcommandDef {
    pub name: String,
    pub about: String,
    pub positionals: Vec<PositionalDef>,
}

pub struct SubcommandModel {
    pub name: Seq<char>,
    pub about: Seq<char>,
    pub positionals: Seq<PositionalModel>,
}

impl View for SubcommandDef {
    type V = SubcommandModel;

    open spec fn view(&self) -> SubcommandModel {
        SubcommandModel {
            name: self.name@,
            about: self.about@,
            positionals: self.positionals@.map_values(|p: PositionalDef| p@),
        }
    }
}

/// The hidden node that consumes the plugin name the host tool passes.
pub struct PluginWrapper {
    /// The name the host tool is run under, shown in usage lines.
    pub host_bin: String,
    /// The plugin name; equal to the token the host passes after the program path.
    pub node_name: String,
}

pub struct PluginWrapperModel {
    pub host_bin: Seq<char>,
    pub node_name: Seq<char>,
}

impl View for PluginWrapper {
    type V = PluginWrapperModel;

    open spec fn view(&self) -> PluginWrapperModel {
        PluginWrapperModel { host_bin: self.host_bin@, node_name: self.node_name@ }
    }
}

/// The tree of commands and options that the argument parser matches.
///
/// Without a wrapper the top-level command owns the flags and the subcommands;
/// with one, the top-level command has the wrapper as its only (hidden)
/// subcommand, and the wrapper owns them.
pub struct CommandSchema {
    pub name: String,
    pub about: String,
    pub after_help: String,
    pub wrapper: Option<PluginWrapper>,
    pub flags: Vec<FlagDef>,
    pub subcommands: Vec<SubcommandDef>,
    /// Whether the node owning the subcommands demands one of them.
    pub subcommand_required: bool,
    /// Whether an empty argument list shows the usage help.
    pub arg_required_else_help: bool,
}

pub struct SchemaModel {
    pub name: Seq<char>,
    pub about: Seq<char>,
    pub after_help: Seq<char>,
    pub wrapper: Option<PluginWrapperModel>,
    pub flags: Seq<FlagModel>,
    pub subcommands: Seq<SubcommandModel>,
    pub subcommand_required: bool,
    pub arg_required_else_help: bool,
}

impl View for CommandSchema {
    type V = SchemaModel;

    open spec fn view(&self) -> SchemaModel {
        SchemaModel {
            name: self.name@,
            about: self.about@,
            after_help: self.after_help@,
            wrapper: match self.wrapper {
                None => None,
                Some(w) => Some(w@),
            },
            flags: self.flags@.map_values(|f: FlagDef| f@),
            subcommands: self.subcommands@.map_values(|s: SubcommandDef| s@),
            subcommand_required: self.subcommand_required,
            arg_required_else_help: self.arg_required_else_help,
        }
    }
}

pub open spec fn cargo_bin_flag_model() -> FlagModel {
    FlagModel {
        id: "cargo-bin"@,
        long: "cargo-bin"@,
        help: "Cargo binary used to invoke this subcommand"@,
        value_name: "Cargo binary path"@,
        env_var: "CARGO"@,
        required: false,
        global: true,
    }
}

pub open spec fn add_model() -> SubcommandModel {
    SubcommandModel {
        name: "add"@,
        about: "Adds files to myapp"@,
        positionals: seq![PositionalModel { id: "name"@, value_name: "NAME"@ }],
    }
}

pub open spec fn environment_model() -> SubcommandModel {
    SubcommandModel {
        name: "environment"@,
        about: "Display environment information"@,
        positionals: seq![],
    }
}

/// The schema for a mode; `wrapper` is the hidden plugin node, if any.
pub open spec fn schema_model(wrapper: Option<PluginWrapperModel>) -> SchemaModel {
    SchemaModel {
        name: "Cargo Subcommand"@,
        about: "This is a template for Cargo subcommands"@,
        after_help: "Longer explanation to appear after the options when displaying the help information from --help or -h"@,
        wrapper,
        flags: seq![cargo_bin_flag_model()],
        subcommands: seq![add_model(), environment_model()],
        subcommand_required: true,
        arg_required_else_help: true,
    }
}

/// The schema that `build_schema` gives for a mode, an argument vector and a
/// host tool name.
pub open spec fn build_schema_spec(mode: InvocationMode, args: Seq<Seq<char>>, host: Seq<char>) -> Result<
    SchemaModel,
    DetectError,
> {
    match mode {
        InvocationMode::Direct => Ok(schema_model(None)),
        InvocationMode::ViaHostPlugin => if args.len() < 2 {
            Err(DetectError::SchemaConstruction)
        } else {
            Ok(schema_model(Some(PluginWrapperModel { host_bin: host, node_name: args[1] })))
        },
    }
}

/// The plugin name the host tool passed: the token after the program path.
pub fn plugin_name(args: &Vec<String>) -> (r: Result<String, DetectError>)
    ensures
        args.len() >= 2 ==> r is Ok && r->Ok_0@ == args[1]@,
        args.len() < 2 ==> r == Err::<String, DetectError>(DetectError::SchemaConstruction),
{
    if args.len() < 2 {
        Err(DetectError::SchemaConstruction)
    } else {
        Ok(args[1].clone())
    }
}

fn cargo_bin_flag() -> (r: FlagDef)
    ensures
        r@ == cargo_bin_flag_model(),
{
    FlagDef {
        id: String::from_str("cargo-bin"),
        long: String::from_str("cargo-bin"),
        help: String::from_str("Cargo binary used to invoke this subcommand"),
        value_name: String::from_str("Cargo binary path"),
        env_var: String::from_str("CARGO"),
        required: false,
        global: true,
    }
}

fn example_subcommands() -> (r: Vec<SubcommandDef>)
    ensures
        r@.map_values(|s: SubcommandDef| s@) == seq![add_model(), environment_model()],
{
    let add = SubcommandDef {
        name: String::from_str("add"),
        about: String::from_str("Adds files to myapp"),
        positionals: vec![
            PositionalDef { id: String::from_str("name"), value_name: String::from_str("NAME") },
        ],
    };
    assert(add@.positionals =~= add_model().positionals);
    let environment = SubcommandDef {
        name: String::from_str("environment"),
        about: String::from_str("Display environment information"),
        positionals: Vec::new(),
    };
    assert(environment@.positionals =~= environment_model().positionals);
    let r = vec![add, environment];
    assert(r@.map_values(|s: SubcommandDef| s@) =~= seq![add_model(), environment_model()]);
    r
}

/// Builds the command schema for a mode. In plugin mode the subcommands sit
/// under a hidden node named after the plugin name in `args`.
pub fn build_schema(mode: InvocationMode, args: &Vec<String>, host: &str) -> (r: Result<
    CommandSchema,
    DetectError,
>)
    ensures
        match build_schema_spec(mode, arg_views(args@), host@) {
            Ok(m) => r is Ok && r->Ok_0@ == m,
            Err(e) => r == Err::<CommandSchema, DetectError>(e),
        },
{
    let wrapper = match mode {
        InvocationMode::Direct => None,
        InvocationMode::ViaHostPlugin => {
            let node_name = match plugin_name(args) {
                Ok(n) => n,
                Err(e) => return Err(e),
            };
            Some(PluginWrapper { host_bin: String::from_str(host), node_name })
        },
    };
    let flags = vec![cargo_bin_flag()];
    assert(flags@.map_values(|f: FlagDef| f@) =~= seq![cargo_bin_flag_model()]);
    let r = CommandSchema {
        name: String::from_str("Cargo Subcommand"),
        about: String::from_str("This is a template for Cargo subcommands"),
        after_help: String::from_str(
            "Longer explanation to appear after the options when displaying the help information from --help or -h",
        ),
        wrapper,
        flags,
        subcommands: example_subcommands(),
        subcommand_required: true,
        arg_required_else_help: true,
    };
    assert(r@.subcommands =~= schema_model(None).subcommands);
    Ok(r)
}

/// Every schema that can be built has the same options, the same subcommands
/// with the same arguments, and the same required markings, whatever the
/// mode; the only difference is the hidden plugin node, present exactly in
/// plugin mode.
pub proof fn lemma_schema_shape_fixed(
    m1: InvocationMode,
    a1: Seq<Seq<char>>,
    h1: Seq<char>,
    m2: InvocationMode,
    a2: Seq<Seq<char>>,
    h2: Seq<char>,
)
    requires
        build_schema_spec(m1, a1, h1) is Ok,
        build_schema_spec(m2, a2, h2) is Ok,
    ensures
        ({
            let s1 = build_schema_spec(m1, a1, h1)->Ok_0;
            let s2 = build_schema_spec(m2, a2, h2)->Ok_0;
            &&& s1.flags == s2.flags
            &&& s1.subcommands == s2.subcommands
            &&& s1.subcommand_required == s2.subcommand_required
            &&& s1.arg_required_else_help == s2.arg_required_else_help
            &&& s1.wrapper is Some <==> m1 == InvocationMode::ViaHostPlugin
            &&& (m1 == m2 && a1 == a2 && h1 == h2 ==> s1 == s2)
        }),
{
}

/// Detects the invocation mode of `args` and builds the schema for it.
pub fn construct_schema(args: &Vec<String>, host: &str) -> (r: Result<CommandSchema, DetectError>)
    ensures
        match detect_spec(arg_views(args@), host@) {
            Err(e) => r == Err::<CommandSchema, DetectError>(e),
            Ok(mode) => match build_schema_spec(mode, arg_views(args@), host@) {
                Ok(m) => r is Ok && r->Ok_0@ == m,
                Err(e) => r == Err::<CommandSchema, DetectError>(e),
            },
        },
{
    let mode = match detect_invocation_mode(args, host) {
        Ok(mode) => mode,
        Err(e) => return Err(e),
    };
    build_schema(mode, args, host)
}

} // verus!
