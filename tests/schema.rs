use cargo_subcommand::mode::{DetectError, InvocationMode};
use cargo_subcommand::schema::{build_schema, construct_schema, plugin_name, CommandSchema};

fn args(tokens: &[&str]) -> Vec<String> {
    tokens.iter().map(|t| t.to_string()).collect()
}

fn flag_names(s: &CommandSchema) -> Vec<(String, bool)> {
    s.flags.iter().map(|f| (f.long.clone(), f.required)).collect()
}

fn subcommand_names(s: &CommandSchema) -> Vec<String> {
    s.subcommands.iter().map(|c| c.name.clone()).collect()
}

#[test]
fn direct_schema_shape() {
    let s = construct_schema(&args(&["prog"]), "hostprefix").unwrap();
    assert!(s.wrapper.is_none());
    assert!(s.subcommand_required);
    assert!(s.arg_required_else_help);
    assert_eq!(s.name, "Cargo Subcommand");
    assert_eq!(subcommand_names(&s), vec!["add".to_string(), "environment".to_string()]);
    assert_eq!(flag_names(&s), vec![("cargo-bin".to_string(), false)]);
    let flag = &s.flags[0];
    assert_eq!(flag.env_var, "CARGO");
    assert!(flag.global);
    assert_eq!(s.subcommands[0].positionals.len(), 1);
    assert_eq!(s.subcommands[0].positionals[0].value_name, "NAME");
    assert!(s.subcommands[1].positionals.is_empty());
}

#[test]
fn plugin_schema_has_hidden_wrapper() {
    let v = args(&["hostprefix-mytool", "mytool", "environment"]);
    let s = construct_schema(&v, "hostprefix").unwrap();
    let w = s.wrapper.as_ref().unwrap();
    assert_eq!(w.node_name, "mytool");
    assert_eq!(w.host_bin, "hostprefix");
    assert!(s.subcommand_required);
}

#[test]
fn schema_is_deterministic() {
    let v = args(&["prog", "add", "widget"]);
    let a = build_schema(InvocationMode::Direct, &v, "hostprefix").unwrap();
    let b = build_schema(InvocationMode::Direct, &v, "hostprefix").unwrap();
    assert_eq!(subcommand_names(&a), subcommand_names(&b));
    assert_eq!(flag_names(&a), flag_names(&b));
    let p = build_schema(InvocationMode::ViaHostPlugin, &v, "hostprefix").unwrap();
    assert_eq!(subcommand_names(&a), subcommand_names(&p));
    assert_eq!(flag_names(&a), flag_names(&p));
    assert_eq!(p.wrapper.unwrap().node_name, "add");
}

#[test]
fn plugin_schema_without_name_fails() {
    let r = build_schema(InvocationMode::ViaHostPlugin, &args(&["prog"]), "hostprefix");
    assert!(matches!(r, Err(DetectError::SchemaConstruction)));
}

#[test]
fn construct_reports_detection_error() {
    let r = construct_schema(&args(&["", "mytool"]), "hostprefix");
    assert!(matches!(r, Err(DetectError::MissingStem)));
}

#[test]
fn plugin_name_is_second_token() {
    assert_eq!(plugin_name(&args(&["hostprefix-x", "x", "add"])), Ok("x".to_string()));
    assert_eq!(plugin_name(&args(&["prog"])), Err(DetectError::SchemaConstruction));
}
