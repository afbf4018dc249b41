use cargo_subcommand::mode::{detect_invocation_mode, program_stem, DetectError, InvocationMode};

fn args(tokens: &[&str]) -> Vec<String> {
    tokens.iter().map(|t| t.to_string()).collect()
}

#[test]
fn single_token_is_direct() {
    assert_eq!(detect_invocation_mode(&args(&["prog"]), "hostprefix"), Ok(InvocationMode::Direct));
}

#[test]
fn empty_vector_is_direct() {
    assert_eq!(detect_invocation_mode(&args(&[]), "hostprefix"), Ok(InvocationMode::Direct));
}

#[test]
fn matching_stem_is_plugin() {
    let v = args(&["hostprefix-mytool", "mytool", "environment"]);
    assert_eq!(detect_invocation_mode(&v, "hostprefix"), Ok(InvocationMode::ViaHostPlugin));
}

#[test]
fn matching_stem_with_path_and_extension_is_plugin() {
    let v = args(&["/usr/local/bin/hostprefix-mytool.exe", "mytool"]);
    assert_eq!(detect_invocation_mode(&v, "hostprefix"), Ok(InvocationMode::ViaHostPlugin));
}

#[test]
fn other_stem_is_direct() {
    let v = args(&["prog", "add", "widget"]);
    assert_eq!(detect_invocation_mode(&v, "hostprefix"), Ok(InvocationMode::Direct));
    let w = args(&["hostprefix-mytool", "othertool"]);
    assert_eq!(detect_invocation_mode(&w, "hostprefix"), Ok(InvocationMode::Direct));
}

#[test]
fn host_name_is_part_of_the_match() {
    let v = args(&["cargo-mytool", "mytool"]);
    assert_eq!(detect_invocation_mode(&v, "cargo"), Ok(InvocationMode::ViaHostPlugin));
    assert_eq!(detect_invocation_mode(&v, "hostprefix"), Ok(InvocationMode::Direct));
}

#[test]
fn detection_is_repeatable() {
    let v = args(&["hostprefix-mytool", "mytool"]);
    let first = detect_invocation_mode(&v, "hostprefix");
    let second = detect_invocation_mode(&v, "hostprefix");
    assert_eq!(first, second);
    assert_eq!(first, Ok(InvocationMode::ViaHostPlugin));
}

#[test]
fn missing_stem_is_an_error() {
    assert_eq!(detect_invocation_mode(&args(&["", "mytool"]), "hostprefix"), Err(DetectError::MissingStem));
    assert_eq!(detect_invocation_mode(&args(&["..", "mytool"]), "hostprefix"), Err(DetectError::MissingStem));
}

#[test]
fn missing_stem_ignored_for_short_vector() {
    assert_eq!(detect_invocation_mode(&args(&[""]), "hostprefix"), Ok(InvocationMode::Direct));
}

#[test]
fn plain_name_is_its_own_stem() {
    assert_eq!(program_stem("prog"), Ok("prog".to_string()));
}

#[test]
fn stem_drops_directory_and_extension() {
    assert_eq!(program_stem("/usr/bin/cargo-foo.exe"), Ok("cargo-foo".to_string()));
    assert_eq!(program_stem("archive.tar.gz"), Ok("archive.tar".to_string()));
    assert_eq!(program_stem(".hidden"), Ok(".hidden".to_string()));
}

#[test]
fn error_messages() {
    assert_eq!(DetectError::MissingStem.message(), "Failed to read subcommand filename!");
    assert_eq!(DetectError::Encoding.message(), "Failed to convert platform string to UTF-8!");
    assert_eq!(
        DetectError::MissingArgument.message(),
        "Failed to read subcommand name from arguments!"
    );
    assert_eq!(
        DetectError::SchemaConstruction.message(),
        "Failed to read subcommand name from arguments!"
    );
}
