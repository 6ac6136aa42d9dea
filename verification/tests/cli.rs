use rusty::cli::{CompileParameters, FormatOption, DEFAULT_FORMAT};

/// The parameters of a command line with the given input files, `--output`
/// and format flags (`ir`, `shared`, `pic`, `static`, `bc`, `c`).
fn parameters(input: &[&str], output: Option<&str>, flags: &[&str]) -> CompileParameters {
    CompileParameters {
        output: output.map(|it| it.to_string()),
        output_ir: flags.contains(&"ir"),
        output_shared_obj: flags.contains(&"shared"),
        output_pic_obj: flags.contains(&"pic"),
        output_obj_code: flags.contains(&"static"),
        output_bit_code: flags.contains(&"bc"),
        skip_linking: flags.contains(&"c"),
        target: None,
        encoding: None,
        input: input.iter().map(|it| it.to_string()).collect(),
        library_pathes: vec![],
        libraries: vec![],
        sysroot: None,
    }
}

#[test]
fn valid_output_files() {
    //short -o
    let p = parameters(&["input.st"], Some("myout.out"), &["ir"]);
    assert_eq!(p.output_name().unwrap(), "myout.out".to_string());

    //long --output
    let p = parameters(&["input.st"], Some("myout2.out"), &["ir"]);
    assert_eq!(p.output_name().unwrap(), "myout2.out".to_string());
}

#[test]
fn test_default_output_names() {
    let p = parameters(&["alpha.st"], None, &["ir"]);
    assert_eq!(p.output_name().unwrap(), "alpha.ir".to_string());

    let p = parameters(&["bravo"], None, &["shared"]);
    assert_eq!(p.output_name().unwrap(), "bravo.so".to_string());

    let p = parameters(&["examples/charlie.st"], None, &["pic"]);
    assert_eq!(p.output_name().unwrap(), "charlie.so".to_string());

    let p = parameters(&["examples/test/delta.st"], None, &["static", "c"]);
    assert_eq!(p.output_name().unwrap(), "delta.o".to_string());

    let p = parameters(&["examples/test/echo"], None, &["bc"]);
    assert_eq!(p.output_name().unwrap(), "echo.bc".to_string());

    let p = parameters(&["examples/test/echo.st"], None, &[]);
    assert_eq!(p.output_name().unwrap(), "echo".to_string());
}

#[test]
fn test_default_format() {
    let p = parameters(&["alpha.st"], None, &["ir"]);
    assert_eq!(p.output_format_or_default(), FormatOption::IR);

    let p = parameters(&["bravo"], None, &["shared"]);
    assert_eq!(p.output_format_or_default(), FormatOption::Shared);

    let p = parameters(&["examples/charlie.st"], None, &["pic"]);
    assert_eq!(p.output_format_or_default(), FormatOption::PIC);

    let p = parameters(&["examples/test/delta.st"], None, &["static"]);
    assert_eq!(p.output_format_or_default(), FormatOption::Static);

    let p = parameters(&["examples/test/echo"], None, &["bc"]);
    assert_eq!(p.output_format_or_default(), FormatOption::Bitcode);

    let p = parameters(&["examples/test/echo.st"], None, &[]);
    assert_eq!(p.output_format_or_default(), DEFAULT_FORMAT);
}

#[test]
fn output_format_is_none_without_a_flag() {
    assert_eq!(parameters(&["a.st"], None, &[]).output_format(), None);
    assert_eq!(parameters(&["a.st"], None, &["pic"]).output_format(), Some(FormatOption::PIC));
    // bitcode wins over the other flags, then IR, PIC, shared and static
    assert_eq!(
        parameters(&["a.st"], None, &["ir", "bc"]).output_format(),
        Some(FormatOption::Bitcode)
    );
    assert_eq!(
        parameters(&["a.st"], None, &["static", "shared"]).output_format(),
        Some(FormatOption::Shared)
    );
}

#[test]
fn output_name_without_input_is_out() {
    let p = parameters(&[], None, &["ir"]);
    assert_eq!(p.output_name().unwrap(), "out.ir".to_string());
    let p = parameters(&[], None, &[]);
    assert_eq!(p.output_name().unwrap(), "out".to_string());
}

#[test]
fn output_name_keeps_inner_dots_of_the_stem() {
    let p = parameters(&["lib/a.b.st", "other.st"], None, &["shared"]);
    assert_eq!(p.output_name().unwrap(), "a.b.so".to_string());
    let p = parameters(&[".hidden"], None, &["bc"]);
    assert_eq!(p.output_name().unwrap(), ".hidden.bc".to_string());
}

#[test]
fn output_name_with_a_given_stem() {
    let p = parameters(&["x.st"], None, &["ir"]);
    assert_eq!(p.output_name_with_stem(Some("stem".to_string())), "stem.ir".to_string());
    assert_eq!(p.output_name_with_stem(None), "out.ir".to_string());
    let p = parameters(&["x.st"], Some("given"), &["ir"]);
    assert_eq!(p.output_name_with_stem(Some("stem".to_string())), "given".to_string());
}

#[test]
fn output_name_of_paths_with_separators() {
    assert_eq!(parameters(&["/tmp/a.st"], None, &["ir"]).output_name().unwrap(), "a.ir".to_string());
    assert_eq!(parameters(&["./a.st"], None, &["bc"]).output_name().unwrap(), "a.bc".to_string());
    assert_eq!(parameters(&["src/"], None, &["ir"]).output_name().unwrap(), "src.ir".to_string());
    assert_eq!(parameters(&["a/b.c/."], None, &["shared"]).output_name().unwrap(), "b.so".to_string());
    assert_eq!(parameters(&["lib//x.st"], None, &["ir"]).output_name().unwrap(), "x.ir".to_string());
    // no file name: the default name
    assert_eq!(parameters(&["a/.."], None, &["ir"]).output_name().unwrap(), "out.ir".to_string());
    assert_eq!(parameters(&["/"], None, &["ir"]).output_name().unwrap(), "out.ir".to_string());
    assert_eq!(parameters(&["."], None, &[]).output_name().unwrap(), "out".to_string());
    // stems of names with dots
    assert_eq!(parameters(&["..a"], None, &["ir"]).output_name().unwrap(), "..ir".to_string());
    assert_eq!(parameters(&["..."], None, &["ir"]).output_name().unwrap(), "...ir".to_string());
    assert_eq!(parameters(&["a."], None, &["ir"]).output_name().unwrap(), "a.ir".to_string());
}
