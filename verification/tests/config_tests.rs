use rustfmt_core::output::document_from_entries;
use rustfmt_core::config::{Config, PartialConfig, PartialEntry};
use rustfmt_core::options::{option_spec, OptionSpec, OptionValue};

fn choice(s: &str) -> OptionValue {
    OptionValue::Choice(s.to_string())
}

fn names(items: &[&str]) -> Vec<String> {
    items.iter().map(|s| s.to_string()).collect()
}

fn mock_options() -> Vec<OptionSpec> {
    vec![
        option_spec("max_width", "<unsigned integer>", OptionValue::Usize(100), true, "Maximum width of each line", vec![]),
        option_spec(
            "use_small_heuristics",
            "[Off|Max|Default]",
            choice("Default"),
            true,
            "Whether to use different formatting for items and expressions if they satisfy a heuristic notion of 'small'.",
            names(&["Off", "Max", "Default"]),
        ),
        option_spec("license_template_path", "<string>", OptionValue::Text(String::new()), false, "Beginning of file must match license template", vec![]),
        option_spec("required_version", "<string>", OptionValue::Text("1.4.2".to_string()), false, "Require a specific version of rustfmt.", vec![]),
        option_spec("ignore", "[<string>,..]", OptionValue::Paths(vec![]), false, "Skip formatting the specified files and directories.", vec![]),
        option_spec("verbose", "[Verbose|Normal|Quiet]", choice("Normal"), false, "How much to information to emit to the user", names(&["Verbose", "Normal", "Quiet"])),
        option_spec("file_lines", "<json>", OptionValue::Internal, false, "Lines to format; this is not supported in rustfmt.toml, and can only be specified via the --file-lines option", vec![]),
        option_spec("width_heuristics", "", OptionValue::Internal, false, "'small' heuristic values", vec![]),
        option_spec("stable_option", "<boolean>", OptionValue::Bool(false), true, "A stable option", vec![]),
        option_spec("unstable_option", "<boolean>", OptionValue::Bool(false), false, "An unstable option", vec![]),
    ]
}

fn entries(items: Vec<(&str, OptionValue)>) -> PartialConfig {
    PartialConfig {
        entries: items
            .into_iter()
            .map(|(n, v)| PartialEntry { name: n.to_string(), value: Some(v) })
            .collect(),
    }
}

#[test]
fn test_config_set() {
    let mut config = Config::default();
    assert!(config.set_option("verbose", choice("Quiet")));
    assert_eq!(config.option("verbose"), Some(choice("Quiet")));
    assert!(config.set_option("verbose", choice("Normal")));
    assert_eq!(config.option("verbose"), Some(choice("Normal")));
}

#[test]
fn test_config_used_to_toml() {
    let mut config = Config::default();

    let merge_derives = match config.option("merge_derives") {
        Some(OptionValue::Bool(b)) => b,
        other => panic!("unexpected value {:?}", other),
    };
    let skip_children = match config.option("skip_children") {
        Some(OptionValue::Bool(b)) => b,
        other => panic!("unexpected value {:?}", other),
    };

    let used_options = config.used_options();
    let toml = used_options.to_toml().unwrap();
    assert_eq!(
        toml,
        format!(
            "merge_derives = {}\nskip_children = {}\n",
            merge_derives, skip_children,
        )
    );
}

#[test]
fn test_was_set() {
    let decoded = entries(vec![("hard_tabs", OptionValue::Bool(true))]);
    let (config, _, _) = Config::from_toml("hard_tabs = true", Ok(decoded), false).unwrap();

    assert_eq!(config.was_set("hard_tabs"), Some(true));
    assert_eq!(config.was_set("verbose"), Some(false));
}

#[test]
fn test_print_docs_exclude_unstable() {
    let config = Config::from_options(mock_options());
    let s = config.print_docs(false);

    assert_eq!(s.contains("stable_option"), true);
    assert_eq!(s.contains("unstable_option"), false);
    assert_eq!(s.contains("(unstable)"), false);
}

#[test]
fn test_print_docs_include_unstable() {
    let config = Config::from_options(mock_options());
    let s = config.print_docs(true);

    assert_eq!(s.contains("stable_option"), true);
    assert_eq!(s.contains("unstable_option"), true);
    assert_eq!(s.contains("(unstable)"), true);
}

#[test]
fn test_dump_default_config() {
    const DEFAULT_CONFIG: &str = r#"max_width = 100
hard_tabs = false
tab_spaces = 4
newline_style = "Auto"
use_small_heuristics = "Default"
indent_style = "Block"
wrap_comments = false
format_code_in_doc_comments = false
comment_width = 80
normalize_comments = false
normalize_doc_attributes = false
license_template_path = ""
format_strings = false
format_macro_matchers = false
format_macro_bodies = true
empty_item_single_line = true
struct_lit_single_line = true
fn_single_line = false
where_single_line = false
imports_indent = "Block"
imports_layout = "Mixed"
merge_imports = false
reorder_imports = true
reorder_modules = true
reorder_impl_items = false
type_punctuation_density = "Wide"
space_before_colon = false
space_after_colon = true
spaces_around_ranges = false
binop_separator = "Front"
remove_nested_parens = true
combine_control_expr = true
overflow_delimited_expr = false
struct_field_align_threshold = 0
enum_discrim_align_threshold = 0
match_arm_blocks = true
force_multiline_blocks = false
fn_args_layout = "Tall"
brace_style = "SameLineWhere"
control_brace_style = "AlwaysSameLine"
trailing_semicolon = true
trailing_comma = "Vertical"
match_block_trailing_comma = false
blank_lines_upper_bound = 1
blank_lines_lower_bound = 0
edition = "2015"
version = "One"
inline_attribute_width = 0
merge_derives = true
use_try_shorthand = false
use_field_init_shorthand = false
force_explicit_abi = true
condense_wildcard_suffixes = false
color = "Auto"
required_version = "1.4.2"
unstable_features = false
disable_all_formatting = false
skip_children = false
hide_parse_errors = false
error_on_line_overflow = false
error_on_unformatted = false
report_todo = "Never"
report_fixme = "Never"
ignore = []
emit_mode = "Files"
make_backup = false
"#;
    let toml = Config::default().all_options().to_toml().unwrap();
    assert_eq!(&toml, DEFAULT_CONFIG);
}

#[test]
fn set_then_read_gives_the_value_back() {
    let mut config = Config::default();
    assert!(config.set_option("max_width", OptionValue::Usize(80)));
    assert_eq!(config.option("max_width"), Some(OptionValue::Usize(80)));
    assert_eq!(config.option("tab_spaces"), Some(OptionValue::Usize(4)));
    // Setting in code is not setting from a file.
    assert_eq!(config.was_set("max_width"), Some(false));
}

#[test]
fn set_refuses_unknown_keys_and_wrong_values() {
    let mut config = Config::default();
    assert!(!config.set_option("no_such_option", OptionValue::Bool(true)));
    assert!(!config.set_option("max_width", OptionValue::Bool(true)));
    assert!(!config.set_option("newline_style", choice("Sideways")));
    assert_eq!(config.option("max_width"), Some(OptionValue::Usize(100)));
    assert_eq!(config.option("newline_style"), Some(choice("Auto")));
    assert_eq!(config.option("no_such_option"), None);
    assert_eq!(config.was_set("no_such_option"), None);
}

#[test]
fn unread_options_are_not_used() {
    let config = Config::default();
    assert_eq!(config.used_options().to_toml().unwrap(), "");
}

#[test]
fn command_line_options_are_not_written() {
    let mut config = Config::default();
    config.option("verbose");
    config.option("file_lines");
    config.option("width_heuristics");
    config.option("edition");
    assert_eq!(config.used_options().to_toml().unwrap(), "edition = \"2015\"\n");
}

#[test]
fn texts_and_paths_are_written_as_toml() {
    let mut config = Config::default();
    assert!(config.set_option("license_template_path", OptionValue::Text("a \"b\"".to_string())));
    assert!(config.set_option("ignore", OptionValue::Paths(vec!["src/a.rs".to_string(), "b".to_string()])));
    config.option("license_template_path");
    config.option("ignore");
    assert_eq!(
        config.used_options().to_toml().unwrap(),
        "license_template_path = \"a \\\"b\\\"\"\nignore = [\"src/a.rs\", \"b\"]\n"
    );
}

#[test]
fn valid_and_hidden_names() {
    let config = Config::default();
    assert!(config.is_valid_name("max_width"));
    assert!(config.is_valid_name("width_heuristics"));
    assert!(!config.is_valid_name("verbose_diff"));
    assert!(rustfmt_core::docs::is_hidden_option("verbose_diff"));
    assert!(rustfmt_core::docs::is_hidden_option("file_lines"));
    assert!(!rustfmt_core::docs::is_hidden_option("max_width"));
}

#[test]
fn docs_have_the_exact_layout() {
    let specs = vec![
        option_spec("ab", "<boolean>", OptionValue::Bool(true), true, "First.", vec![]),
        option_spec("abcd", "<string>", OptionValue::Text(String::new()), false, "Second.", vec![]),
        option_spec("paths", "[<string>,..]", OptionValue::Paths(vec!["x".to_string(), "y".to_string()]), true, "Third.", vec![]),
    ];
    let config = Config::from_options(specs);
    assert_eq!(
        config.print_docs(false),
        "Configuration Options:\n   ab <boolean> Default: true\n      First.\n\npaths [<string>,..] Default: [x, y]\n      Third.\n\n"
    );
    assert_eq!(
        config.print_docs(true),
        "Configuration Options:\n   ab <boolean> Default: true\n      First.\n\n abcd <string> Default: \"\" (unstable)\n      Second.\n\npaths [<string>,..] Default: [x, y]\n      Third.\n\n"
    );
}

#[test]
fn real_docs_leave_out_hidden_options() {
    let docs = Config::default().print_docs(true);
    assert!(docs.starts_with("Configuration Options:\n"));
    assert!(docs.contains(" max_width <unsigned integer> Default: 100\n"));
    assert!(docs.contains("edition [2015|2018] Default: 2015\n"));
    assert!(!docs.contains("verbose"));
    assert!(!docs.contains("width_heuristics"));
    let stable = Config::default().print_docs(false);
    assert!(!stable.contains("(unstable)"));
    assert!(!stable.contains("wrap_comments"));
}

#[test]
fn from_toml_warns_about_unknown_keys() {
    let text = "max_width = 90\nbogus = 1\n";
    let decoded = entries(vec![("max_width", OptionValue::Usize(90))]);
    let (mut config, warnings, refused) = Config::from_toml(text, Ok(decoded), false).unwrap();
    assert_eq!(warnings, "Warning: Unknown configuration option `bogus`\n");
    assert!(refused.is_empty());
    assert_eq!(config.option("max_width"), Some(OptionValue::Usize(90)));
    assert_eq!(config.was_set("max_width"), Some(true));
}

#[test]
fn from_toml_reports_parse_errors() {
    let err = Config::from_toml("max_width = = 3", Err("ignored".to_string()), false).unwrap_err();
    assert!(err.starts_with("Could not parse TOML: "), "{}", err);
}

#[test]
fn from_toml_reports_decoding_errors_with_warnings() {
    let err = Config::from_toml("zz = true\nhard_tabs = 3", Err("invalid type: integer `3`, expected a boolean for key `hard_tabs`".to_string()), false).unwrap_err();
    assert_eq!(
        err,
        "Warning: Unknown configuration option `zz`\nError: Decoding config file failed:\ninvalid type: integer `3`, expected a boolean for key `hard_tabs`\nPlease check your config file."
    );
}

#[test]
fn unstable_options_need_nightly() {
    let text = "wrap_comments = true\nmax_width = 80";
    let decoded = || entries(vec![("max_width", OptionValue::Usize(80)), ("wrap_comments", OptionValue::Bool(true))]);
    let (mut stable, _, refused) = Config::from_toml(text, Ok(decoded()), false).unwrap();
    assert_eq!(refused, vec!["wrap_comments".to_string()]);
    assert_eq!(stable.option("wrap_comments"), Some(OptionValue::Bool(false)));
    assert_eq!(stable.was_set("wrap_comments"), Some(false));
    assert_eq!(stable.option("max_width"), Some(OptionValue::Usize(80)));
    let (mut nightly, _, refused) = Config::from_toml(text, Ok(decoded()), true).unwrap();
    assert!(refused.is_empty());
    assert_eq!(nightly.option("wrap_comments"), Some(OptionValue::Bool(true)));
    assert_eq!(nightly.was_set("wrap_comments"), Some(true));
}

#[test]
fn variants_are_matched_without_case() {
    let decoded = entries(vec![("newline_style", choice("unix"))]);
    let (mut config, _, _) = Config::from_toml("newline_style = \"unix\"", Ok(decoded), false).unwrap();
    assert_eq!(config.option("newline_style"), Some(choice("Unix")));
}

#[test]
fn unknown_variants_are_errors() {
    let decoded = entries(vec![("newline_style", choice("Sideways"))]);
    let err = Config::from_toml("newline_style = \"Sideways\"", Ok(decoded), false).unwrap_err();
    assert_eq!(
        err,
        "Error: Decoding config file failed:\nunknown variant `Sideways`, expected one of `Auto`, `Windows`, `Unix`, `Native` for key `newline_style`\nPlease check your config file."
    );
    let decoded = entries(vec![("edition", choice("2021"))]);
    let err = Config::from_toml("edition = \"2021\"", Ok(decoded), false).unwrap_err();
    assert!(err.contains("unknown variant `2021`, expected `2015` or `2018` for key `edition`"), "{}", err);
}

#[test]
fn required_version_is_checked_when_set() {
    let mut config = Config::default();
    assert_eq!(config.version_meets_requirement(), Ok(()));
    let decoded = entries(vec![("required_version", OptionValue::Text("1.4.2".to_string()))]);
    let (mut same, _, _) = Config::from_toml("required_version = \"1.4.2\"", Ok(decoded), true).unwrap();
    assert_eq!(same.version_meets_requirement(), Ok(()));
    let decoded = entries(vec![("required_version", OptionValue::Text("9.9.9".to_string()))]);
    let (mut other, _, _) = Config::from_toml("required_version = \"9.9.9\"", Ok(decoded), true).unwrap();
    assert_eq!(
        other.version_meets_requirement(),
        Err("Error: rustfmt version (1.4.2) doesn't match the required version (9.9.9)".to_string())
    );
}

#[test]
fn decimal_and_join_helpers() {
    assert_eq!(rustfmt_core::text::decimal_string(0), "0");
    assert_eq!(rustfmt_core::text::decimal_string(1203), "1203");
    assert_eq!(rustfmt_core::text::join_strings(&vec!["a".to_string(), "b".to_string(), "c".to_string()], ", "), "a, b, c");
    assert_eq!(rustfmt_core::text::join_strings(&vec![], ", "), "");
    assert!(rustfmt_core::text::str_eq_ignore_ascii_case("SameLineWhere", "samelinewhere"));
    assert!(!rustfmt_core::text::str_eq_ignore_ascii_case("Tall", "Tal"));
}

#[test]
fn empty_file_keeps_defaults() {
    let empty = PartialConfig {
        entries: vec![PartialEntry { name: "max_width".to_string(), value: None }],
    };
    let (config, warnings, refused) = Config::from_toml("", Ok(empty), false).unwrap();
    assert_eq!(warnings, "");
    assert!(refused.is_empty());
    assert_eq!(
        config.all_options().to_toml().unwrap(),
        Config::default().all_options().to_toml().unwrap()
    );
    assert_eq!(config.was_set("max_width"), Some(false));
}

#[test]
fn known_keys_give_no_warnings() {
    let decoded = entries(vec![("max_width", OptionValue::Usize(99)), ("edition", choice("2018"))]);
    let (_, warnings, _) = Config::from_toml("max_width = 99\nedition = \"2018\"", Ok(decoded), false).unwrap();
    assert_eq!(warnings, "");
    let (_, warnings, _) = Config::from_toml("a = 1\nb = 2", Ok(PartialConfig { entries: vec![] }), false).unwrap();
    assert_eq!(
        warnings,
        "Warning: Unknown configuration option `a`\nWarning: Unknown configuration option `b`\n"
    );
}

#[test]
fn non_table_documents_are_errors() {
    // A TOML document always parses to a table; a broken one is a parse error.
    let err = Config::from_toml("[a\n", Ok(PartialConfig { entries: vec![] }), false).unwrap_err();
    assert!(err.starts_with("Could not parse TOML: "), "{}", err);
}

#[test]
fn unknown_key_changes_only_the_warnings() {
    let decoded = || entries(vec![("max_width", OptionValue::Usize(90)), ("hard_tabs", OptionValue::Bool(true))]);
    let (mut plain, plain_warnings, plain_refused) =
        Config::from_toml("max_width = 90\nhard_tabs = true", Ok(decoded()), false).unwrap();
    let (mut extra, extra_warnings, extra_refused) =
        Config::from_toml("max_width = 90\nhard_tabs = true\nzzz = 1", Ok(decoded()), false).unwrap();
    assert_eq!(plain_warnings, "");
    assert_eq!(extra_warnings, "Warning: Unknown configuration option `zzz`\n");
    assert_eq!(plain_refused, extra_refused);
    for name in ["max_width", "hard_tabs", "tab_spaces", "edition"] {
        assert_eq!(plain.option(name), extra.option(name));
        assert_eq!(plain.was_set(name), extra.was_set(name));
    }
}

#[test]
fn document_joins_entry_texts() {
    let texts = vec![Some(Ok("a = 1\n".to_string())), None, Some(Ok("b = true\n".to_string()))];
    assert_eq!(document_from_entries(&texts), Ok("a = 1\nb = true\n".to_string()));
    let failing = vec![Some(Ok("a = 1\n".to_string())), Some(Err("bad key".to_string())), Some(Err("later".to_string()))];
    assert_eq!(document_from_entries(&failing), Err("Could not output config: bad key".to_string()));
    assert_eq!(document_from_entries(&vec![]), Ok(String::new()));
}
