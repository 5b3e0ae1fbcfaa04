//! The values that configuration options take, and the table of options.
use vstd::prelude::*;

verus! {

/// The value of one configuration option.
///
/// Enumerated options hold the name of their variant, as it is written in a
/// configuration file (for instance `"Auto"` or `"2015"`).
#[derive(Debug, PartialEq, Eq)]
pub enum OptionValue {
    Bool(bool),
    Usize(usize),
    Text(String),
    Choice(String),
    Paths(Vec<String>),
    /// A value with no form in a configuration file (line ranges, width heuristics).
    Internal,
}

/// The mathematical model of an [`OptionValue`].
pub enum ValueView {
    Bool(bool),
    Usize(usize),
    Text(Seq<char>),
    Choice(Seq<char>),
    Paths(Seq<Seq<char>>),
    Internal,
}

/// The views of a sequence of strings.
pub open spec fn strings_view(v: Seq<String>) -> Seq<Seq<char>> {
    v.map_values(|s: String| s@)
}

impl View for OptionValue {
    type V = ValueView;

    open spec fn view(&self) -> ValueView {
        match self {
            OptionValue::Bool(b) => ValueView::Bool(*b),
            OptionValue::Usize(n) => ValueView::Usize(*n),
            OptionValue::Text(s) => ValueView::Text(s@),
            OptionValue::Choice(s) => ValueView::Choice(s@),
            OptionValue::Paths(p) => ValueView::Paths(strings_view(p@)),
            OptionValue::Internal => ValueView::Internal,
        }
    }
}

/// Two values are of the same kind: one could stand in place of the other.
pub open spec fn same_kind(a: ValueView, b: ValueView) -> bool {
    match (a, b) {
        (ValueView::Bool(_), ValueView::Bool(_)) => true,
        (ValueView::Usize(_), ValueView::Usize(_)) => true,
        (ValueView::Text(_), ValueView::Text(_)) => true,
        (ValueView::Choice(_), ValueView::Choice(_)) => true,
        (ValueView::Paths(_), ValueView::Paths(_)) => true,
        (ValueView::Internal, ValueView::Internal) => true,
        _ => false,
    }
}

/// Copies a list of strings.
pub fn copy_strings(v: &Vec<String>) -> (r: Vec<String>)
    ensures
        strings_view(r@) == strings_view(v@),
{
    let mut r: Vec<String> = Vec::new();
    for i in 0..v.len()
        invariant
            r@.len() == i,
            forall|j: int| 0 <= j < i ==> #[trigger] r@[j]@ == v@[j]@,
    {
        r.push(v[i].clone());
    }
    assert(strings_view(r@) =~= strings_view(v@));
    r
}

impl OptionValue {
    /// A copy of the value.
    pub fn copy(&self) -> (r: OptionValue)
        ensures
            r@ == self@,
    {
        match self {
            OptionValue::Bool(b) => OptionValue::Bool(*b),
            OptionValue::Usize(n) => OptionValue::Usize(*n),
            OptionValue::Text(s) => OptionValue::Text(s.clone()),
            OptionValue::Choice(s) => OptionValue::Choice(s.clone()),
            OptionValue::Paths(p) => OptionValue::Paths(copy_strings(p)),
            OptionValue::Internal => OptionValue::Internal,
        }
    }
}

/// The description of one configuration option.
#[derive(Debug)]
pub struct OptionSpec {
    /// The option's key in a configuration file.
    pub name: String,
    /// How the option's type is shown in the documentation.
    pub hint: String,
    /// The value the option has unless it is set.
    pub default: OptionValue,
    /// Whether the option can be set on every release channel.
    pub stable: bool,
    /// One line of documentation.
    pub doc: String,
    /// For an enumerated option, the names of its variants; empty otherwise.
    pub choices: Vec<String>,
}

/// Builds the description of one option.
pub fn option_spec(
    name: &str,
    hint: &str,
    default: OptionValue,
    stable: bool,
    doc: &str,
    choices: Vec<String>,
) -> (r: OptionSpec)
    ensures
        r.name@ == name@,
        r.hint@ == hint@,
        r.default@ == default@,
        r.stable == stable,
        r.doc@ == doc@,
        strings_view(r.choices@) == strings_view(choices@),
{
    OptionSpec {
        name: name.to_owned(),
        hint: hint.to_owned(),
        default,
        stable,
        doc: doc.to_owned(),
        choices,
    }
}

/// An empty list of paths.
pub fn no_paths() -> (r: OptionValue)
    ensures
        r@ == ValueView::Paths(Seq::empty()),
{
    let v: Vec<String> = Vec::new();
    assert(strings_view(v@) =~= Seq::empty());
    OptionValue::Paths(v)
}

/// No variant names, for an option that is not enumerated.
fn no_choices() -> (r: Vec<String>)
    ensures
        strings_view(r@) == Seq::<Seq<char>>::empty(),
{
    let r: Vec<String> = Vec::new();
    assert(strings_view(r@) =~= Seq::<Seq<char>>::empty());
    r
}

/// The variants of the `NewlineStyle` options.
pub open spec fn newline_style_variants() -> Seq<Seq<char>> {
    seq!["Auto"@, "Windows"@, "Unix"@, "Native"@]
}

/// The variants of the `NewlineStyle` options.
fn newline_style_choices() -> (r: Vec<String>)
    ensures
        strings_view(r@) == newline_style_variants(),
{
    let mut r: Vec<String> = Vec::new();
    r.push("Auto".to_owned());
    r.push("Windows".to_owned());
    r.push("Unix".to_owned());
    r.push("Native".to_owned());
    assert(strings_view(r@) =~= newline_style_variants());
    r
}

/// The variants of the `Heuristics` options.
pub open spec fn heuristics_variants() -> Seq<Seq<char>> {
    seq!["Off"@, "Max"@, "Default"@]
}

/// The variants of the `Heuristics` options.
fn heuristics_choices() -> (r: Vec<String>)
    ensures
        strings_view(r@) == heuristics_variants(),
{
    let mut r: Vec<String> = Vec::new();
    r.push("Off".to_owned());
    r.push("Max".to_owned());
    r.push("Default".to_owned());
    assert(strings_view(r@) =~= heuristics_variants());
    r
}

/// The variants of the `IndentStyle` options.
pub open spec fn indent_style_variants() -> Seq<Seq<char>> {
    seq!["Visual"@, "Block"@]
}

/// The variants of the `IndentStyle` options.
fn indent_style_choices() -> (r: Vec<String>)
    ensures
        strings_view(r@) == indent_style_variants(),
{
    let mut r: Vec<String> = Vec::new();
    r.push("Visual".to_owned());
    r.push("Block".to_owned());
    assert(strings_view(r@) =~= indent_style_variants());
    r
}

/// The variants of the `ListTactic` options.
pub open spec fn list_tactic_variants() -> Seq<Seq<char>> {
    seq!["Vertical"@, "Horizontal"@, "HorizontalVertical"@, "Mixed"@]
}

/// The variants of the `ListTactic` options.
fn list_tactic_choices() -> (r: Vec<String>)
    ensures
        strings_view(r@) == list_tactic_variants(),
{
    let mut r: Vec<String> = Vec::new();
    r.push("Vertical".to_owned());
    r.push("Horizontal".to_owned());
    r.push("HorizontalVertical".to_owned());
    r.push("Mixed".to_owned());
    assert(strings_view(r@) =~= list_tactic_variants());
    r
}

/// The variants of the `TypeDensity` options.
pub open spec fn type_density_variants() -> Seq<Seq<char>> {
    seq!["Compressed"@, "Wide"@]
}

/// The variants of the `TypeDensity` options.
fn type_density_choices() -> (r: Vec<String>)
    ensures
        strings_view(r@) == type_density_variants(),
{
    let mut r: Vec<String> = Vec::new();
    r.push("Compressed".to_owned());
    r.push("Wide".to_owned());
    assert(strings_view(r@) =~= type_density_variants());
    r
}

/// The variants of the `SeparatorPlace` options.
pub open spec fn separator_place_variants() -> Seq<Seq<char>> {
    seq!["Front"@, "Back"@]
}

/// The variants of the `SeparatorPlace` options.
fn separator_place_choices() -> (r: Vec<String>)
    ensures
        strings_view(r@) == separator_place_variants(),
{
    let mut r: Vec<String> = Vec::new();
    r.push("Front".to_owned());
    r.push("Back".to_owned());
    assert(strings_view(r@) =~= separator_place_variants());
    r
}

/// The variants of the `Density` options.
pub open spec fn density_variants() -> Seq<Seq<char>> {
    seq!["Compressed"@, "Tall"@, "Vertical"@]
}

/// The variants of the `Density` options.
fn density_choices() -> (r: Vec<String>)
    ensures
        strings_view(r@) == density_variants(),
{
    let mut r: Vec<String> = Vec::new();
    r.push("Compressed".to_owned());
    r.push("Tall".to_owned());
    r.push("Vertical".to_owned());
    assert(strings_view(r@) =~= density_variants());
    r
}

/// The variants of the `BraceStyle` options.
pub open spec fn brace_style_variants() -> Seq<Seq<char>> {
    seq!["AlwaysNextLine"@, "PreferSameLine"@, "SameLineWhere"@]
}

/// The variants of the `BraceStyle` options.
fn brace_style_choices() -> (r: Vec<String>)
    ensures
        strings_view(r@) == brace_style_variants(),
{
    let mut r: Vec<String> = Vec::new();
    r.push("AlwaysNextLine".to_owned());
    r.push("PreferSameLine".to_owned());
    r.push("SameLineWhere".to_owned());
    assert(strings_view(r@) =~= brace_style_variants());
    r
}

/// The variants of the `ControlBraceStyle` options.
pub open spec fn control_brace_style_variants() -> Seq<Seq<char>> {
    seq!["AlwaysSameLine"@, "ClosingNextLine"@, "AlwaysNextLine"@]
}

/// The variants of the `ControlBraceStyle` options.
fn control_brace_style_choices() -> (r: Vec<String>)
    ensures
        strings_view(r@) == control_brace_style_variants(),
{
    let mut r: Vec<String> = Vec::new();
    r.push("AlwaysSameLine".to_owned());
    r.push("ClosingNextLine".to_owned());
    r.push("AlwaysNextLine".to_owned());
    assert(strings_view(r@) =~= control_brace_style_variants());
    r
}

/// The variants of the `SeparatorTactic` options.
pub open spec fn separator_tactic_variants() -> Seq<Seq<char>> {
    seq!["Always"@, "Never"@, "Vertical"@]
}

/// The variants of the `SeparatorTactic` options.
fn separator_tactic_choices() -> (r: Vec<String>)
    ensures
        strings_view(r@) == separator_tactic_variants(),
{
    let mut r: Vec<String> = Vec::new();
    r.push("Always".to_owned());
    r.push("Never".to_owned());
    r.push("Vertical".to_owned());
    assert(strings_view(r@) =~= separator_tactic_variants());
    r
}

/// The variants of the `Edition` options.
pub open spec fn edition_variants() -> Seq<Seq<char>> {
    seq!["2015"@, "2018"@]
}

/// The variants of the `Edition` options.
fn edition_choices() -> (r: Vec<String>)
    ensures
        strings_view(r@) == edition_variants(),
{
    let mut r: Vec<String> = Vec::new();
    r.push("2015".to_owned());
    r.push("2018".to_owned());
    assert(strings_view(r@) =~= edition_variants());
    r
}

/// The variants of the `Version` options.
pub open spec fn version_variants() -> Seq<Seq<char>> {
    seq!["One"@, "Two"@]
}

/// The variants of the `Version` options.
fn version_choices() -> (r: Vec<String>)
    ensures
        strings_view(r@) == version_variants(),
{
    let mut r: Vec<String> = Vec::new();
    r.push("One".to_owned());
    r.push("Two".to_owned());
    assert(strings_view(r@) =~= version_variants());
    r
}

/// The variants of the `Color` options.
pub open spec fn color_variants() -> Seq<Seq<char>> {
    seq!["Always"@, "Never"@, "Auto"@]
}

/// The variants of the `Color` options.
fn color_choices() -> (r: Vec<String>)
    ensures
        strings_view(r@) == color_variants(),
{
    let mut r: Vec<String> = Vec::new();
    r.push("Always".to_owned());
    r.push("Never".to_owned());
    r.push("Auto".to_owned());
    assert(strings_view(r@) =~= color_variants());
    r
}

/// The variants of the `ReportTactic` options.
pub open spec fn report_tactic_variants() -> Seq<Seq<char>> {
    seq!["Always"@, "Unnumbered"@, "Never"@]
}

/// The variants of the `ReportTactic` options.
fn report_tactic_choices() -> (r: Vec<String>)
    ensures
        strings_view(r@) == report_tactic_variants(),
{
    let mut r: Vec<String> = Vec::new();
    r.push("Always".to_owned());
    r.push("Unnumbered".to_owned());
    r.push("Never".to_owned());
    assert(strings_view(r@) =~= report_tactic_variants());
    r
}

/// The variants of the `Verbosity` options.
pub open spec fn verbosity_variants() -> Seq<Seq<char>> {
    seq!["Verbose"@, "Normal"@, "Quiet"@]
}

/// The variants of the `Verbosity` options.
fn verbosity_choices() -> (r: Vec<String>)
    ensures
        strings_view(r@) == verbosity_variants(),
{
    let mut r: Vec<String> = Vec::new();
    r.push("Verbose".to_owned());
    r.push("Normal".to_owned());
    r.push("Quiet".to_owned());
    assert(strings_view(r@) =~= verbosity_variants());
    r
}

/// The variants of the `EmitMode` options.
pub open spec fn emit_mode_variants() -> Seq<Seq<char>> {
    seq!["Files"@, "Stdout"@, "Coverage"@, "Checkstyle"@, "ModifiedLines"@, "Diff"@]
}

/// The variants of the `EmitMode` options.
fn emit_mode_choices() -> (r: Vec<String>)
    ensures
        strings_view(r@) == emit_mode_variants(),
{
    let mut r: Vec<String> = Vec::new();
    r.push("Files".to_owned());
    r.push("Stdout".to_owned());
    r.push("Coverage".to_owned());
    r.push("Checkstyle".to_owned());
    r.push("ModifiedLines".to_owned());
    r.push("Diff".to_owned());
    assert(strings_view(r@) =~= emit_mode_variants());
    r
}

/// The version of the formatter that this configuration belongs to.
pub fn version() -> (r: &'static str)
    ensures
        r@ == version_view(),
{
    "1.4.2"
}

/// The model of [`version`].
pub open spec fn version_view() -> Seq<char> {
    "1.4.2"@
}

/// The type hint and description of an option.
pub open spec fn spec_doc(s: OptionSpec) -> (Seq<char>, Seq<char>) {
    (s.hint@, s.doc@)
}

/// The key, default value, stability and variant names of an option description.
pub open spec fn spec_summary(s: OptionSpec) -> (Seq<char>, ValueView, bool, Seq<Seq<char>>) {
    (s.name@, s.default@, s.stable, strings_view(s.choices@))
}

/// The first group of the formatter's options.
pub open spec fn table_first() -> Seq<(Seq<char>, ValueView, bool, Seq<Seq<char>>)> {
    seq![
        ("max_width"@, ValueView::Usize(100), true, Seq::empty()),
        ("hard_tabs"@, ValueView::Bool(false), true, Seq::empty()),
        ("tab_spaces"@, ValueView::Usize(4), true, Seq::empty()),
        ("newline_style"@, ValueView::Choice("Auto"@), true, newline_style_variants()),
        ("use_small_heuristics"@, ValueView::Choice("Default"@), true, heuristics_variants()),
        ("indent_style"@, ValueView::Choice("Block"@), false, indent_style_variants()),
    ]
}

/// The type hints and descriptions of the first group of the formatter's options.
pub open spec fn docs_first() -> Seq<(Seq<char>, Seq<char>)> {
    seq![
        ("<unsigned integer>"@, "Maximum width of each line"@),
        ("<boolean>"@, "Use tab characters for indentation, spaces for alignment"@),
        ("<unsigned integer>"@, "Number of spaces per tab"@),
        ("[Auto|Windows|Unix|Native]"@, "Unix or Windows line endings"@),
        ("[Off|Max|Default]"@, "Whether to use different formatting for items and expressions if they satisfy a heuristic notion of 'small'"@),
        ("[Visual|Block]"@, "How do we indent expressions or items"@),
    ]
}

/// The second group of the formatter's options.
pub open spec fn table_second() -> Seq<(Seq<char>, ValueView, bool, Seq<Seq<char>>)> {
    seq![
        ("wrap_comments"@, ValueView::Bool(false), false, Seq::empty()),
        ("format_code_in_doc_comments"@, ValueView::Bool(false), false, Seq::empty()),
        ("comment_width"@, ValueView::Usize(80), false, Seq::empty()),
        ("normalize_comments"@, ValueView::Bool(false), false, Seq::empty()),
        ("normalize_doc_attributes"@, ValueView::Bool(false), false, Seq::empty()),
        ("license_template_path"@, ValueView::Text(Seq::empty()), false, Seq::empty()),
    ]
}

/// The type hints and descriptions of the second group of the formatter's options.
pub open spec fn docs_second() -> Seq<(Seq<char>, Seq<char>)> {
    seq![
        ("<boolean>"@, "Break comments to fit on the line"@),
        ("<boolean>"@, "Format the code snippet in doc comments."@),
        ("<unsigned integer>"@, "Maximum length of comments. No effect unless wrap_comments = true"@),
        ("<boolean>"@, "Convert /* */ comments to // comments where possible"@),
        ("<boolean>"@, "Normalize doc attributes as doc comments"@),
        ("<string>"@, "Beginning of file must match license template"@),
    ]
}

/// The third group of the formatter's options.
pub open spec fn table_third() -> Seq<(Seq<char>, ValueView, bool, Seq<Seq<char>>)> {
    seq![
        ("format_strings"@, ValueView::Bool(false), false, Seq::empty()),
        ("format_macro_matchers"@, ValueView::Bool(false), false, Seq::empty()),
        ("format_macro_bodies"@, ValueView::Bool(true), false, Seq::empty()),
        ("empty_item_single_line"@, ValueView::Bool(true), false, Seq::empty()),
        ("struct_lit_single_line"@, ValueView::Bool(true), false, Seq::empty()),
        ("fn_single_line"@, ValueView::Bool(false), false, Seq::empty()),
    ]
}

/// The type hints and descriptions of the third group of the formatter's options.
pub open spec fn docs_third() -> Seq<(Seq<char>, Seq<char>)> {
    seq![
        ("<boolean>"@, "Format string literals where necessary"@),
        ("<boolean>"@, "Format the metavariable matching patterns in macros"@),
        ("<boolean>"@, "Format the bodies of macros"@),
        ("<boolean>"@, "Put empty-body functions and impls on a single line"@),
        ("<boolean>"@, "Put small struct literals on a single line"@),
        ("<boolean>"@, "Put single-expression functions on a single line"@),
    ]
}

/// The fourth group of the formatter's options.
pub open spec fn table_fourth() -> Seq<(Seq<char>, ValueView, bool, Seq<Seq<char>>)> {
    seq![
        ("where_single_line"@, ValueView::Bool(false), false, Seq::empty()),
        ("imports_indent"@, ValueView::Choice("Block"@), false, indent_style_variants()),
        ("imports_layout"@, ValueView::Choice("Mixed"@), false, list_tactic_variants()),
        ("merge_imports"@, ValueView::Bool(false), false, Seq::empty()),
        ("reorder_imports"@, ValueView::Bool(true), true, Seq::empty()),
        ("reorder_modules"@, ValueView::Bool(true), true, Seq::empty()),
    ]
}

/// The type hints and descriptions of the fourth group of the formatter's options.
pub open spec fn docs_fourth() -> Seq<(Seq<char>, Seq<char>)> {
    seq![
        ("<boolean>"@, "Force where-clauses to be on a single line"@),
        ("[Visual|Block]"@, "Indent of imports"@),
        ("[Vertical|Horizontal|HorizontalVertical|Mixed]"@, "Item layout inside a import block"@),
        ("<boolean>"@, "Merge imports"@),
        ("<boolean>"@, "Reorder import and extern crate statements alphabetically"@),
        ("<boolean>"@, "Reorder module statements alphabetically in group"@),
    ]
}

/// The fifth group of the formatter's options.
pub open spec fn table_fifth() -> Seq<(Seq<char>, ValueView, bool, Seq<Seq<char>>)> {
    seq![
        ("reorder_impl_items"@, ValueView::Bool(false), false, Seq::empty()),
        ("type_punctuation_density"@, ValueView::Choice("Wide"@), false, type_density_variants()),
        ("space_before_colon"@, ValueView::Bool(false), false, Seq::empty()),
        ("space_after_colon"@, ValueView::Bool(true), false, Seq::empty()),
        ("spaces_around_ranges"@, ValueView::Bool(false), false, Seq::empty()),
        ("binop_separator"@, ValueView::Choice("Front"@), false, separator_place_variants()),
    ]
}

/// The type hints and descriptions of the fifth group of the formatter's options.
pub open spec fn docs_fifth() -> Seq<(Seq<char>, Seq<char>)> {
    seq![
        ("<boolean>"@, "Reorder impl items"@),
        ("[Compressed|Wide]"@, "Determines if '+' or '=' are wrapped in spaces in the punctuation of types"@),
        ("<boolean>"@, "Leave a space before the colon"@),
        ("<boolean>"@, "Leave a space after the colon"@),
        ("<boolean>"@, "Put spaces around the  .. and ..= range operators"@),
        ("[Front|Back]"@, "Where to put a binary operator when a binary expression goes multiline"@),
    ]
}

/// The sixth group of the formatter's options.
pub open spec fn table_sixth() -> Seq<(Seq<char>, ValueView, bool, Seq<Seq<char>>)> {
    seq![
        ("remove_nested_parens"@, ValueView::Bool(true), true, Seq::empty()),
        ("combine_control_expr"@, ValueView::Bool(true), false, Seq::empty()),
        ("overflow_delimited_expr"@, ValueView::Bool(false), false, Seq::empty()),
        ("struct_field_align_threshold"@, ValueView::Usize(0), false, Seq::empty()),
        ("enum_discrim_align_threshold"@, ValueView::Usize(0), false, Seq::empty()),
        ("match_arm_blocks"@, ValueView::Bool(true), false, Seq::empty()),
    ]
}

/// The type hints and descriptions of the sixth group of the formatter's options.
pub open spec fn docs_sixth() -> Seq<(Seq<char>, Seq<char>)> {
    seq![
        ("<boolean>"@, "Remove nested parens"@),
        ("<boolean>"@, "Combine control expressions with function calls"@),
        ("<boolean>"@, "Allow trailing bracket/brace delimited expressions to overflow"@),
        ("<unsigned integer>"@, "Align struct fields if their diffs fits within threshold"@),
        ("<unsigned integer>"@, "Align enum variants discrims, if their diffs fit within threshold"@),
        ("<boolean>"@, "Wrap the body of arms in blocks when it does not fit on the same line with the pattern of arms"@),
    ]
}

/// The seventh group of the formatter's options.
pub open spec fn table_seventh() -> Seq<(Seq<char>, ValueView, bool, Seq<Seq<char>>)> {
    seq![
        ("force_multiline_blocks"@, ValueView::Bool(false), false, Seq::empty()),
        ("fn_args_layout"@, ValueView::Choice("Tall"@), true, density_variants()),
        ("brace_style"@, ValueView::Choice("SameLineWhere"@), false, brace_style_variants()),
        ("control_brace_style"@, ValueView::Choice("AlwaysSameLine"@), false, control_brace_style_variants()),
        ("trailing_semicolon"@, ValueView::Bool(true), false, Seq::empty()),
        ("trailing_comma"@, ValueView::Choice("Vertical"@), false, separator_tactic_variants()),
    ]
}

/// The type hints and descriptions of the seventh group of the formatter's options.
pub open spec fn docs_seventh() -> Seq<(Seq<char>, Seq<char>)> {
    seq![
        ("<boolean>"@, "Force multiline closure bodies and match arms to be wrapped in a block"@),
        ("[Compressed|Tall|Vertical]"@, "Control the layout of arguments in a function"@),
        ("[AlwaysNextLine|PreferSameLine|SameLineWhere]"@, "Brace style for items"@),
        ("[AlwaysSameLine|ClosingNextLine|AlwaysNextLine]"@, "Brace style for control flow constructs"@),
        ("<boolean>"@, "Add trailing semicolon after break, continue and return"@),
        ("[Always|Never|Vertical]"@, "How to handle trailing commas for lists"@),
    ]
}

/// The eighth group of the formatter's options.
pub open spec fn table_eighth() -> Seq<(Seq<char>, ValueView, bool, Seq<Seq<char>>)> {
    seq![
        ("match_block_trailing_comma"@, ValueView::Bool(false), false, Seq::empty()),
        ("blank_lines_upper_bound"@, ValueView::Usize(1), false, Seq::empty()),
        ("blank_lines_lower_bound"@, ValueView::Usize(0), false, Seq::empty()),
        ("edition"@, ValueView::Choice("2015"@), true, edition_variants()),
        ("version"@, ValueView::Choice("One"@), false, version_variants()),
        ("inline_attribute_width"@, ValueView::Usize(0), false, Seq::empty()),
    ]
}

/// The type hints and descriptions of the eighth group of the formatter's options.
pub open spec fn docs_eighth() -> Seq<(Seq<char>, Seq<char>)> {
    seq![
        ("<boolean>"@, "Put a trailing comma after a block based match arm (non-block arms are not affected)"@),
        ("<unsigned integer>"@, "Maximum number of blank lines which can be put between items"@),
        ("<unsigned integer>"@, "Minimum number of blank lines which must be put between items"@),
        ("[2015|2018]"@, "The edition of the parser (RFC 2052)"@),
        ("[One|Two]"@, "Version of formatting rules"@),
        ("<unsigned integer>"@, "Write an item and its attribute on the same line if their combined width is below a threshold"@),
    ]
}

/// The ninth group of the formatter's options.
pub open spec fn table_ninth() -> Seq<(Seq<char>, ValueView, bool, Seq<Seq<char>>)> {
    seq![
        ("merge_derives"@, ValueView::Bool(true), true, Seq::empty()),
        ("use_try_shorthand"@, ValueView::Bool(false), true, Seq::empty()),
        ("use_field_init_shorthand"@, ValueView::Bool(false), true, Seq::empty()),
        ("force_explicit_abi"@, ValueView::Bool(true), true, Seq::empty()),
        ("condense_wildcard_suffixes"@, ValueView::Bool(false), false, Seq::empty()),
        ("color"@, ValueView::Choice("Auto"@), false, color_variants()),
    ]
}

/// The type hints and descriptions of the ninth group of the formatter's options.
pub open spec fn docs_ninth() -> Seq<(Seq<char>, Seq<char>)> {
    seq![
        ("<boolean>"@, "Merge multiple `#[derive(...)]` into a single one"@),
        ("<boolean>"@, "Replace uses of the try! macro by the ? shorthand"@),
        ("<boolean>"@, "Use field initialization shorthand if possible"@),
        ("<boolean>"@, "Always print the abi for extern items"@),
        ("<boolean>"@, "Replace strings of _ wildcards by a single .. in tuple patterns"@),
        ("[Always|Never|Auto]"@, "What Color option to use when none is supplied: Always, Never, Auto"@),
    ]
}

/// The tenth group of the formatter's options.
pub open spec fn table_tenth() -> Seq<(Seq<char>, ValueView, bool, Seq<Seq<char>>)> {
    seq![
        ("required_version"@, ValueView::Text(version_view()), false, Seq::empty()),
        ("unstable_features"@, ValueView::Bool(false), false, Seq::empty()),
        ("disable_all_formatting"@, ValueView::Bool(false), false, Seq::empty()),
        ("skip_children"@, ValueView::Bool(false), false, Seq::empty()),
        ("hide_parse_errors"@, ValueView::Bool(false), false, Seq::empty()),
        ("error_on_line_overflow"@, ValueView::Bool(false), false, Seq::empty()),
    ]
}

/// The type hints and descriptions of the tenth group of the formatter's options.
pub open spec fn docs_tenth() -> Seq<(Seq<char>, Seq<char>)> {
    seq![
        ("<string>"@, "Require a specific version of rustfmt"@),
        ("<boolean>"@, "Enables unstable features. Only available on nightly channel"@),
        ("<boolean>"@, "Don't reformat anything"@),
        ("<boolean>"@, "Don't reformat out of line modules"@),
        ("<boolean>"@, "Hide errors from the parser"@),
        ("<boolean>"@, "Error if unable to get all lines within max_width"@),
    ]
}

/// The eleventh group of the formatter's options.
pub open spec fn table_eleventh() -> Seq<(Seq<char>, ValueView, bool, Seq<Seq<char>>)> {
    seq![
        ("error_on_unformatted"@, ValueView::Bool(false), false, Seq::empty()),
        ("report_todo"@, ValueView::Choice("Never"@), false, report_tactic_variants()),
        ("report_fixme"@, ValueView::Choice("Never"@), false, report_tactic_variants()),
        ("ignore"@, ValueView::Paths(Seq::empty()), false, Seq::empty()),
        ("verbose"@, ValueView::Choice("Normal"@), false, verbosity_variants()),
        ("file_lines"@, ValueView::Internal, false, Seq::empty()),
    ]
}

/// The type hints and descriptions of the eleventh group of the formatter's options.
pub open spec fn docs_eleventh() -> Seq<(Seq<char>, Seq<char>)> {
    seq![
        ("<boolean>"@, "Error if unable to get comments or string literals within max_width, or they are left with trailing whitespaces"@),
        ("[Always|Unnumbered|Never]"@, "Report all, none or unnumbered occurrences of TODO in source file comments"@),
        ("[Always|Unnumbered|Never]"@, "Report all, none or unnumbered occurrences of FIXME in source file comments"@),
        ("[<string>,..]"@, "Skip formatting the specified files and directories"@),
        ("[Verbose|Normal|Quiet]"@, "How much to information to emit to the user"@),
        ("<json>"@, "Lines to format; this is not supported in rustfmt.toml, and can only be specified via the --file-lines option"@),
    ]
}

/// The twelfth group of the formatter's options.
pub open spec fn table_twelfth() -> Seq<(Seq<char>, ValueView, bool, Seq<Seq<char>>)> {
    seq![
        ("width_heuristics"@, ValueView::Internal, false, Seq::empty()),
        ("emit_mode"@, ValueView::Choice("Files"@), false, emit_mode_variants()),
        ("make_backup"@, ValueView::Bool(false), false, Seq::empty()),
    ]
}

/// The type hints and descriptions of the twelfth group of the formatter's options.
pub open spec fn docs_twelfth() -> Seq<(Seq<char>, Seq<char>)> {
    seq![
        (""@, "'small' heuristic values"@),
        ("[Files|Stdout|Coverage|Checkstyle|ModifiedLines|Diff]"@, "What emit Mode to use when none is supplied"@),
        ("<boolean>"@, "Backup changed files"@),
    ]
}

/// The formatter's options: key, default value, stability and variant names,
/// in the order in which they are documented and written out.
pub open spec fn rustfmt_table() -> Seq<(Seq<char>, ValueView, bool, Seq<Seq<char>>)> {
    table_first() + table_second() + table_third() + table_fourth() + table_fifth() + table_sixth() + table_seventh() + table_eighth() + table_ninth() + table_tenth() + table_eleventh() + table_twelfth()
}

/// The type hints and descriptions of the formatter's options, in order.
pub open spec fn rustfmt_docs() -> Seq<(Seq<char>, Seq<char>)> {
    docs_first() + docs_second() + docs_third() + docs_fourth() + docs_fifth() + docs_sixth() + docs_seventh() + docs_eighth() + docs_ninth() + docs_tenth() + docs_eleventh() + docs_twelfth()
}

/// The first group of the formatter's options.
fn options_first() -> (v: Vec<OptionSpec>)
    ensures
        v@.map_values(|s: OptionSpec| spec_summary(s)) == table_first(),
        v@.map_values(|s: OptionSpec| spec_doc(s)) == docs_first(),
{
    let mut v: Vec<OptionSpec> = Vec::new();
    v.push(option_spec(
        "max_width",
        "<unsigned integer>",
        OptionValue::Usize(100),
        true,
        "Maximum width of each line",
        no_choices(),
    ));
    v.push(option_spec(
        "hard_tabs",
        "<boolean>",
        OptionValue::Bool(false),
        true,
        "Use tab characters for indentation, spaces for alignment",
        no_choices(),
    ));
    v.push(option_spec(
        "tab_spaces",
        "<unsigned integer>",
        OptionValue::Usize(4),
        true,
        "Number of spaces per tab",
        no_choices(),
    ));
    v.push(option_spec(
        "newline_style",
        "[Auto|Windows|Unix|Native]",
        OptionValue::Choice("Auto".to_owned()),
        true,
        "Unix or Windows line endings",
        newline_style_choices(),
    ));
    v.push(option_spec(
        "use_small_heuristics",
        "[Off|Max|Default]",
        OptionValue::Choice("Default".to_owned()),
        true,
        "Whether to use different formatting for items and expressions if they satisfy a heuristic notion of 'small'",
        heuristics_choices(),
    ));
    v.push(option_spec(
        "indent_style",
        "[Visual|Block]",
        OptionValue::Choice("Block".to_owned()),
        false,
        "How do we indent expressions or items",
        indent_style_choices(),
    ));
    assert(v@.map_values(|s: OptionSpec| spec_summary(s)) =~= table_first());
    assert(v@.map_values(|s: OptionSpec| spec_doc(s)) =~= docs_first());
    v
}

/// Adds the second group of the formatter's options.
fn options_second(v: &mut Vec<OptionSpec>)
    ensures
        final(v)@.map_values(|s: OptionSpec| spec_summary(s)) == old(v)@.map_values(
            |s: OptionSpec| spec_summary(s),
        ) + table_second(),
        final(v)@.map_values(|s: OptionSpec| spec_doc(s)) == old(v)@.map_values(
            |s: OptionSpec| spec_doc(s),
        ) + docs_second(),
{
    let ghost start = v@;
    v.push(option_spec(
        "wrap_comments",
        "<boolean>",
        OptionValue::Bool(false),
        false,
        "Break comments to fit on the line",
        no_choices(),
    ));
    v.push(option_spec(
        "format_code_in_doc_comments",
        "<boolean>",
        OptionValue::Bool(false),
        false,
        "Format the code snippet in doc comments.",
        no_choices(),
    ));
    v.push(option_spec(
        "comment_width",
        "<unsigned integer>",
        OptionValue::Usize(80),
        false,
        "Maximum length of comments. No effect unless wrap_comments = true",
        no_choices(),
    ));
    v.push(option_spec(
        "normalize_comments",
        "<boolean>",
        OptionValue::Bool(false),
        false,
        "Convert /* */ comments to // comments where possible",
        no_choices(),
    ));
    v.push(option_spec(
        "normalize_doc_attributes",
        "<boolean>",
        OptionValue::Bool(false),
        false,
        "Normalize doc attributes as doc comments",
        no_choices(),
    ));
    v.push(option_spec(
        "license_template_path",
        "<string>",
        OptionValue::Text(String::new()),
        false,
        "Beginning of file must match license template",
        no_choices(),
    ));
    assert(v@.map_values(|s: OptionSpec| spec_summary(s)) =~= start.map_values(
        |s: OptionSpec| spec_summary(s),
    ) + table_second());
    assert(v@.map_values(|s: OptionSpec| spec_doc(s)) =~= start.map_values(
        |s: OptionSpec| spec_doc(s),
    ) + docs_second());
}

/// Adds the third group of the formatter's options.
fn options_third(v: &mut Vec<OptionSpec>)
    ensures
        final(v)@.map_values(|s: OptionSpec| spec_summary(s)) == old(v)@.map_values(
            |s: OptionSpec| spec_summary(s),
        ) + table_third(),
        final(v)@.map_values(|s: OptionSpec| spec_doc(s)) == old(v)@.map_values(
            |s: OptionSpec| spec_doc(s),
        ) + docs_third(),
{
    let ghost start = v@;
    v.push(option_spec(
        "format_strings",
        "<boolean>",
        OptionValue::Bool(false),
        false,
        "Format string literals where necessary",
        no_choices(),
    ));
    v.push(option_spec(
        "format_macro_matchers",
        "<boolean>",
        OptionValue::Bool(false),
        false,
        "Format the metavariable matching patterns in macros",
        no_choices(),
    ));
    v.push(option_spec(
        "format_macro_bodies",
        "<boolean>",
        OptionValue::Bool(true),
        false,
        "Format the bodies of macros",
        no_choices(),
    ));
    v.push(option_spec(
        "empty_item_single_line",
        "<boolean>",
        OptionValue::Bool(true),
        false,
        "Put empty-body functions and impls on a single line",
        no_choices(),
    ));
    v.push(option_spec(
        "struct_lit_single_line",
        "<boolean>",
        OptionValue::Bool(true),
        false,
        "Put small struct literals on a single line",
        no_choices(),
    ));
    v.push(option_spec(
        "fn_single_line",
        "<boolean>",
        OptionValue::Bool(false),
        false,
        "Put single-expression functions on a single line",
        no_choices(),
    ));
    assert(v@.map_values(|s: OptionSpec| spec_summary(s)) =~= start.map_values(
        |s: OptionSpec| spec_summary(s),
    ) + table_third());
    assert(v@.map_values(|s: OptionSpec| spec_doc(s)) =~= start.map_values(
        |s: OptionSpec| spec_doc(s),
    ) + docs_third());
}

/// Adds the fourth group of the formatter's options.
fn options_fourth(v: &mut Vec<OptionSpec>)
    ensures
        final(v)@.map_values(|s: OptionSpec| spec_summary(s)) == old(v)@.map_values(
            |s: OptionSpec| spec_summary(s),
        ) + table_fourth(),
        final(v)@.map_values(|s: OptionSpec| spec_doc(s)) == old(v)@.map_values(
            |s: OptionSpec| spec_doc(s),
        ) + docs_fourth(),
{
    let ghost start = v@;
    v.push(option_spec(
        "where_single_line",
        "<boolean>",
        OptionValue::Bool(false),
        false,
        "Force where-clauses to be on a single line",
        no_choices(),
    ));
    v.push(option_spec(
        "imports_indent",
        "[Visual|Block]",
        OptionValue::Choice("Block".to_owned()),
        false,
        "Indent of imports",
        indent_style_choices(),
    ));
    v.push(option_spec(
        "imports_layout",
        "[Vertical|Horizontal|HorizontalVertical|Mixed]",
        OptionValue::Choice("Mixed".to_owned()),
        false,
        "Item layout inside a import block",
        list_tactic_choices(),
    ));
    v.push(option_spec(
        "merge_imports",
        "<boolean>",
        OptionValue::Bool(false),
        false,
        "Merge imports",
        no_choices(),
    ));
    v.push(option_spec(
        "reorder_imports",
        "<boolean>",
        OptionValue::Bool(true),
        true,
        "Reorder import and extern crate statements alphabetically",
        no_choices(),
    ));
    v.push(option_spec(
        "reorder_modules",
        "<boolean>",
        OptionValue::Bool(true),
        true,
        "Reorder module statements alphabetically in group",
        no_choices(),
    ));
    assert(v@.map_values(|s: OptionSpec| spec_summary(s)) =~= start.map_values(
        |s: OptionSpec| spec_summary(s),
    ) + table_fourth());
    assert(v@.map_values(|s: OptionSpec| spec_doc(s)) =~= start.map_values(
        |s: OptionSpec| spec_doc(s),
    ) + docs_fourth());
}

/// Adds the fifth group of the formatter's options.
fn options_fifth(v: &mut Vec<OptionSpec>)
    ensures
        final(v)@.map_values(|s: OptionSpec| spec_summary(s)) == old(v)@.map_values(
            |s: OptionSpec| spec_summary(s),
        ) + table_fifth(),
        final(v)@.map_values(|s: OptionSpec| spec_doc(s)) == old(v)@.map_values(
            |s: OptionSpec| spec_doc(s),
        ) + docs_fifth(),
{
    let ghost start = v@;
    v.push(option_spec(
        "reorder_impl_items",
        "<boolean>",
        OptionValue::Bool(false),
        false,
        "Reorder impl items",
        no_choices(),
    ));
    v.push(option_spec(
        "type_punctuation_density",
        "[Compressed|Wide]",
        OptionValue::Choice("Wide".to_owned()),
        false,
        "Determines if '+' or '=' are wrapped in spaces in the punctuation of types",
        type_density_choices(),
    ));
    v.push(option_spec(
        "space_before_colon",
        "<boolean>",
        OptionValue::Bool(false),
        false,
        "Leave a space before the colon",
        no_choices(),
    ));
    v.push(option_spec(
        "space_after_colon",
        "<boolean>",
        OptionValue::Bool(true),
        false,
        "Leave a space after the colon",
        no_choices(),
    ));
    v.push(option_spec(
        "spaces_around_ranges",
        "<boolean>",
        OptionValue::Bool(false),
        false,
        "Put spaces around the  .. and ..= range operators",
        no_choices(),
    ));
    v.push(option_spec(
        "binop_separator",
        "[Front|Back]",
        OptionValue::Choice("Front".to_owned()),
        false,
        "Where to put a binary operator when a binary expression goes multiline",
        separator_place_choices(),
    ));
    assert(v@.map_values(|s: OptionSpec| spec_summary(s)) =~= start.map_values(
        |s: OptionSpec| spec_summary(s),
    ) + table_fifth());
    assert(v@.map_values(|s: OptionSpec| spec_doc(s)) =~= start.map_values(
        |s: OptionSpec| spec_doc(s),
    ) + docs_fifth());
}

/// Adds the sixth group of the formatter's options.
fn options_sixth(v: &mut Vec<OptionSpec>)
    ensures
        final(v)@.map_values(|s: OptionSpec| spec_summary(s)) == old(v)@.map_values(
            |s: OptionSpec| spec_summary(s),
        ) + table_sixth(),
        final(v)@.map_values(|s: OptionSpec| spec_doc(s)) == old(v)@.map_values(
            |s: OptionSpec| spec_doc(s),
        ) + docs_sixth(),
{
    let ghost start = v@;
    v.push(option_spec(
        "remove_nested_parens",
        "<boolean>",
        OptionValue::Bool(true),
        true,
        "Remove nested parens",
        no_choices(),
    ));
    v.push(option_spec(
        "combine_control_expr",
        "<boolean>",
        OptionValue::Bool(true),
        false,
        "Combine control expressions with function calls",
        no_choices(),
    ));
    v.push(option_spec(
        "overflow_delimited_expr",
        "<boolean>",
        OptionValue::Bool(false),
        false,
        "Allow trailing bracket/brace delimited expressions to overflow",
        no_choices(),
    ));
    v.push(option_spec(
        "struct_field_align_threshold",
        "<unsigned integer>",
        OptionValue::Usize(0),
        false,
        "Align struct fields if their diffs fits within threshold",
        no_choices(),
    ));
    v.push(option_spec(
        "enum_discrim_align_threshold",
        "<unsigned integer>",
        OptionValue::Usize(0),
        false,
        "Align enum variants discrims, if their diffs fit within threshold",
        no_choices(),
    ));
    v.push(option_spec(
        "match_arm_blocks",
        "<boolean>",
        OptionValue::Bool(true),
        false,
        "Wrap the body of arms in blocks when it does not fit on the same line with the pattern of arms",
        no_choices(),
    ));
    assert(v@.map_values(|s: OptionSpec| spec_summary(s)) =~= start.map_values(
        |s: OptionSpec| spec_summary(s),
    ) + table_sixth());
    assert(v@.map_values(|s: OptionSpec| spec_doc(s)) =~= start.map_values(
        |s: OptionSpec| spec_doc(s),
    ) + docs_sixth());
}

/// Adds the seventh group of the formatter's options.
fn options_seventh(v: &mut Vec<OptionSpec>)
    ensures
        final(v)@.map_values(|s: OptionSpec| spec_summary(s)) == old(v)@.map_values(
            |s: OptionSpec| spec_summary(s),
        ) + table_seventh(),
        final(v)@.map_values(|s: OptionSpec| spec_doc(s)) == old(v)@.map_values(
            |s: OptionSpec| spec_doc(s),
        ) + docs_seventh(),
{
    let ghost start = v@;
    v.push(option_spec(
        "force_multiline_blocks",
        "<boolean>",
        OptionValue::Bool(false),
        false,
        "Force multiline closure bodies and match arms to be wrapped in a block",
        no_choices(),
    ));
    v.push(option_spec(
        "fn_args_layout",
        "[Compressed|Tall|Vertical]",
        OptionValue::Choice("Tall".to_owned()),
        true,
        "Control the layout of arguments in a function",
        density_choices(),
    ));
    v.push(option_spec(
        "brace_style",
        "[AlwaysNextLine|PreferSameLine|SameLineWhere]",
        OptionValue::Choice("SameLineWhere".to_owned()),
        false,
        "Brace style for items",
        brace_style_choices(),
    ));
    v.push(option_spec(
        "control_brace_style",
        "[AlwaysSameLine|ClosingNextLine|AlwaysNextLine]",
        OptionValue::Choice("AlwaysSameLine".to_owned()),
        false,
        "Brace style for control flow constructs",
        control_brace_style_choices(),
    ));
    v.push(option_spec(
        "trailing_semicolon",
        "<boolean>",
        OptionValue::Bool(true),
        false,
        "Add trailing semicolon after break, continue and return",
        no_choices(),
    ));
    v.push(option_spec(
        "trailing_comma",
        "[Always|Never|Vertical]",
        OptionValue::Choice("Vertical".to_owned()),
        false,
        "How to handle trailing commas for lists",
        separator_tactic_choices(),
    ));
    assert(v@.map_values(|s: OptionSpec| spec_summary(s)) =~= start.map_values(
        |s: OptionSpec| spec_summary(s),
    ) + table_seventh());
    assert(v@.map_values(|s: OptionSpec| spec_doc(s)) =~= start.map_values(
        |s: OptionSpec| spec_doc(s),
    ) + docs_seventh());
}

/// Adds the eighth group of the formatter's options.
fn options_eighth(v: &mut Vec<OptionSpec>)
    ensures
        final(v)@.map_values(|s: OptionSpec| spec_summary(s)) == old(v)@.map_values(
            |s: OptionSpec| spec_summary(s),
        ) + table_eighth(),
        final(v)@.map_values(|s: OptionSpec| spec_doc(s)) == old(v)@.map_values(
            |s: OptionSpec| spec_doc(s),
        ) + docs_eighth(),
{
    let ghost start = v@;
    v.push(option_spec(
        "match_block_trailing_comma",
        "<boolean>",
        OptionValue::Bool(false),
        false,
        "Put a trailing comma after a block based match arm (non-block arms are not affected)",
        no_choices(),
    ));
    v.push(option_spec(
        "blank_lines_upper_bound",
        "<unsigned integer>",
        OptionValue::Usize(1),
        false,
        "Maximum number of blank lines which can be put between items",
        no_choices(),
    ));
    v.push(option_spec(
        "blank_lines_lower_bound",
        "<unsigned integer>",
        OptionValue::Usize(0),
        false,
        "Minimum number of blank lines which must be put between items",
        no_choices(),
    ));
    v.push(option_spec(
        "edition",
        "[2015|2018]",
        OptionValue::Choice("2015".to_owned()),
        true,
        "The edition of the parser (RFC 2052)",
        edition_choices(),
    ));
    v.push(option_spec(
        "version",
        "[One|Two]",
        OptionValue::Choice("One".to_owned()),
        false,
        "Version of formatting rules",
        version_choices(),
    ));
    v.push(option_spec(
        "inline_attribute_width",
        "<unsigned integer>",
        OptionValue::Usize(0),
        false,
        "Write an item and its attribute on the same line if their combined width is below a threshold",
        no_choices(),
    ));
    assert(v@.map_values(|s: OptionSpec| spec_summary(s)) =~= start.map_values(
        |s: OptionSpec| spec_summary(s),
    ) + table_eighth());
    assert(v@.map_values(|s: OptionSpec| spec_doc(s)) =~= start.map_values(
        |s: OptionSpec| spec_doc(s),
    ) + docs_eighth());
}

/// Adds the ninth group of the formatter's options.
fn options_ninth(v: &mut Vec<OptionSpec>)
    ensures
        final(v)@.map_values(|s: OptionSpec| spec_summary(s)) == old(v)@.map_values(
            |s: OptionSpec| spec_summary(s),
        ) + table_ninth(),
        final(v)@.map_values(|s: OptionSpec| spec_doc(s)) == old(v)@.map_values(
            |s: OptionSpec| spec_doc(s),
        ) + docs_ninth(),
{
    let ghost start = v@;
    v.push(option_spec(
        "merge_derives",
        "<boolean>",
        OptionValue::Bool(true),
        true,
        "Merge multiple `#[derive(...)]` into a single one",
        no_choices(),
    ));
    v.push(option_spec(
        "use_try_shorthand",
        "<boolean>",
        OptionValue::Bool(false),
        true,
        "Replace uses of the try! macro by the ? shorthand",
        no_choices(),
    ));
    v.push(option_spec(
        "use_field_init_shorthand",
        "<boolean>",
        OptionValue::Bool(false),
        true,
        "Use field initialization shorthand if possible",
        no_choices(),
    ));
    v.push(option_spec(
        "force_explicit_abi",
        "<boolean>",
        OptionValue::Bool(true),
        true,
        "Always print the abi for extern items",
        no_choices(),
    ));
    v.push(option_spec(
        "condense_wildcard_suffixes",
        "<boolean>",
        OptionValue::Bool(false),
        false,
        "Replace strings of _ wildcards by a single .. in tuple patterns",
        no_choices(),
    ));
    v.push(option_spec(
        "color",
        "[Always|Never|Auto]",
        OptionValue::Choice("Auto".to_owned()),
        false,
        "What Color option to use when none is supplied: Always, Never, Auto",
        color_choices(),
    ));
    assert(v@.map_values(|s: OptionSpec| spec_summary(s)) =~= start.map_values(
        |s: OptionSpec| spec_summary(s),
    ) + table_ninth());
    assert(v@.map_values(|s: OptionSpec| spec_doc(s)) =~= start.map_values(
        |s: OptionSpec| spec_doc(s),
    ) + docs_ninth());
}

/// Adds the tenth group of the formatter's options.
fn options_tenth(v: &mut Vec<OptionSpec>)
    ensures
        final(v)@.map_values(|s: OptionSpec| spec_summary(s)) == old(v)@.map_values(
            |s: OptionSpec| spec_summary(s),
        ) + table_tenth(),
        final(v)@.map_values(|s: OptionSpec| spec_doc(s)) == old(v)@.map_values(
            |s: OptionSpec| spec_doc(s),
        ) + docs_tenth(),
{
    let ghost start = v@;
    v.push(option_spec(
        "required_version",
        "<string>",
        OptionValue::Text(version().to_owned()),
        false,
        "Require a specific version of rustfmt",
        no_choices(),
    ));
    v.push(option_spec(
        "unstable_features",
        "<boolean>",
        OptionValue::Bool(false),
        false,
        "Enables unstable features. Only available on nightly channel",
        no_choices(),
    ));
    v.push(option_spec(
        "disable_all_formatting",
        "<boolean>",
        OptionValue::Bool(false),
        false,
        "Don't reformat anything",
        no_choices(),
    ));
    v.push(option_spec(
        "skip_children",
        "<boolean>",
        OptionValue::Bool(false),
        false,
        "Don't reformat out of line modules",
        no_choices(),
    ));
    v.push(option_spec(
        "hide_parse_errors",
        "<boolean>",
        OptionValue::Bool(false),
        false,
        "Hide errors from the parser",
        no_choices(),
    ));
    v.push(option_spec(
        "error_on_line_overflow",
        "<boolean>",
        OptionValue::Bool(false),
        false,
        "Error if unable to get all lines within max_width",
        no_choices(),
    ));
    assert(v@.map_values(|s: OptionSpec| spec_summary(s)) =~= start.map_values(
        |s: OptionSpec| spec_summary(s),
    ) + table_tenth());
    assert(v@.map_values(|s: OptionSpec| spec_doc(s)) =~= start.map_values(
        |s: OptionSpec| spec_doc(s),
    ) + docs_tenth());
}

/// Adds the eleventh group of the formatter's options.
fn options_eleventh(v: &mut Vec<OptionSpec>)
    ensures
        final(v)@.map_values(|s: OptionSpec| spec_summary(s)) == old(v)@.map_values(
            |s: OptionSpec| spec_summary(s),
        ) + table_eleventh(),
        final(v)@.map_values(|s: OptionSpec| spec_doc(s)) == old(v)@.map_values(
            |s: OptionSpec| spec_doc(s),
        ) + docs_eleventh(),
{
    let ghost start = v@;
    v.push(option_spec(
        "error_on_unformatted",
        "<boolean>",
        OptionValue::Bool(false),
        false,
        "Error if unable to get comments or string literals within max_width, or they are left with trailing whitespaces",
        no_choices(),
    ));
    v.push(option_spec(
        "report_todo",
        "[Always|Unnumbered|Never]",
        OptionValue::Choice("Never".to_owned()),
        false,
        "Report all, none or unnumbered occurrences of TODO in source file comments",
        report_tactic_choices(),
    ));
    v.push(option_spec(
        "report_fixme",
        "[Always|Unnumbered|Never]",
        OptionValue::Choice("Never".to_owned()),
        false,
        "Report all, none or unnumbered occurrences of FIXME in source file comments",
        report_tactic_choices(),
    ));
    v.push(option_spec(
        "ignore",
        "[<string>,..]",
        no_paths(),
        false,
        "Skip formatting the specified files and directories",
        no_choices(),
    ));
    v.push(option_spec(
        "verbose",
        "[Verbose|Normal|Quiet]",
        OptionValue::Choice("Normal".to_owned()),
        false,
        "How much to information to emit to the user",
        verbosity_choices(),
    ));
    v.push(option_spec(
        "file_lines",
        "<json>",
        OptionValue::Internal,
        false,
        "Lines to format; this is not supported in rustfmt.toml, and can only be specified via the --file-lines option",
        no_choices(),
    ));
    assert(v@.map_values(|s: OptionSpec| spec_summary(s)) =~= start.map_values(
        |s: OptionSpec| spec_summary(s),
    ) + table_eleventh());
    assert(v@.map_values(|s: OptionSpec| spec_doc(s)) =~= start.map_values(
        |s: OptionSpec| spec_doc(s),
    ) + docs_eleventh());
}

/// Adds the twelfth group of the formatter's options.
fn options_twelfth(v: &mut Vec<OptionSpec>)
    ensures
        final(v)@.map_values(|s: OptionSpec| spec_summary(s)) == old(v)@.map_values(
            |s: OptionSpec| spec_summary(s),
        ) + table_twelfth(),
        final(v)@.map_values(|s: OptionSpec| spec_doc(s)) == old(v)@.map_values(
            |s: OptionSpec| spec_doc(s),
        ) + docs_twelfth(),
{
    let ghost start = v@;
    v.push(option_spec(
        "width_heuristics",
        "",
        OptionValue::Internal,
        false,
        "'small' heuristic values",
        no_choices(),
    ));
    v.push(option_spec(
        "emit_mode",
        "[Files|Stdout|Coverage|Checkstyle|ModifiedLines|Diff]",
        OptionValue::Choice("Files".to_owned()),
        false,
        "What emit Mode to use when none is supplied",
        emit_mode_choices(),
    ));
    v.push(option_spec(
        "make_backup",
        "<boolean>",
        OptionValue::Bool(false),
        false,
        "Backup changed files",
        no_choices(),
    ));
    assert(v@.map_values(|s: OptionSpec| spec_summary(s)) =~= start.map_values(
        |s: OptionSpec| spec_summary(s),
    ) + table_twelfth());
    assert(v@.map_values(|s: OptionSpec| spec_doc(s)) =~= start.map_values(
        |s: OptionSpec| spec_doc(s),
    ) + docs_twelfth());
}

/// The formatter's options, with their documentation.
pub fn rustfmt_options() -> (v: Vec<OptionSpec>)
    ensures
        v@.map_values(|s: OptionSpec| spec_summary(s)) == rustfmt_table(),
        v@.map_values(|s: OptionSpec| spec_doc(s)) == rustfmt_docs(),
{
    let mut v = options_first();
    options_second(&mut v);
    options_third(&mut v);
    options_fourth(&mut v);
    options_fifth(&mut v);
    options_sixth(&mut v);
    options_seventh(&mut v);
    options_eighth(&mut v);
    options_ninth(&mut v);
    options_tenth(&mut v);
    options_eleventh(&mut v);
    options_twelfth(&mut v);
    v
}

/// Whether `k` is the key of one of the options that the stable channel
/// takes from a configuration file.
pub open spec fn stable_key(k: Seq<char>) -> bool {
    k == "max_width"@
        || k == "hard_tabs"@
        || k == "tab_spaces"@
        || k == "newline_style"@
        || k == "use_small_heuristics"@
        || k == "reorder_imports"@
        || k == "reorder_modules"@
        || k == "remove_nested_parens"@
        || k == "fn_args_layout"@
        || k == "edition"@
        || k == "merge_derives"@
        || k == "use_try_shorthand"@
        || k == "use_field_init_shorthand"@
        || k == "force_explicit_abi"@
}

/// The key and stability of each of the formatter's options.
proof fn lemma_table_rows()
    ensures
        rustfmt_table().len() == 69,
        rustfmt_table()[0].0 == "max_width"@ && rustfmt_table()[0].2 == true,
        rustfmt_table()[1].0 == "hard_tabs"@ && rustfmt_table()[1].2 == true,
        rustfmt_table()[2].0 == "tab_spaces"@ && rustfmt_table()[2].2 == true,
        rustfmt_table()[3].0 == "newline_style"@ && rustfmt_table()[3].2 == true,
        rustfmt_table()[4].0 == "use_small_heuristics"@ && rustfmt_table()[4].2 == true,
        rustfmt_table()[5].0 == "indent_style"@ && rustfmt_table()[5].2 == false,
        rustfmt_table()[6].0 == "wrap_comments"@ && rustfmt_table()[6].2 == false,
        rustfmt_table()[7].0 == "format_code_in_doc_comments"@ && rustfmt_table()[7].2 == false,
        rustfmt_table()[8].0 == "comment_width"@ && rustfmt_table()[8].2 == false,
        rustfmt_table()[9].0 == "normalize_comments"@ && rustfmt_table()[9].2 == false,
        rustfmt_table()[10].0 == "normalize_doc_attributes"@ && rustfmt_table()[10].2 == false,
        rustfmt_table()[11].0 == "license_template_path"@ && rustfmt_table()[11].2 == false,
        rustfmt_table()[12].0 == "format_strings"@ && rustfmt_table()[12].2 == false,
        rustfmt_table()[13].0 == "format_macro_matchers"@ && rustfmt_table()[13].2 == false,
        rustfmt_table()[14].0 == "format_macro_bodies"@ && rustfmt_table()[14].2 == false,
        rustfmt_table()[15].0 == "empty_item_single_line"@ && rustfmt_table()[15].2 == false,
        rustfmt_table()[16].0 == "struct_lit_single_line"@ && rustfmt_table()[16].2 == false,
        rustfmt_table()[17].0 == "fn_single_line"@ && rustfmt_table()[17].2 == false,
        rustfmt_table()[18].0 == "where_single_line"@ && rustfmt_table()[18].2 == false,
        rustfmt_table()[19].0 == "imports_indent"@ && rustfmt_table()[19].2 == false,
        rustfmt_table()[20].0 == "imports_layout"@ && rustfmt_table()[20].2 == false,
        rustfmt_table()[21].0 == "merge_imports"@ && rustfmt_table()[21].2 == false,
        rustfmt_table()[22].0 == "reorder_imports"@ && rustfmt_table()[22].2 == true,
        rustfmt_table()[23].0 == "reorder_modules"@ && rustfmt_table()[23].2 == true,
        rustfmt_table()[24].0 == "reorder_impl_items"@ && rustfmt_table()[24].2 == false,
        rustfmt_table()[25].0 == "type_punctuation_density"@ && rustfmt_table()[25].2 == false,
        rustfmt_table()[26].0 == "space_before_colon"@ && rustfmt_table()[26].2 == false,
        rustfmt_table()[27].0 == "space_after_colon"@ && rustfmt_table()[27].2 == false,
        rustfmt_table()[28].0 == "spaces_around_ranges"@ && rustfmt_table()[28].2 == false,
        rustfmt_table()[29].0 == "binop_separator"@ && rustfmt_table()[29].2 == false,
        rustfmt_table()[30].0 == "remove_nested_parens"@ && rustfmt_table()[30].2 == true,
        rustfmt_table()[31].0 == "combine_control_expr"@ && rustfmt_table()[31].2 == false,
        rustfmt_table()[32].0 == "overflow_delimited_expr"@ && rustfmt_table()[32].2 == false,
        rustfmt_table()[33].0 == "struct_field_align_threshold"@ && rustfmt_table()[33].2 == false,
        rustfmt_table()[34].0 == "enum_discrim_align_threshold"@ && rustfmt_table()[34].2 == false,
        rustfmt_table()[35].0 == "match_arm_blocks"@ && rustfmt_table()[35].2 == false,
        rustfmt_table()[36].0 == "force_multiline_blocks"@ && rustfmt_table()[36].2 == false,
        rustfmt_table()[37].0 == "fn_args_layout"@ && rustfmt_table()[37].2 == true,
        rustfmt_table()[38].0 == "brace_style"@ && rustfmt_table()[38].2 == false,
        rustfmt_table()[39].0 == "control_brace_style"@ && rustfmt_table()[39].2 == false,
        rustfmt_table()[40].0 == "trailing_semicolon"@ && rustfmt_table()[40].2 == false,
        rustfmt_table()[41].0 == "trailing_comma"@ && rustfmt_table()[41].2 == false,
        rustfmt_table()[42].0 == "match_block_trailing_comma"@ && rustfmt_table()[42].2 == false,
        rustfmt_table()[43].0 == "blank_lines_upper_bound"@ && rustfmt_table()[43].2 == false,
        rustfmt_table()[44].0 == "blank_lines_lower_bound"@ && rustfmt_table()[44].2 == false,
        rustfmt_table()[45].0 == "edition"@ && rustfmt_table()[45].2 == true,
        rustfmt_table()[46].0 == "version"@ && rustfmt_table()[46].2 == false,
        rustfmt_table()[47].0 == "inline_attribute_width"@ && rustfmt_table()[47].2 == false,
        rustfmt_table()[48].0 == "merge_derives"@ && rustfmt_table()[48].2 == true,
        rustfmt_table()[49].0 == "use_try_shorthand"@ && rustfmt_table()[49].2 == true,
        rustfmt_table()[50].0 == "use_field_init_shorthand"@ && rustfmt_table()[50].2 == true,
        rustfmt_table()[51].0 == "force_explicit_abi"@ && rustfmt_table()[51].2 == true,
        rustfmt_table()[52].0 == "condense_wildcard_suffixes"@ && rustfmt_table()[52].2 == false,
        rustfmt_table()[53].0 == "color"@ && rustfmt_table()[53].2 == false,
        rustfmt_table()[54].0 == "required_version"@ && rustfmt_table()[54].2 == false,
        rustfmt_table()[55].0 == "unstable_features"@ && rustfmt_table()[55].2 == false,
        rustfmt_table()[56].0 == "disable_all_formatting"@ && rustfmt_table()[56].2 == false,
        rustfmt_table()[57].0 == "skip_children"@ && rustfmt_table()[57].2 == false,
        rustfmt_table()[58].0 == "hide_parse_errors"@ && rustfmt_table()[58].2 == false,
        rustfmt_table()[59].0 == "error_on_line_overflow"@ && rustfmt_table()[59].2 == false,
        rustfmt_table()[60].0 == "error_on_unformatted"@ && rustfmt_table()[60].2 == false,
        rustfmt_table()[61].0 == "report_todo"@ && rustfmt_table()[61].2 == false,
        rustfmt_table()[62].0 == "report_fixme"@ && rustfmt_table()[62].2 == false,
        rustfmt_table()[63].0 == "ignore"@ && rustfmt_table()[63].2 == false,
        rustfmt_table()[64].0 == "verbose"@ && rustfmt_table()[64].2 == false,
        rustfmt_table()[65].0 == "file_lines"@ && rustfmt_table()[65].2 == false,
        rustfmt_table()[66].0 == "width_heuristics"@ && rustfmt_table()[66].2 == false,
        rustfmt_table()[67].0 == "emit_mode"@ && rustfmt_table()[67].2 == false,
        rustfmt_table()[68].0 == "make_backup"@ && rustfmt_table()[68].2 == false,
{
}

/// An option of the formatter is stable exactly when its key is one of the
/// stable keys (`max_width`, `hard_tabs`, `tab_spaces`, `newline_style`,
/// `use_small_heuristics`, `reorder_imports`, `reorder_modules`,
/// `remove_nested_parens`, `fn_args_layout`, `edition`, `merge_derives`,
/// `use_try_shorthand`, `use_field_init_shorthand`, `force_explicit_abi`):
/// every stable option has such a key, and each such key is the key of a
/// stable option.
pub proof fn law_stable_options()
    ensures
        forall|i: int|
            0 <= i < rustfmt_table().len() && (#[trigger] rustfmt_table()[i]).2 ==> stable_key(
                rustfmt_table()[i].0,
            ),
        forall|k: Seq<char>|
            stable_key(k) ==> exists|i: int|
                0 <= i < rustfmt_table().len() && (#[trigger] rustfmt_table()[i]).0 == k
                    && rustfmt_table()[i].2,
{
    lemma_table_rows();
    assert forall|i: int|
        0 <= i < rustfmt_table().len() && (#[trigger] rustfmt_table()[i]).2 implies stable_key(
        rustfmt_table()[i].0,
    ) by {
        if i == 0 {
        } else if i == 1 {
        } else if i == 2 {
        } else if i == 3 {
        } else if i == 4 {
        } else if i == 22 {
        } else if i == 23 {
        } else if i == 30 {
        } else if i == 37 {
        } else if i == 45 {
        } else if i == 48 {
        } else if i == 49 {
        } else if i == 50 {
        } else if i == 51 {
        }
    }
    assert forall|k: Seq<char>| stable_key(k) implies exists|i: int|
        0 <= i < rustfmt_table().len() && (#[trigger] rustfmt_table()[i]).0 == k
            && rustfmt_table()[i].2 by {
        if k == "max_width"@ {
            assert(rustfmt_table()[0].0 == k && rustfmt_table()[0].2);
        } else if k == "hard_tabs"@ {
            assert(rustfmt_table()[1].0 == k && rustfmt_table()[1].2);
        } else if k == "tab_spaces"@ {
            assert(rustfmt_table()[2].0 == k && rustfmt_table()[2].2);
        } else if k == "newline_style"@ {
            assert(rustfmt_table()[3].0 == k && rustfmt_table()[3].2);
        } else if k == "use_small_heuristics"@ {
            assert(rustfmt_table()[4].0 == k && rustfmt_table()[4].2);
        } else if k == "reorder_imports"@ {
            assert(rustfmt_table()[22].0 == k && rustfmt_table()[22].2);
        } else if k == "reorder_modules"@ {
            assert(rustfmt_table()[23].0 == k && rustfmt_table()[23].2);
        } else if k == "remove_nested_parens"@ {
            assert(rustfmt_table()[30].0 == k && rustfmt_table()[30].2);
        } else if k == "fn_args_layout"@ {
            assert(rustfmt_table()[37].0 == k && rustfmt_table()[37].2);
        } else if k == "edition"@ {
            assert(rustfmt_table()[45].0 == k && rustfmt_table()[45].2);
        } else if k == "merge_derives"@ {
            assert(rustfmt_table()[48].0 == k && rustfmt_table()[48].2);
        } else if k == "use_try_shorthand"@ {
            assert(rustfmt_table()[49].0 == k && rustfmt_table()[49].2);
        } else if k == "use_field_init_shorthand"@ {
            assert(rustfmt_table()[50].0 == k && rustfmt_table()[50].2);
        } else if k == "force_explicit_abi"@ {
            assert(rustfmt_table()[51].0 == k && rustfmt_table()[51].2);
        }
    }
}

} // verus!
