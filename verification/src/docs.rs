//! The documentation of the options.
use vstd::prelude::*;
use crate::config::Config;
use crate::options::{OptionSpec, OptionValue, ValueView};
use crate::text::{str_eq, spaces, push_spaces, join, join_strings, byte_len, decimal, decimal_string};

verus! {

/// The key of an option that the documentation leaves out.
pub open spec fn is_hidden_name(name: Seq<char>) -> bool {
    name == "verbose"@ || name == "verbose_diff"@ || name == "file_lines"@ || name
        == "width_heuristics"@
}

/// Whether `name` is the key of an option that the documentation leaves out.
pub fn is_hidden_option(name: &str) -> (r: bool)
    ensures
        r == is_hidden_name(name@),
{
    str_eq(name, "verbose") || str_eq(name, "verbose_diff") || str_eq(name, "file_lines")
        || str_eq(name, "width_heuristics")
}

/// How a value is shown in the documentation.
pub open spec fn display_text(v: ValueView) -> Seq<char> {
    match v {
        ValueView::Bool(b) => if b {
            "true"@
        } else {
            "false"@
        },
        ValueView::Usize(n) => decimal(n as nat),
        ValueView::Text(t) => t,
        ValueView::Choice(c) => c,
        ValueView::Paths(p) => "["@ + join(p, ", "@) + "]"@,
        ValueView::Internal => Seq::empty(),
    }
}

/// How a default value is shown in the documentation: an empty text is shown as `""`.
pub open spec fn default_text(v: ValueView) -> Seq<char> {
    if display_text(v).len() == 0 {
        "\"\""@
    } else {
        display_text(v)
    }
}

/// One more than the longest key, in bytes.
pub open spec fn max_name_width(specs: Seq<OptionSpec>) -> nat
    decreases specs.len(),
{
    if specs.len() == 0 {
        0
    } else {
        let m = max_name_width(specs.drop_last());
        let w = byte_len(specs.last().name@) + 1;
        if w > m {
            w
        } else {
            m
        }
    }
}

/// The documentation of one option: the key right-aligned to `width - 1`
/// columns, its type, its default and whether it is unstable; then its
/// description indented by `width`; then a blank line.
pub open spec fn doc_entry(s: OptionSpec, width: nat) -> Seq<char> {
    spaces((width - 1 - byte_len(s.name@)) as nat) + s.name@ + " "@ + s.hint@ + " Default: "@
        + default_text(s.default@) + (if s.stable {
        Seq::empty()
    } else {
        " (unstable)"@
    }) + "\n"@ + spaces(width) + s.doc@ + "\n"@ + "\n"@
}

/// An option appears in the documentation: it is stable or unstable options
/// are asked for, and it is not hidden.
pub open spec fn documented(s: OptionSpec, include_unstable: bool) -> bool {
    (s.stable || include_unstable) && !is_hidden_name(s.name@)
}

/// The documentation of the options that appear, in order.
pub open spec fn docs_body(specs: Seq<OptionSpec>, include_unstable: bool, width: nat) -> Seq<
    char,
>
    decreases specs.len(),
{
    if specs.len() == 0 {
        Seq::empty()
    } else {
        docs_body(specs.drop_last(), include_unstable, width) + if documented(
            specs.last(),
            include_unstable,
        ) {
            doc_entry(specs.last(), width)
        } else {
            Seq::empty()
        }
    }
}

/// The full text of the options' documentation.
pub open spec fn docs_text(specs: Seq<OptionSpec>, include_unstable: bool) -> Seq<char> {
    "Configuration Options:\n"@ + docs_body(specs, include_unstable, max_name_width(specs))
}

/// Shows a value as the documentation does.
pub fn display_value(v: &OptionValue) -> (r: String)
    ensures
        r@ == display_text(v@),
{
    match v {
        OptionValue::Bool(b) => if *b {
            "true".to_owned()
        } else {
            "false".to_owned()
        },
        OptionValue::Usize(n) => decimal_string(*n),
        OptionValue::Text(t) => t.clone(),
        OptionValue::Choice(c) => c.clone(),
        OptionValue::Paths(p) => {
            let mut r = "[".to_owned();
            let inner = join_strings(p, ", ");
            r.append(inner.as_str());
            r.append("]");
            r
        },
        OptionValue::Internal => String::new(),
    }
}

/// The width that the documentation aligns keys to.
fn name_width(specs: &Vec<OptionSpec>) -> (w: usize)
    requires
        forall|i: int| 0 <= i < specs@.len() ==> byte_len(#[trigger] specs@[i].name@) < usize::MAX,
    ensures
        w == max_name_width(specs@),
{
    let mut w: usize = 0;
    for i in 0..specs.len()
        invariant
            forall|i: int| 0 <= i < specs@.len() ==> byte_len(#[trigger] specs@[i].name@) < usize::MAX,
            w == max_name_width(specs@.take(i as int)),
    {
        assert(specs@.take(i + 1).drop_last() =~= specs@.take(i as int));
        assert(byte_len(specs@[i as int].name@) < usize::MAX);
        let n = specs[i].name.as_str().len() + 1;
        if n > w {
            w = n;
        }
    }
    assert(specs@.take(specs.len() as int) =~= specs@);
    w
}

/// The documentation of one option.
fn doc_entry_text(spec: &OptionSpec, width: usize) -> (r: String)
    requires
        byte_len(spec.name@) + 1 <= width,
    ensures
        r@ == doc_entry(*spec, width as nat),
{
    let mut out = String::new();
    let len = spec.name.as_str().len();
    push_spaces(&mut out, width - 1 - len);
    out.append(spec.name.as_str());
    out.append(" ");
    out.append(spec.hint.as_str());
    out.append(" Default: ");
    let shown = display_value(&spec.default);
    if shown.as_str().is_empty() {
        out.append("\"\"");
    } else {
        out.append(shown.as_str());
    }
    if !spec.stable {
        out.append(" (unstable)");
    }
    out.append("\n");
    push_spaces(&mut out, width);
    out.append(spec.doc.as_str());
    out.append("\n");
    out.append("\n");
    assert(out@ =~= doc_entry(*spec, width as nat));
    out
}

impl Config {
    /// The documentation of the options: the stable ones, and the unstable
    /// ones too when `include_unstable` holds; hidden options are left out.
    pub fn print_docs(&self, include_unstable: bool) -> (r: String)
        requires
            forall|i: int|
                0 <= i < self.options().len() ==> byte_len(#[trigger] self.options()[i].name@)
                    < usize::MAX,
        ensures
            r@ == docs_text(self.options(), include_unstable),
    {
        let specs = self.option_specs();
        let width = name_width(specs);
        let mut out = "Configuration Options:\n".to_owned();
        assert(specs@.take(0) =~= Seq::<OptionSpec>::empty());
        for i in 0..specs.len()
            invariant
                specs@ == self.options(),
                width == max_name_width(specs@),
                forall|i: int| 0 <= i < specs@.len() ==> byte_len(#[trigger] specs@[i].name@) < usize::MAX,
                out@ == "Configuration Options:\n"@ + docs_body(specs@.take(i as int), include_unstable, width as nat),
        {
            assert(specs@.take(i + 1).drop_last() =~= specs@.take(i as int));
            let spec = &specs[i];
            proof {
                lemma_name_fits(specs@, i as int);
            }
            if (spec.stable || include_unstable) && !is_hidden_option(spec.name.as_str()) {
                let entry = doc_entry_text(spec, width);
                out.append(entry.as_str());
            }
        }
        assert(specs@.take(specs.len() as int) =~= specs@);
        out
    }
}

/// Each key is shorter than the documentation width.
proof fn lemma_name_fits(specs: Seq<OptionSpec>, i: int)
    requires
        0 <= i < specs.len(),
    ensures
        byte_len(specs[i].name@) + 1 <= max_name_width(specs),
    decreases specs.len(),
{
    if i < specs.len() - 1 {
        lemma_name_fits(specs.drop_last(), i);
        assert(specs.drop_last()[i] == specs[i]);
    }
}

/// The options documented when unstable options are left out are those
/// documented when they are asked for, keeping the stable ones only.
pub proof fn law_docs_without_unstable(specs: Seq<OptionSpec>, width: nat)
    ensures
        docs_body(specs, false, width) == docs_body(
            specs.filter(|s: OptionSpec| s.stable),
            true,
            width,
        ),
    decreases specs.len(),
{
    reveal(Seq::filter);
    if specs.len() > 0 {
        law_docs_without_unstable(specs.drop_last(), width);
        let f = specs.filter(|s: OptionSpec| s.stable);
        let g = specs.drop_last().filter(|s: OptionSpec| s.stable);
        if specs.last().stable {
            assert(f == g.push(specs.last()));
            assert(f.drop_last() =~= g);
        } else {
            assert(f == g);
        }
    }
}

} // verus!
