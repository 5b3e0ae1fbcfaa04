//! Taking a configuration file's values: checking them against the options,
//! matching variant names, and the rules of stable and unstable options.
use vstd::prelude::*;
use crate::config::{Config, PartialConfig, index_of, names, is_first_index, lemma_first_index_unique};
use crate::options::{OptionSpec, OptionValue, ValueView, same_kind, strings_view, rustfmt_table, rustfmt_docs, spec_doc, spec_summary};
use crate::text::{eq_ignore_ascii_case, str_eq_ignore_ascii_case};
use crate::toml_text::{toml_parse_keys, toml_document_keys};

verus! {

/// The first variant in `choices` equal to `c` without regard to ASCII case.
pub open spec fn canonical_choice(choices: Seq<Seq<char>>, c: Seq<char>) -> Option<Seq<char>>
    decreases choices.len(),
{
    if choices.len() == 0 {
        None
    } else if eq_ignore_ascii_case(choices[0], c) {
        Some(choices[0])
    } else {
        canonical_choice(choices.drop_first(), c)
    }
}

/// The variants quoted in backticks and joined by `", "`.
pub open spec fn quoted_list(choices: Seq<Seq<char>>) -> Seq<char>
    decreases choices.len(),
{
    if choices.len() == 0 {
        Seq::empty()
    } else if choices.len() == 1 {
        "`"@ + choices[0] + "`"@
    } else {
        quoted_list(choices.drop_last()) + ", "@ + "`"@ + choices.last() + "`"@
    }
}

/// The variants as a message lists what was expected.
pub open spec fn expected_text(choices: Seq<Seq<char>>) -> Seq<char> {
    if choices.len() == 2 {
        "`"@ + choices[0] + "` or `"@ + choices[1] + "`"@
    } else if choices.len() == 1 {
        quoted_list(choices)
    } else {
        "one of "@ + quoted_list(choices)
    }
}

/// The key, default value, stability and variant names of an option.
pub open spec fn summaries(specs: Seq<OptionSpec>) -> Seq<(Seq<char>, ValueView, bool, Seq<Seq<char>>)> {
    specs.map_values(|s: OptionSpec| spec_summary(s))
}

/// The keys of a table of option summaries.
pub open spec fn keys(table: Seq<(Seq<char>, ValueView, bool, Seq<Seq<char>>)>) -> Seq<Seq<char>> {
    table.map_values(|s: (Seq<char>, ValueView, bool, Seq<Seq<char>>)| s.0)
}

/// The keys of the summaries are the keys of the descriptions.
pub proof fn lemma_keys_of_summaries(specs: Seq<OptionSpec>)
    ensures
        keys(summaries(specs)) == names(specs),
{
    assert(keys(summaries(specs)) =~= names(specs));
}

/// How a value read from a configuration file is taken for an option: its
/// kind must be the option's, and a variant name is matched without regard
/// to ASCII case and replaced by the variant's own spelling.
pub open spec fn decode_value(spec: (Seq<char>, ValueView, bool, Seq<Seq<char>>), v: ValueView) -> Result<ValueView, Seq<char>> {
    if !same_kind(v, spec.1) {
        Err("invalid type for key `"@ + spec.0 + "`"@)
    } else {
        match v {
            ValueView::Choice(c) => if spec.3.len() == 0 {
                Ok(v)
            } else {
                match canonical_choice(spec.3, c) {
                    Some(k) => Ok(ValueView::Choice(k)),
                    None => Err(
                        "unknown variant `"@ + c + "`, expected "@ + expected_text(spec.3)
                            + " for key `"@ + spec.0 + "`"@,
                    ),
                }
            },
            _ => Ok(v),
        }
    }
}

/// The state after taking the entries of a parsed configuration in order:
/// the values, the set flags and the keys of the unstable options that were
/// refused; or the first error. Keys that name no option are passed over.
pub open spec fn fill_state(
    specs: Seq<(Seq<char>, ValueView, bool, Seq<Seq<char>>)>,
    values: Seq<ValueView>,
    flags: Seq<bool>,
    entries: Seq<(Seq<char>, Option<ValueView>)>,
    nightly: bool,
) -> Result<(Seq<ValueView>, Seq<bool>, Seq<Seq<char>>), Seq<char>>
    decreases entries.len(),
{
    if entries.len() == 0 {
        Ok((values, flags, Seq::empty()))
    } else {
        match fill_state(specs, values, flags, entries.drop_last(), nightly) {
            Err(e) => Err(e),
            Ok(state) => {
                let (vs, fs, refused) = state;
                let (name, value) = entries.last();
                match value {
                    None => Ok(state),
                    Some(v) => match index_of(keys(specs), name) {
                        None => Ok(state),
                        Some(i) => match decode_value(specs[i], v) {
                            Err(e) => Err(e),
                            Ok(w) => if specs[i].2 || nightly {
                                Ok((vs.update(i, w), fs.update(i, true), refused))
                            } else {
                                Ok((vs, fs, refused.push(name)))
                            },
                        },
                    },
                }
            },
        }
    }
}

/// Once a prefix of the entries fails, taking all of them fails the same way.
pub proof fn lemma_fill_error_persists(
    specs: Seq<(Seq<char>, ValueView, bool, Seq<Seq<char>>)>,
    values: Seq<ValueView>,
    flags: Seq<bool>,
    entries: Seq<(Seq<char>, Option<ValueView>)>,
    nightly: bool,
    i: int,
    err: Seq<char>,
)
    requires
        0 <= i <= entries.len(),
        fill_state(specs, values, flags, entries.take(i), nightly) == Err::<
            (Seq<ValueView>, Seq<bool>, Seq<Seq<char>>),
            Seq<char>,
        >(err),
    ensures
        fill_state(specs, values, flags, entries, nightly) == Err::<
            (Seq<ValueView>, Seq<bool>, Seq<Seq<char>>),
            Seq<char>,
        >(err),
    decreases entries.len() - i,
{
    if i < entries.len() {
        assert(entries.take(i + 1).drop_last() =~= entries.take(i));
        lemma_fill_error_persists(specs, values, flags, entries, nightly, i + 1, err);
    } else {
        assert(entries.take(i) =~= entries);
    }
}

/// The variant of `choices` that `c` names without regard to ASCII case.
fn find_choice(choices: &Vec<String>, c: &str) -> (r: Option<String>)
    ensures
        opt_text(r) == canonical_choice(strings_view(choices@), c@),
{
    let mut i: usize = 0;
    assert(strings_view(choices@).skip(0) =~= strings_view(choices@));
    while i < choices.len()
        invariant
            i <= choices.len(),
            canonical_choice(strings_view(choices@), c@) == canonical_choice(
                strings_view(choices@).skip(i as int),
                c@,
            ),
        decreases choices.len() - i,
    {
        assert(strings_view(choices@).skip(i as int)[0] == choices@[i as int]@);
        assert(strings_view(choices@).skip(i as int).drop_first() =~= strings_view(choices@).skip(
            i + 1,
        ));
        if str_eq_ignore_ascii_case(choices[i].as_str(), c) {
            return Some(choices[i].clone());
        }
        i = i + 1;
    }
    assert(strings_view(choices@).skip(i as int).len() == 0);
    None
}

/// The model of an optional text.
pub open spec fn opt_text(r: Option<String>) -> Option<Seq<char>> {
    match r {
        Some(s) => Some(s@),
        None => None,
    }
}

/// The variants quoted in backticks and joined by `", "`.
fn quoted_list_text(choices: &Vec<String>) -> (r: String)
    ensures
        r@ == quoted_list(strings_view(choices@)),
{
    let ghost views = strings_view(choices@);
    let mut r = String::new();
    for i in 0..choices.len()
        invariant
            views == strings_view(choices@),
            r@ == quoted_list(views.take(i as int)),
    {
        assert(views.take(i + 1).drop_last() =~= views.take(i as int));
        if i != 0 {
            r.append(", ");
        }
        r.append("`");
        r.append(choices[i].as_str());
        r.append("`");
        assert(r@ =~= quoted_list(views.take(i + 1)));
    }
    assert(views.take(choices.len() as int) =~= views);
    r
}

/// The variants as a message lists what was expected.
fn expected_choices(choices: &Vec<String>) -> (r: String)
    ensures
        r@ == expected_text(strings_view(choices@)),
{
    if choices.len() == 2 {
        let mut r = "`".to_owned();
        r.append(choices[0].as_str());
        r.append("` or `");
        r.append(choices[1].as_str());
        r.append("`");
        r
    } else if choices.len() == 1 {
        quoted_list_text(choices)
    } else {
        let mut r = "one of ".to_owned();
        let list = quoted_list_text(choices);
        r.append(list.as_str());
        r
    }
}

/// Takes a value read from a configuration file for an option.
pub(crate) fn decode(spec: &OptionSpec, v: &OptionValue) -> (r: Result<OptionValue, String>)
    ensures
        match decode_value(spec_summary(*spec), v@) {
            Ok(w) => r matches Ok(x) && x@ == w,
            Err(e) => r matches Err(m) && m@ == e,
        },
{
    let kind_ok = match (v, &spec.default) {
        (OptionValue::Bool(_), OptionValue::Bool(_)) => true,
        (OptionValue::Usize(_), OptionValue::Usize(_)) => true,
        (OptionValue::Text(_), OptionValue::Text(_)) => true,
        (OptionValue::Choice(_), OptionValue::Choice(_)) => true,
        (OptionValue::Paths(_), OptionValue::Paths(_)) => true,
        (OptionValue::Internal, OptionValue::Internal) => true,
        _ => false,
    };
    if !kind_ok {
        let mut m = "invalid type for key `".to_owned();
        m.append(spec.name.as_str());
        m.append("`");
        return Err(m);
    }
    match v {
        OptionValue::Choice(c) => {
            if spec.choices.len() == 0 {
                return Ok(v.copy());
            }
            match find_choice(&spec.choices, c.as_str()) {
                Some(k) => Ok(OptionValue::Choice(k)),
                None => {
                    let mut m = "unknown variant `".to_owned();
                    m.append(c.as_str());
                    m.append("`, expected ");
                    let expected = expected_choices(&spec.choices);
                    m.append(expected.as_str());
                    m.append(" for key `");
                    m.append(spec.name.as_str());
                    m.append("`");
                    Err(m)
                },
            }
        },
        _ => Ok(v.copy()),
    }
}

/// The default value of each of the formatter's options.
pub open spec fn default_values() -> Seq<ValueView> {
    rustfmt_table().map_values(|s: (Seq<char>, ValueView, bool, Seq<Seq<char>>)| s.1)
}

/// `n` flags, none raised.
pub open spec fn no_flags(n: nat) -> Seq<bool> {
    Seq::new(n, |i: int| false)
}

/// The warning about a key that names no option.
pub open spec fn unknown_key_warning(key: Seq<char>) -> Seq<char> {
    "Warning: Unknown configuration option `"@ + key + "`\n"@
}

/// A warning for each key of a document that names no option, in order.
pub open spec fn unknown_key_warnings(known: Seq<Seq<char>>, doc_keys: Seq<Seq<char>>) -> Seq<char>
    decreases doc_keys.len(),
{
    if doc_keys.len() == 0 {
        Seq::empty()
    } else {
        unknown_key_warnings(known, doc_keys.drop_last()) + if known.contains(doc_keys.last()) {
            Seq::<char>::empty()
        } else {
            unknown_key_warning(doc_keys.last())
        }
    }
}

/// The message when a configuration file's values cannot be taken.
pub open spec fn decoding_failed(warnings: Seq<char>, e: Seq<char>) -> Seq<char> {
    warnings + "Error: Decoding config file failed:\n"@ + e + "\n"@ + "Please check your config file."@
}

/// The message when a configuration file's values cannot be taken.
fn decoding_failed_message(warnings: &String, e: &str) -> (m: String)
    ensures
        m@ == decoding_failed(warnings@, e@),
{
    let mut m = warnings.clone();
    m.append("Error: Decoding config file failed:\n");
    m.append(e);
    m.append("\n");
    m.append("Please check your config file.");
    m
}

/// The model of the decoded values of a configuration file, or of the
/// decoder's error.
pub open spec fn decoded_view(decoded: Result<PartialConfig, String>) -> Result<
    Seq<(Seq<char>, Option<ValueView>)>,
    Seq<char>,
> {
    match decoded {
        Ok(p) => Ok(p@),
        Err(e) => Err(e@),
    }
}

/// What reading a configuration file gives, from the keys of its parsed
/// document (or the parser's error) and its decoded values (or the decoder's
/// error): the values and set flags of the options, the warnings about keys
/// that name no option, and the refused unstable options; or the message.
pub open spec fn read_document(
    doc: Result<Option<Seq<Seq<char>>>, Seq<char>>,
    decoded: Result<Seq<(Seq<char>, Option<ValueView>)>, Seq<char>>,
    nightly: bool,
) -> Result<(Seq<ValueView>, Seq<bool>, Seq<char>, Seq<Seq<char>>), Seq<char>> {
    match doc {
        Err(e) => Err("Could not parse TOML: "@ + e),
        Ok(None) => Err("Parsed config was not table"@),
        Ok(Some(doc_keys)) => {
            let w = unknown_key_warnings(keys(rustfmt_table()), doc_keys);
            match decoded {
                Err(e) => Err(decoding_failed(w, e)),
                Ok(p) => match fill_state(
                    rustfmt_table(),
                    default_values(),
                    no_flags(rustfmt_table().len()),
                    p,
                    nightly,
                ) {
                    Err(e) => Err(decoding_failed(w, e)),
                    Ok(st) => Ok((st.0, st.1, w, st.2)),
                },
            }
        },
    }
}

/// A configuration built from a file: the formatter's options, the values
/// and set flags read, and no option read yet.
pub open spec fn read_config(c: Config, values: Seq<ValueView>, set_flags: Seq<bool>) -> bool {
    &&& c.wf()
    &&& summaries(c.options()) == rustfmt_table()
    &&& c.options().map_values(|s: OptionSpec| spec_doc(s)) == rustfmt_docs()
    &&& c.values() == values
    &&& c.set_flags() == set_flags
    &&& c.accessed_flags() == no_flags(rustfmt_table().len())
}

impl Config {
    /// Reads a configuration file's text. `decoded` holds one entry per
    /// option, in the order of the option table, with the value that the
    /// document gives it (none where it gives none) as the `toml` crate
    /// deserializes it, or the text of the decoder's error. On success the result
    /// holds the configuration (the defaults with the file's options taken),
    /// the warnings about keys that name no option, and the keys of the
    /// unstable options that were refused.
    pub fn from_toml(toml: &str, decoded: Result<PartialConfig, String>, nightly: bool) -> (r: Result<
        (Config, String, Vec<String>),
        String,
    >)
        ensures
            match read_document(toml_parse_keys(toml@), decoded_view(decoded), nightly) {
                Err(e) => r matches Err(m) && m@ == e,
                Ok(st) => r matches Ok(res) && read_config(res.0, st.0, st.1) && res.1@ == st.2
                    && strings_view(res.2@) == st.3,
            },
    {
        let doc_keys = match toml_document_keys(toml) {
            Err(e) => {
                let mut m = "Could not parse TOML: ".to_owned();
                m.append(e.as_str());
                return Err(m);
            },
            Ok(None) => {
                return Err("Parsed config was not table".to_owned());
            },
            Ok(Some(k)) => k,
        };
        let base = Config::default();
        proof {
            lemma_keys_of_summaries(base.options());
        }
        let ghost known = keys(rustfmt_table());
        let ghost doc = strings_view(doc_keys@);
        let mut warnings = String::new();
        assert(doc.take(0) =~= Seq::<Seq<char>>::empty());
        for i in 0..doc_keys.len()
            invariant
                base.wf(),
                names(base.options()) == known,
                doc == strings_view(doc_keys@),
                warnings@ == unknown_key_warnings(known, doc.take(i as int)),
        {
            assert(doc.take(i + 1).drop_last() =~= doc.take(i as int));
            if !base.is_valid_name(doc_keys[i].as_str()) {
                warnings.append("Warning: Unknown configuration option `");
                warnings.append(doc_keys[i].as_str());
                warnings.append("`\n");
            }
        }
        assert(doc.take(doc_keys.len() as int) =~= doc);
        match decoded {
            Err(e) => Err(decoding_failed_message(&warnings, e.as_str())),
            Ok(p) => match base.fill_from_parsed_config(&p, nightly) {
                Err(e) => Err(decoding_failed_message(&warnings, e.as_str())),
                Ok((c, refused)) => Ok((c, warnings, refused)),
            },
        }
    }
}

/// On the nightly channel no option is refused.
pub proof fn law_nightly_refuses_nothing(
    specs: Seq<(Seq<char>, ValueView, bool, Seq<Seq<char>>)>,
    values: Seq<ValueView>,
    flags: Seq<bool>,
    entries: Seq<(Seq<char>, Option<ValueView>)>,
)
    ensures
        fill_state(specs, values, flags, entries, true) matches Ok(st) ==> st.2.len() == 0,
    decreases entries.len(),
{
    if entries.len() > 0 {
        law_nightly_refuses_nothing(specs, values, flags, entries.drop_last());
    }
}

/// A parsed configuration that sets no option leaves the values and the set
/// flags as they were and refuses nothing.
pub proof fn law_empty_file_keeps_defaults(
    specs: Seq<(Seq<char>, ValueView, bool, Seq<Seq<char>>)>,
    values: Seq<ValueView>,
    flags: Seq<bool>,
    entries: Seq<(Seq<char>, Option<ValueView>)>,
    nightly: bool,
)
    requires
        forall|i: int| 0 <= i < entries.len() ==> (#[trigger] entries[i]).1 is None,
    ensures
        fill_state(specs, values, flags, entries, nightly) == Ok::<
            (Seq<ValueView>, Seq<bool>, Seq<Seq<char>>),
            Seq<char>,
        >((values, flags, Seq::empty())),
    decreases entries.len(),
{
    if entries.len() > 0 {
        law_empty_file_keeps_defaults(specs, values, flags, entries.drop_last(), nightly);
        assert(entries.last().1 is None);
    }
}

/// No warning is given exactly when every key of the document names an option.
pub proof fn law_no_warnings_iff_all_known(known: Seq<Seq<char>>, doc_keys: Seq<Seq<char>>)
    ensures
        unknown_key_warnings(known, doc_keys).len() == 0 <==> forall|i: int|
            0 <= i < doc_keys.len() ==> known.contains(#[trigger] doc_keys[i]),
    decreases doc_keys.len(),
{
    if doc_keys.len() > 0 {
        law_no_warnings_iff_all_known(known, doc_keys.drop_last());
        let last = doc_keys.last();
        if !known.contains(last) {
            reveal_strlit("Warning: Unknown configuration option `");
            assert(unknown_key_warnings(known, doc_keys).len() > 0);
        }
        if forall|i: int| 0 <= i < doc_keys.len() ==> known.contains(#[trigger] doc_keys[i]) {
            assert forall|i: int| 0 <= i < doc_keys.drop_last().len() implies known.contains(
                #[trigger] doc_keys.drop_last()[i],
            ) by {
                assert(doc_keys.drop_last()[i] == doc_keys[i]);
            }
            assert(known.contains(doc_keys[doc_keys.len() - 1]));
        }
        if unknown_key_warnings(known, doc_keys).len() == 0 {
            assert forall|i: int| 0 <= i < doc_keys.len() implies known.contains(
                #[trigger] doc_keys[i],
            ) by {
                if i < doc_keys.len() - 1 {
                    assert(doc_keys.drop_last()[i] == doc_keys[i]);
                }
            }
        }
    }
}

/// The warnings about the keys of two lists one after the other are those
/// of the first, then those of the second.
pub proof fn lemma_warnings_concat(known: Seq<Seq<char>>, a: Seq<Seq<char>>, b: Seq<Seq<char>>)
    ensures
        unknown_key_warnings(known, a + b) == unknown_key_warnings(known, a)
            + unknown_key_warnings(known, b),
    decreases b.len(),
{
    if b.len() == 0 {
        assert(a + b =~= a);
    } else {
        lemma_warnings_concat(known, a, b.drop_last());
        assert((a + b).drop_last() =~= a + b.drop_last());
        assert((a + b).last() == b.last());
    }
}

/// A key of the document that names no option changes nothing that is read
/// but the warnings: with the same decoded values, reading succeeds or fails
/// alike; on success the values, the set flags and the refused options are
/// the same, and the warnings gain one line for the key, at its place among
/// the keys; on failure the message gains that line too.
pub proof fn law_unknown_key_only_warns(
    doc_keys: Seq<Seq<char>>,
    i: int,
    k: Seq<char>,
    decoded: Result<Seq<(Seq<char>, Option<ValueView>)>, Seq<char>>,
    nightly: bool,
)
    requires
        0 <= i <= doc_keys.len(),
        !keys(rustfmt_table()).contains(k),
    ensures
        ({
            let known = keys(rustfmt_table());
            let before = unknown_key_warnings(known, doc_keys.take(i));
            let after = unknown_key_warnings(known, doc_keys.skip(i));
            let with_k = read_document(Ok(Some(doc_keys.insert(i, k))), decoded, nightly);
            let without = read_document(Ok(Some(doc_keys)), decoded, nightly);
            &&& unknown_key_warnings(known, doc_keys) == before + after
            &&& (with_k is Ok <==> without is Ok)
            &&& (without matches Ok(x) ==> with_k matches Ok(y) && y.0 == x.0 && y.1 == x.1 && y.3
                == x.3 && y.2 == before + unknown_key_warning(k) + after)
            &&& (without matches Err(e1) ==> with_k matches Err(e2) && e1 == before + after
                + e1.skip((before + after).len() as int) && e2 == before + unknown_key_warning(k)
                + after + e1.skip((before + after).len() as int))
        }),
{
    let known = keys(rustfmt_table());
    let a = doc_keys.take(i);
    let b = doc_keys.skip(i);
    assert(doc_keys =~= a + b);
    lemma_warnings_concat(known, a, b);
    assert(doc_keys.insert(i, k) =~= (a + seq![k]) + b);
    lemma_warnings_concat(known, a + seq![k], b);
    lemma_warnings_concat(known, a, seq![k]);
    assert(seq![k].drop_last() =~= Seq::<Seq<char>>::empty());
    assert(seq![k].last() == k);
    assert(unknown_key_warnings(known, Seq::<Seq<char>>::empty()) == Seq::<char>::empty());
    assert(Seq::<char>::empty() + unknown_key_warning(k) =~= unknown_key_warning(k));
    assert(unknown_key_warnings(known, seq![k]) == unknown_key_warning(k));
    let w1 = unknown_key_warnings(known, doc_keys);
    let w2 = unknown_key_warnings(known, doc_keys.insert(i, k));
    assert(w2 == unknown_key_warnings(known, a) + unknown_key_warning(k) + unknown_key_warnings(known, b));
    let without = read_document(Ok(Some(doc_keys)), decoded, nightly);
    if let Err(e1) = without {
        let tail = e1.skip(w1.len() as int);
        assert(e1 =~= w1 + tail);
    }
}

/// A single value for option `i` (the first option with that key) that
/// decodes is taken when the option is stable or the channel is nightly:
/// the option gets the decoded value and is marked as set, and nothing is
/// refused. An unstable option on the stable channel is refused instead: the
/// values and set flags stay as they were and its key is the one refused.
pub proof fn law_stability_decides(
    specs: Seq<(Seq<char>, ValueView, bool, Seq<Seq<char>>)>,
    values: Seq<ValueView>,
    flags: Seq<bool>,
    name: Seq<char>,
    v: ValueView,
    w: ValueView,
    i: int,
    nightly: bool,
)
    requires
        is_first_index(keys(specs), name, i),
        decode_value(specs[i], v) == Ok::<ValueView, Seq<char>>(w),
    ensures
        specs[i].2 || nightly ==> fill_state(specs, values, flags, seq![(name, Some(v))], nightly)
            == Ok::<(Seq<ValueView>, Seq<bool>, Seq<Seq<char>>), Seq<char>>(
            (values.update(i, w), flags.update(i, true), Seq::empty()),
        ),
        !specs[i].2 && !nightly ==> fill_state(specs, values, flags, seq![(name, Some(v))], nightly)
            == Ok::<(Seq<ValueView>, Seq<bool>, Seq<Seq<char>>), Seq<char>>(
            (values, flags, seq![name]),
        ),
{
    lemma_first_index_unique(keys(specs), name, i);
    let entries = seq![(name, Some(v))];
    assert(entries.drop_last() =~= Seq::<(Seq<char>, Option<ValueView>)>::empty());
    assert(entries.last() == (name, Some(v)));
    assert(fill_state(specs, values, flags, entries.drop_last(), nightly) == Ok::<
        (Seq<ValueView>, Seq<bool>, Seq<Seq<char>>),
        Seq<char>,
    >((values, flags, Seq::empty())));
    assert(index_of(keys(specs), name) == Some(i));
    assert(Seq::<Seq<char>>::empty().push(name) =~= seq![name]);
}

/// A variant name is matched without regard to ASCII case, to the first
/// variant that equals it so; there is a match exactly when some variant
/// equals it so.
pub proof fn law_choice_matching(choices: Seq<Seq<char>>, c: Seq<char>)
    ensures
        canonical_choice(choices, c) is Some <==> exists|i: int|
            0 <= i < choices.len() && eq_ignore_ascii_case(#[trigger] choices[i], c),
        canonical_choice(choices, c) matches Some(k) ==> exists|i: int|
            0 <= i < choices.len() && #[trigger] choices[i] == k && eq_ignore_ascii_case(k, c)
                && forall|j: int| 0 <= j < i ==> !eq_ignore_ascii_case(#[trigger] choices[j], c),
    decreases choices.len(),
{
    if choices.len() > 0 {
        let rest = choices.drop_first();
        law_choice_matching(rest, c);
        if eq_ignore_ascii_case(choices[0], c) {
            assert(choices[0] == choices[0]);
        } else {
            if exists|i: int| 0 <= i < choices.len() && eq_ignore_ascii_case(#[trigger] choices[i], c) {
                let i = choose|i: int| 0 <= i < choices.len() && eq_ignore_ascii_case(#[trigger] choices[i], c);
                assert(i > 0);
                assert(rest[i - 1] == choices[i]);
            }
            if exists|i: int| 0 <= i < rest.len() && eq_ignore_ascii_case(#[trigger] rest[i], c) {
                let i = choose|i: int| 0 <= i < rest.len() && eq_ignore_ascii_case(#[trigger] rest[i], c);
                assert(choices[i + 1] == rest[i]);
            }
            if let Some(k) = canonical_choice(choices, c) {
                let i = choose|i: int|
                    0 <= i < rest.len() && #[trigger] rest[i] == k && eq_ignore_ascii_case(k, c)
                        && forall|j: int| 0 <= j < i ==> !eq_ignore_ascii_case(#[trigger] rest[j], c);
                assert(choices[i + 1] == k);
                assert forall|j: int| 0 <= j < i + 1 implies !eq_ignore_ascii_case(#[trigger] choices[j], c) by {
                    if j > 0 {
                        assert(choices[j] == rest[j - 1]);
                    }
                }
            }
        }
    }
}

/// A value whose kind is not the option's is refused; a value of the
/// option's kind that is not a variant name, or is one for an option
/// without a list of variants, is taken as it is; a variant name is taken
/// as the variant it names without regard to ASCII case, and refused when
/// it names none.
pub proof fn law_decoding(spec: (Seq<char>, ValueView, bool, Seq<Seq<char>>), v: ValueView)
    ensures
        !same_kind(v, spec.1) ==> decode_value(spec, v) is Err,
        same_kind(v, spec.1) && !(v is Choice) ==> decode_value(spec, v) == Ok::<
            ValueView,
            Seq<char>,
        >(v),
        same_kind(v, spec.1) && v is Choice && spec.3.len() == 0 ==> decode_value(spec, v) == Ok::<
            ValueView,
            Seq<char>,
        >(v),
        same_kind(v, spec.1) && v is Choice && spec.3.len() > 0 ==> (decode_value(spec, v) is Ok
            <==> exists|i: int|
            0 <= i < spec.3.len() && eq_ignore_ascii_case(#[trigger] spec.3[i], v->Choice_0)),
        (same_kind(v, spec.1) && v is Choice && spec.3.len() > 0 && decode_value(spec, v) is Ok)
            ==> ({
            let w = decode_value(spec, v)->Ok_0;
            &&& w is Choice
            &&& spec.3.contains(w->Choice_0)
            &&& eq_ignore_ascii_case(w->Choice_0, v->Choice_0)
        }),
{
    if v is Choice {
        law_choice_matching(spec.3, v->Choice_0);
    }
}

} // verus!
