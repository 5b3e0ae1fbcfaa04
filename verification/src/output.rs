//! Writing a partial configuration as a TOML document.
use vstd::prelude::*;
use crate::config::{PartialConfig, PartialEntry, entry_view};
use crate::options::{OptionValue, ValueView};
use crate::text::str_eq;
use crate::toml_text::{toml_entry_text, text_result, toml_bool_entry, toml_usize_entry, toml_text_entry, toml_paths_entry};

verus! {

/// The key of an option that only the command line sets, never a configuration file.
pub open spec fn non_user_facing(name: Seq<char>) -> bool {
    name == "file_lines"@ || name == "verbose"@ || name == "width_heuristics"@
}

/// The value that is written for an option: an enumerated option is written
/// as the string of its variant.
pub open spec fn toml_value(v: ValueView) -> ValueView {
    match v {
        ValueView::Choice(c) => ValueView::Text(c),
        _ => v,
    }
}

/// An entry of a partial configuration is written out: it has a value, the
/// value has a form in a configuration file, and the option is not one that
/// only the command line sets.
pub open spec fn written(e: (Seq<char>, Option<ValueView>)) -> bool {
    match e.1 {
        Some(v) => !non_user_facing(e.0) && !(v is Internal),
        None => false,
    }
}

/// What an entry contributes to the TOML document: nothing when it is not
/// written out, else what the `toml` crate gives for it alone.
pub open spec fn entry_result(e: (Seq<char>, Option<ValueView>)) -> Option<
    Result<Seq<char>, Seq<char>>,
> {
    match e.1 {
        Some(v) => if written(e) {
            Some(toml_entry_text(e.0, toml_value(v)))
        } else {
            None
        },
        None => None,
    }
}

/// The document made of the entries' texts: the texts of those that are
/// written out, in order, or the first error.
pub open spec fn joined_entries(texts: Seq<Option<Result<Seq<char>, Seq<char>>>>) -> Result<
    Seq<char>,
    Seq<char>,
>
    decreases texts.len(),
{
    if texts.len() == 0 {
        Ok(Seq::empty())
    } else {
        match joined_entries(texts.drop_last()) {
            Err(e) => Err(e),
            Ok(text) => match texts.last() {
                None => Ok(text),
                Some(Ok(t)) => Ok(text + t),
                Some(Err(e)) => Err(e),
            },
        }
    }
}

/// The TOML document for a partial configuration.
pub open spec fn toml_document(entries: Seq<(Seq<char>, Option<ValueView>)>) -> Result<
    Seq<char>,
    Seq<char>,
> {
    joined_entries(entries.map_values(|e: (Seq<char>, Option<ValueView>)| entry_result(e)))
}

/// Once a prefix of the texts fails, the whole document fails with the same error.
pub proof fn lemma_joined_error_persists(
    texts: Seq<Option<Result<Seq<char>, Seq<char>>>>,
    i: int,
    err: Seq<char>,
)
    requires
        0 <= i <= texts.len(),
        joined_entries(texts.take(i)) == Err::<Seq<char>, Seq<char>>(err),
    ensures
        joined_entries(texts) == Err::<Seq<char>, Seq<char>>(err),
    decreases texts.len() - i,
{
    if i < texts.len() {
        assert(texts.take(i + 1).drop_last() =~= texts.take(i));
        lemma_joined_error_persists(texts, i + 1, err);
    } else {
        assert(texts.take(i) =~= texts);
    }
}

/// The model of the entries' texts.
pub open spec fn texts_view(texts: Seq<Option<Result<String, String>>>) -> Seq<
    Option<Result<Seq<char>, Seq<char>>>,
> {
    texts.map_values(
        |t: Option<Result<String, String>>|
            match t {
                Some(r) => Some(text_result(r)),
                None => None,
            },
    )
}

/// Joins the entries' texts into a TOML document (see [`joined_entries`]);
/// an error is reported after `Could not output config: `.
pub fn document_from_entries(texts: &Vec<Option<Result<String, String>>>) -> (r: Result<
    String,
    String,
>)
    ensures
        match joined_entries(texts_view(texts@)) {
            Ok(t) => text_result(r) == Ok::<Seq<char>, Seq<char>>(t),
            Err(e) => text_result(r) == Err::<Seq<char>, Seq<char>>(
                "Could not output config: "@ + e,
            ),
        },
{
    let ghost all = texts_view(texts@);
    let mut out = String::new();
    assert(all.take(0) =~= Seq::<Option<Result<Seq<char>, Seq<char>>>>::empty());
    for i in 0..texts.len()
        invariant
            all == texts_view(texts@),
            joined_entries(all.take(i as int)) == Ok::<Seq<char>, Seq<char>>(out@),
    {
        assert(all.take(i + 1).drop_last() =~= all.take(i as int));
        assert(all.take(i + 1).last() == all[i as int]);
        match &texts[i] {
            None => {},
            Some(Ok(t)) => {
                out.append(t.as_str());
            },
            Some(Err(e)) => {
                proof {
                    lemma_joined_error_persists(all, i + 1, e@);
                }
                let mut msg = String::new();
                msg.append("Could not output config: ");
                msg.append(e.as_str());
                return Err(msg);
            },
        }
    }
    assert(all.take(texts.len() as int) =~= all);
    Ok(out)
}

/// Whether `name` is the key of an option that only the command line sets.
pub fn is_non_user_facing(name: &str) -> (r: bool)
    ensures
        r == non_user_facing(name@),
{
    str_eq(name, "file_lines") || str_eq(name, "verbose") || str_eq(name, "width_heuristics")
}

/// The TOML text of one entry, when it is written out.
fn entry_text(e: &PartialEntry) -> (r: Option<Result<String, String>>)
    ensures
        match r {
            Some(t) => entry_result(entry_view(*e)) == Some(text_result(t)),
            None => entry_result(entry_view(*e)) is None,
        },
{
    match &e.value {
        None => None,
        Some(v) => {
            if is_non_user_facing(e.name.as_str()) {
                return None;
            }
            match v {
                OptionValue::Bool(b) => Some(toml_bool_entry(e.name.as_str(), *b)),
                OptionValue::Usize(n) => Some(toml_usize_entry(e.name.as_str(), *n)),
                OptionValue::Text(t) => Some(toml_text_entry(e.name.as_str(), t.as_str())),
                OptionValue::Choice(c) => Some(toml_text_entry(e.name.as_str(), c.as_str())),
                OptionValue::Paths(p) => Some(toml_paths_entry(e.name.as_str(), p)),
                OptionValue::Internal => None,
            }
        },
    }
}

impl PartialConfig {
    /// Writes the configuration as a TOML document. Absent options, options
    /// with no form in a file, and the options that only the command line sets
    /// (`file_lines`, `verbose`, `width_heuristics`) are left out.
    pub fn to_toml(&self) -> (r: Result<String, String>)
        ensures
            match toml_document(self@) {
                Ok(t) => text_result(r) == Ok::<Seq<char>, Seq<char>>(t),
                Err(e) => text_result(r) == Err::<Seq<char>, Seq<char>>(
                    "Could not output config: "@ + e,
                ),
            },
    {
        let ghost want = self@.map_values(
            |e: (Seq<char>, Option<ValueView>)| entry_result(e),
        );
        let mut texts: Vec<Option<Result<String, String>>> = Vec::new();
        for i in 0..self.entries.len()
            invariant
                want == self@.map_values(|e: (Seq<char>, Option<ValueView>)| entry_result(e)),
                self@.len() == self.entries@.len(),
                texts@.len() == i,
                forall|j: int| 0 <= j < i ==> #[trigger] texts_view(texts@)[j] == want[j],
        {
            assert(self@[i as int] == entry_view(self.entries@[i as int]));
            let t = entry_text(&self.entries[i]);
            let ghost before = texts@;
            texts.push(t);
            assert forall|j: int| 0 <= j < i + 1 implies #[trigger] texts_view(texts@)[j]
                == want[j] by {
                if j < i {
                    assert(texts@[j] == before[j]);
                    assert(texts_view(before)[j] == want[j]);
                }
            }
        }
        assert(texts_view(texts@) =~= want);
        document_from_entries(&texts)
    }
}

/// The entries with the options that only the command line sets left absent.
pub open spec fn without_command_line_options(entries: Seq<(Seq<char>, Option<ValueView>)>) -> Seq<
    (Seq<char>, Option<ValueView>),
> {
    entries.map_values(
        |e: (Seq<char>, Option<ValueView>)|
            if non_user_facing(e.0) {
                (e.0, None::<ValueView>)
            } else {
                e
            },
    )
}

/// The options that only the command line sets never reach a TOML document:
/// the document is the same with them absent.
pub proof fn law_command_line_options_not_written(entries: Seq<(Seq<char>, Option<ValueView>)>)
    ensures
        toml_document(entries) == toml_document(without_command_line_options(entries)),
{
    let f = |e: (Seq<char>, Option<ValueView>)| entry_result(e);
    assert(entries.map_values(f) =~= without_command_line_options(entries).map_values(f));
}

} // verus!
