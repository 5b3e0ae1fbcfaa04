//! The formatter's configuration: the options, what was set and what was
//! read, and the partial configurations taken from it.
use vstd::prelude::*;
use crate::options::{OptionSpec, OptionValue, ValueView, same_kind, strings_view, rustfmt_options, rustfmt_table, rustfmt_docs, spec_doc, version, version_view};
use crate::text::str_eq;
use crate::docs::{display_text, display_value};
use crate::reading::{fill_state, summaries, keys, lemma_keys_of_summaries, lemma_fill_error_persists, decode, default_values, no_flags};

verus! {

/// One option of a partial configuration: its key and, when present, its value.
#[derive(Debug)]
pub struct PartialEntry {
    pub name: String,
    pub value: Option<OptionValue>,
}

/// A configuration in which each option may be absent.
#[derive(Debug)]
pub struct PartialConfig {
    pub entries: Vec<PartialEntry>,
}

/// The model of an optional value.
pub open spec fn opt_view(v: Option<OptionValue>) -> Option<ValueView> {
    match v {
        Some(x) => Some(x@),
        None => None,
    }
}

/// The model of a partial configuration entry.
pub open spec fn entry_view(e: PartialEntry) -> (Seq<char>, Option<ValueView>) {
    (e.name@, opt_view(e.value))
}

impl View for PartialConfig {
    type V = Seq<(Seq<char>, Option<ValueView>)>;

    open spec fn view(&self) -> Seq<(Seq<char>, Option<ValueView>)> {
        self.entries@.map_values(|e: PartialEntry| entry_view(e))
    }
}

/// The keys of a list of option descriptions.
pub open spec fn names(specs: Seq<OptionSpec>) -> Seq<Seq<char>> {
    specs.map_values(|s: OptionSpec| s.name@)
}

/// `i` is the first position at which `name` occurs in `keys`.
pub open spec fn is_first_index(keys: Seq<Seq<char>>, name: Seq<char>, i: int) -> bool {
    &&& 0 <= i < keys.len()
    &&& keys[i] == name
    &&& forall|j: int| 0 <= j < i ==> keys[j] != name
}

/// The first position of `name` in `keys`, if it occurs.
pub open spec fn index_of(keys: Seq<Seq<char>>, name: Seq<char>) -> Option<int> {
    if exists|i: int| is_first_index(keys, name, i) {
        Some(choose|i: int| is_first_index(keys, name, i))
    } else {
        None
    }
}

/// There is at most one first position.
pub proof fn lemma_first_index_unique(keys: Seq<Seq<char>>, name: Seq<char>, i: int)
    requires
        is_first_index(keys, name, i),
    ensures
        index_of(keys, name) == Some(i),
{
    let k = choose|k: int| is_first_index(keys, name, k);
    assert(is_first_index(keys, name, k));
    if k < i {
        assert(keys[k] != name);
    }
    if i < k {
        assert(keys[i] != name);
    }
}

/// A value is accepted for an option: it is of the option's kind and, for an
/// enumerated option, one of its variants.
pub open spec fn accepts(spec: OptionSpec, v: ValueView) -> bool {
    &&& same_kind(v, spec.default@)
    &&& (v matches ValueView::Choice(c) ==> spec.choices@.len() == 0 || strings_view(
        spec.choices@,
    ).contains(c))
}

/// The formatter's configuration: for each option, its value, whether it was
/// set from a configuration file, and whether it has been read.
#[derive(Debug)]
pub struct Config {
    specs: Vec<OptionSpec>,
    values: Vec<OptionValue>,
    set_flags: Vec<bool>,
    accessed: Vec<bool>,
}

impl Config {
    /// The parts of the configuration agree: one value and two flags per
    /// option, and each value of its option's kind.
    pub closed spec fn wf(&self) -> bool {
        &&& self.values.len() == self.specs.len()
        &&& self.set_flags.len() == self.specs.len()
        &&& self.accessed.len() == self.specs.len()
        &&& forall|i: int|
            0 <= i < self.specs.len() ==> same_kind(
                #[trigger] self.values@[i]@,
                self.specs@[i].default@,
            )
    }

    /// The descriptions of the options, in order.
    pub closed spec fn options(&self) -> Seq<OptionSpec> {
        self.specs@
    }

    /// The value of each option.
    pub closed spec fn values(&self) -> Seq<ValueView> {
        self.values@.map_values(|v: OptionValue| v@)
    }

    /// For each option, whether a configuration file set it.
    pub closed spec fn set_flags(&self) -> Seq<bool> {
        self.set_flags@
    }

    /// For each option, whether it has been read.
    pub closed spec fn accessed_flags(&self) -> Seq<bool> {
        self.accessed@
    }

    /// The number of options.
    pub open spec fn len(&self) -> nat {
        self.options().len()
    }
}

/// A well-formed configuration has one value, one set flag and one read
/// flag per option.
pub proof fn lemma_wf_lengths(c: &Config)
    requires
        c.wf(),
    ensures
        c.values().len() == c.len(),
        c.set_flags().len() == c.len(),
        c.accessed_flags().len() == c.len(),
{
}

/// Whether a value is accepted for an option.
pub fn accepts_value(spec: &OptionSpec, v: &OptionValue) -> (r: bool)
    ensures
        r == accepts(*spec, v@),
{
    let kind_ok = match (v, &spec.default) {
        (OptionValue::Bool(_), OptionValue::Bool(_)) => true,
        (OptionValue::Usize(_), OptionValue::Usize(_)) => true,
        (OptionValue::Text(_), OptionValue::Text(_)) => true,
        (OptionValue::Choice(_), OptionValue::Choice(_)) => true,
        (OptionValue::Paths(_), OptionValue::Paths(_)) => true,
        (OptionValue::Internal, OptionValue::Internal) => true,
        _ => false,
    };
    if !kind_ok {
        return false;
    }
    match v {
        OptionValue::Choice(c) => {
            if spec.choices.len() == 0 {
                return true;
            }
            for i in 0..spec.choices.len()
                invariant
                    same_kind(v@, spec.default@),
                    v@ == ValueView::Choice(c@),
                    forall|j: int| 0 <= j < i ==> spec.choices@[j]@ != c@,
            {
                if spec.choices[i] == *c {
                    assert(strings_view(spec.choices@)[i as int] == c@);
                    assert(strings_view(spec.choices@).contains(c@));
                    return true;
                }
            }
            assert(!strings_view(spec.choices@).contains(c@)) by {
                if strings_view(spec.choices@).contains(c@) {
                    let k = choose|k: int|
                        0 <= k < strings_view(spec.choices@).len() && strings_view(
                            spec.choices@,
                        )[k] == c@;
                    assert(spec.choices@[k]@ == c@);
                }
            }
            false
        },
        _ => true,
    }
}

/// The model of the options that have been read, as a partial configuration.
pub open spec fn used_view(c: Config) -> Seq<(Seq<char>, Option<ValueView>)> {
    used_entries(c.options(), c.values(), c.accessed_flags())
}

/// The model of all options, as a partial configuration.
pub open spec fn all_view(c: Config) -> Seq<(Seq<char>, Option<ValueView>)> {
    Seq::new(c.len(), |i: int| (c.options()[i].name@, Some(c.values()[i])))
}

impl Config {
    /// The descriptions of the options.
    pub fn option_specs(&self) -> (r: &Vec<OptionSpec>)
        ensures
            r@ == self.options(),
    {
        &self.specs
    }

    /// A configuration with the given options, each at its default value,
    /// none of them set or read.
    pub fn from_options(specs: Vec<OptionSpec>) -> (c: Config)
        ensures
            c.wf(),
            c.options() == specs@,
            c.values() == specs@.map_values(|s: OptionSpec| s.default@),
            c.set_flags() == Seq::new(specs@.len(), |i: int| false),
            c.accessed_flags() == Seq::new(specs@.len(), |i: int| false),
    {
        let mut values: Vec<OptionValue> = Vec::new();
        let mut set_flags: Vec<bool> = Vec::new();
        let mut accessed: Vec<bool> = Vec::new();
        for i in 0..specs.len()
            invariant
                values.len() == i,
                set_flags.len() == i,
                accessed.len() == i,
                forall|j: int| 0 <= j < i ==> #[trigger] values@[j]@ == specs@[j].default@,
                forall|j: int| 0 <= j < i ==> !#[trigger] set_flags@[j],
                forall|j: int| 0 <= j < i ==> !#[trigger] accessed@[j],
        {
            values.push(specs[i].default.copy());
            set_flags.push(false);
            accessed.push(false);
        }
        let c = Config { specs, values, set_flags, accessed };
        assert(c.values() =~= c.specs@.map_values(|s: OptionSpec| s.default@));
        assert(c.set_flags() =~= Seq::new(c.specs@.len(), |i: int| false));
        assert(c.accessed_flags() =~= Seq::new(c.specs@.len(), |i: int| false));
        c
    }

    /// The position of the option called `name`.
    fn find(&self, name: &str) -> (r: Option<usize>)
        requires
            self.wf(),
        ensures
            match index_of(names(self.options()), name@) {
                Some(i) => r == Some(i as usize),
                None => r is None,
            },
    {
        let key = name.to_owned();
        for i in 0..self.specs.len()
            invariant
                key@ == name@,
                forall|j: int| 0 <= j < i ==> self.specs@[j].name@ != name@,
        {
            if self.specs[i].name == key {
                proof {
                    lemma_first_index_unique(names(self.options()), name@, i as int);
                }
                return Some(i);
            }
        }
        assert(!exists|i: int| is_first_index(names(self.options()), name@, i));
        None
    }

    /// Reads the option called `name`, and records that it was read.
    pub fn option(&mut self, name: &str) -> (r: Option<OptionValue>)
        requires
            old(self).wf(),
        ensures
            final(self).wf(),
            final(self).options() == old(self).options(),
            final(self).values() == old(self).values(),
            final(self).set_flags() == old(self).set_flags(),
            match index_of(names(old(self).options()), name@) {
                Some(i) => {
                    &&& r matches Some(v) && v@ == old(self).values()[i]
                    &&& final(self).accessed_flags() == old(self).accessed_flags().update(i, true)
                },
                None => r is None && final(self).accessed_flags() == old(self).accessed_flags(),
            },
            opt_view(r) == value_of(old(self).options(), old(self).values(), name@),
    {
        match self.find(name) {
            Some(i) => {
                self.accessed.set(i, true);
                Some(self.values[i].copy())
            },
            None => None,
        }
    }

    /// Sets the option called `name` to `value`, if the option exists and
    /// accepts the value. Whether the option was set from a configuration file
    /// stays as it was.
    pub fn set_option(&mut self, name: &str, value: OptionValue) -> (ok: bool)
        requires
            old(self).wf(),
        ensures
            final(self).wf(),
            final(self).options() == old(self).options(),
            final(self).set_flags() == old(self).set_flags(),
            final(self).accessed_flags() == old(self).accessed_flags(),
            match index_of(names(old(self).options()), name@) {
                Some(i) => {
                    &&& ok == accepts(old(self).options()[i], value@)
                    &&& ok ==> final(self).values() == old(self).values().update(i, value@)
                    &&& !ok ==> final(self).values() == old(self).values()
                },
                None => !ok && final(self).values() == old(self).values(),
            },
            ok == (values_after_set(old(self).options(), old(self).values(), name@, value@) is Some),
            ok ==> Some(final(self).values()) == values_after_set(
                old(self).options(),
                old(self).values(),
                name@,
                value@,
            ),
    {
        match self.find(name) {
            Some(i) => {
                if accepts_value(&self.specs[i], &value) {
                    self.values.set(i, value);
                    assert(self.values() =~= old(self).values().update(i as int, value@));
                    true
                } else {
                    false
                }
            },
            None => false,
        }
    }

    /// Whether the option called `name` was set from a configuration file.
    pub fn was_set(&self, name: &str) -> (r: Option<bool>)
        requires
            self.wf(),
        ensures
            match index_of(names(self.options()), name@) {
                Some(i) => r == Some(self.set_flags()[i]),
                None => r is None,
            },
    {
        match self.find(name) {
            Some(i) => Some(self.set_flags[i]),
            None => None,
        }
    }

    /// Whether `name` is the key of an option.
    pub fn is_valid_name(&self, name: &str) -> (r: bool)
        requires
            self.wf(),
        ensures
            r == names(self.options()).contains(name@),
    {
        let found = self.find(name);
        proof {
            let keys = names(self.options());
            if keys.contains(name@) {
                let k = choose|k: int| 0 <= k < keys.len() && keys[k] == name@;
                assert(keys[k] == name@);
                if found is None {
                    assert(!exists|i: int| is_first_index(keys, name@, i));
                    lemma_has_first_index(keys, name@, k);
                }
            }
        }
        found.is_some()
    }

    /// The options that have been read, with their values; the others absent.
    pub fn used_options(&self) -> (r: PartialConfig)
        requires
            self.wf(),
        ensures
            r@ == used_view(*self),
    {
        let mut entries: Vec<PartialEntry> = Vec::new();
        for i in 0..self.specs.len()
            invariant
                entries.len() == i,
                i <= self.specs.len(),
                self.accessed.len() == self.specs.len(),
                self.values.len() == self.specs.len(),
                forall|j: int|
                    0 <= j < i ==> #[trigger] entry_view(entries@[j]) == used_view(*self)[j],
        {
            let value = if self.accessed[i] {
                Some(self.values[i].copy())
            } else {
                None
            };
            entries.push(PartialEntry { name: self.specs[i].name.clone(), value });
        }
        let r = PartialConfig { entries };
        assert(r@ =~= used_view(*self));
        r
    }

    /// All options with their values.
    pub fn all_options(&self) -> (r: PartialConfig)
        requires
            self.wf(),
        ensures
            r@ == all_view(*self),
    {
        let mut entries: Vec<PartialEntry> = Vec::new();
        for i in 0..self.specs.len()
            invariant
                entries.len() == i,
                i <= self.specs.len(),
                self.values.len() == self.specs.len(),
                forall|j: int|
                    0 <= j < i ==> #[trigger] entry_view(entries@[j]) == all_view(*self)[j],
        {
            entries.push(
                PartialEntry { name: self.specs[i].name.clone(), value: Some(self.values[i].copy()) },
            );
        }
        let r = PartialConfig { entries };
        assert(r@ =~= all_view(*self));
        r
    }
}

/// When `name` occurs in `keys`, it has a first position.
pub proof fn lemma_has_first_index(keys: Seq<Seq<char>>, name: Seq<char>, k: int)
    requires
        0 <= k < keys.len(),
        keys[k] == name,
    ensures
        exists|i: int| is_first_index(keys, name, i),
    decreases k,
{
    if forall|j: int| 0 <= j < k ==> keys[j] != name {
        assert(is_first_index(keys, name, k));
    } else {
        let j = choose|j: int| 0 <= j < k && keys[j] == name;
        lemma_has_first_index(keys, name, j);
    }
}

impl Default for Config {
    /// The formatter's options, each at its default value, none set or read.
    fn default() -> (c: Config)
        ensures
            c.wf(),
            summaries(c.options()) == rustfmt_table(),
            c.options().map_values(|s: OptionSpec| spec_doc(s)) == rustfmt_docs(),
            c.values() == default_values(),
            c.set_flags() == no_flags(rustfmt_table().len()),
            c.accessed_flags() == no_flags(rustfmt_table().len()),
    {
        let c = Config::from_options(rustfmt_options());
        assert(c.values() =~= default_values());
        c
    }
}

impl Config {
    /// Takes the options present in a parsed configuration file. A stable
    /// option, or any option on the nightly channel, is set and marked as set;
    /// an unstable option elsewhere is refused and its key returned. The first
    /// value that cannot be taken for its option is an error.
    pub fn fill_from_parsed_config(self, parsed: &PartialConfig, nightly: bool) -> (r: Result<
        (Config, Vec<String>),
        String,
    >)
        requires
            self.wf(),
        ensures
            match fill_state(summaries(self.options()), self.values(), self.set_flags(), parsed@, nightly) {
                Ok(state) => r matches Ok(res) && {
                    let (c, refused) = res;
                    &&& c.wf()
                    &&& c.options() == self.options()
                    &&& c.accessed_flags() == self.accessed_flags()
                    &&& c.values() == state.0
                    &&& c.set_flags() == state.1
                    &&& strings_view(refused@) == state.2
                },
                Err(e) => r matches Err(m) && m@ == e,
            },
    {
        let mut c = self;
        let mut refused: Vec<String> = Vec::new();
        proof {
            lemma_keys_of_summaries(self.options());
        }
        assert(parsed@.take(0) =~= Seq::<(Seq<char>, Option<ValueView>)>::empty());
        assert(strings_view(refused@) =~= Seq::<Seq<char>>::empty());
        for i in 0..parsed.entries.len()
            invariant
                c.wf(),
                c.options() == self.options(),
                c.accessed_flags() == self.accessed_flags(),
                keys(summaries(self.options())) == names(self.options()),
                fill_state(summaries(self.options()), self.values(), self.set_flags(), parsed@.take(i as int), nightly)
                    == Ok::<(Seq<ValueView>, Seq<bool>, Seq<Seq<char>>), Seq<char>>(
                    (c.values(), c.set_flags(), strings_view(refused@)),
                ),
        {
            assert(parsed@.take(i + 1).drop_last() =~= parsed@.take(i as int));
            assert(parsed@.take(i + 1).last() == entry_view(parsed.entries@[i as int]));
            let entry = &parsed.entries[i];
            match &entry.value {
                None => {},
                Some(v) => {
                    match c.find(entry.name.as_str()) {
                        None => {},
                        Some(idx) => {
                            match decode(&c.specs[idx], v) {
                                Err(m) => {
                                    proof {
                                        lemma_fill_error_persists(
                                            summaries(self.options()),
                                            self.values(),
                                            self.set_flags(),
                                            parsed@,
                                            nightly,
                                            i + 1,
                                            m@,
                                        );
                                    }
                                    return Err(m);
                                },
                                Ok(w) => {
                                    if c.specs[idx].stable || nightly {
                                        let ghost old_values = c.values();
                                        c.values.set(idx, w);
                                        c.set_flags.set(idx, true);
                                        assert(c.values() =~= old_values.update(idx as int, w@));
                                    } else {
                                        let ghost old_refused = strings_view(refused@);
                                        refused.push(entry.name.clone());
                                        assert(strings_view(refused@) =~= old_refused.push(
                                            entry.name@,
                                        ));
                                    }
                                },
                            }
                        },
                    }
                },
            }
        }
        assert(parsed@.take(parsed.entries.len() as int) =~= parsed@);
        Ok((c, refused))
    }
}

/// The message when a configuration asks for another version of the formatter.
pub open spec fn version_mismatch(required: Seq<char>) -> Seq<char> {
    "Error: rustfmt version ("@ + version_view() + ") doesn't match the required version ("@
        + required + ")"@
}

impl Config {
    /// Checks the version that the configuration asks for, when a
    /// configuration file set it, against this formatter's version; reading
    /// the option marks it as read. A mismatch gives the message to report.
    pub fn version_meets_requirement(&mut self) -> (r: Result<(), String>)
        requires
            old(self).wf(),
        ensures
            final(self).wf(),
            final(self).options() == old(self).options(),
            final(self).values() == old(self).values(),
            final(self).set_flags() == old(self).set_flags(),
            match index_of(names(old(self).options()), "required_version"@) {
                Some(i) => if old(self).set_flags()[i] {
                    &&& final(self).accessed_flags() == old(self).accessed_flags().update(i, true)
                    &&& (old(self).values()[i] == ValueView::Text(version_view()) <==> r is Ok)
                    &&& (r matches Err(m) ==> m@ == version_mismatch(
                        display_text(old(self).values()[i]),
                    ))
                } else {
                    r is Ok && final(self).accessed_flags() == old(self).accessed_flags()
                },
                None => r is Ok && final(self).accessed_flags() == old(self).accessed_flags(),
            },
    {
        match self.was_set("required_version") {
            Some(true) => {},
            _ => return Ok(()),
        }
        let required = match self.option("required_version") {
            Some(v) => v,
            None => return Ok(()),
        };
        let meets = match &required {
            OptionValue::Text(t) => str_eq(t.as_str(), version()),
            _ => false,
        };
        if meets {
            Ok(())
        } else {
            let mut m = "Error: rustfmt version (".to_owned();
            m.append(version());
            m.append(") doesn't match the required version (");
            let shown = display_value(&required);
            m.append(shown.as_str());
            m.append(")");
            Err(m)
        }
    }
}

/// The value of the option called `name`, if there is one.
pub open spec fn value_of(specs: Seq<OptionSpec>, values: Seq<ValueView>, name: Seq<char>) -> Option<ValueView> {
    match index_of(names(specs), name) {
        Some(i) => Some(values[i]),
        None => None,
    }
}

/// The values after setting the option called `name` to `v`, if the option
/// exists and accepts the value.
pub open spec fn values_after_set(
    specs: Seq<OptionSpec>,
    values: Seq<ValueView>,
    name: Seq<char>,
    v: ValueView,
) -> Option<Seq<ValueView>> {
    match index_of(names(specs), name) {
        Some(i) => if accepts(specs[i], v) {
            Some(values.update(i, v))
        } else {
            None
        },
        None => None,
    }
}

/// A value that was set is the value read back.
pub proof fn law_read_after_set(
    specs: Seq<OptionSpec>,
    values: Seq<ValueView>,
    name: Seq<char>,
    v: ValueView,
)
    requires
        values.len() == specs.len(),
        values_after_set(specs, values, name, v) is Some,
    ensures
        value_of(specs, values_after_set(specs, values, name, v)->Some_0, name) == Some(v),
{
}

/// Setting one option leaves the value of every other option as it was.
pub proof fn law_set_leaves_others(
    specs: Seq<OptionSpec>,
    values: Seq<ValueView>,
    name: Seq<char>,
    other: Seq<char>,
    v: ValueView,
)
    requires
        values.len() == specs.len(),
        values_after_set(specs, values, name, v) is Some,
        other != name,
    ensures
        value_of(specs, values_after_set(specs, values, name, v)->Some_0, other) == value_of(
            specs,
            values,
            other,
        ),
{
    let keys = names(specs);
    let i = index_of(keys, name)->Some_0;
    assert(is_first_index(keys, name, i));
    if let Some(j) = index_of(keys, other) {
        assert(is_first_index(keys, other, j));
        assert(j != i);
    }
}

/// The entries of a partial configuration that read the options marked as read.
pub open spec fn used_entries(
    specs: Seq<OptionSpec>,
    values: Seq<ValueView>,
    accessed: Seq<bool>,
) -> Seq<(Seq<char>, Option<ValueView>)> {
    Seq::new(
        specs.len(),
        |i: int|
            (
                specs[i].name@,
                if accessed[i] {
                    Some(values[i])
                } else {
                    None
                },
            ),
    )
}

/// An option that has been read appears among the used options with its
/// value; one that has not is absent from them.
pub proof fn law_used_options_are_read_options(
    specs: Seq<OptionSpec>,
    values: Seq<ValueView>,
    accessed: Seq<bool>,
    i: int,
)
    requires
        0 <= i < specs.len(),
    ensures
        accessed[i] ==> used_entries(specs, values, accessed)[i] == (specs[i].name@, Some(values[i])),
        !accessed[i] ==> used_entries(specs, values, accessed)[i].1 is None,
{
}

/// Setting an option refuses a value of another kind, takes any value of
/// its kind when the option is not enumerated, and takes a variant name of
/// an enumerated option exactly when it is one of the option's variants,
/// spelled as the variant is.
pub proof fn law_set_accepts(spec: OptionSpec, v: ValueView)
    ensures
        !same_kind(v, spec.default@) ==> !accepts(spec, v),
        same_kind(v, spec.default@) && !(v is Choice) ==> accepts(spec, v),
        same_kind(v, spec.default@) && spec.choices@.len() == 0 ==> accepts(spec, v),
        (same_kind(v, spec.default@) && v is Choice && spec.choices@.len() > 0) ==> (accepts(spec, v)
            <==> exists|i: int|
            0 <= i < spec.choices@.len() && (#[trigger] spec.choices@[i])@ == v->Choice_0),
{
    if v is Choice && spec.choices@.len() > 0 {
        let c = v->Choice_0;
        if strings_view(spec.choices@).contains(c) {
            let i = choose|i: int| 0 <= i < strings_view(spec.choices@).len() && strings_view(spec.choices@)[i] == c;
            assert(spec.choices@[i]@ == c);
        }
        if exists|i: int| 0 <= i < spec.choices@.len() && (#[trigger] spec.choices@[i])@ == c {
            let i = choose|i: int| 0 <= i < spec.choices@.len() && (#[trigger] spec.choices@[i])@ == c;
            assert(strings_view(spec.choices@)[i] == c);
        }
    }
}

} // verus!
