//! Where the configuration comes from: the decisions of looking for a
//! configuration file and loading it. The file system is consulted by the
//! caller, which hands over what it found.
use vstd::prelude::*;
use crate::config::{Config, PartialConfig};
use crate::reading::{read_document, decoded_view, read_config, default_values, no_flags, summaries};
use crate::options::{OptionSpec, rustfmt_table, rustfmt_docs, spec_doc, strings_view};
use crate::toml_text::toml_parse_keys;

verus! {

/// The kinds of input and output errors that the decisions tell apart.
#[derive(Debug, PartialEq, Eq, Structural, Clone, Copy)]
pub enum IoErrorKind {
    NotFound,
    InvalidData,
    Other,
}

/// An input or output error: its kind and its message.
#[derive(Debug)]
pub struct IoError {
    pub kind: IoErrorKind,
    pub message: String,
}

/// The model of an error.
pub open spec fn error_view(e: IoError) -> (IoErrorKind, Seq<char>) {
    (e.kind, e.message@)
}

/// What the file system says of a candidate configuration file.
#[derive(Debug)]
pub enum Probe {
    /// It exists and is a file.
    IsFile,
    /// It exists and is not a file (a directory, for instance).
    NotAFile,
    /// Reading its metadata failed.
    Failed(IoError),
}

/// A candidate configuration file: its path and what the file system says of it.
#[derive(Debug)]
pub struct Candidate {
    pub path: String,
    pub probe: Probe,
}

/// The model of an optional path or an error.
pub open spec fn found_view(r: Result<Option<String>, IoError>) -> Result<
    Option<Seq<char>>,
    (IoErrorKind, Seq<char>),
> {
    match r {
        Ok(Some(p)) => Ok(Some(p@)),
        Ok(None) => Ok(None),
        Err(e) => Err(error_view(e)),
    }
}

/// The configuration file among the candidates of one directory, taken in
/// order: the first that is a file is chosen; the first failure other than
/// "not found" is an error; when neither occurs there is none.
pub open spec fn toml_path_in(cands: Seq<Candidate>) -> Result<
    Option<Seq<char>>,
    (IoErrorKind, Seq<char>),
>
    decreases cands.len(),
{
    if cands.len() == 0 {
        Ok(None)
    } else {
        match cands[0].probe {
            Probe::IsFile => Ok(Some(cands[0].path@)),
            Probe::Failed(e) => if e.kind != IoErrorKind::NotFound {
                Err(error_view(e))
            } else {
                toml_path_in(cands.drop_first())
            },
            Probe::NotAFile => toml_path_in(cands.drop_first()),
        }
    }
}

/// The names that a configuration file can have, in the order they are tried.
pub open spec fn config_file_names_view() -> Seq<Seq<char>> {
    seq![".rustfmt.toml"@, "rustfmt.toml"@]
}

/// The names that a configuration file can have, in the order they are tried.
pub fn config_file_names() -> (r: Vec<&'static str>)
    ensures
        r@.map_values(|s: &str| s@) == config_file_names_view(),
{
    let mut r: Vec<&'static str> = Vec::new();
    r.push(".rustfmt.toml");
    r.push("rustfmt.toml");
    assert(r@.map_values(|s: &str| s@) =~= config_file_names_view());
    r
}

/// Copies an error.
fn copy_error(e: &IoError) -> (r: IoError)
    ensures
        error_view(r) == error_view(*e),
{
    IoError { kind: e.kind, message: e.message.clone() }
}

/// Chooses the configuration file of a directory from what the file system
/// says of each candidate name, in the order of [`config_file_names`].
pub fn get_toml_path(cands: &Vec<Candidate>) -> (r: Result<Option<String>, IoError>)
    ensures
        found_view(r) == toml_path_in(cands@),
{
    let mut i: usize = 0;
    assert(cands@.skip(0) =~= cands@);
    while i < cands.len()
        invariant
            i <= cands.len(),
            toml_path_in(cands@) == toml_path_in(cands@.skip(i as int)),
        decreases cands.len() - i,
    {
        assert(cands@.skip(i as int)[0] == cands@[i as int]);
        assert(cands@.skip(i as int).drop_first() =~= cands@.skip(i + 1));
        match &cands[i].probe {
            Probe::IsFile => {
                return Ok(Some(cands[i].path.clone()));
            },
            Probe::Failed(e) => match e.kind {
                IoErrorKind::NotFound => {},
                _ => {
                    return Err(copy_error(e));
                },
            },
            Probe::NotAFile => {},
        }
        i = i + 1;
    }
    assert(cands@.skip(i as int).len() == 0);
    Ok(None)
}

/// The configuration file found when searching directories in order: the
/// first directory with a configuration file, or with an error, decides.
pub open spec fn search_result(dirs: Seq<Seq<Candidate>>) -> Result<
    Option<Seq<char>>,
    (IoErrorKind, Seq<char>),
>
    decreases dirs.len(),
{
    if dirs.len() == 0 {
        Ok(None)
    } else {
        match toml_path_in(dirs[0]) {
            Ok(None) => search_result(dirs.drop_first()),
            decided => decided,
        }
    }
}

/// Which directory the search for the project's configuration file looks
/// in next.
#[derive(Debug, PartialEq, Eq, Structural, Clone, Copy)]
pub enum SearchStage {
    /// The starting directory, then each parent in turn, nearest first.
    Ancestor,
    /// The user's home directory.
    Home,
    /// The `rustfmt` directory of the user's configuration directory.
    ConfigDir,
}

/// The model of a step of the search.
pub enum StepView {
    /// Read this configuration file.
    Read(Seq<char>),
    /// Look in the next directory of this stage.
    Probe(SearchStage),
    /// Stop with this error.
    Fail((IoErrorKind, Seq<char>)),
    /// Stop with the default configuration.
    Default,
}

/// Where the search goes after a directory without a configuration file
/// (`looked_in`), or where there is no further directory at this stage: the
/// next parent after an ancestor, the home directory once there is no
/// parent, the configuration directory after the home directory, and the
/// defaults after that.
pub open spec fn next_step(stage: SearchStage, looked_in: bool) -> StepView {
    match stage {
        SearchStage::Ancestor => if looked_in {
            StepView::Probe(SearchStage::Ancestor)
        } else {
            StepView::Probe(SearchStage::Home)
        },
        SearchStage::Home => StepView::Probe(SearchStage::ConfigDir),
        SearchStage::ConfigDir => StepView::Default,
    }
}

/// A step of the search: what the file system says of the candidates of
/// the directory looked in at `stage`, or none when there is no such
/// directory. A configuration file there is read; an error stops the search.
pub open spec fn search_step(stage: SearchStage, looked: Option<Seq<Candidate>>) -> StepView {
    match looked {
        Some(c) => match toml_path_in(c) {
            Err(e) => StepView::Fail(e),
            Ok(Some(p)) => StepView::Read(p),
            Ok(None) => next_step(stage, true),
        },
        None => next_step(stage, false),
    }
}

/// The search run to its end: each step is handed the next of `looked`,
/// for as long as the steps ask to look further.
pub open spec fn run_search(stage: SearchStage, looked: Seq<Option<Seq<Candidate>>>) -> StepView
    decreases looked.len(),
{
    if looked.len() == 0 {
        StepView::Probe(stage)
    } else {
        match search_step(stage, looked[0]) {
            StepView::Probe(next) => run_search(next, looked.drop_first()),
            other => other,
        }
    }
}

/// The outcome of a search as a step.
pub open spec fn outcome(r: Result<Option<Seq<char>>, (IoErrorKind, Seq<char>)>) -> StepView {
    match r {
        Ok(Some(p)) => StepView::Read(p),
        Ok(None) => StepView::Default,
        Err(e) => StepView::Fail(e),
    }
}

/// The directories of an optional directory.
pub open spec fn opt_dirs(d: Option<Seq<Candidate>>) -> Seq<Seq<Candidate>> {
    match d {
        Some(c) => seq![c],
        None => Seq::empty(),
    }
}

/// What the steps are handed when the search looks in the ancestors, nearest
/// first, finds no further parent, then looks in the home directory and the
/// configuration directory (each where there is one).
pub open spec fn search_inputs(
    ancestors: Seq<Seq<Candidate>>,
    home: Option<Seq<Candidate>>,
    config_dir: Option<Seq<Candidate>>,
) -> Seq<Option<Seq<Candidate>>> {
    ancestors.map_values(|c: Seq<Candidate>| Some(c)) + seq![None, home, config_dir]
}

/// The model of the candidates of a directory, if there is one.
pub open spec fn looked_view(l: Option<Vec<Candidate>>) -> Option<Seq<Candidate>> {
    match l {
        Some(c) => Some(c@),
        None => None,
    }
}

/// What the file system says of the path given on the command line.
#[derive(Debug)]
pub struct PathProbe {
    /// The path exists.
    pub exists: bool,
    /// The path is a directory.
    pub is_dir: bool,
    /// When it is a directory, what the file system says of each candidate
    /// configuration file in it.
    pub candidates: Vec<Candidate>,
}

/// The message when no configuration file is found for a given path.
pub open spec fn not_found_message(path: Seq<char>) -> Seq<char> {
    "Error: unable to find a config file for the given path: `"@ + path + "`"@
}

/// The configuration file that a path given on the command line names: the
/// path itself when it is an existing file, the configuration file in it when
/// it is a directory, and an error when there is none.
pub open spec fn config_path_result(path: Option<Seq<char>>, probe: PathProbe) -> Result<
    Option<Seq<char>>,
    (IoErrorKind, Seq<char>),
> {
    match path {
        None => Ok(None),
        Some(p) => if !probe.exists {
            Err((IoErrorKind::NotFound, not_found_message(p)))
        } else if probe.is_dir {
            match toml_path_in(probe.candidates@) {
                Ok(Some(f)) => Ok(Some(f)),
                Ok(None) => Err((IoErrorKind::NotFound, not_found_message(p))),
                Err(e) => Err(e),
            }
        } else {
            Ok(Some(p))
        },
    }
}

/// The model of an optional path.
pub open spec fn path_view(p: Option<&str>) -> Option<Seq<char>> {
    match p {
        Some(s) => Some(s@),
        None => None,
    }
}

/// Decides which configuration file a path given on the command line names.
pub fn config_path(path: Option<&str>, probe: &PathProbe) -> (r: Result<Option<String>, IoError>)
    ensures
        found_view(r) == config_path_result(path_view(path), *probe),
{
    match path {
        None => Ok(None),
        Some(p) => {
            if !probe.exists {
                return Err(not_found(p));
            }
            if probe.is_dir {
                match get_toml_path(&probe.candidates) {
                    Ok(Some(f)) => Ok(Some(f)),
                    Ok(None) => Err(not_found(p)),
                    Err(e) => Err(e),
                }
            } else {
                Ok(Some(p.to_owned()))
            }
        },
    }
}

/// The error when no configuration file is found for a given path.
fn not_found(p: &str) -> (e: IoError)
    ensures
        error_view(e) == (IoErrorKind::NotFound, not_found_message(p@)),
{
    let mut m = "Error: unable to find a config file for the given path: `".to_owned();
    m.append(p);
    m.append("`");
    IoError { kind: IoErrorKind::NotFound, message: m }
}

/// The model of a configuration read from a file: the configuration, the
/// warnings about unknown keys, the refused unstable options.
pub open spec fn read_ok(c: Config, warnings: Seq<char>, refused: Seq<Seq<char>>, text: Seq<char>, decoded: Result<PartialConfig, String>, nightly: bool) -> bool {
    match read_document(toml_parse_keys(text), decoded_view(decoded), nightly) {
        Ok(st) => read_config(c, st.0, st.1) && warnings == st.2 && refused == st.3,
        Err(_) => false,
    }
}

/// The message of a configuration file that cannot be taken, if it cannot.
pub open spec fn read_error(text: Seq<char>, decoded: Result<PartialConfig, String>, nightly: bool) -> Option<Seq<char>> {
    match read_document(toml_parse_keys(text), decoded_view(decoded), nightly) {
        Err(e) => Some(e),
        Ok(_) => None,
    }
}

/// Builds the configuration from a configuration file: `text` is what
/// reading the file gave, `decoded` its values as the `toml` crate
/// deserializes them. A file that cannot be read gives its error; one whose
/// configuration cannot be taken gives an invalid-data error with the message.
pub fn from_toml_path(text: Result<String, IoError>, decoded: Result<PartialConfig, String>, nightly: bool) -> (r: Result<(Config, String, Vec<String>), IoError>)
    ensures
        match text {
            Err(e) => r matches Err(x) && error_view(x) == error_view(e),
            Ok(t) => match read_error(t@, decoded, nightly) {
                Some(m) => r matches Err(x) && error_view(x) == (IoErrorKind::InvalidData, m),
                None => r matches Ok(res) && read_ok(res.0, res.1@, strings_view(res.2@), t@, decoded, nightly),
            },
        },
{
    match text {
        Err(e) => Err(e),
        Ok(t) => match Config::from_toml(t.as_str(), decoded, nightly) {
            Ok(res) => Ok(res),
            Err(m) => Err(IoError { kind: IoErrorKind::InvalidData, message: m }),
        },
    }
}

/// A configuration that was loaded, and the file it came from, if any.
#[derive(Debug)]
pub struct Loaded {
    pub config: Config,
    pub path: Option<String>,
    /// Warnings about keys of the file that name no option.
    pub warnings: String,
    /// The keys of unstable options that the file set and that were refused.
    pub refused: Vec<String>,
}

/// What to do next while loading the configuration.
#[derive(Debug)]
pub enum LoadAction {
    /// Read this configuration file with [`from_toml_path`], then hand the
    /// outcome to [`load_config_read`].
    Read(String),
    /// Search for the project's configuration file from this directory: make
    /// it absolute and canonical, and hand what the file system says of its
    /// candidates to [`load_config_searched`] at [`SearchStage::Ancestor`].
    Search(String),
    /// Look in the next directory of this stage (the parent of the last
    /// ancestor looked in, the home directory, or the configuration
    /// directory), and hand what the file system says of its candidates, or
    /// none where there is no such directory, to [`load_config_searched`].
    Probe(SearchStage),
    /// Loading is over.
    Done(Result<Loaded, IoError>),
}

/// The configuration holds every option at its default, none set or read.
pub open spec fn is_default_config(c: Config) -> bool {
    &&& c.wf()
    &&& summaries(c.options()) == rustfmt_table()
    &&& c.options().map_values(|s: OptionSpec| spec_doc(s)) == rustfmt_docs()
    &&& c.values() == default_values()
    &&& c.set_flags() == no_flags(rustfmt_table().len())
    &&& c.accessed_flags() == no_flags(rustfmt_table().len())
}

/// Loading ends with the default configuration and no file.
pub open spec fn done_default(a: LoadAction) -> bool {
    a matches LoadAction::Done(Ok(l)) && is_default_config(l.config) && l.path is None
        && l.warnings@.len() == 0 && l.refused@.len() == 0
}

/// Loading ends with this error.
pub open spec fn done_error(a: LoadAction, e: (IoErrorKind, Seq<char>)) -> bool {
    a matches LoadAction::Done(Err(x)) && error_view(x) == e
}

/// The default configuration, from no file.
fn default_loaded() -> (l: Loaded)
    ensures
        is_default_config(l.config),
        l.path is None,
        l.warnings@.len() == 0,
        l.refused@.len() == 0,
{
    Loaded { config: Config::default(), path: None, warnings: String::new(), refused: Vec::new() }
}

/// Starts loading the configuration. `over_ride` is the configuration file
/// that the command line names, as [`config_path`] decided it (no file when
/// there are no command-line options); `file_path` is the directory of the
/// file being formatted, if any. A file named on the command line is read;
/// otherwise the project's file is searched from `file_path`; otherwise the
/// defaults are taken.
pub fn load_config(file_path: Option<&str>, over_ride: Result<Option<String>, IoError>) -> (a: LoadAction)
    ensures
        match found_view(over_ride) {
            Err(e) => done_error(a, e),
            Ok(Some(p)) => a matches LoadAction::Read(q) && q@ == p,
            Ok(None) => match file_path {
                Some(d) => a matches LoadAction::Search(q) && q@ == d@,
                None => done_default(a),
            },
        },
{
    match over_ride {
        Err(e) => LoadAction::Done(Err(e)),
        Ok(Some(p)) => LoadAction::Read(p),
        Ok(None) => match file_path {
            Some(d) => LoadAction::Search(d.to_owned()),
            None => LoadAction::Done(Ok(default_loaded())),
        },
    }
}

/// Continues the search for the project's configuration file after looking
/// in a directory at `stage` (see [`search_step`]); `looked` is what the
/// file system says of its candidates, none where there is no such
/// directory, or the error met in finding the directory.
pub fn load_config_searched(stage: SearchStage, looked: Result<Option<Vec<Candidate>>, IoError>) -> (a: LoadAction)
    ensures
        match looked {
            Err(e) => done_error(a, error_view(e)),
            Ok(l) => match search_step(stage, looked_view(l)) {
                StepView::Read(p) => a matches LoadAction::Read(q) && q@ == p,
                StepView::Probe(next) => a matches LoadAction::Probe(t) && t == next,
                StepView::Fail(e) => done_error(a, e),
                StepView::Default => done_default(a),
            },
        },
{
    let l = match looked {
        Err(e) => {
            return LoadAction::Done(Err(e));
        },
        Ok(l) => l,
    };
    let looked_in = match l {
        Some(c) => match get_toml_path(&c) {
            Err(e) => {
                return LoadAction::Done(Err(e));
            },
            Ok(Some(p)) => {
                return LoadAction::Read(p);
            },
            Ok(None) => true,
        },
        None => false,
    };
    match stage {
        SearchStage::Ancestor => if looked_in {
            LoadAction::Probe(SearchStage::Ancestor)
        } else {
            LoadAction::Probe(SearchStage::Home)
        },
        SearchStage::Home => LoadAction::Probe(SearchStage::ConfigDir),
        SearchStage::ConfigDir => LoadAction::Done(Ok(default_loaded())),
    }
}

/// Ends loading after the file at `path` was read with [`from_toml_path`].
pub fn load_config_read(path: String, read: Result<(Config, String, Vec<String>), IoError>) -> (a: LoadAction)
    ensures
        match read {
            Err(e) => done_error(a, error_view(e)),
            Ok(res) => a matches LoadAction::Done(Ok(l)) && l.config == res.0 && l.path == Some(path)
                && l.warnings == res.1 && l.refused == res.2,
        },
{
    match read {
        Err(e) => LoadAction::Done(Err(e)),
        Ok((config, warnings, refused)) => LoadAction::Done(
            Ok(Loaded { config, path: Some(path), warnings, refused }),
        ),
    }
}

/// The first candidate name of a directory wins when it is a file.
pub proof fn law_first_name_wins(cands: Seq<Candidate>)
    requires
        cands.len() > 0,
        cands[0].probe is IsFile,
    ensures
        toml_path_in(cands) == Ok::<Option<Seq<char>>, (IoErrorKind, Seq<char>)>(
            Some(cands[0].path@),
        ),
{
}

/// The search ends at the nearest directory that decides: when the
/// directories before `k` have no configuration file and no error, the
/// result is that of directory `k`, if it decides.
pub proof fn law_nearest_directory_decides(dirs: Seq<Seq<Candidate>>, k: int)
    requires
        0 <= k < dirs.len(),
        forall|j: int| 0 <= j < k ==> toml_path_in(#[trigger] dirs[j]) == Ok::<
            Option<Seq<char>>,
            (IoErrorKind, Seq<char>),
        >(None),
        toml_path_in(dirs[k]) != Ok::<Option<Seq<char>>, (IoErrorKind, Seq<char>)>(None),
    ensures
        search_result(dirs) == toml_path_in(dirs[k]),
    decreases k,
{
    if k > 0 {
        assert(toml_path_in(dirs[0]) == Ok::<Option<Seq<char>>, (IoErrorKind, Seq<char>)>(None));
        assert forall|j: int| 0 <= j < k - 1 implies toml_path_in(
            #[trigger] dirs.drop_first()[j],
        ) == Ok::<Option<Seq<char>>, (IoErrorKind, Seq<char>)>(None) by {
            assert(dirs.drop_first()[j] == dirs[j + 1]);
        }
        law_nearest_directory_decides(dirs.drop_first(), k - 1);
    }
}

/// The search run step by step looks in the ancestors nearest first, then
/// in the home directory, then in the configuration directory: its outcome
/// is that of searching those directories in that order, the first that
/// decides winning, and the defaults where none does.
pub proof fn law_search_order(
    ancestors: Seq<Seq<Candidate>>,
    home: Option<Seq<Candidate>>,
    config_dir: Option<Seq<Candidate>>,
)
    ensures
        run_search(SearchStage::Ancestor, search_inputs(ancestors, home, config_dir)) == outcome(
            search_result(ancestors + opt_dirs(home) + opt_dirs(config_dir)),
        ),
    decreases ancestors.len(),
{
    let inputs = search_inputs(ancestors, home, config_dir);
    let dirs = ancestors + opt_dirs(home) + opt_dirs(config_dir);
    if ancestors.len() == 0 {
        let tail = opt_dirs(config_dir);
        assert(inputs =~= seq![None, home, config_dir]);
        assert(dirs =~= opt_dirs(home) + tail);
        assert(inputs.drop_first() =~= seq![home, config_dir]);
        assert(inputs.drop_first().drop_first() =~= seq![config_dir]);
        assert(inputs.drop_first().drop_first().drop_first().len() == 0);
        let last = run_search(SearchStage::ConfigDir, seq![config_dir]);
        match config_dir {
            Some(c) => {
                assert(tail[0] == c);
                assert(tail.drop_first().len() == 0);
                assert(search_result(tail.drop_first()) == Ok::<
                    Option<Seq<char>>,
                    (IoErrorKind, Seq<char>),
                >(None));
                assert(last == outcome(search_result(tail)));
            },
            None => {
                assert(tail.len() == 0);
                assert(last == outcome(search_result(tail)));
            },
        }
        match home {
            Some(h) => {
                assert(dirs[0] == h);
                assert(dirs.drop_first() =~= tail);
            },
            None => {
                assert(dirs =~= tail);
            },
        }
        assert(run_search(SearchStage::Home, seq![home, config_dir]) == outcome(search_result(dirs)));
    } else {
        let rest = ancestors.drop_first();
        law_search_order(rest, home, config_dir);
        assert(inputs[0] == Some(ancestors[0]));
        assert(inputs.drop_first() =~= search_inputs(rest, home, config_dir));
        assert(dirs[0] == ancestors[0]);
        assert(dirs.drop_first() =~= rest + opt_dirs(home) + opt_dirs(config_dir));
    }
}

/// When no ancestor has a configuration file or an error and the home
/// directory has a configuration file, that file is read, whatever the
/// configuration directory holds.
pub proof fn law_home_before_config_dir(
    ancestors: Seq<Seq<Candidate>>,
    home: Seq<Candidate>,
    config_dir: Option<Seq<Candidate>>,
    p: Seq<char>,
)
    requires
        forall|j: int| 0 <= j < ancestors.len() ==> toml_path_in(#[trigger] ancestors[j]) == Ok::<
            Option<Seq<char>>,
            (IoErrorKind, Seq<char>),
        >(None),
        toml_path_in(home) == Ok::<Option<Seq<char>>, (IoErrorKind, Seq<char>)>(Some(p)),
    ensures
        run_search(SearchStage::Ancestor, search_inputs(ancestors, Some(home), config_dir))
            == StepView::Read(p),
{
    law_search_order(ancestors, Some(home), config_dir);
    let dirs = ancestors + opt_dirs(Some(home)) + opt_dirs(config_dir);
    let k = ancestors.len() as int;
    assert(dirs[k] == home);
    assert forall|j: int| 0 <= j < k implies toml_path_in(#[trigger] dirs[j]) == Ok::<
        Option<Seq<char>>,
        (IoErrorKind, Seq<char>),
    >(None) by {
        assert(dirs[j] == ancestors[j]);
    }
    law_nearest_directory_decides(dirs, k);
}

} // verus!
