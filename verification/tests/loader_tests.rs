use rustfmt_core::config::{Config, PartialConfig, PartialEntry};
use rustfmt_core::loader::{
    config_file_names, config_path, from_toml_path, get_toml_path, load_config,
    load_config_read, load_config_searched, Candidate, IoError, IoErrorKind, LoadAction, PathProbe,
    Probe, SearchStage,
};
use rustfmt_core::options::OptionValue;

fn cand(path: &str, probe: Probe) -> Candidate {
    Candidate { path: path.to_string(), probe }
}

fn missing(path: &str) -> Candidate {
    cand(path, Probe::Failed(IoError { kind: IoErrorKind::NotFound, message: "not found".to_string() }))
}

fn dir(d: &str, first: Probe, second: Probe) -> Vec<Candidate> {
    vec![cand(&format!("{}/.rustfmt.toml", d), first), cand(&format!("{}/rustfmt.toml", d), second)]
}

fn not_found() -> Probe {
    Probe::Failed(IoError { kind: IoErrorKind::NotFound, message: "not found".to_string() })
}

#[test]
fn candidate_names() {
    assert_eq!(config_file_names(), vec![".rustfmt.toml", "rustfmt.toml"]);
}

#[test]
fn choosing_a_file_in_a_directory() {
    let both = dir("/p", Probe::IsFile, Probe::IsFile);
    assert_eq!(get_toml_path(&both).unwrap(), Some("/p/.rustfmt.toml".to_string()));
    let second = dir("/p", not_found(), Probe::IsFile);
    assert_eq!(get_toml_path(&second).unwrap(), Some("/p/rustfmt.toml".to_string()));
    let directory = dir("/p", Probe::NotAFile, not_found());
    assert_eq!(get_toml_path(&directory).unwrap(), None);
    let denied = dir(
        "/p",
        Probe::Failed(IoError { kind: IoErrorKind::Other, message: "permission denied".to_string() }),
        Probe::IsFile,
    );
    let err = get_toml_path(&denied).unwrap_err();
    assert_eq!(err.kind, IoErrorKind::Other);
    assert_eq!(err.message, "permission denied");
    assert_eq!(get_toml_path(&vec![missing("/p/x")]).unwrap(), None);
}

/// Runs the search from the first ancestor, handing each step the next of
/// `looked`; returns the final action and the stages that were asked for.
fn run(looked: Vec<Option<Vec<Candidate>>>) -> (LoadAction, Vec<SearchStage>) {
    let mut stage = SearchStage::Ancestor;
    let mut asked = Vec::new();
    for l in looked {
        match load_config_searched(stage, Ok(l)) {
            LoadAction::Probe(next) => {
                asked.push(next);
                stage = next;
            }
            other => return (other, asked),
        }
    }
    panic!("the search asked for more directories: {:?}", asked)
}

#[test]
fn searching_directories() {
    let (action, asked) = run(vec![
        Some(dir("/a/b", not_found(), not_found())),
        Some(dir("/a", not_found(), Probe::IsFile)),
        Some(dir("/", Probe::IsFile, not_found())),
    ]);
    assert!(matches!(action, LoadAction::Read(ref p) if p == "/a/rustfmt.toml"), "{:?}", action);
    assert_eq!(asked, vec![SearchStage::Ancestor]);
    let (action, _) = run(vec![
        Some(dir("/a", not_found(), not_found())),
        Some(dir("/", not_found(), Probe::NotAFile)),
        None,
        None,
        None,
    ]);
    assert!(matches!(action, LoadAction::Done(Ok(ref l)) if l.path.is_none()), "{:?}", action);
    let (action, _) = run(vec![
        Some(dir("/a", Probe::Failed(IoError { kind: IoErrorKind::Other, message: "boom".to_string() }), not_found())),
        Some(dir("/", Probe::IsFile, not_found())),
    ]);
    assert!(matches!(action, LoadAction::Done(Err(ref e)) if e.message == "boom"), "{:?}", action);
}

#[test]
fn home_before_config_directory() {
    let (action, asked) = run(vec![
        Some(dir("/w", not_found(), not_found())),
        Some(dir("/", not_found(), not_found())),
        None,
        Some(dir("/home/u", not_found(), Probe::IsFile)),
        Some(dir("/home/u/.config/rustfmt", Probe::IsFile, not_found())),
    ]);
    assert!(matches!(action, LoadAction::Read(ref p) if p == "/home/u/rustfmt.toml"), "{:?}", action);
    assert_eq!(asked, vec![SearchStage::Ancestor, SearchStage::Ancestor, SearchStage::Home]);
    let (action, asked) = run(vec![
        Some(dir("/", not_found(), not_found())),
        None,
        None,
        Some(dir("/cfg/rustfmt", Probe::IsFile, not_found())),
    ]);
    assert!(matches!(action, LoadAction::Read(ref p) if p == "/cfg/rustfmt/.rustfmt.toml"), "{:?}", action);
    assert_eq!(asked, vec![SearchStage::Ancestor, SearchStage::Home, SearchStage::ConfigDir]);
    let failed = load_config_searched(SearchStage::Ancestor, Err(IoError { kind: IoErrorKind::Other, message: "no cwd".to_string() }));
    assert!(matches!(failed, LoadAction::Done(Err(ref e)) if e.message == "no cwd"));
}

#[test]
fn command_line_paths() {
    let absent = PathProbe { exists: false, is_dir: false, candidates: vec![] };
    let err = config_path(Some("cfg"), &absent).unwrap_err();
    assert_eq!(err.kind, IoErrorKind::NotFound);
    assert_eq!(err.message, "Error: unable to find a config file for the given path: `cfg`");
    let file = PathProbe { exists: true, is_dir: false, candidates: vec![] };
    assert_eq!(config_path(Some("cfg.toml"), &file).unwrap(), Some("cfg.toml".to_string()));
    let with_file = PathProbe { exists: true, is_dir: true, candidates: dir("d", not_found(), Probe::IsFile) };
    assert_eq!(config_path(Some("d"), &with_file).unwrap(), Some("d/rustfmt.toml".to_string()));
    let empty_dir = PathProbe { exists: true, is_dir: true, candidates: dir("d", not_found(), not_found()) };
    assert_eq!(
        config_path(Some("d"), &empty_dir).unwrap_err().message,
        "Error: unable to find a config file for the given path: `d`"
    );
    assert_eq!(config_path(None, &absent).unwrap(), None);
}

#[test]
fn loading_steps() {
    match load_config(Some("src"), Ok(Some("over.toml".to_string()))) {
        LoadAction::Read(p) => assert_eq!(p, "over.toml"),
        other => panic!("{:?}", other),
    }
    match load_config(Some("src"), Ok(None)) {
        LoadAction::Search(d) => assert_eq!(d, "src"),
        other => panic!("{:?}", other),
    }
    match load_config(None, Ok(None)) {
        LoadAction::Done(Ok(loaded)) => {
            assert_eq!(loaded.path, None);
            assert_eq!(loaded.config.was_set("max_width"), Some(false));
        }
        other => panic!("{:?}", other),
    }
    match load_config(Some("src"), Err(IoError { kind: IoErrorKind::NotFound, message: "gone".to_string() })) {
        LoadAction::Done(Err(e)) => assert_eq!(e.message, "gone"),
        other => panic!("{:?}", other),
    }
    match load_config_searched(SearchStage::ConfigDir, Ok(None)) {
        LoadAction::Done(Ok(loaded)) => assert_eq!(loaded.path, None),
        other => panic!("{:?}", other),
    }
    match load_config_searched(SearchStage::Home, Ok(Some(dir("/a", not_found(), Probe::IsFile)))) {
        LoadAction::Read(p) => assert_eq!(p, "/a/rustfmt.toml"),
        other => panic!("{:?}", other),
    }
}

#[test]
fn reading_a_configuration_file() {
    let decoded = PartialConfig {
        entries: vec![PartialEntry { name: "tab_spaces".to_string(), value: Some(OptionValue::Usize(2)) }],
    };
    let read = from_toml_path(Ok("tab_spaces = 2".to_string()), Ok(decoded), false);
    match load_config_read("/a/rustfmt.toml".to_string(), read) {
        LoadAction::Done(Ok(mut loaded)) => {
            assert_eq!(loaded.path, Some("/a/rustfmt.toml".to_string()));
            assert_eq!(loaded.config.option("tab_spaces"), Some(OptionValue::Usize(2)));
        }
        other => panic!("{:?}", other),
    }
    let bad = from_toml_path(Ok("tab_spaces = ".to_string()), Err("x".to_string()), false);
    let err = bad.unwrap_err();
    assert_eq!(err.kind, IoErrorKind::InvalidData);
    assert!(err.message.starts_with("Could not parse TOML: "));
    let unreadable = from_toml_path(
        Err(IoError { kind: IoErrorKind::Other, message: "is a directory".to_string() }),
        Ok(PartialConfig { entries: vec![] }),
        false,
    );
    assert_eq!(unreadable.unwrap_err().message, "is a directory");
    let _ = Config::default();
}
