use std::cell::Cell;

use slog_config::backend::{ColorMode, FileFormat, TermFormat};
use slog_config::{
    all_factories, from_config, from_config_with, Backend, BuiltinFactory, Config, ConfigError,
    DrainFactory, DuplicateMultiple, LogError, Output, SendSyncDrain,
};

const TERM_AND_FILE: &str = r#"
[output.terminal]
type = "term"
format = "full"

[output.file]
type = "file"
path = "target/file-json.log"
format = "json"
"#;

fn output(pairs: &[(&str, &str)]) -> Output {
    Output { entries: pairs.iter().map(|(k, v)| (k.to_string(), v.to_string())).collect() }
}

fn expect_err(text: &str) -> ConfigError {
    match from_config(text) {
        Ok(_) => panic!("build succeeded"),
        Err(e) => e,
    }
}

#[test]
fn builds_one_drain_per_output() {
    let drain = from_config(TERM_AND_FILE).unwrap();
    assert_eq!(drain.drains.len(), 2);
    // outputs come in ascending order of name
    match &drain.drains[0] {
        Backend::File { path, format } => {
            assert_eq!(path, "target/file-json.log");
            assert_eq!(*format, FileFormat::Json);
        }
        _ => panic!("expected a file drain first"),
    }
    match &drain.drains[1] {
        Backend::Term(t) => assert_eq!(t.format, TermFormat::Full),
        _ => panic!("expected a terminal drain second"),
    }
}

#[test]
fn file_json_config_describes_file_drain() {
    let text = "[output.file]\ntype = \"file\"\npath = \"target/file-json.log\"\nformat = \"json\"\n";
    let drain = from_config(text).unwrap();
    assert_eq!(drain.drains.len(), 1);
    assert!(matches!(&drain.drains[0], Backend::File { path, format: FileFormat::Json } if path == "target/file-json.log"));
}

#[test]
fn empty_output_section_builds_empty_drain() {
    let drain = from_config("[output]\n").unwrap();
    assert_eq!(drain.drains.len(), 0);
}

#[test]
fn term_defaults() {
    let drain = from_config("[output.t]\ntype = \"term\"\nformat = \"compact\"\n").unwrap();
    match &drain.drains[0] {
        Backend::Term(t) => {
            assert!(!t.use_stdout);
            assert_eq!(t.color, ColorMode::Auto);
            assert!(t.utc);
            assert_eq!(t.format, TermFormat::Compact);
        }
        _ => panic!("expected a terminal drain"),
    }
}

#[test]
fn term_explicit_options() {
    let text = "[output.t]\ntype = \"term\"\nformat = \"full\"\nuse_stdout = \"true\"\ncolor = \"false\"\ntimestamp = \"local\"\n";
    let drain = from_config(text).unwrap();
    match &drain.drains[0] {
        Backend::Term(t) => {
            assert!(t.use_stdout);
            assert_eq!(t.color, ColorMode::Never);
            assert!(!t.utc);
            assert_eq!(t.format, TermFormat::Full);
        }
        _ => panic!("expected a terminal drain"),
    }
    let drain = from_config("[output.t]\ntype = \"term\"\nformat = \"full\"\ncolor = \"true\"\n").unwrap();
    assert!(matches!(&drain.drains[0], Backend::Term(t) if t.color == ColorMode::Always));
}

#[test]
fn missing_type_is_missing_field() {
    let e = expect_err("[output.a]\nformat = \"json\"\n");
    assert!(matches!(&e, ConfigError::MissingField(f) if f == "type"));
}

#[test]
fn unknown_type_is_unresolved() {
    let e = expect_err("[output.syslog]\ntype = \"syslog\"\n");
    assert!(matches!(&e, ConfigError::Unresolved(n) if n == "syslog"));
}

#[test]
fn first_failing_output_decides() {
    let text = "[output.a]\ntype = \"nothing\"\n\n[output.b]\nformat = \"json\"\n";
    let e = expect_err(text);
    assert!(matches!(&e, ConfigError::Unresolved(n) if n == "a"));
}

#[test]
fn invalid_values_are_reported() {
    let cases = [
        ("[output.t]\ntype = \"term\"\nformat = \"full\"\ncolor = \"maybe\"\n", "color", "maybe"),
        ("[output.t]\ntype = \"term\"\nformat = \"full\"\nuse_stdout = \"yes\"\n", "use_stdout", "yes"),
        ("[output.t]\ntype = \"term\"\nformat = \"full\"\ntimestamp = \"mars\"\n", "timestamp", "mars"),
        ("[output.t]\ntype = \"term\"\nformat = \"wide\"\n", "format", "wide"),
        ("[output.f]\ntype = \"file\"\npath = \"x.log\"\nformat = \"xml\"\n", "format", "xml"),
    ];
    for (text, option_name, bad) in cases {
        let e = expect_err(text);
        assert!(
            matches!(&e, ConfigError::InvalidValue { option, value } if option == option_name && value == bad),
            "case {}",
            text
        );
    }
}

#[test]
fn missing_fields_are_reported() {
    let e = expect_err("[output.f]\ntype = \"file\"\nformat = \"json\"\n");
    assert!(matches!(&e, ConfigError::MissingField(f) if f == "path"));
    let e = expect_err("[output.f]\ntype = \"file\"\npath = \"x.log\"\n");
    assert!(matches!(&e, ConfigError::MissingField(f) if f == "format"));
    let e = expect_err("[output.t]\ntype = \"term\"\n");
    assert!(matches!(&e, ConfigError::MissingField(f) if f == "format"));
}

#[test]
fn malformed_text_is_parse_error() {
    assert!(matches!(expect_err("[output.a\ntype = "), ConfigError::Parse(_)));
    assert!(matches!(expect_err("[output.a]\ntype = 3\n"), ConfigError::Parse(_)));
    assert!(matches!(expect_err("[logging.a]\ntype = \"term\"\n"), ConfigError::Parse(_)));
}

#[test]
fn parse_keeps_outputs_and_options() {
    let config = Config::parse(TERM_AND_FILE).unwrap();
    assert_eq!(config.output.len(), 2);
    assert_eq!(config.output[0].0, "file");
    assert_eq!(config.output[1].0, "terminal");
    assert_eq!(config.output[0].1.get("path").map(|s| s.as_str()), Some("target/file-json.log"));
    assert_eq!(config.output[1].1.get("path"), None);
}

#[test]
fn output_get_returns_first_entry() {
    let o = output(&[("type", "term"), ("format", "full"), ("type", "file")]);
    assert_eq!(o.get("type").map(|s| s.as_str()), Some("term"));
    assert_eq!(o.get("format").map(|s| s.as_str()), Some("full"));
    assert_eq!(o.get("color"), None);
}

#[test]
fn build_twice_gives_equal_independent_drains() {
    let a = from_config(TERM_AND_FILE).unwrap();
    let b = from_config(TERM_AND_FILE).unwrap();
    assert_eq!(a.drains.len(), b.drains.len());
    for (x, y) in a.drains.iter().zip(b.drains.iter()) {
        match (x, y) {
            (Backend::File { path: p, .. }, Backend::File { path: q, .. }) => assert_eq!(p, q),
            (Backend::Term(s), Backend::Term(t)) => assert_eq!(s, t),
            _ => panic!("drains differ"),
        }
    }
}

#[test]
fn factories_answer_directly() {
    let factories = all_factories();
    assert_eq!(factories.len(), 2);
    let term = output(&[("type", "term"), ("format", "compact")]);
    assert!(matches!(factories[0], BuiltinFactory::File(_)));
    assert!(matches!(factories[0].from_config(&term), Ok(None)));
    assert!(matches!(factories[1].from_config(&term), Ok(Some(Backend::Term(_)))));
    let untyped = output(&[("format", "compact")]);
    assert!(matches!(factories[0].from_config(&untyped), Err(ConfigError::MissingField(_))));
}

struct Counting {
    kind: &'static str,
    tag: usize,
    calls: Cell<usize>,
}

impl DrainFactory for Counting {
    type Drain = usize;

    fn from_config(&self, config: &Output) -> Result<Option<usize>, ConfigError> {
        self.calls.set(self.calls.get() + 1);
        match config.get("type") {
            Some(t) if t == self.kind => Ok(Some(self.tag)),
            Some(_) => Ok(None),
            None => Err(ConfigError::MissingField("type".to_string())),
        }
    }
}

#[test]
fn first_matching_factory_wins() {
    let factories = [
        Counting { kind: "other", tag: 0, calls: Cell::new(0) },
        Counting { kind: "mem", tag: 1, calls: Cell::new(0) },
        Counting { kind: "mem", tag: 2, calls: Cell::new(0) },
    ];
    let drain = from_config_with("[output.m]\ntype = \"mem\"\n", &factories).unwrap();
    assert_eq!(drain.drains, vec![1]);
    assert_eq!(factories[0].calls.get(), 1);
    assert_eq!(factories[1].calls.get(), 1);
    assert_eq!(factories[2].calls.get(), 0);
}

#[test]
fn no_factories_leaves_output_unresolved() {
    let factories: [Counting; 0] = [];
    match from_config_with("[output.m]\ntype = \"mem\"\n", &factories) {
        Err(ConfigError::Unresolved(n)) => assert_eq!(n, "m"),
        _ => panic!("expected an unresolved output"),
    }
}

struct Probe {
    fail: bool,
    calls: Cell<usize>,
    name: &'static str,
}

impl SendSyncDrain<()> for Probe {
    fn log(&self, _record: &()) -> Result<(), LogError> {
        self.calls.set(self.calls.get() + 1);
        if self.fail {
            Err(LogError { message: format!("{} failed", self.name) })
        } else {
            Ok(())
        }
    }
}

#[test]
fn composite_stops_at_first_error() {
    let probe = |name, fail| Probe { fail, calls: Cell::new(0), name };
    let drain = DuplicateMultiple { drains: vec![probe("a", false), probe("b", true), probe("c", false)] };
    match drain.log(&()) {
        Err(e) => assert_eq!(e.message, "b failed"),
        Ok(()) => panic!("expected b's error"),
    }
    assert_eq!(drain.drains[0].calls.get(), 1);
    assert_eq!(drain.drains[1].calls.get(), 1);
    assert_eq!(drain.drains[2].calls.get(), 0);
}

#[test]
fn composite_logs_to_every_drain() {
    let drain = DuplicateMultiple {
        drains: vec![
            Probe { fail: false, calls: Cell::new(0), name: "a" },
            Probe { fail: false, calls: Cell::new(0), name: "b" },
        ],
    };
    assert!(drain.log(&()).is_ok());
    assert!(drain.log(&()).is_ok());
    assert!(drain.drains.iter().all(|p| p.calls.get() == 2));
    let empty: DuplicateMultiple<Probe> = DuplicateMultiple { drains: vec![] };
    assert!(empty.log(&()).is_ok());
}

#[test]
fn missing_type_is_missing_field_with_any_factories() {
    let none: [Counting; 0] = [];
    match from_config_with("[output.m]\nformat = \"json\"\n", &none) {
        Err(ConfigError::MissingField(f)) => assert_eq!(f, "type"),
        _ => panic!("expected a missing type"),
    }
    let declining = [Counting { kind: "other", tag: 0, calls: Cell::new(0) }];
    match from_config_with("[output.m]\nformat = \"json\"\n", &declining) {
        Err(ConfigError::MissingField(f)) => assert_eq!(f, "type"),
        _ => panic!("expected a missing type"),
    }
    assert_eq!(declining[0].calls.get(), 0);
}

#[test]
fn parse_errors_match_between_entry_points() {
    for text in ["[output.a\ntype = ", "[logging.a]\ntype = \"term\"\n"] {
        let a = match from_config(text) {
            Err(ConfigError::Parse(m)) => m,
            _ => panic!("expected a parse error"),
        };
        let b = match from_config_with(text, &all_factories()) {
            Err(ConfigError::Parse(m)) => m,
            _ => panic!("expected a parse error"),
        };
        assert_eq!(a, b);
        assert!(!a.is_empty());
    }
    match from_config("[logging.a]\ntype = \"term\"\n") {
        Err(ConfigError::Parse(m)) => assert_eq!(m, "missing field `output`"),
        _ => panic!("expected a parse error"),
    }
}
