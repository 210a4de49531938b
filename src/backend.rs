use vstd::prelude::*;
use crate::config::{lookup, EntriesView, Output, TablesView};
use crate::factory::{all_decline_before, fails_with, resolves_to};
use crate::error::{ConfigError, ConfigErrorView};
use crate::factory::DrainFactory;

verus! {

/// Whether a terminal drain writes in color.
#[derive(PartialEq, Eq, Structural, Clone, Copy, Debug)]
pub enum ColorMode {
    /// Color when the stream is a terminal.
    Auto,
    Always,
    Never,
}

/// Layout of the records a terminal drain writes.
#[derive(PartialEq, Eq, Structural, Clone, Copy, Debug)]
pub enum TermFormat {
    Compact,
    Full,
}

/// Encoding of the records a file drain writes.
#[derive(PartialEq, Eq, Structural, Clone, Copy, Debug)]
pub enum FileFormat {
    /// One JSON object per line.
    Json,
}

/// Settings of a drain that writes to the terminal.
#[derive(PartialEq, Eq, Structural, Clone, Copy, Debug)]
pub struct TermSettings {
    /// Standard output rather than standard error.
    pub use_stdout: bool,
    pub color: ColorMode,
    /// Timestamps in UTC rather than local time.
    pub utc: bool,
    pub format: TermFormat,
}

/// The drain that a built-in factory describes for an output.
#[derive(Debug)]
pub enum Backend {
    Term(TermSettings),
    /// A file opened for appending, created if missing.
    File { path: String, format: FileFormat },
}

/// The mathematical value of a `Backend`.
pub enum BackendView {
    Term(TermSettings),
    File { path: Seq<char>, format: FileFormat },
}

impl View for Backend {
    type V = BackendView;

    open spec fn view(&self) -> BackendView {
        match self {
            Backend::Term(t) => BackendView::Term(*t),
            Backend::File { path, format } => BackendView::File { path: path@, format: *format },
        }
    }
}

/// The value of option `key`, or `default` when the output has none.
pub open spec fn lookup_or(config: EntriesView, key: Seq<char>, default: Seq<char>) -> Seq<char> {
    match lookup(config, key) {
        Some(v) => v,
        None => default,
    }
}

/// What the file factory makes of an output.
pub open spec fn file_outcome(c: EntriesView) -> Result<Option<BackendView>, ConfigErrorView> {
    match lookup(c, "type"@) {
        None => Err(ConfigErrorView::MissingField("type"@)),
        Some(t) => if t != "file"@ {
            Ok(None)
        } else {
            match lookup(c, "path"@) {
                None => Err(ConfigErrorView::MissingField("path"@)),
                Some(p) => match lookup(c, "format"@) {
                    None => Err(ConfigErrorView::MissingField("format"@)),
                    Some(f) => if f == "json"@ {
                        Ok(Some(BackendView::File { path: p, format: FileFormat::Json }))
                    } else {
                        Err(ConfigErrorView::InvalidValue { option: "format"@, value: f })
                    },
                },
            }
        },
    }
}

/// What the terminal factory makes of an output. Timestamps default to UTC.
pub open spec fn term_outcome(c: EntriesView) -> Result<Option<BackendView>, ConfigErrorView> {
    let stdout = lookup_or(c, "use_stdout"@, "false"@);
    let color = lookup_or(c, "color"@, "auto"@);
    let stamp = lookup_or(c, "timestamp"@, "utc"@);
    match lookup(c, "type"@) {
        None => Err(ConfigErrorView::MissingField("type"@)),
        Some(t) => if t != "term"@ {
            Ok(None)
        } else if stdout != "true"@ && stdout != "false"@ {
            Err(ConfigErrorView::InvalidValue { option: "use_stdout"@, value: stdout })
        } else if color != "true"@ && color != "false"@ && color != "auto"@ {
            Err(ConfigErrorView::InvalidValue { option: "color"@, value: color })
        } else if stamp != "local"@ && stamp != "utc"@ {
            Err(ConfigErrorView::InvalidValue { option: "timestamp"@, value: stamp })
        } else {
            match lookup(c, "format"@) {
                None => Err(ConfigErrorView::MissingField("format"@)),
                Some(f) => if f != "compact"@ && f != "full"@ {
                    Err(ConfigErrorView::InvalidValue { option: "format"@, value: f })
                } else {
                    Ok(
                        Some(
                            BackendView::Term(
                                TermSettings {
                                    use_stdout: stdout == "true"@,
                                    color: if color == "true"@ {
                                        ColorMode::Always
                                    } else if color == "false"@ {
                                        ColorMode::Never
                                    } else {
                                        ColorMode::Auto
                                    },
                                    utc: stamp == "utc"@,
                                    format: if f == "compact"@ {
                                        TermFormat::Compact
                                    } else {
                                        TermFormat::Full
                                    },
                                },
                            ),
                        ),
                    )
                },
            }
        },
    }
}

proof fn lemma_option_words_differ()
    ensures
        "true"@ != "false"@,
        "true"@ != "auto"@,
        "false"@ != "auto"@,
        "local"@ != "utc"@,
        "compact"@ != "full"@,
{
    reveal_strlit("true");
    reveal_strlit("false");
    reveal_strlit("auto");
    reveal_strlit("local");
    reveal_strlit("utc");
    reveal_strlit("compact");
    reveal_strlit("full");
    assert("true"@.len() != "false"@.len());
    assert("true"@[0] != "auto"@[0]);
    assert("false"@.len() != "auto"@.len());
    assert("local"@.len() != "utc"@.len());
    assert("compact"@.len() != "full"@.len());
}

/// `s` reads `lit`.
fn reads(s: &String, lit: &str) -> (r: bool)
    ensures
        r == (s@ == lit@),
{
    *s == lit.to_owned()
}

/// The value of option `key`, or `default`.
fn get_or(config: &Output, key: &str, default: &str) -> (r: String)
    ensures
        r@ == lookup_or(config@, key@, default@),
{
    match config.get(key) {
        Some(v) => v.clone(),
        None => default.to_owned(),
    }
}

/// Factory of drains that append records to a file (`type = "file"`, with `path` and
/// `format = "json"`).
pub struct FileDrainFactory;

/// Factory of drains that write records to the terminal (`type = "term"`, with
/// `format` one of `compact` and `full`, and optional `use_stdout`, `color` and
/// `timestamp`).
pub struct TermDrainFactory;

impl DrainFactory for FileDrainFactory {
    type Drain = Backend;

    open spec fn declines(&self, config: EntriesView) -> bool {
        file_outcome(config) == Ok::<Option<BackendView>, ConfigErrorView>(None)
    }

    open spec fn produces(&self, config: EntriesView, drain: Backend) -> bool {
        file_outcome(config) == Ok::<Option<BackendView>, ConfigErrorView>(Some(drain@))
    }

    open spec fn rejects(&self, config: EntriesView, error: ConfigErrorView) -> bool {
        file_outcome(config) == Err::<Option<BackendView>, ConfigErrorView>(error)
    }

    fn from_config(&self, config: &Output) -> (r: Result<Option<Backend>, ConfigError>)
    {
        let t = match config.get("type") {
            Some(t) => t,
            None => return Err(ConfigError::MissingField("type".to_owned())),
        };
        if !reads(t, "file") {
            return Ok(None);
        }
        let path = match config.get("path") {
            Some(p) => p,
            None => return Err(ConfigError::MissingField("path".to_owned())),
        };
        let format = match config.get("format") {
            Some(f) => f,
            None => return Err(ConfigError::MissingField("format".to_owned())),
        };
        if reads(format, "json") {
            Ok(Some(Backend::File { path: path.clone(), format: FileFormat::Json }))
        } else {
            Err(ConfigError::InvalidValue { option: "format".to_owned(), value: format.clone() })
        }
    }
}

impl DrainFactory for TermDrainFactory {
    type Drain = Backend;

    open spec fn declines(&self, config: EntriesView) -> bool {
        term_outcome(config) == Ok::<Option<BackendView>, ConfigErrorView>(None)
    }

    open spec fn produces(&self, config: EntriesView, drain: Backend) -> bool {
        term_outcome(config) == Ok::<Option<BackendView>, ConfigErrorView>(Some(drain@))
    }

    open spec fn rejects(&self, config: EntriesView, error: ConfigErrorView) -> bool {
        term_outcome(config) == Err::<Option<BackendView>, ConfigErrorView>(error)
    }

    fn from_config(&self, config: &Output) -> (r: Result<Option<Backend>, ConfigError>)
    {
        let t = match config.get("type") {
            Some(t) => t,
            None => return Err(ConfigError::MissingField("type".to_owned())),
        };
        if !reads(t, "term") {
            return Ok(None);
        }
        let stdout = get_or(config, "use_stdout", "false");
        let use_stdout = if reads(&stdout, "true") {
            true
        } else if reads(&stdout, "false") {
            false
        } else {
            return Err(ConfigError::InvalidValue { option: "use_stdout".to_owned(), value: stdout });
        };
        let c = get_or(config, "color", "auto");
        let color = if reads(&c, "true") {
            ColorMode::Always
        } else if reads(&c, "false") {
            ColorMode::Never
        } else if reads(&c, "auto") {
            ColorMode::Auto
        } else {
            return Err(ConfigError::InvalidValue { option: "color".to_owned(), value: c });
        };
        let stamp = get_or(config, "timestamp", "utc");
        let utc = if reads(&stamp, "local") {
            false
        } else if reads(&stamp, "utc") {
            true
        } else {
            return Err(ConfigError::InvalidValue { option: "timestamp".to_owned(), value: stamp });
        };
        let f = match config.get("format") {
            Some(f) => f,
            None => return Err(ConfigError::MissingField("format".to_owned())),
        };
        let format = if reads(f, "compact") {
            TermFormat::Compact
        } else if reads(f, "full") {
            TermFormat::Full
        } else {
            return Err(ConfigError::InvalidValue { option: "format".to_owned(), value: f.clone() });
        };
        proof {
            lemma_option_words_differ();
        }
        Ok(Some(Backend::Term(TermSettings { use_stdout, color, utc, format })))
    }
}

/// One of the built-in factories.
pub enum BuiltinFactory {
    File(FileDrainFactory),
    Term(TermDrainFactory),
}

impl BuiltinFactory {
    /// What the factory makes of an output.
    pub open spec fn outcome(&self, c: EntriesView) -> Result<Option<BackendView>, ConfigErrorView> {
        match self {
            BuiltinFactory::File(_) => file_outcome(c),
            BuiltinFactory::Term(_) => term_outcome(c),
        }
    }
}

impl DrainFactory for BuiltinFactory {
    type Drain = Backend;

    open spec fn declines(&self, config: EntriesView) -> bool {
        self.outcome(config) == Ok::<Option<BackendView>, ConfigErrorView>(None)
    }

    open spec fn produces(&self, config: EntriesView, drain: Backend) -> bool {
        self.outcome(config) == Ok::<Option<BackendView>, ConfigErrorView>(Some(drain@))
    }

    open spec fn rejects(&self, config: EntriesView, error: ConfigErrorView) -> bool {
        self.outcome(config) == Err::<Option<BackendView>, ConfigErrorView>(error)
    }

    fn from_config(&self, config: &Output) -> (r: Result<Option<Backend>, ConfigError>) {
        match self {
            BuiltinFactory::File(f) => f.from_config(config),
            BuiltinFactory::Term(t) => t.from_config(config),
        }
    }
}

/// The drains that the built-in factories describe for an output named `name`: the
/// file factory is queried first, then the terminal factory.
pub open spec fn builtin_outcome(name: Seq<char>, c: EntriesView) -> Result<BackendView, ConfigErrorView> {
    match file_outcome(c) {
        Ok(Some(b)) => Ok(b),
        Err(e) => Err(e),
        Ok(None) => match term_outcome(c) {
            Ok(Some(b)) => Ok(b),
            Err(e) => Err(e),
            Ok(None) => Err(ConfigErrorView::Unresolved(name)),
        },
    }
}

/// Every output of the list resolves to a drain with the built-in factories.
pub open spec fn builtin_all_resolve(outputs: TablesView) -> bool {
    forall|i: int| 0 <= i < outputs.len() ==> (#[trigger] builtin_outcome(outputs[i].0, outputs[i].1)) is Ok
}

/// `drains` are the drains the built-in factories describe for the outputs, in order.
pub open spec fn builtin_builds(outputs: TablesView, drains: Seq<BackendView>) -> bool {
    &&& drains.len() == outputs.len()
    &&& forall|i: int|
        0 <= i < outputs.len() ==> #[trigger] builtin_outcome(outputs[i].0, outputs[i].1) == Ok::<
            BackendView,
            ConfigErrorView,
        >(drains[i])
}

/// `error` is the error of the first output that the built-in factories do not resolve.
pub open spec fn builtin_fails(outputs: TablesView, error: ConfigErrorView) -> bool {
    exists|i: int|
        0 <= i < outputs.len() && builtin_all_resolve(outputs.take(i))
            && #[trigger] builtin_outcome(outputs[i].0, outputs[i].1) == Err::<
            BackendView,
            ConfigErrorView,
        >(error)
}

/// The values of a list of backends.
pub open spec fn backends_view(drains: Seq<Backend>) -> Seq<BackendView> {
    drains.map_values(|b: Backend| b@)
}

/// The list of built-in factories, file first.
pub open spec fn builtin_factories() -> Seq<BuiltinFactory> {
    seq![BuiltinFactory::File(FileDrainFactory), BuiltinFactory::Term(TermDrainFactory)]
}

/// Resolving with the built-in factories gives `builtin_outcome`.
pub proof fn lemma_builtin_resolution(name: Seq<char>, c: EntriesView)
    ensures
        forall|d: Backend|
            #[trigger] resolves_to(builtin_factories(), c, d) ==> builtin_outcome(name, c) == Ok::<
                BackendView,
                ConfigErrorView,
            >(d@),
        forall|e: ConfigErrorView|
            #[trigger] fails_with(builtin_factories(), name, c, e) ==> builtin_outcome(name, c)
                == Err::<BackendView, ConfigErrorView>(e),
{
    let fs = builtin_factories();
    assert(fs[0].outcome(c) == file_outcome(c));
    assert(fs[1].outcome(c) == term_outcome(c));
    assert forall|d: Backend| #[trigger] resolves_to(fs, c, d) implies builtin_outcome(name, c) == Ok::<
        BackendView,
        ConfigErrorView,
    >(d@) by {
        let j = choose|j: int|
            0 <= j < fs.len() && all_decline_before(fs, c, j) && #[trigger] fs[j].produces(c, d);
        if j == 1 {
            assert(fs[0].declines(c));
        }
    }
    assert forall|e: ConfigErrorView| #[trigger] fails_with(fs, name, c, e) implies builtin_outcome(name, c)
        == Err::<BackendView, ConfigErrorView>(e) by {
        if lookup(c, "type"@) is None {
        } else if exists|j: int|
            0 <= j < fs.len() && all_decline_before(fs, c, j) && #[trigger] fs[j].rejects(c, e) {
            let j = choose|j: int|
                0 <= j < fs.len() && all_decline_before(fs, c, j) && #[trigger] fs[j].rejects(c, e);
            if j == 1 {
                assert(fs[0].declines(c));
            }
        } else {
            assert(fs[0].declines(c));
            assert(fs[1].declines(c));
        }
    }
}

} // verus!
