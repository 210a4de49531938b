use vstd::prelude::*;

verus! {

/// Everything that can make building a drain from a configuration fail.
#[derive(Debug)]
pub enum ConfigError {
    /// The configuration text is not well-formed, or not shaped as a table of outputs.
    Parse(String),
    /// A recognized output is missing a required option (the option's name).
    MissingField(String),
    /// An option has a value that its output kind does not recognize.
    InvalidValue { option: String, value: String },
    /// No factory claims the output (the output's name).
    Unresolved(String),
    /// The resource behind an output could not be acquired.
    Resource(String),
}

/// The mathematical value of a `ConfigError`.
pub enum ConfigErrorView {
    Parse(Seq<char>),
    MissingField(Seq<char>),
    InvalidValue { option: Seq<char>, value: Seq<char> },
    Unresolved(Seq<char>),
    Resource(Seq<char>),
}

impl View for ConfigError {
    type V = ConfigErrorView;

    open spec fn view(&self) -> ConfigErrorView {
        match self {
            ConfigError::Parse(m) => ConfigErrorView::Parse(m@),
            ConfigError::MissingField(f) => ConfigErrorView::MissingField(f@),
            ConfigError::InvalidValue { option, value } => ConfigErrorView::InvalidValue {
                option: option@,
                value: value@,
            },
            ConfigError::Unresolved(n) => ConfigErrorView::Unresolved(n@),
            ConfigError::Resource(m) => ConfigErrorView::Resource(m@),
        }
    }
}

/// The error that a drain returns from `log`, with the message of the error it wraps.
#[derive(Debug)]
pub struct LogError {
    pub message: String,
}

} // verus!
