use vstd::prelude::*;
use std::collections::BTreeMap;
use crate::error::{ConfigError, ConfigErrorView};

verus! {

/// Option name to option value.
pub type EntriesView = Seq<(Seq<char>, Seq<char>)>;

/// Section (or output) name to its options.
pub type TablesView = Seq<(Seq<char>, EntriesView)>;

/// The value of the first entry under `key`.
pub open spec fn lookup(entries: EntriesView, key: Seq<char>) -> Option<Seq<char>>
    decreases entries.len(),
{
    if entries.len() == 0 {
        None
    } else if entries[0].0 == key {
        Some(entries[0].1)
    } else {
        lookup(entries.drop_first(), key)
    }
}

/// Configuration of one output: a flat table of string options.
#[derive(Debug)]
pub struct Output {
    pub entries: Vec<(String, String)>,
}

impl View for Output {
    type V = EntriesView;

    open spec fn view(&self) -> EntriesView {
        self.entries@.map_values(|p: (String, String)| (p.0@, p.1@))
    }
}

/// The tables of a list of named outputs.
pub open spec fn outputs_view(v: Seq<(String, Output)>) -> TablesView {
    v.map_values(|p: (String, Output)| (p.0@, p.1@))
}

/// The sections of a parsed document, each a list of named outputs.
pub open spec fn sections_view(v: Seq<(String, Vec<(String, Output)>)>) -> Seq<
    (Seq<char>, TablesView),
> {
    v.map_values(|p: (String, Vec<(String, Output)>)| (p.0@, outputs_view(p.1@)))
}

/// What the TOML parser makes of a text read as a table of tables of string tables:
/// the sections, each with its tables, in ascending order of name; or the message of
/// the error it reports.
pub uninterp spec fn toml_sections(text: Seq<char>) -> Result<Seq<(Seq<char>, TablesView)>, Seq<char>>;

/// The outputs that a text configures (its section `output`), or the message of the
/// parse error.
pub open spec fn configured_outputs(text: Seq<char>) -> Result<TablesView, Seq<char>> {
    match toml_sections(text) {
        Ok(sections) => match lookup_sections(sections, "output"@) {
            Some(outputs) => Ok(outputs),
            None => Err("missing field `output`"@),
        },
        Err(m) => Err(m),
    }
}

/// The tables of the first section named `key`.
pub open spec fn lookup_sections(sections: Seq<(Seq<char>, TablesView)>, key: Seq<char>) -> Option<
    TablesView,
>
    decreases sections.len(),
{
    if sections.len() == 0 {
        None
    } else if sections[0].0 == key {
        Some(sections[0].1)
    } else {
        lookup_sections(sections.drop_first(), key)
    }
}

/// Relies on `toml::from_str` into nested `BTreeMap`s: the result depends on the text
/// alone; an error is handed on as its message.
#[verifier::external_body]
fn parse_sections(text: &str) -> (r: Result<Vec<(String, Vec<(String, Output)>)>, String>)
    ensures
        match r {
            Ok(v) => toml_sections(text@) == Ok::<_, Seq<char>>(sections_view(v@)),
            Err(m) => toml_sections(text@) == Err::<Seq<(Seq<char>, TablesView)>, _>(m@),
        },
{
    let doc = toml::from_str::<BTreeMap<String, BTreeMap<String, BTreeMap<String, String>>>>(text);
    let doc = doc.map_err(|e| e.to_string())?;
    Ok(doc.into_iter().map(|(s, t)| {
        (s, t.into_iter().map(|(n, o)| (n, Output { entries: o.into_iter().collect() })).collect())
    }).collect())
}

impl Output {
    /// The value of option `key`, if the output has one.
    pub fn get(&self, key: &str) -> (r: Option<&String>)
        ensures
            match r {
                Some(v) => lookup(self@, key@) == Some(v@),
                None => lookup(self@, key@).is_none(),
            },
    {
        let k = key.to_owned();
        let mut i: usize = 0;
        assert(self@.subrange(0, self@.len() as int) =~= self@);
        while i < self.entries.len()
            invariant
                i <= self.entries.len(),
                k@ == key@,
                lookup(self@, key@) == lookup(self@.subrange(i as int, self@.len() as int), key@),
            decreases self.entries.len() - i,
        {
            let ghost rest = self@.subrange(i as int, self@.len() as int);
            assert(rest.drop_first() =~= self@.subrange(i + 1, self@.len() as int));
            if self.entries[i].0 == k {
                return Some(&self.entries[i].1);
            }
            i = i + 1;
        }
        None
    }
}

/// A parsed logging configuration: the outputs in ascending order of name.
#[derive(Debug)]
pub struct Config {
    pub output: Vec<(String, Output)>,
}

impl View for Config {
    type V = TablesView;

    open spec fn view(&self) -> TablesView {
        outputs_view(self.output@)
    }
}

impl Config {
    /// Reads the configuration from TOML text: its section `output` holds one table
    /// of string options per output.
    pub fn parse(text: &str) -> (r: Result<Config, ConfigError>)
        ensures
            match configured_outputs(text@) {
                Ok(outputs) => r matches Ok(c) && c@ == outputs,
                Err(m) => r matches Err(e) && e@ == ConfigErrorView::Parse(m),
            },
    {
        let mut sections = match parse_sections(text) {
            Ok(v) => v,
            Err(m) => return Err(ConfigError::Parse(m)),
        };
        let ghost all = sections_view(sections@);
        let key = "output".to_owned();
        let mut i: usize = 0;
        assert(all.subrange(0, all.len() as int) =~= all);
        while i < sections.len()
            invariant
                i <= sections.len(),
                all == sections_view(sections@),
                toml_sections(text@) == Ok::<_, Seq<char>>(all),
                key@ == "output"@,
                lookup_sections(all, key@) == lookup_sections(all.subrange(i as int, all.len() as int), key@),
            decreases sections.len() - i,
        {
            assert(all.subrange(i as int, all.len() as int).drop_first() =~= all.subrange(i + 1, all.len() as int));
            if sections[i].0 == key {
                let ghost rest = all.subrange(i as int, all.len() as int);
                assert(rest[0] == all[i as int]);
                let (_, output) = sections.remove(i);
                assert(outputs_view(output@) == all[i as int].1);
                return Ok(Config { output });
            }
            i = i + 1;
        }
        Err(ConfigError::Parse("missing field `output`".to_owned()))
    }
}

} // verus!
