use vstd::prelude::*;
use crate::config::{lookup, EntriesView, Output, TablesView};
use crate::error::{ConfigError, ConfigErrorView};

verus! {

/// A handler of one kind of output.
///
/// A factory looks at the options of an output and either declines it (the output is
/// of another kind), describes the drain for it, or rejects it (the output is of its
/// kind but its options are wrong). Drains are built by querying a list of factories
/// in order; implementing this trait adds kinds of output.
pub trait DrainFactory {
    /// What the factory produces for an output that it claims.
    type Drain;

    /// The factory may decline the output. A factory that states nothing may.
    open spec fn declines(&self, config: EntriesView) -> bool {
        true
    }

    /// `drain` is a drain the factory may produce for the output. A factory that
    /// states nothing may produce any.
    open spec fn produces(&self, config: EntriesView, drain: Self::Drain) -> bool {
        true
    }

    /// `error` is an error the factory may report for the output. A factory that
    /// states nothing may report any.
    open spec fn rejects(&self, config: EntriesView, error: ConfigErrorView) -> bool {
        true
    }

    /// Attempts to produce a drain for the output: `Ok(None)` when the output is of
    /// another kind.
    fn from_config(&self, config: &Output) -> (r: Result<Option<Self::Drain>, ConfigError>)
        ensures
            match r {
                Ok(None) => self.declines(config@),
                Ok(Some(d)) => self.produces(config@, d),
                Err(e) => self.rejects(config@, e@),
            },
    ;
}

/// Every factory before index `j` declines the output.
pub open spec fn all_decline_before<F: DrainFactory>(
    factories: Seq<F>,
    config: EntriesView,
    j: int,
) -> bool {
    forall|k: int| 0 <= k < j ==> #[trigger] factories[k].declines(config)
}

/// Factory `j` is the first of the list that does not decline the output.
pub open spec fn first_claimer<F: DrainFactory>(
    factories: Seq<F>,
    config: EntriesView,
    j: int,
) -> bool {
    0 <= j < factories.len() && all_decline_before(factories, config, j)
        && !factories[j].declines(config)
}

/// `drain` is what querying the factories in order may give for the output: the output
/// names its `type`, and some factory produces the drain, every factory before it having
/// declined.
pub open spec fn resolves_to<F: DrainFactory>(
    factories: Seq<F>,
    config: EntriesView,
    drain: F::Drain,
) -> bool {
    lookup(config, "type"@) is Some && exists|j: int|
        0 <= j < factories.len() && all_decline_before(factories, config, j)
            && #[trigger] factories[j].produces(config, drain)
}

/// `error` is what resolving the output named `name` may fail with. An output without
/// `type` fails as missing that field, whatever the factories. Otherwise every factory
/// declines and the output is unresolved, or some factory rejects it, every factory
/// before it having declined.
pub open spec fn fails_with<F: DrainFactory>(
    factories: Seq<F>,
    name: Seq<char>,
    config: EntriesView,
    error: ConfigErrorView,
) -> bool {
    if lookup(config, "type"@) is None {
        error == ConfigErrorView::MissingField("type"@)
    } else {
        ||| all_decline_before(factories, config, factories.len() as int) && error
            == ConfigErrorView::Unresolved(name)
        ||| exists|j: int|
            0 <= j < factories.len() && all_decline_before(factories, config, j)
                && #[trigger] factories[j].rejects(config, error)
    }
}

/// Some drain is what the first factory that does not decline the output may produce.
pub open spec fn resolvable<F: DrainFactory>(factories: Seq<F>, config: EntriesView) -> bool {
    exists|d: F::Drain| resolves_to(factories, config, d)
}

/// `drains` resolve the outputs one for one, in order.
pub open spec fn builds<F: DrainFactory>(
    factories: Seq<F>,
    outputs: TablesView,
    drains: Seq<F::Drain>,
) -> bool {
    &&& drains.len() == outputs.len()
    &&& forall|i: int|
        0 <= i < outputs.len() ==> #[trigger] resolves_to(factories, outputs[i].1, drains[i])
}

/// `error` is what resolving some output may fail with, every output before it
/// having resolved.
pub open spec fn build_fails<F: DrainFactory>(
    factories: Seq<F>,
    outputs: TablesView,
    error: ConfigErrorView,
) -> bool {
    exists|i: int|
        0 <= i < outputs.len() && (forall|k: int|
            0 <= k < i ==> #[trigger] resolvable(factories, outputs[k].1)) && #[trigger] fails_with(
            factories,
            outputs[i].0,
            outputs[i].1,
            error,
        )
}

/// Queries the factories in order for the output named `name`; the first that does
/// not decline decides, and no later factory is queried. An output without `type` is
/// refused before any factory is asked.
pub fn resolve_output<F: DrainFactory>(name: &String, config: &Output, factories: &[F]) -> (r:
    Result<F::Drain, ConfigError>)
    ensures
        match r {
            Ok(d) => resolves_to(factories@, config@, d),
            Err(e) => fails_with(factories@, name@, config@, e@),
        },
{
    if config.get("type").is_none() {
        return Err(ConfigError::MissingField("type".to_owned()));
    }
    let mut i: usize = 0;
    while i < factories.len()
        invariant
            i <= factories.len(),
            lookup(config@, "type"@) is Some,
            all_decline_before(factories@, config@, i as int),
        decreases factories.len() - i,
    {
        match factories[i].from_config(config) {
            Ok(Some(d)) => {
                assert(factories@[i as int].produces(config@, d));
                return Ok(d);
            },
            Ok(None) => {},
            Err(e) => {
                assert(factories@[i as int].rejects(config@, e@));
                return Err(e);
            },
        }
        i = i + 1;
    }
    Err(ConfigError::Unresolved(name.clone()))
}

} // verus!
