//! Builds logging drains from a configuration written in TOML: each output of the
//! configuration is handed to an ordered list of factories, the first that claims it
//! describes its drain, and all drains are joined into one.
pub mod backend;
pub mod composite;
pub mod config;
pub mod error;
pub mod factory;
pub mod laws;

pub use backend::{Backend, BuiltinFactory, FileDrainFactory, TermDrainFactory};
pub use composite::{DuplicateMultiple, SendSyncDrain};
pub use config::{Config, Output};
pub use error::{ConfigError, LogError};
pub use factory::DrainFactory;

use vstd::prelude::*;
use backend::{backends_view, builtin_all_resolve, builtin_builds, builtin_factories, builtin_fails};
use config::configured_outputs;
use factory::{build_fails, builds, resolve_output, resolvable};

verus! {

/// The built-in factories: file, then terminal. Later versions may add factories.
pub fn all_factories() -> (r: Vec<BuiltinFactory>)
    ensures
        r@ == builtin_factories(),
{
    let r = vec![BuiltinFactory::File(FileDrainFactory), BuiltinFactory::Term(TermDrainFactory)];
    assert(r@ =~= builtin_factories());
    r
}

/// Builds the drain that `config_str` describes, querying `factories` in order for
/// each output; the first output that fails to resolve fails the whole build.
pub fn from_config_with<F: DrainFactory>(config_str: &str, factories: &[F]) -> (r: Result<
    DuplicateMultiple<F::Drain>,
    ConfigError,
>)
    ensures
        match configured_outputs(config_str@) {
            Err(m) => r matches Err(e) && e@ == error::ConfigErrorView::Parse(m),
            Ok(outputs) => match r {
                Ok(m) => builds(factories@, outputs, m.drains@),
                Err(e) => build_fails(factories@, outputs, e@),
            },
        },
{
    let config = match Config::parse(config_str) {
        Ok(c) => c,
        Err(e) => return Err(e),
    };
    let mut drains: Vec<F::Drain> = Vec::new();
    let mut i: usize = 0;
    while i < config.output.len()
        invariant
            i <= config.output.len(),
            configured_outputs(config_str@) == Ok::<_, Seq<char>>(config@),
            drains@.len() == i,
            forall|k: int|
                0 <= k < i ==> #[trigger] factory::resolves_to(factories@, config@[k].1, drains@[k]),
        decreases config.output.len() - i,
    {
        match resolve_output(&config.output[i].0, &config.output[i].1, factories) {
            Ok(d) => {
                drains.push(d);
            },
            Err(e) => {
                assert forall|k: int| 0 <= k < i implies #[trigger] resolvable(
                    factories@,
                    config@[k].1,
                ) by {
                    assert(factory::resolves_to(factories@, config@[k].1, drains@[k]));
                }
                assert(factory::fails_with(factories@, config@[i as int].0, config@[i as int].1, e@));
                return Err(e);
            },
        }
        i = i + 1;
    }
    Ok(DuplicateMultiple { drains })
}

/// Builds the drain that `config_str` describes with the built-in factories.
pub fn from_config(config_str: &str) -> (r: Result<DuplicateMultiple<Backend>, ConfigError>)
    ensures
        match configured_outputs(config_str@) {
            Err(m) => r matches Err(e) && e@ == error::ConfigErrorView::Parse(m),
            Ok(outputs) => {
                &&& r is Ok <==> builtin_all_resolve(outputs)
                &&& match r {
                    Ok(m) => builtin_builds(outputs, backends_view(m.drains@)),
                    Err(e) => builtin_fails(outputs, e@),
                }
            },
        },
{
    let factories = all_factories();
    let r = from_config_with(config_str, factories.as_slice());
    proof {
        if let Ok(outputs) = configured_outputs(config_str@) {
            match r {
                Ok(ref m) => {
                    assert forall|i: int| 0 <= i < outputs.len() implies #[trigger] backend::builtin_outcome(
                        outputs[i].0,
                        outputs[i].1,
                    ) == Ok::<backend::BackendView, error::ConfigErrorView>(backends_view(m.drains@)[i]) by {
                        backend::lemma_builtin_resolution(outputs[i].0, outputs[i].1);
                        assert(factory::resolves_to(builtin_factories(), outputs[i].1, m.drains@[i]));
                    }
                },
                Err(ref e) => {
                    let i = choose|i: int|
                        0 <= i < outputs.len() && (forall|k: int|
                            0 <= k < i ==> #[trigger] resolvable(builtin_factories(), outputs[k].1))
                            && #[trigger] factory::fails_with(builtin_factories(), outputs[i].0, outputs[i].1, e@);
                    backend::lemma_builtin_resolution(outputs[i].0, outputs[i].1);
                    assert forall|k: int| 0 <= k < outputs.take(i).len() implies (#[trigger] backend::builtin_outcome(
                        outputs.take(i)[k].0,
                        outputs.take(i)[k].1,
                    )) is Ok by {
                        assert(resolvable(builtin_factories(), outputs[k].1));
                        let d = choose|d: Backend| factory::resolves_to(builtin_factories(), outputs[k].1, d);
                        backend::lemma_builtin_resolution(outputs[k].0, outputs[k].1);
                    }
                    assert(!builtin_all_resolve(outputs));
                },
            }
        }
    }
    r
}

} // verus!
