use vstd::prelude::*;
use crate::backend::{builtin_all_resolve, builtin_builds, builtin_fails, builtin_outcome, BackendView};
use crate::config::{lookup, TablesView, EntriesView};
use crate::error::ConfigErrorView;
use crate::factory::{
    all_decline_before, build_fails, builds, fails_with, first_claimer, resolvable, resolves_to,
    DrainFactory,
};

verus! {

/// An output without a `type` option fails the build with a missing `type` field, never
/// as unresolved, once the outputs before it have resolved.
pub proof fn lemma_missing_type_is_missing_field(outputs: TablesView, i: int)
    requires
        0 <= i < outputs.len(),
        lookup(outputs[i].1, "type"@).is_none(),
        builtin_all_resolve(outputs.take(i)),
    ensures
        !builtin_all_resolve(outputs),
        forall|e: ConfigErrorView|
            builtin_fails(outputs, e) ==> e == ConfigErrorView::MissingField("type"@),
{
    lemma_first_failure_decides(outputs, i);
}

/// An output whose `type` names no built-in kind fails the build as unresolved, naming
/// the output, once the outputs before it have resolved.
pub proof fn lemma_unknown_type_is_unresolved(outputs: TablesView, i: int)
    requires
        0 <= i < outputs.len(),
        lookup(outputs[i].1, "type"@) matches Some(t) && t != "file"@ && t != "term"@,
        builtin_all_resolve(outputs.take(i)),
    ensures
        !builtin_all_resolve(outputs),
        forall|e: ConfigErrorView|
            builtin_fails(outputs, e) ==> e == ConfigErrorView::Unresolved(outputs[i].0),
{
    lemma_first_failure_decides(outputs, i);
}

/// The build fails with the error of the first output that does not resolve.
proof fn lemma_first_failure_decides(outputs: TablesView, i: int)
    requires
        0 <= i < outputs.len(),
        builtin_outcome(outputs[i].0, outputs[i].1) is Err,
        builtin_all_resolve(outputs.take(i)),
    ensures
        !builtin_all_resolve(outputs),
        forall|e: ConfigErrorView|
            builtin_fails(outputs, e) ==> builtin_outcome(outputs[i].0, outputs[i].1) == Err::<
                BackendView,
                ConfigErrorView,
            >(e),
{
    assert forall|e: ConfigErrorView| builtin_fails(outputs, e) implies builtin_outcome(
        outputs[i].0,
        outputs[i].1,
    ) == Err::<BackendView, ConfigErrorView>(e) by {
        let j = choose|j: int|
            0 <= j < outputs.len() && builtin_all_resolve(outputs.take(j))
                && #[trigger] builtin_outcome(outputs[j].0, outputs[j].1) == Err::<
                BackendView,
                ConfigErrorView,
            >(e);
        if j < i {
            assert(outputs.take(i)[j] == outputs[j]);
        } else if j > i {
            assert(outputs.take(j)[i] == outputs[i]);
        }
    }
}

/// Building twice from the same outputs with the built-in factories gives the same
/// drains, or the same error.
pub proof fn lemma_build_deterministic(
    outputs: TablesView,
    d1: Seq<BackendView>,
    d2: Seq<BackendView>,
    e1: ConfigErrorView,
    e2: ConfigErrorView,
)
    ensures
        builtin_builds(outputs, d1) && builtin_builds(outputs, d2) ==> d1 == d2,
        builtin_fails(outputs, e1) && builtin_fails(outputs, e2) ==> e1 == e2,
{
    if builtin_builds(outputs, d1) && builtin_builds(outputs, d2) {
        assert forall|i: int| 0 <= i < d1.len() implies d1[i] == d2[i] by {
            assert(builtin_outcome(outputs[i].0, outputs[i].1) == Ok::<
                BackendView,
                ConfigErrorView,
            >(d1[i]));
        }
        assert(d1 =~= d2);
    }
    if builtin_fails(outputs, e1) && builtin_fails(outputs, e2) {
        let i = choose|i: int|
            0 <= i < outputs.len() && builtin_all_resolve(outputs.take(i))
                && #[trigger] builtin_outcome(outputs[i].0, outputs[i].1) == Err::<
                BackendView,
                ConfigErrorView,
            >(e1);
        lemma_first_failure_decides(outputs, i);
    }
}

/// When the factories before `j` can do nothing but decline an output and factory `j`
/// does not decline it, factory `j` alone decides the outcome: the factories after it
/// play no part.
pub proof fn lemma_first_claimer_decides<F: DrainFactory>(
    factories: Seq<F>,
    name: Seq<char>,
    config: EntriesView,
    j: int,
)
    requires
        lookup(config, "type"@) is Some,
        first_claimer(factories, config, j),
        forall|k: int, d: F::Drain| 0 <= k < j ==> !#[trigger] factories[k].produces(config, d),
        forall|k: int, e: ConfigErrorView| 0 <= k < j ==> !#[trigger] factories[k].rejects(config, e),
    ensures
        forall|d: F::Drain|
            #[trigger] resolves_to(factories, config, d) <==> factories[j].produces(config, d),
        forall|e: ConfigErrorView|
            #[trigger] fails_with(factories, name, config, e) <==> factories[j].rejects(config, e),
{
    assert forall|d: F::Drain| #[trigger] resolves_to(factories, config, d) implies factories[j].produces(config, d) by {
        let k = choose|k: int|
            0 <= k < factories.len() && all_decline_before(factories, config, k)
                && #[trigger] factories[k].produces(config, d);
        if k > j {
            assert(factories[j].declines(config));
        }
    }
    assert forall|e: ConfigErrorView| #[trigger] fails_with(factories, name, config, e) implies factories[j].rejects(config, e) by {
        if exists|k: int|
            0 <= k < factories.len() && all_decline_before(factories, config, k)
                && #[trigger] factories[k].rejects(config, e) {
            let k = choose|k: int|
                0 <= k < factories.len() && all_decline_before(factories, config, k)
                    && #[trigger] factories[k].rejects(config, e);
            if k > j {
                assert(factories[j].declines(config));
            }
        } else {
            assert(factories[j].declines(config));
        }
    }
}

/// With any list of factories, an output without a `type` option fails the build with a
/// missing `type` field, never as unresolved, when no output before it can fail.
pub proof fn lemma_missing_type_fails_for_any_factories<F: DrainFactory>(
    factories: Seq<F>,
    outputs: TablesView,
    i: int,
)
    requires
        0 <= i < outputs.len(),
        lookup(outputs[i].1, "type"@).is_none(),
        forall|k: int, e: ConfigErrorView|
            0 <= k < i ==> !#[trigger] fails_with(factories, outputs[k].0, outputs[k].1, e),
    ensures
        forall|d: Seq<F::Drain>| !builds(factories, outputs, d),
        forall|e: ConfigErrorView|
            build_fails(factories, outputs, e) ==> e == ConfigErrorView::MissingField("type"@),
{
    assert forall|d: Seq<F::Drain>| !builds(factories, outputs, d) by {
        if builds(factories, outputs, d) {
            assert(resolves_to(factories, outputs[i].1, d[i]));
        }
    }
    assert forall|e: ConfigErrorView| build_fails(factories, outputs, e) implies e
        == ConfigErrorView::MissingField("type"@) by {
        let j = choose|j: int|
            0 <= j < outputs.len() && (forall|k: int|
                0 <= k < j ==> #[trigger] resolvable(factories, outputs[k].1)) && #[trigger] fails_with(
                factories,
                outputs[j].0,
                outputs[j].1,
                e,
            );
        if j > i {
            assert(resolvable(factories, outputs[i].1));
        }
    }
}

/// The factory answers the output in one way only: a single drain, a single error, or
/// declining and nothing else.
pub open spec fn answers_uniquely<F: DrainFactory>(f: F, c: EntriesView) -> bool {
    &&& forall|d1: F::Drain, d2: F::Drain|
        #[trigger] f.produces(c, d1) && #[trigger] f.produces(c, d2) ==> d1 == d2
    &&& forall|e1: ConfigErrorView, e2: ConfigErrorView|
        #[trigger] f.rejects(c, e1) && #[trigger] f.rejects(c, e2) ==> e1 == e2
    &&& forall|d: F::Drain, e: ConfigErrorView|
        !(#[trigger] f.produces(c, d) && #[trigger] f.rejects(c, e))
    &&& f.declines(c) ==> forall|d: F::Drain| !#[trigger] f.produces(c, d)
    &&& f.declines(c) ==> forall|e: ConfigErrorView| !#[trigger] f.rejects(c, e)
}

/// The output resolves to one drain at most, fails with one error at most, and not both.
pub open spec fn answered_once<F: DrainFactory>(
    factories: Seq<F>,
    name: Seq<char>,
    c: EntriesView,
) -> bool {
    &&& forall|d1: F::Drain, d2: F::Drain|
        resolves_to(factories, c, d1) && resolves_to(factories, c, d2) ==> d1 == d2
    &&& forall|e1: ConfigErrorView, e2: ConfigErrorView|
        fails_with(factories, name, c, e1) && fails_with(factories, name, c, e2) ==> e1 == e2
    &&& forall|d: F::Drain, e: ConfigErrorView|
        !(resolves_to(factories, c, d) && fails_with(factories, name, c, e))
}

/// With factories that answer each output in one way only, an output resolves to one
/// drain or fails with one error, not both.
proof fn lemma_output_answered_once<F: DrainFactory>(
    factories: Seq<F>,
    name: Seq<char>,
    c: EntriesView,
)
    requires
        forall|j: int| 0 <= j < factories.len() ==> answers_uniquely(#[trigger] factories[j], c),
    ensures
        answered_once(factories, name, c),
{
    assert forall|d1: F::Drain, d2: F::Drain|
        resolves_to(factories, c, d1) && resolves_to(factories, c, d2) implies d1 == d2 by {
        let j1 = choose|j: int|
            0 <= j < factories.len() && all_decline_before(factories, c, j)
                && #[trigger] factories[j].produces(c, d1);
        let j2 = choose|j: int|
            0 <= j < factories.len() && all_decline_before(factories, c, j)
                && #[trigger] factories[j].produces(c, d2);
        assert(answers_uniquely(factories[j1], c));
        assert(answers_uniquely(factories[j2], c));
        if j1 < j2 {
            assert(factories[j1].declines(c));
        } else if j2 < j1 {
            assert(factories[j2].declines(c));
        }
    }
    assert forall|e1: ConfigErrorView, e2: ConfigErrorView|
        fails_with(factories, name, c, e1) && fails_with(factories, name, c, e2) implies e1
        == e2 by {
        if lookup(c, "type"@) is Some {
            lemma_rejection_unique(factories, name, c, e1, e2);
        }
    }
    assert forall|d: F::Drain, e: ConfigErrorView|
        !(resolves_to(factories, c, d) && fails_with(factories, name, c, e)) by {
        if resolves_to(factories, c, d) && fails_with(factories, name, c, e) {
            let j1 = choose|j: int|
                0 <= j < factories.len() && all_decline_before(factories, c, j)
                    && #[trigger] factories[j].produces(c, d);
            assert(answers_uniquely(factories[j1], c));
            if exists|j: int|
                0 <= j < factories.len() && all_decline_before(factories, c, j)
                    && #[trigger] factories[j].rejects(c, e) {
                let j2 = choose|j: int|
                    0 <= j < factories.len() && all_decline_before(factories, c, j)
                        && #[trigger] factories[j].rejects(c, e);
                assert(answers_uniquely(factories[j2], c));
                if j1 < j2 {
                    assert(factories[j1].declines(c));
                } else if j2 < j1 {
                    assert(factories[j2].declines(c));
                }
            } else {
                assert(factories[j1].declines(c));
            }
        }
    }
}

proof fn lemma_rejection_unique<F: DrainFactory>(
    factories: Seq<F>,
    name: Seq<char>,
    c: EntriesView,
    e1: ConfigErrorView,
    e2: ConfigErrorView,
)
    requires
        forall|j: int| 0 <= j < factories.len() ==> answers_uniquely(#[trigger] factories[j], c),
        lookup(c, "type"@) is Some,
        fails_with(factories, name, c, e1),
        fails_with(factories, name, c, e2),
    ensures
        e1 == e2,
{
    let some1 = exists|j: int|
        0 <= j < factories.len() && all_decline_before(factories, c, j)
            && #[trigger] factories[j].rejects(c, e1);
    let some2 = exists|j: int|
        0 <= j < factories.len() && all_decline_before(factories, c, j)
            && #[trigger] factories[j].rejects(c, e2);
    if some1 {
        let j1 = choose|j: int|
            0 <= j < factories.len() && all_decline_before(factories, c, j)
                && #[trigger] factories[j].rejects(c, e1);
        assert(answers_uniquely(factories[j1], c));
        if some2 {
            let j2 = choose|j: int|
                0 <= j < factories.len() && all_decline_before(factories, c, j)
                    && #[trigger] factories[j].rejects(c, e2);
            assert(answers_uniquely(factories[j2], c));
            if j1 < j2 {
                assert(factories[j1].declines(c));
            } else if j2 < j1 {
                assert(factories[j2].declines(c));
            }
        } else {
            assert(factories[j1].declines(c));
        }
    } else if some2 {
        let j2 = choose|j: int|
            0 <= j < factories.len() && all_decline_before(factories, c, j)
                && #[trigger] factories[j].rejects(c, e2);
        assert(answers_uniquely(factories[j2], c));
        assert(factories[j2].declines(c));
    }
}

/// Building twice from the same outputs, with factories that answer each output in one
/// way only, gives drains equal one for one, or the same error, and never one of each.
pub proof fn lemma_build_deterministic_for_any_factories<F: DrainFactory>(
    factories: Seq<F>,
    outputs: TablesView,
    d1: Seq<F::Drain>,
    d2: Seq<F::Drain>,
    e1: ConfigErrorView,
    e2: ConfigErrorView,
)
    requires
        forall|i: int, j: int|
            0 <= i < outputs.len() && 0 <= j < factories.len() ==> answers_uniquely(
                #[trigger] factories[j],
                #[trigger] outputs[i].1,
            ),
    ensures
        builds(factories, outputs, d1) && builds(factories, outputs, d2) ==> d1 == d2,
        build_fails(factories, outputs, e1) && build_fails(factories, outputs, e2) ==> e1 == e2,
        !(builds(factories, outputs, d1) && build_fails(factories, outputs, e1)),
{
    assert forall|i: int| 0 <= i < outputs.len() implies #[trigger] answered_once(
        factories,
        outputs[i].0,
        outputs[i].1,
    ) by {
        assert forall|j: int| 0 <= j < factories.len() implies answers_uniquely(
            #[trigger] factories[j],
            outputs[i].1,
        ) by {
            assert(answers_uniquely(factories[j], outputs[i].1));
        }
        lemma_output_answered_once(factories, outputs[i].0, outputs[i].1);
    }
    if builds(factories, outputs, d1) && builds(factories, outputs, d2) {
        assert forall|i: int| 0 <= i < d1.len() implies d1[i] == d2[i] by {
            assert(resolves_to(factories, outputs[i].1, d1[i]));
            assert(resolves_to(factories, outputs[i].1, d2[i]));
        }
        assert(d1 =~= d2);
    }
    if build_fails(factories, outputs, e1) && build_fails(factories, outputs, e2) {
        let i1 = choose|i: int|
            0 <= i < outputs.len() && (forall|k: int|
                0 <= k < i ==> #[trigger] resolvable(factories, outputs[k].1)) && #[trigger] fails_with(
                factories,
                outputs[i].0,
                outputs[i].1,
                e1,
            );
        let i2 = choose|i: int|
            0 <= i < outputs.len() && (forall|k: int|
                0 <= k < i ==> #[trigger] resolvable(factories, outputs[k].1)) && #[trigger] fails_with(
                factories,
                outputs[i].0,
                outputs[i].1,
                e2,
            );
        if i1 < i2 {
            assert(resolvable(factories, outputs[i1].1));
        } else if i2 < i1 {
            assert(resolvable(factories, outputs[i2].1));
        }
    }
    if builds(factories, outputs, d1) && build_fails(factories, outputs, e1) {
        let i1 = choose|i: int|
            0 <= i < outputs.len() && (forall|k: int|
                0 <= k < i ==> #[trigger] resolvable(factories, outputs[k].1)) && #[trigger] fails_with(
                factories,
                outputs[i].0,
                outputs[i].1,
                e1,
            );
        assert(resolves_to(factories, outputs[i1].1, d1[i1]));
    }
}

} // verus!
