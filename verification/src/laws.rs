//! Properties of the extraction policy, proved once and for all catalogs,
//! monitored format lists and read outcomes.

use vstd::prelude::*;

use crate::error::ErrorModel;
use crate::policy::{
    body_at_tier, hint_path_model, lemma_next_present_bounds, outcome_is_data, outcome_is_soft,
    some_tier_present, spec_resolve, spec_resolve_from, spec_step, table_outcome, tier_count,
    tier_present, CatalogModel, OutcomeModel, PhaseModel, ResolutionModel, TableModel,
};

verus! {

/// Tiers whose outcome is soft are transparent: resolution from a position
/// equals resolution from any later position when every present tier in
/// between reads soft.
proof fn lemma_resolve_passes_soft_prefix(
    cat: CatalogModel,
    customs: Seq<Seq<char>>,
    t: TableModel,
    j: int,
    i: int,
)
    requires
        0 <= j <= i <= tier_count(cat),
        forall|k: int|
            j <= k < i && tier_present(cat, k) ==> outcome_is_soft(
                #[trigger] table_outcome(t, cat.custom.len() as int, k),
            ),
    ensures
        spec_resolve_from(cat, customs, t, j) == spec_resolve_from(cat, customs, t, i),
    decreases i - j,
{
    if j < i {
        lemma_resolve_passes_soft_prefix(cat, customs, t, j + 1, i);
    }
}

/// Priority: when tier `i` is present and its read yields data, and every
/// present tier of higher priority reads soft (absent-like, empty or
/// size-gated), the resolution publishes exactly the body of tier `i`.
/// Together with [`lemma_publish_is_first_readable`] this pins the selected
/// variant to the documented priority order: custom formats first, then
/// PNG, raw image, file list, HTML and plain text.
pub proof fn lemma_priority_first_match(
    cat: CatalogModel,
    customs: Seq<Seq<char>>,
    t: TableModel,
    i: int,
)
    requires
        customs.len() == cat.custom.len(),
        0 <= i < tier_count(cat),
        tier_present(cat, i),
        outcome_is_data(table_outcome(t, cat.custom.len() as int, i)),
        forall|k: int|
            0 <= k < i && tier_present(cat, k) ==> outcome_is_soft(
                #[trigger] table_outcome(t, cat.custom.len() as int, k),
            ),
    ensures
        spec_resolve(cat, customs, t, true) == ResolutionModel::Publish(
            body_at_tier(
                customs,
                i,
                table_outcome(t, cat.custom.len() as int, i),
                hint_path_model(cat, t.file_list),
            ),
        ),
{
    lemma_resolve_passes_soft_prefix(cat, customs, t, 0, i);
}

/// Every published body originates in the first present tier whose read
/// yielded data: nothing below it is ever inspected, and no soft tier —
/// in particular no size-gated one — contributes the published body.
pub proof fn lemma_publish_is_first_readable(
    cat: CatalogModel,
    customs: Seq<Seq<char>>,
    t: TableModel,
    j: int,
)
    requires
        customs.len() == cat.custom.len(),
        0 <= j <= tier_count(cat),
    ensures
        spec_resolve_from(cat, customs, t, j) matches ResolutionModel::Publish(b) ==> exists|i: int|
            {
                &&& j <= i < tier_count(cat)
                &&& #[trigger] tier_present(cat, i)
                &&& outcome_is_data(table_outcome(t, cat.custom.len() as int, i))
                &&& b == body_at_tier(
                    customs,
                    i,
                    table_outcome(t, cat.custom.len() as int, i),
                    hint_path_model(cat, t.file_list),
                )
                &&& forall|k: int|
                    j <= k < i && tier_present(cat, k) ==> outcome_is_soft(
                        #[trigger] table_outcome(t, cat.custom.len() as int, k),
                    )
            },
    decreases tier_count(cat) - j,
{
    let n = cat.custom.len() as int;
    if j >= tier_count(cat) {
    } else if !tier_present(cat, j) {
        lemma_publish_is_first_readable(cat, customs, t, j + 1);
        match spec_resolve_from(cat, customs, t, j) {
            ResolutionModel::Publish(b) => {
                let i = choose|i: int|
                {
                    &&& j + 1 <= i < tier_count(cat)
                    &&& #[trigger] tier_present(cat, i)
                    &&& outcome_is_data(table_outcome(t, n, i))
                    &&& b == body_at_tier(
                        customs,
                        i,
                        table_outcome(t, n, i),
                        hint_path_model(cat, t.file_list),
                    )
                    &&& forall|k: int|
                        j + 1 <= k < i && tier_present(cat, k) ==> outcome_is_soft(
                            #[trigger] table_outcome(t, n, k),
                        )
                    };
                assert(j <= i < tier_count(cat) && tier_present(cat, i));
            },
            _ => {},
        }
    } else {
        let o = table_outcome(t, n, j);
        if outcome_is_data(o) {
        } else if !(o matches crate::policy::OutcomeModel::Failed(_)) {
            lemma_publish_is_first_readable(cat, customs, t, j + 1);
            match spec_resolve_from(cat, customs, t, j) {
                ResolutionModel::Publish(b) => {
                    let i = choose|i: int|
                    {
                        &&& j + 1 <= i < tier_count(cat)
                        &&& #[trigger] tier_present(cat, i)
                        &&& outcome_is_data(table_outcome(t, n, i))
                        &&& b == body_at_tier(
                            customs,
                            i,
                            table_outcome(t, n, i),
                            hint_path_model(cat, t.file_list),
                        )
                        &&& forall|k: int|
                            j + 1 <= k < i && tier_present(cat, k) ==> outcome_is_soft(
                                #[trigger] table_outcome(t, n, k),
                            )
                        };
                    assert(outcome_is_soft(table_outcome(t, n, j)));
                    assert(j <= i < tier_count(cat) && tier_present(cat, i));
                },
                _ => {},
            }
        }
    }
}

/// The priority walk only ever advances: once a tier has been inspected,
/// the resolver never returns to it or to anything of higher priority, so
/// lower-priority formats are never inspected once an earlier one is
/// selected, and no tier is read twice.
pub proof fn lemma_walk_advances(
    cat: CatalogModel,
    customs: Seq<Seq<char>>,
    phase: PhaseModel,
    o: OutcomeModel,
    i: int,
)
    requires
        customs.len() == cat.custom.len(),
        phase == (PhaseModel::Tier { idx: i }),
        0 <= i < tier_count(cat),
    ensures
        spec_step(cat, customs, phase, o) matches PhaseModel::Tier { idx: j } ==> j > i,
{
    if 0 <= i + 1 <= tier_count(cat) {
        lemma_next_present_bounds(cat, i + 1);
    }
}

/// Idempotence: resolving the same catalog, the same monitored list and the
/// same read outcomes twice — with no native change in between — yields
/// structurally equal results. Together with the contract of
/// [`crate::policy::resolve_catalog`], two runs on one snapshot return
/// equal resolutions.
pub proof fn lemma_resolution_idempotent(
    cat: CatalogModel,
    customs: Seq<Seq<char>>,
    t: TableModel,
    gate_allowed: bool,
    cat2: CatalogModel,
    customs2: Seq<Seq<char>>,
    t2: TableModel,
    gate_allowed2: bool,
)
    requires
        cat == cat2,
        customs == customs2,
        t == t2,
        gate_allowed == gate_allowed2,
    ensures
        spec_resolve(cat, customs, t, gate_allowed) == spec_resolve(
            cat2,
            customs2,
            t2,
            gate_allowed2,
        ),
{
}

/// Size gating falls through: a tier whose read reports content beyond the
/// configured limit is transparent to the walk, exactly as if the tier were
/// absent — resolution continues with the next priority tier.
pub proof fn lemma_size_gated_tier_falls_through(
    cat: CatalogModel,
    customs: Seq<Seq<char>>,
    t: TableModel,
    i: int,
)
    requires
        0 <= i < tier_count(cat),
        table_outcome(t, cat.custom.len() as int, i) == crate::policy::OutcomeModel::TooLarge,
    ensures
        spec_resolve_from(cat, customs, t, i) == spec_resolve_from(cat, customs, t, i + 1),
{
}

/// `NoMatchingFormat` is reported exactly when the clipboard advertised
/// formats but none of the known tiers was present at all; size-gated or
/// empty tiers alone never turn the cycle into that failure.
pub proof fn lemma_no_matching_format(
    cat: CatalogModel,
    customs: Seq<Seq<char>>,
    t: TableModel,
    j: int,
)
    requires
        0 <= j <= tier_count(cat),
    ensures
        (spec_resolve_from(cat, customs, t, j) == ResolutionModel::Fail(
            ErrorModel::NoMatchingFormat,
        )) <==> (cat.any_formats && !some_tier_present(cat)),
    decreases tier_count(cat) - j,
{
    if !some_tier_present(cat) {
        assert(forall|k: int| 0 <= k < tier_count(cat) ==> !tier_present(cat, k));
    }
    if j >= tier_count(cat) {
    } else {
        lemma_no_matching_format(cat, customs, t, j + 1);
        if tier_present(cat, j) {
            assert(some_tier_present(cat));
            let o = table_outcome(t, cat.custom.len() as int, j);
            match o {
                crate::policy::OutcomeModel::Failed(m) => {
                    assert(spec_resolve_from(cat, customs, t, j) == ResolutionModel::Fail(
                        ErrorModel::ReadError(m),
                    ));
                },
                _ => {},
            }
        }
    }
}

} // verus!
