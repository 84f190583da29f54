//! The talent resource: visibility policy, query builder, and the computing
//! half of the search executor.
//!
//! The search backend itself is an outside service. The functions here build
//! the exact request for it (query, sort, target indexes) and turn its
//! outcome into a list of talent IDs; sending the request, and reading the
//! clock that supplies `now`, are the caller's side of the boundary.

use vstd::prelude::*;
use crate::filter::{Field, Filter, SortOrder, SortSpec, SpecFilter, SpecQuery, SpecValue,
    TalentQuery, Value, view_filter, view_filters, lemma_view_filters_add,
    lemma_view_filters_pointwise};
use crate::search_params::{SearchParams, SpecParams};
use crate::terms::{build_terms_ids, build_terms_strings, spec_id_values, spec_string_values,
    spec_terms};

verus! {

/// One search hit, reduced to the only field this crate reads: the talent's
/// numeric identifier.
#[derive(Clone, Copy, Debug, PartialEq, Eq, Structural)]
pub struct TalentHit {
    pub id: u32,
}

/// A failure of the search backend: transport trouble or a backend-reported
/// error, with its diagnostic detail.
#[derive(Debug)]
pub struct BackendError {
    pub detail: String,
}

/// Everything one backend round-trip needs: target indexes, the boolean
/// query, and the fixed sort.
#[derive(Debug)]
pub struct SearchRequest {
    pub indexes: Vec<String>,
    pub query: TalentQuery,
    pub sort: SortSpec,
}

/// The standard visibility rule: accepted into the platform, and inside a
/// living batch at `epoch` (batch started at or before it, ends at or after
/// it).
pub open spec fn spec_standard_rule(epoch: i64) -> SpecFilter {
    SpecFilter::And {
        clauses: seq![
            SpecFilter::Term { field: Field::Accepted, value: SpecValue::B(true) },
            SpecFilter::RangeLte { field: Field::BatchStartAt, bound: epoch },
            SpecFilter::RangeGte { field: Field::BatchEndAt, bound: epoch },
        ],
    }
}

/// The override clause: the talent's identifier is one of the presented ones.
pub open spec fn spec_presented_override(presented: Seq<i32>) -> SpecFilter {
    SpecFilter::And { clauses: spec_terms(Field::Ids, spec_id_values(presented)) }
}

/// The whole visibility clause: the standard rule alone when no talents are
/// presented, otherwise the standard rule widened (OR) by the override.
pub open spec fn spec_visibility(epoch: i64, presented: Seq<i32>) -> SpecFilter {
    if presented.len() == 0 {
        spec_standard_rule(epoch)
    } else {
        SpecFilter::Or {
            clauses: seq![spec_standard_rule(epoch), spec_presented_override(presented)],
        }
    }
}

/// The composed query: one OR-clause per non-empty facet plus the visibility
/// clause, all required; the two company exclusion clauses, both forbidden
/// and both over the same `company_id` list.
pub open spec fn spec_query(p: SpecParams, epoch: i64) -> SpecQuery {
    SpecQuery {
        must: spec_terms(Field::WorkRoles, spec_string_values(p.work_roles))
            + spec_terms(Field::WorkLanguages, spec_string_values(p.work_languages))
            + spec_terms(Field::WorkExperience, spec_string_values(p.work_experience))
            + spec_terms(Field::WorkLocations, spec_string_values(p.work_locations))
            + spec_terms(Field::WorkAuthorization, spec_string_values(p.work_authorization))
            + seq![spec_visibility(epoch, p.presented_talents)],
        must_not: spec_terms(Field::CompanyIds, spec_id_values(p.company_id))
            + spec_terms(Field::BlockedCompanies, spec_id_values(p.company_id)),
    }
}

/// The fixed sort: descending on `updated_at`.
pub open spec fn spec_sort() -> SortSpec {
    SortSpec { field: Field::UpdatedAt, order: SortOrder::Descending }
}

/// Batch-window evaluation time: the caller-supplied `epoch` when present,
/// otherwise `now`.
pub open spec fn spec_epoch(p: SpecParams, now: i64) -> i64 {
    match p.epoch {
        Some(e) => e,
        None => now,
    }
}

/// Target indexes: the single overriding index when present, otherwise the
/// caller-supplied defaults.
pub open spec fn spec_indexes(p: SpecParams, defaults: Seq<Seq<char>>) -> Seq<Seq<char>> {
    match p.index {
        Some(index) => seq![index],
        None => defaults,
    }
}

/// Hit identifiers in backend order.
pub open spec fn spec_hit_ids(hits: Seq<TalentHit>) -> Seq<u32> {
    hits.map_values(|h: TalentHit| h.id)
}

fn copy_ids(ids: &Vec<i32>) -> (r: Vec<i32>)
    ensures
        r@ == ids@,
{
    let mut r: Vec<i32> = Vec::new();
    let mut i: usize = 0;
    while i < ids.len()
        invariant
            i <= ids.len(),
            r@ =~= ids@.subrange(0, i as int),
        decreases ids.len() - i,
    {
        r.push(ids[i]);
        i += 1;
    }
    proof {
        assert(r@ =~= ids@);
    }
    r
}

fn append_clauses(dst: &mut Vec<Filter>, src: Vec<Filter>)
    ensures
        view_filters(final(dst)@) == view_filters(old(dst)@) + view_filters(src@),
{
    let ghost d0 = dst@;
    let ghost s0 = src@;
    let mut src = src;
    dst.append(&mut src);
    proof {
        lemma_view_filters_add(d0, s0);
    }
}

/// The talent resource: every function is a pure step of one search.
pub struct Talent;

impl Talent {
    /// The visibility criteria for talents, as a single composite clause.
    ///
    /// `epoch` (UNIX seconds) is the time at which batches are evaluated:
    /// a visible talent is accepted and inside a batch whose window holds
    /// `epoch`. Talents whose ID is in `presented_talents` skip the standard
    /// criteria: that list, when non-empty, widens the clause with an OR and
    /// never replaces the standard rule.
    pub fn visibility_filters(epoch: i64, presented_talents: Vec<i32>) -> (r: Vec<Filter>)
        ensures
            r@.len() == 1,
            view_filter(r@[0]) == spec_visibility(epoch, presented_talents@),
            view_filters(r@) == seq![spec_visibility(epoch, presented_talents@)],
    {
        let mut rules: Vec<Filter> = Vec::new();
        rules.push(Filter::Term { field: Field::Accepted, value: Value::B(true) });
        rules.push(Filter::RangeLte { field: Field::BatchStartAt, bound: epoch });
        rules.push(Filter::RangeGte { field: Field::BatchEndAt, bound: epoch });
        proof {
            lemma_view_filters_pointwise(rules@);
            assert(view_filters(rules@) =~= spec_standard_rule(epoch)->And_clauses);
        }
        let visibility_rules = Filter::And { clauses: rules };
        let mut r: Vec<Filter> = Vec::new();
        if presented_talents.len() > 0 {
            let terms = build_terms_ids(Field::Ids, &presented_talents);
            let presented_talents_filters = Filter::And { clauses: terms };
            let mut branches: Vec<Filter> = Vec::new();
            branches.push(visibility_rules);
            branches.push(presented_talents_filters);
            proof {
                lemma_view_filters_pointwise(branches@);
                assert(view_filters(branches@) =~= seq![
                    spec_standard_rule(epoch),
                    spec_presented_override(presented_talents@),
                ]);
            }
            r.push(Filter::Or { clauses: branches });
        } else {
            r.push(visibility_rules);
        }
        proof {
            lemma_view_filters_pointwise(r@);
            assert(view_filters(r@) =~= seq![spec_visibility(epoch, presented_talents@)]);
        }
        r
    }

    /// The boolean query for the given parameters and `epoch`.
    ///
    /// Within one facet the listed values are ORred; distinct facets, and the
    /// visibility clause, are ANDed. An empty facet list contributes no
    /// clause. The `company_id` list is excluded twice, under the direct
    /// field and under the blocklist field.
    pub fn search_filters(params: &SearchParams, epoch: i64) -> (r: TalentQuery)
        ensures
            r@ == spec_query(params@, epoch),
    {
        let mut must: Vec<Filter> = Vec::new();
        append_clauses(&mut must, build_terms_strings(Field::WorkRoles, &params.work_roles));
        append_clauses(&mut must, build_terms_strings(Field::WorkLanguages, &params.work_languages));
        append_clauses(&mut must, build_terms_strings(Field::WorkExperience, &params.work_experience));
        append_clauses(&mut must, build_terms_strings(Field::WorkLocations, &params.work_locations));
        append_clauses(
            &mut must,
            build_terms_strings(Field::WorkAuthorization, &params.work_authorization),
        );
        append_clauses(
            &mut must,
            Talent::visibility_filters(epoch, copy_ids(&params.presented_talents)),
        );
        let mut must_not: Vec<Filter> = Vec::new();
        append_clauses(&mut must_not, build_terms_ids(Field::CompanyIds, &params.company_id));
        append_clauses(&mut must_not, build_terms_ids(Field::BlockedCompanies, &params.company_id));
        let r = TalentQuery { must, must_not };
        proof {
            assert(r@.must =~= spec_query(params@, epoch).must);
            assert(r@.must_not =~= spec_query(params@, epoch).must_not);
        }
        r
    }

    /// The fixed sorting criteria: `updated_at`, descending, whatever the
    /// parameters were.
    pub fn sorting_criteria() -> (r: SortSpec)
        ensures
            r == spec_sort(),
    {
        SortSpec { field: Field::UpdatedAt, order: SortOrder::Descending }
    }

    /// The batch-window evaluation time: the `epoch` parameter when present,
    /// otherwise `now`.
    pub fn resolve_epoch(params: &SearchParams, now: i64) -> (r: i64)
        ensures
            r == spec_epoch(params@, now),
    {
        match params.epoch {
            Some(e) => e,
            None => now,
        }
    }

    /// The indexes to query: the single `index` parameter when present,
    /// otherwise the caller-supplied defaults, unchanged and in order.
    pub fn resolve_indexes(params: &SearchParams, default_indexes: &Vec<String>) -> (r: Vec<
        String,
    >)
        ensures
            r.deep_view() == spec_indexes(params@, default_indexes.deep_view()),
    {
        match &params.index {
            Some(index) => {
                let mut r: Vec<String> = Vec::new();
                r.push(index.clone());
                proof {
                    assert(r.deep_view() =~= spec_indexes(params@, default_indexes.deep_view()));
                }
                r
            },
            None => {
                let mut r: Vec<String> = Vec::new();
                let mut i: usize = 0;
                while i < default_indexes.len()
                    invariant
                        i <= default_indexes.len(),
                        r@.len() == i,
                        forall|j: int| 0 <= j < i ==> r@[j]@ == default_indexes@[j]@,
                    decreases default_indexes.len() - i,
                {
                    r.push(default_indexes[i].clone());
                    i += 1;
                }
                proof {
                    assert(r.deep_view() =~= spec_indexes(params@, default_indexes.deep_view()));
                }
                r
            },
        }
    }

    /// The whole request for one search at a known time `now`: resolved
    /// indexes, the composed query at the resolved epoch, and the fixed sort.
    pub fn build_request(default_indexes: &Vec<String>, params: &SearchParams, now: i64) -> (r:
        SearchRequest)
        ensures
            r.indexes.deep_view() == spec_indexes(params@, default_indexes.deep_view()),
            r.query@ == spec_query(params@, spec_epoch(params@, now)),
            r.sort == spec_sort(),
    {
        let epoch = Talent::resolve_epoch(params, now);
        SearchRequest {
            indexes: Talent::resolve_indexes(params, default_indexes),
            query: Talent::search_filters(params, epoch),
            sort: Talent::sorting_criteria(),
        }
    }

    /// The talent IDs of one backend outcome: the hit identifiers in backend
    /// order on success, and the empty list on failure — a backend error
    /// never propagates to the caller.
    pub fn collect_ids(outcome: Result<Vec<TalentHit>, BackendError>) -> (r: Vec<u32>)
        ensures
            match outcome {
                Ok(hits) => r@ == spec_hit_ids(hits@),
                Err(_) => r@ == Seq::<u32>::empty(),
            },
    {
        match outcome {
            Ok(hits) => {
                let mut r: Vec<u32> = Vec::new();
                let mut i: usize = 0;
                while i < hits.len()
                    invariant
                        i <= hits.len(),
                        r@.len() == i,
                        forall|j: int| 0 <= j < i ==> r@[j] == hits@[j].id,
                    decreases hits.len() - i,
                {
                    r.push(hits[i].id);
                    i += 1;
                }
                proof {
                    assert(r@ =~= spec_hit_ids(hits@));
                }
                r
            },
            Err(_) => Vec::new(),
        }
    }
}

} // verus!
