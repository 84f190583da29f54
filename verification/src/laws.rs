//! Laws of the query builder, each proved once and for all inputs: the shape
//! of the visibility clause, the absence of always-false facet clauses, the
//! dual company exclusion, and invariance under reordering a facet's values.

use vstd::prelude::*;
use crate::filter::{Field, SpecFilter, SpecQuery, SpecValue};
use crate::search_params::SpecParams;
use crate::talent::{spec_presented_override, spec_query, spec_standard_rule, spec_visibility};
use crate::terms::{spec_id_values, spec_string_values, spec_terms};

verus! {

/// Law: for every epoch, when no talents are presented the visibility clause
/// is exactly the AND of the three standard predicates — accepted, batch
/// started at or before the epoch, batch ending at or after it.
pub proof fn lemma_visibility_standard_only(epoch: i64, presented: Seq<i32>)
    requires
        presented.len() == 0,
    ensures
        spec_visibility(epoch, presented) == (SpecFilter::And {
            clauses: seq![
                SpecFilter::Term { field: Field::Accepted, value: SpecValue::B(true) },
                SpecFilter::RangeLte { field: Field::BatchStartAt, bound: epoch },
                SpecFilter::RangeGte { field: Field::BatchEndAt, bound: epoch },
            ],
        }),
{
}

/// Law: for every non-empty presented-talents list the visibility clause is
/// an OR whose first branch is the unchanged standard rule and whose second
/// branch holds exactly the presented identifiers — the override widens the
/// rule and never replaces it.
pub proof fn lemma_visibility_widened(epoch: i64, presented: Seq<i32>)
    requires
        presented.len() > 0,
    ensures
        spec_visibility(epoch, presented) == (SpecFilter::Or {
            clauses: seq![
                spec_standard_rule(epoch),
                SpecFilter::And {
                    clauses: seq![
                        SpecFilter::TermsAnyOf {
                            field: Field::Ids,
                            values: spec_id_values(presented),
                        },
                    ],
                },
            ],
        }),
{
    assert(spec_terms(Field::Ids, spec_id_values(presented)) =~= seq![
        SpecFilter::TermsAnyOf { field: Field::Ids, values: spec_id_values(presented) },
    ]);
}

/// Law: for every parameter combination, a non-empty `company_id` list
/// yields exactly the two exclusion clauses — direct and blocklist — over
/// the same value list, and an empty one yields no exclusion clause.
pub proof fn lemma_dual_company_exclusion(p: SpecParams, epoch: i64)
    ensures
        p.company_id.len() > 0 ==> spec_query(p, epoch).must_not == seq![
            SpecFilter::TermsAnyOf {
                field: Field::CompanyIds,
                values: spec_id_values(p.company_id),
            },
            SpecFilter::TermsAnyOf {
                field: Field::BlockedCompanies,
                values: spec_id_values(p.company_id),
            },
        ],
        p.company_id.len() == 0 ==> spec_query(p, epoch).must_not == Seq::<SpecFilter>::empty(),
{
    if p.company_id.len() > 0 {
        assert(spec_query(p, epoch).must_not =~= seq![
            SpecFilter::TermsAnyOf {
                field: Field::CompanyIds,
                values: spec_id_values(p.company_id),
            },
            SpecFilter::TermsAnyOf {
                field: Field::BlockedCompanies,
                values: spec_id_values(p.company_id),
            },
        ]);
    } else {
        assert(spec_query(p, epoch).must_not =~= Seq::<SpecFilter>::empty());
    }
}

/// No node of the tree is a `TermsAnyOf` clause with an empty value list —
/// the shape of an always-false facet clause.
pub open spec fn no_empty_terms(f: SpecFilter) -> bool
    decreases f,
{
    match f {
        SpecFilter::TermsAnyOf { field: _, values } => values.len() > 0,
        SpecFilter::And { clauses } => forall|i: int|
            0 <= i < clauses.len() ==> no_empty_terms(#[trigger] clauses[i]),
        SpecFilter::Or { clauses } => forall|i: int|
            0 <= i < clauses.len() ==> no_empty_terms(#[trigger] clauses[i]),
        SpecFilter::Not { inner } => no_empty_terms(*inner),
        _ => true,
    }
}

proof fn lemma_terms_no_empty(field: Field, vals: Seq<SpecValue>)
    ensures
        forall|i: int|
            0 <= i < spec_terms(field, vals).len() ==> no_empty_terms(
                #[trigger] spec_terms(field, vals)[i],
            ),
{
}

proof fn lemma_visibility_no_empty(epoch: i64, presented: Seq<i32>)
    ensures
        no_empty_terms(spec_visibility(epoch, presented)),
{
    let std_clauses = spec_standard_rule(epoch)->And_clauses;
    assert forall|i: int| 0 <= i < std_clauses.len() implies no_empty_terms(
        #[trigger] std_clauses[i],
    ) by {
        assert(no_empty_terms(std_clauses[0]));
        assert(no_empty_terms(std_clauses[1]));
        assert(no_empty_terms(std_clauses[2]));
    }
    assert(no_empty_terms(spec_standard_rule(epoch)));
    if presented.len() > 0 {
        let over_clauses = spec_presented_override(presented)->And_clauses;
        assert(over_clauses.len() == 1);
        assert(no_empty_terms(over_clauses[0]));
        assert(no_empty_terms(spec_presented_override(presented)));
        let or_clauses = spec_visibility(epoch, presented)->Or_clauses;
        assert(no_empty_terms(or_clauses[0]));
        assert(no_empty_terms(or_clauses[1]));
    }
}

/// Law: for every parameter combination, no clause of the composed query —
/// required or forbidden, at any depth — is a terms clause over an empty
/// list: an absent or empty facet never excludes every document by itself.
pub proof fn lemma_no_empty_terms_in_query(p: SpecParams, epoch: i64)
    ensures
        forall|i: int|
            0 <= i < spec_query(p, epoch).must.len() ==> no_empty_terms(
                #[trigger] spec_query(p, epoch).must[i],
            ),
        forall|i: int|
            0 <= i < spec_query(p, epoch).must_not.len() ==> no_empty_terms(
                #[trigger] spec_query(p, epoch).must_not[i],
            ),
{
    lemma_terms_no_empty(Field::WorkRoles, spec_string_values(p.work_roles));
    lemma_terms_no_empty(Field::WorkLanguages, spec_string_values(p.work_languages));
    lemma_terms_no_empty(Field::WorkExperience, spec_string_values(p.work_experience));
    lemma_terms_no_empty(Field::WorkLocations, spec_string_values(p.work_locations));
    lemma_terms_no_empty(Field::WorkAuthorization, spec_string_values(p.work_authorization));
    lemma_terms_no_empty(Field::CompanyIds, spec_id_values(p.company_id));
    lemma_terms_no_empty(Field::BlockedCompanies, spec_id_values(p.company_id));
    lemma_visibility_no_empty(epoch, p.presented_talents);
}

/// Clause equivalence up to the order of values inside terms clauses: equal
/// nodes, except that `TermsAnyOf` values are compared as sets.
pub open spec fn filter_equiv(a: SpecFilter, b: SpecFilter) -> bool
    decreases a,
{
    match (a, b) {
        (
            SpecFilter::TermsAnyOf { field: f1, values: v1 },
            SpecFilter::TermsAnyOf { field: f2, values: v2 },
        ) => f1 == f2 && v1.to_set() == v2.to_set(),
        (SpecFilter::And { clauses: c1 }, SpecFilter::And { clauses: c2 }) => c1.len() == c2.len()
            && (forall|i: int| 0 <= i < c1.len() ==> filter_equiv(#[trigger] c1[i], c2[i])),
        (SpecFilter::Or { clauses: c1 }, SpecFilter::Or { clauses: c2 }) => c1.len() == c2.len()
            && (forall|i: int| 0 <= i < c1.len() ==> filter_equiv(#[trigger] c1[i], c2[i])),
        (SpecFilter::Not { inner: i1 }, SpecFilter::Not { inner: i2 }) => filter_equiv(*i1, *i2),
        _ => a == b,
    }
}

/// Query equivalence: clause lists of equal length, pairwise equivalent.
pub open spec fn query_equiv(q1: SpecQuery, q2: SpecQuery) -> bool {
    &&& q1.must.len() == q2.must.len()
    &&& forall|i: int| 0 <= i < q1.must.len() ==> filter_equiv(#[trigger] q1.must[i], q2.must[i])
    &&& q1.must_not.len() == q2.must_not.len()
    &&& forall|i: int|
        0 <= i < q1.must_not.len() ==> filter_equiv(#[trigger] q1.must_not[i], q2.must_not[i])
}

pub proof fn lemma_filter_equiv_refl(a: SpecFilter)
    ensures
        filter_equiv(a, a),
    decreases a,
{
    match a {
        SpecFilter::And { clauses } => {
            assert forall|i: int| 0 <= i < clauses.len() implies filter_equiv(
                #[trigger] clauses[i],
                clauses[i],
            ) by {
                lemma_filter_equiv_refl(clauses[i]);
            }
        },
        SpecFilter::Or { clauses } => {
            assert forall|i: int| 0 <= i < clauses.len() implies filter_equiv(
                #[trigger] clauses[i],
                clauses[i],
            ) by {
                lemma_filter_equiv_refl(clauses[i]);
            }
        },
        SpecFilter::Not { inner } => {
            lemma_filter_equiv_refl(*inner);
        },
        _ => {},
    }
}

proof fn lemma_terms_blocks_equiv(field: Field, v1: Seq<SpecValue>, v2: Seq<SpecValue>)
    requires
        v1.to_set() == v2.to_set(),
    ensures
        spec_terms(field, v1).len() == spec_terms(field, v2).len(),
        forall|i: int|
            0 <= i < spec_terms(field, v1).len() ==> filter_equiv(
                #[trigger] spec_terms(field, v1)[i],
                spec_terms(field, v2)[i],
            ),
{
    v1.lemma_cardinality_of_empty_set_is_0();
    v2.lemma_cardinality_of_empty_set_is_0();
    if v1.len() > 0 {
        assert(filter_equiv(spec_terms(field, v1)[0], spec_terms(field, v2)[0]));
    }
}

proof fn lemma_string_values_sets_equal(s1: Seq<Seq<char>>, s2: Seq<Seq<char>>)
    requires
        s1.to_set() == s2.to_set(),
    ensures
        spec_string_values(s1).to_set() == spec_string_values(s2).to_set(),
{
    assert forall|x: SpecValue| spec_string_values(s1).contains(x) implies spec_string_values(
        s2,
    ).contains(x) by {
        let i = choose|i: int| 0 <= i < s1.len() && spec_string_values(s1)[i] == x;
        assert(s1.contains(s1[i]));
        assert(s2.to_set().contains(s1[i]));
        let j = choose|j: int| 0 <= j < s2.len() && s2[j] == s1[i];
        assert(spec_string_values(s2)[j] == x);
    }
    assert forall|x: SpecValue| spec_string_values(s2).contains(x) implies spec_string_values(
        s1,
    ).contains(x) by {
        let i = choose|i: int| 0 <= i < s2.len() && spec_string_values(s2)[i] == x;
        assert(s2.contains(s2[i]));
        assert(s1.to_set().contains(s2[i]));
        let j = choose|j: int| 0 <= j < s1.len() && s1[j] == s2[i];
        assert(spec_string_values(s1)[j] == x);
    }
    assert(spec_string_values(s1).to_set() =~= spec_string_values(s2).to_set());
}

proof fn lemma_id_values_sets_equal(s1: Seq<i32>, s2: Seq<i32>)
    requires
        s1.to_set() == s2.to_set(),
    ensures
        spec_id_values(s1).to_set() == spec_id_values(s2).to_set(),
{
    assert forall|x: SpecValue| spec_id_values(s1).contains(x) implies spec_id_values(
        s2,
    ).contains(x) by {
        let i = choose|i: int| 0 <= i < s1.len() && spec_id_values(s1)[i] == x;
        assert(s1.contains(s1[i]));
        assert(s2.to_set().contains(s1[i]));
        let j = choose|j: int| 0 <= j < s2.len() && s2[j] == s1[i];
        assert(spec_id_values(s2)[j] == x);
    }
    assert forall|x: SpecValue| spec_id_values(s2).contains(x) implies spec_id_values(
        s1,
    ).contains(x) by {
        let i = choose|i: int| 0 <= i < s2.len() && spec_id_values(s2)[i] == x;
        assert(s2.contains(s2[i]));
        assert(s1.to_set().contains(s2[i]));
        let j = choose|j: int| 0 <= j < s1.len() && s1[j] == s2[i];
        assert(spec_id_values(s1)[j] == x);
    }
    assert(spec_id_values(s1).to_set() =~= spec_id_values(s2).to_set());
}

proof fn lemma_visibility_equiv(epoch: i64, pt1: Seq<i32>, pt2: Seq<i32>)
    requires
        pt1.to_set() == pt2.to_set(),
    ensures
        filter_equiv(spec_visibility(epoch, pt1), spec_visibility(epoch, pt2)),
{
    pt1.lemma_cardinality_of_empty_set_is_0();
    pt2.lemma_cardinality_of_empty_set_is_0();
    lemma_id_values_sets_equal(pt1, pt2);
    if pt1.len() == 0 {
        lemma_filter_equiv_refl(spec_standard_rule(epoch));
    } else {
        lemma_terms_blocks_equiv(Field::Ids, spec_id_values(pt1), spec_id_values(pt2));
        assert(filter_equiv(spec_presented_override(pt1), spec_presented_override(pt2)));
        let c1 = spec_visibility(epoch, pt1)->Or_clauses;
        let c2 = spec_visibility(epoch, pt2)->Or_clauses;
        lemma_filter_equiv_refl(spec_standard_rule(epoch));
        assert forall|i: int| 0 <= i < c1.len() implies filter_equiv(
            #[trigger] c1[i],
            c2[i],
        ) by {
            assert(filter_equiv(c1[0], c2[0]));
            assert(filter_equiv(c1[1], c2[1]));
        }
    }
}

/// Law: the composed query is invariant, up to `filter_equiv`, under
/// reordering (or repeating) the values inside each facet's input list: the
/// set of values of each facet, never their order, determines the query.
pub proof fn lemma_query_reorder_invariant(p1: SpecParams, p2: SpecParams, epoch: i64)
    requires
        p1.work_roles.to_set() == p2.work_roles.to_set(),
        p1.work_languages.to_set() == p2.work_languages.to_set(),
        p1.work_experience.to_set() == p2.work_experience.to_set(),
        p1.work_locations.to_set() == p2.work_locations.to_set(),
        p1.work_authorization.to_set() == p2.work_authorization.to_set(),
        p1.company_id.to_set() == p2.company_id.to_set(),
        p1.presented_talents.to_set() == p2.presented_talents.to_set(),
    ensures
        query_equiv(spec_query(p1, epoch), spec_query(p2, epoch)),
{
    lemma_string_values_sets_equal(p1.work_roles, p2.work_roles);
    lemma_string_values_sets_equal(p1.work_languages, p2.work_languages);
    lemma_string_values_sets_equal(p1.work_experience, p2.work_experience);
    lemma_string_values_sets_equal(p1.work_locations, p2.work_locations);
    lemma_string_values_sets_equal(p1.work_authorization, p2.work_authorization);
    lemma_id_values_sets_equal(p1.company_id, p2.company_id);
    lemma_terms_blocks_equiv(
        Field::WorkRoles,
        spec_string_values(p1.work_roles),
        spec_string_values(p2.work_roles),
    );
    lemma_terms_blocks_equiv(
        Field::WorkLanguages,
        spec_string_values(p1.work_languages),
        spec_string_values(p2.work_languages),
    );
    lemma_terms_blocks_equiv(
        Field::WorkExperience,
        spec_string_values(p1.work_experience),
        spec_string_values(p2.work_experience),
    );
    lemma_terms_blocks_equiv(
        Field::WorkLocations,
        spec_string_values(p1.work_locations),
        spec_string_values(p2.work_locations),
    );
    lemma_terms_blocks_equiv(
        Field::WorkAuthorization,
        spec_string_values(p1.work_authorization),
        spec_string_values(p2.work_authorization),
    );
    lemma_terms_blocks_equiv(
        Field::CompanyIds,
        spec_id_values(p1.company_id),
        spec_id_values(p2.company_id),
    );
    lemma_terms_blocks_equiv(
        Field::BlockedCompanies,
        spec_id_values(p1.company_id),
        spec_id_values(p2.company_id),
    );
    lemma_visibility_equiv(epoch, p1.presented_talents, p2.presented_talents);
}

} // verus!
