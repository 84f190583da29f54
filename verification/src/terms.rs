//! Builders for "terms" clauses: a facet's value list becomes zero or one
//! `TermsAnyOf` clause. An empty list contributes no clause at all, so an
//! absent facet never excludes every document.

use vstd::prelude::*;
use crate::filter::{Field, Filter, SpecFilter, SpecValue, Value, view_filters, view_value,
    view_values, lemma_view_filters_pointwise};

verus! {

/// Facet strings as term values.
pub open spec fn spec_string_values(vals: Seq<Seq<char>>) -> Seq<SpecValue> {
    vals.map_values(|s: Seq<char>| SpecValue::S(s))
}

/// Facet integers (talent or company IDs) as term values.
pub open spec fn spec_id_values(ids: Seq<i32>) -> Seq<SpecValue> {
    ids.map_values(|id: i32| SpecValue::I(id as i64))
}

/// Zero or one clause for one facet: nothing for an empty value list, one
/// `TermsAnyOf` clause otherwise.
pub open spec fn spec_terms(field: Field, vals: Seq<SpecValue>) -> Seq<SpecFilter> {
    if vals.len() == 0 {
        Seq::empty()
    } else {
        seq![SpecFilter::TermsAnyOf { field, values: vals }]
    }
}

/// Build the clause list for one string-valued facet.
pub fn build_terms_strings(field: Field, values: &Vec<String>) -> (r: Vec<Filter>)
    ensures
        view_filters(r@) == spec_terms(field, spec_string_values(values.deep_view())),
{
    let ghost goal: Seq<SpecValue> = spec_string_values(values.deep_view());
    let mut vals: Vec<Value> = Vec::new();
    let mut i: usize = 0;
    while i < values.len()
        invariant
            i <= values.len(),
            vals@.len() == i,
            forall|j: int| 0 <= j < i ==> view_value(vals@[j]) == goal[j],
            goal == spec_string_values(values.deep_view()),
        decreases values.len() - i,
    {
        vals.push(Value::S(values[i].clone()));
        i += 1;
    }
    proof {
        assert(view_values(vals@) =~= goal);
    }
    let mut r: Vec<Filter> = Vec::new();
    if vals.len() > 0 {
        r.push(Filter::TermsAnyOf { field, values: vals });
    }
    proof {
        lemma_view_filters_pointwise(r@);
        assert(view_filters(r@) =~= spec_terms(field, goal));
    }
    r
}

/// Build the clause list for one integer-valued facet.
pub fn build_terms_ids(field: Field, ids: &Vec<i32>) -> (r: Vec<Filter>)
    ensures
        view_filters(r@) == spec_terms(field, spec_id_values(ids@)),
{
    let ghost goal: Seq<SpecValue> = spec_id_values(ids@);
    let mut vals: Vec<Value> = Vec::new();
    let mut i: usize = 0;
    while i < ids.len()
        invariant
            i <= ids.len(),
            vals@.len() == i,
            forall|j: int| 0 <= j < i ==> view_value(vals@[j]) == goal[j],
            goal == spec_id_values(ids@),
        decreases ids.len() - i,
    {
        vals.push(Value::I(ids[i] as i64));
        i += 1;
    }
    proof {
        assert(view_values(vals@) =~= goal);
    }
    let mut r: Vec<Filter> = Vec::new();
    if vals.len() > 0 {
        r.push(Filter::TermsAnyOf { field, values: vals });
    }
    proof {
        lemma_view_filters_pointwise(r@);
        assert(view_filters(r@) =~= spec_terms(field, goal));
    }
    r
}

} // verus!
