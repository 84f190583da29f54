//! The query model: an immutable tree of filter expressions, the boolean
//! talent query built from it, and the fixed sort specification.
//!
//! Exec values (`Filter`, `TalentQuery`) carry `Vec` and `String`; every
//! contract speaks of their mathematical views (`SpecFilter`, `SpecQuery`),
//! which carry `Seq` instead.

use vstd::prelude::*;

verus! {

/// A field of the talent documents that a query clause may refer to.
#[derive(Clone, Copy, Debug, PartialEq, Eq, Structural)]
pub enum Field {
    Accepted,
    BatchStartAt,
    BatchEndAt,
    Ids,
    WorkRoles,
    WorkLanguages,
    WorkExperience,
    WorkLocations,
    WorkAuthorization,
    CompanyIds,
    BlockedCompanies,
    UpdatedAt,
}

/// A scalar value carried by a term clause.
#[derive(Debug, PartialEq)]
pub enum Value {
    B(bool),
    I(i64),
    S(String),
}

/// Mathematical view of a `Value`: the string is a sequence of characters.
pub enum SpecValue {
    B(bool),
    I(i64),
    S(Seq<char>),
}

/// A filter expression: a tagged tree of term, range and boolean nodes.
#[derive(Debug, PartialEq)]
pub enum Filter {
    /// The field holds exactly this value.
    Term { field: Field, value: Value },
    /// The field holds one of these values (OR within one facet).
    TermsAnyOf { field: Field, values: Vec<Value> },
    /// The field's value is at most `bound`.
    RangeLte { field: Field, bound: i64 },
    /// The field's value is at least `bound`.
    RangeGte { field: Field, bound: i64 },
    /// Every clause holds.
    And { clauses: Vec<Filter> },
    /// At least one clause holds.
    Or { clauses: Vec<Filter> },
    /// The inner clause does not hold.
    Not { inner: Box<Filter> },
}

/// Mathematical view of a `Filter`.
pub enum SpecFilter {
    Term { field: Field, value: SpecValue },
    TermsAnyOf { field: Field, values: Seq<SpecValue> },
    RangeLte { field: Field, bound: i64 },
    RangeGte { field: Field, bound: i64 },
    And { clauses: Seq<SpecFilter> },
    Or { clauses: Seq<SpecFilter> },
    Not { inner: Box<SpecFilter> },
}

pub open spec fn view_value(v: Value) -> SpecValue {
    match v {
        Value::B(b) => SpecValue::B(b),
        Value::I(i) => SpecValue::I(i),
        Value::S(s) => SpecValue::S(s@),
    }
}

pub open spec fn view_values(s: Seq<Value>) -> Seq<SpecValue> {
    s.map_values(|v: Value| view_value(v))
}

pub open spec fn view_filter(f: Filter) -> SpecFilter
    decreases f,
{
    match f {
        Filter::Term { field, value } => SpecFilter::Term { field, value: view_value(value) },
        Filter::TermsAnyOf { field, values } => SpecFilter::TermsAnyOf {
            field,
            values: view_values(values@),
        },
        Filter::RangeLte { field, bound } => SpecFilter::RangeLte { field, bound },
        Filter::RangeGte { field, bound } => SpecFilter::RangeGte { field, bound },
        Filter::And { clauses } => SpecFilter::And { clauses: view_filters(clauses@) },
        Filter::Or { clauses } => SpecFilter::Or { clauses: view_filters(clauses@) },
        Filter::Not { inner } => SpecFilter::Not { inner: Box::new(view_filter(*inner)) },
    }
}

pub open spec fn view_filters(s: Seq<Filter>) -> Seq<SpecFilter>
    decreases s,
{
    if s.len() == 0 {
        Seq::empty()
    } else {
        view_filters(s.drop_last()).push(view_filter(s.last()))
    }
}

impl View for Filter {
    type V = SpecFilter;

    open spec fn view(&self) -> SpecFilter {
        view_filter(*self)
    }
}

/// The view of a clause list is pointwise: same length, element views in place.
pub proof fn lemma_view_filters_pointwise(s: Seq<Filter>)
    ensures
        view_filters(s).len() == s.len(),
        forall|i: int| 0 <= i < s.len() ==> view_filters(s)[i] == view_filter(s[i]),
    decreases s,
{
    if s.len() > 0 {
        lemma_view_filters_pointwise(s.drop_last());
    }
}

/// Viewing clause lists commutes with appending them.
pub proof fn lemma_view_filters_add(s1: Seq<Filter>, s2: Seq<Filter>)
    ensures
        view_filters(s1 + s2) == view_filters(s1) + view_filters(s2),
{
    lemma_view_filters_pointwise(s1);
    lemma_view_filters_pointwise(s2);
    lemma_view_filters_pointwise(s1 + s2);
    assert(view_filters(s1 + s2) =~= view_filters(s1) + view_filters(s2));
}


/// The composed boolean query: every `must` clause is required, every
/// `must_not` clause is forbidden.
#[derive(Debug, PartialEq)]
pub struct TalentQuery {
    pub must: Vec<Filter>,
    pub must_not: Vec<Filter>,
}

/// Mathematical view of a `TalentQuery`.
pub struct SpecQuery {
    pub must: Seq<SpecFilter>,
    pub must_not: Seq<SpecFilter>,
}

impl View for TalentQuery {
    type V = SpecQuery;

    open spec fn view(&self) -> SpecQuery {
        SpecQuery { must: view_filters(self.must@), must_not: view_filters(self.must_not@) }
    }
}

/// Direction of a sort.
#[derive(Clone, Copy, Debug, PartialEq, Eq, Structural)]
pub enum SortOrder {
    Ascending,
    Descending,
}

/// A single-field sort specification.
#[derive(Clone, Copy, Debug, PartialEq, Eq, Structural)]
pub struct SortSpec {
    pub field: Field,
    pub order: SortOrder,
}

} // verus!
