//! The composed boolean query on concrete parameter combinations.

use talent_search::filter::{Field, Filter, Value};
use talent_search::search_params::SearchParams;
use talent_search::talent::Talent;
use talent_search::terms::{build_terms_ids, build_terms_strings};

fn standard_rule(epoch: i64) -> Filter {
    Filter::And {
        clauses: vec![
            Filter::Term { field: Field::Accepted, value: Value::B(true) },
            Filter::RangeLte { field: Field::BatchStartAt, bound: epoch },
            Filter::RangeGte { field: Field::BatchEndAt, bound: epoch },
        ],
    }
}

fn strings(values: &[&str]) -> Vec<String> {
    values.iter().map(|v| v.to_string()).collect()
}

#[test]
fn scenario_roles_and_empty_languages() {
    let params = SearchParams {
        work_roles: strings(&["Fullstack", "DevOps"]),
        ..Default::default()
    };
    let query = Talent::search_filters(&params, 1000);
    assert_eq!(
        query.must,
        vec![
            Filter::TermsAnyOf {
                field: Field::WorkRoles,
                values: vec![
                    Value::S("Fullstack".to_string()),
                    Value::S("DevOps".to_string()),
                ],
            },
            standard_rule(1000),
        ]
    );
    assert_eq!(query.must_not, vec![]);
}

#[test]
fn scenario_presented_talent_changes_visibility_clause() {
    let params = SearchParams {
        work_roles: strings(&["Fullstack", "DevOps"]),
        presented_talents: vec![42],
        ..Default::default()
    };
    let query = Talent::search_filters(&params, 1000);
    assert_eq!(query.must.len(), 2);
    assert_eq!(
        query.must[1],
        Filter::Or {
            clauses: vec![
                standard_rule(1000),
                Filter::And {
                    clauses: vec![Filter::TermsAnyOf {
                        field: Field::Ids,
                        values: vec![Value::I(42)],
                    }],
                },
            ],
        }
    );
}

#[test]
fn scenario_company_exclusion_is_doubled() {
    let params = SearchParams { company_id: vec![7, 8], ..Default::default() };
    let query = Talent::search_filters(&params, 1000);
    assert_eq!(
        query.must_not,
        vec![
            Filter::TermsAnyOf {
                field: Field::CompanyIds,
                values: vec![Value::I(7), Value::I(8)],
            },
            Filter::TermsAnyOf {
                field: Field::BlockedCompanies,
                values: vec![Value::I(7), Value::I(8)],
            },
        ]
    );
}

#[test]
fn empty_facets_contribute_no_clause() {
    let params = SearchParams::default();
    let query = Talent::search_filters(&params, 55);
    assert_eq!(query.must, vec![standard_rule(55)]);
    assert_eq!(query.must_not, vec![]);
}

#[test]
fn every_facet_contributes_its_clause() {
    let params = SearchParams {
        company_id: vec![1],
        work_roles: strings(&["a"]),
        work_languages: strings(&["b"]),
        work_experience: strings(&["c"]),
        work_locations: strings(&["d"]),
        work_authorization: strings(&["e"]),
        presented_talents: vec![],
        epoch: None,
        index: None,
    };
    let query = Talent::search_filters(&params, 9);
    let facet = |field: Field, value: &str| Filter::TermsAnyOf {
        field,
        values: vec![Value::S(value.to_string())],
    };
    assert_eq!(
        query.must,
        vec![
            facet(Field::WorkRoles, "a"),
            facet(Field::WorkLanguages, "b"),
            facet(Field::WorkExperience, "c"),
            facet(Field::WorkLocations, "d"),
            facet(Field::WorkAuthorization, "e"),
            standard_rule(9),
        ]
    );
    assert_eq!(query.must_not.len(), 2);
}

fn same_value_set(left: &[Value], right: &[Value]) -> bool {
    left.iter().all(|v| right.contains(v)) && right.iter().all(|v| left.contains(v))
}

#[test]
fn reordered_facet_values_give_the_same_clause_set() {
    let first = SearchParams {
        work_roles: strings(&["Fullstack", "DevOps"]),
        company_id: vec![7, 8],
        ..Default::default()
    };
    let second = SearchParams {
        work_roles: strings(&["DevOps", "Fullstack"]),
        company_id: vec![8, 7],
        ..Default::default()
    };
    let q1 = Talent::search_filters(&first, 1000);
    let q2 = Talent::search_filters(&second, 1000);
    assert_eq!(q1.must.len(), q2.must.len());
    assert_eq!(q1.must_not.len(), q2.must_not.len());
    for (a, b) in q1.must.iter().zip(q2.must.iter()) {
        match (a, b) {
            (
                Filter::TermsAnyOf { field: f1, values: v1 },
                Filter::TermsAnyOf { field: f2, values: v2 },
            ) => {
                assert_eq!(f1, f2);
                assert!(same_value_set(v1, v2));
            }
            _ => assert_eq!(a, b),
        }
    }
    for (a, b) in q1.must_not.iter().zip(q2.must_not.iter()) {
        match (a, b) {
            (
                Filter::TermsAnyOf { field: f1, values: v1 },
                Filter::TermsAnyOf { field: f2, values: v2 },
            ) => {
                assert_eq!(f1, f2);
                assert!(same_value_set(v1, v2));
            }
            _ => assert_eq!(a, b),
        }
    }
}

#[test]
fn terms_builder_emits_nothing_for_an_empty_list() {
    assert_eq!(build_terms_strings(Field::WorkRoles, &vec![]), vec![]);
    assert_eq!(build_terms_ids(Field::CompanyIds, &vec![]), vec![]);
}

#[test]
fn terms_builder_emits_one_clause_for_values() {
    assert_eq!(
        build_terms_strings(Field::WorkLocations, &strings(&["Berlin", "Rome"])),
        vec![Filter::TermsAnyOf {
            field: Field::WorkLocations,
            values: vec![
                Value::S("Berlin".to_string()),
                Value::S("Rome".to_string()),
            ],
        }]
    );
    assert_eq!(
        build_terms_ids(Field::Ids, &vec![5]),
        vec![Filter::TermsAnyOf { field: Field::Ids, values: vec![Value::I(5)] }]
    );
}
