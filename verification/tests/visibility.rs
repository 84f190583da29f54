//! The visibility clause on concrete inputs.

use talent_search::filter::{Field, Filter, Value};
use talent_search::talent::Talent;

fn standard_rule(epoch: i64) -> Filter {
    Filter::And {
        clauses: vec![
            Filter::Term { field: Field::Accepted, value: Value::B(true) },
            Filter::RangeLte { field: Field::BatchStartAt, bound: epoch },
            Filter::RangeGte { field: Field::BatchEndAt, bound: epoch },
        ],
    }
}

#[test]
fn empty_presented_gives_exactly_the_standard_rule() {
    let filters = Talent::visibility_filters(1000, vec![]);
    assert_eq!(filters, vec![standard_rule(1000)]);
}

#[test]
fn standard_rule_follows_the_epoch() {
    let filters = Talent::visibility_filters(-5, vec![]);
    assert_eq!(filters, vec![standard_rule(-5)]);
}

#[test]
fn presented_talents_widen_with_an_or() {
    let filters = Talent::visibility_filters(1000, vec![42]);
    let expected = Filter::Or {
        clauses: vec![
            standard_rule(1000),
            Filter::And {
                clauses: vec![Filter::TermsAnyOf {
                    field: Field::Ids,
                    values: vec![Value::I(42)],
                }],
            },
        ],
    };
    assert_eq!(filters, vec![expected]);
}

#[test]
fn several_presented_talents_stay_in_order() {
    let filters = Talent::visibility_filters(7, vec![3, 1, 2]);
    assert_eq!(filters.len(), 1);
    match &filters[0] {
        Filter::Or { clauses } => {
            assert_eq!(clauses.len(), 2);
            assert_eq!(clauses[0], standard_rule(7));
            assert_eq!(
                clauses[1],
                Filter::And {
                    clauses: vec![Filter::TermsAnyOf {
                        field: Field::Ids,
                        values: vec![Value::I(3), Value::I(1), Value::I(2)],
                    }],
                }
            );
        }
        other => panic!("visibility clause is not an OR: {:?}", other),
    }
}
