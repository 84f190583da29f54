//! The executor's computing half: epoch and index resolution, the fixed
//! sort, and the mapping of backend outcomes to ID lists.

use talent_search::filter::{Field, Filter, SortOrder, SortSpec, Value};
use talent_search::search_params::SearchParams;
use talent_search::talent::{BackendError, SearchRequest, Talent, TalentHit};

fn strings(values: &[&str]) -> Vec<String> {
    values.iter().map(|v| v.to_string()).collect()
}

fn standard_rule(epoch: i64) -> Filter {
    Filter::And {
        clauses: vec![
            Filter::Term { field: Field::Accepted, value: Value::B(true) },
            Filter::RangeLte { field: Field::BatchStartAt, bound: epoch },
            Filter::RangeGte { field: Field::BatchEndAt, bound: epoch },
        ],
    }
}

#[test]
fn sorting_criteria_is_descending_updated_at() {
    assert_eq!(
        Talent::sorting_criteria(),
        SortSpec { field: Field::UpdatedAt, order: SortOrder::Descending }
    );
}

#[test]
fn sort_is_fixed_whatever_the_parameters() {
    let plain = SearchParams::default();
    let loaded = SearchParams {
        company_id: vec![4],
        work_roles: strings(&["Backend"]),
        presented_talents: vec![1, 2],
        epoch: Some(12),
        index: Some("other".to_string()),
        ..Default::default()
    };
    let defaults = strings(&["talents"]);
    let r1 = Talent::build_request(&defaults, &plain, 0);
    let r2 = Talent::build_request(&defaults, &loaded, 0);
    let expected = SortSpec { field: Field::UpdatedAt, order: SortOrder::Descending };
    assert_eq!(r1.sort, expected);
    assert_eq!(r2.sort, expected);
}

#[test]
fn index_parameter_overrides_the_defaults() {
    let params = SearchParams { index: Some("talents_test".to_string()), ..Default::default() };
    let defaults = strings(&["talents", "archive"]);
    let request = Talent::build_request(&defaults, &params, 0);
    assert_eq!(request.indexes, strings(&["talents_test"]));
}

#[test]
fn default_indexes_are_kept_in_order() {
    let params = SearchParams::default();
    let defaults = strings(&["talents", "archive"]);
    let request = Talent::build_request(&defaults, &params, 0);
    assert_eq!(request.indexes, defaults);
}

#[test]
fn absent_epoch_falls_back_to_the_given_time() {
    let params = SearchParams::default();
    let request = Talent::build_request(&strings(&["talents"]), &params, 555);
    assert_eq!(request.query.must, vec![standard_rule(555)]);
}

#[test]
fn present_epoch_wins_over_the_given_time() {
    let params = SearchParams { epoch: Some(1000), ..Default::default() };
    let request = Talent::build_request(&strings(&["talents"]), &params, 555);
    assert_eq!(request.query.must, vec![standard_rule(1000)]);
    assert_eq!(Talent::resolve_epoch(&params, 555), 1000);
}

#[test]
fn request_carries_indexes_query_and_sort_together() {
    let params = SearchParams { epoch: Some(77), ..Default::default() };
    let SearchRequest { indexes, query, sort } =
        Talent::build_request(&strings(&["talents"]), &params, 0);
    assert_eq!(indexes, strings(&["talents"]));
    assert_eq!(query.must, vec![standard_rule(77)]);
    assert_eq!(sort, SortSpec { field: Field::UpdatedAt, order: SortOrder::Descending });
}

#[test]
fn backend_failure_collapses_to_an_empty_list() {
    let outcome = Err(BackendError { detail: "connection refused".to_string() });
    assert_eq!(Talent::collect_ids(outcome), Vec::<u32>::new());
}

#[test]
fn backend_success_keeps_ids_in_backend_order() {
    let hits = vec![TalentHit { id: 9 }, TalentHit { id: 2 }, TalentHit { id: 31 }];
    assert_eq!(Talent::collect_ids(Ok(hits)), vec![9, 2, 31]);
}

#[test]
fn no_hits_give_no_ids() {
    assert_eq!(Talent::collect_ids(Ok(vec![])), Vec::<u32>::new());
}

#[test]
fn default_params_have_every_key_absent() {
    let params = SearchParams::default();
    assert_eq!(params.company_id, Vec::<i32>::new());
    assert_eq!(params.work_roles, Vec::<String>::new());
    assert_eq!(params.presented_talents, Vec::<i32>::new());
    assert_eq!(params.epoch, None);
    assert_eq!(params.index, None);
}
