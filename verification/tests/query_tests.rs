//! The query-builder state machine and the query entry-point plans.

use lancedb_bridge::error::Error;
use lancedb_bridge::query::{
    metric_from_code, plan_query_distance_type, plan_query_execute, plan_query_execute_stream,
    plan_query_filter, plan_query_limit, plan_query_nearest_to, plan_query_new, plan_query_offset,
    plan_query_select, plan_stream_next, Metric, QueryHandle,
};

fn vector_of(q: &QueryHandle) -> Option<Vec<u32>> {
    match q {
        QueryHandle::Plain(_) => None,
        QueryHandle::Vector(v) => Some(v.vector.clone()),
    }
}

fn metric_of(q: &QueryHandle) -> Option<Metric> {
    match q {
        QueryHandle::Plain(_) => None,
        QueryHandle::Vector(v) => v.metric,
    }
}

#[test]
fn new_query_is_plain_with_defaults() {
    let q = QueryHandle::new();
    match q {
        QueryHandle::Plain(p) => {
            assert_eq!(p.limit, None);
            assert_eq!(p.offset, None);
            assert_eq!(p.filter, None);
            assert_eq!(p.select, None);
        }
        QueryHandle::Vector(_) => panic!("fresh query must be plain"),
    }
}

#[test]
fn nearest_to_transitions_once() {
    let mut q = QueryHandle::new();
    assert!(q.nearest_to(vec![1, 0, 0, 0]).is_ok());
    assert_eq!(vector_of(&q), Some(vec![1, 0, 0, 0]));
    assert_eq!(metric_of(&q), None);
}

#[test]
fn nearest_to_twice_fails_and_keeps_first_vector() {
    let mut q = QueryHandle::new();
    let first: Vec<u32> = vec![1, 2, 3];
    let second: Vec<u32> = vec![4, 5, 6];
    assert!(q.nearest_to(first.clone()).is_ok());
    let r = q.nearest_to(second);
    match r {
        Err(Error::InvalidArgument { message }) => {
            assert_eq!(message, "nearest_to can only be called once on a query");
        }
        _ => panic!("second nearest_to must fail with invalid argument"),
    }
    // The handle stays usable, still configured with the first vector.
    assert_eq!(vector_of(&q), Some(first));
    assert!(q.limit(2).is_ok());
}

#[test]
fn distance_type_requires_vector_state() {
    let mut q = QueryHandle::new();
    let r = q.distance_type(Metric::Cosine);
    match r {
        Err(Error::InvalidArgument { message }) => {
            assert_eq!(message, "distance_type can only be set on vector queries");
        }
        _ => panic!("distance_type on a plain query must fail"),
    }
    assert!(q.nearest_to(vec![7]).is_ok());
    assert!(q.distance_type(Metric::Cosine).is_ok());
    assert_eq!(metric_of(&q), Some(Metric::Cosine));
    // Replacing the metric keeps the last value.
    assert!(q.distance_type(Metric::Dot).is_ok());
    assert_eq!(metric_of(&q), Some(Metric::Dot));
}

#[test]
fn setters_replace_previous_values() {
    let mut q = QueryHandle::new();
    assert!(q.limit(10).is_ok());
    assert!(q.limit(5).is_ok());
    assert!(q.offset(3).is_ok());
    assert!(q.filter("id > 1").is_ok());
    assert!(q.filter("id > 2").is_ok());
    assert!(q.select(vec!["a".to_string()]).is_ok());
    assert!(q.select(vec!["b".to_string(), "c".to_string()]).is_ok());
    match q {
        QueryHandle::Plain(p) => {
            assert_eq!(p.limit, Some(5));
            assert_eq!(p.offset, Some(3));
            assert_eq!(p.filter, Some("id > 2".to_string()));
            assert_eq!(p.select, Some(vec!["b".to_string(), "c".to_string()]));
        }
        QueryHandle::Vector(_) => panic!("setters must not change the state tag"),
    }
}

#[test]
fn empty_filter_is_stored_verbatim() {
    let mut q = QueryHandle::new();
    assert!(q.filter("").is_ok());
    match q {
        QueryHandle::Plain(p) => assert_eq!(p.filter, Some(String::new())),
        QueryHandle::Vector(_) => panic!("filter must not change the state tag"),
    }
}

#[test]
fn settings_survive_the_vector_transition() {
    let mut q = QueryHandle::new();
    assert!(q.limit(2).is_ok());
    assert!(q.filter("v IS NOT NULL").is_ok());
    assert!(q.nearest_to(vec![1, 0, 0, 0]).is_ok());
    match &q {
        QueryHandle::Vector(v) => {
            assert_eq!(v.base.limit, Some(2));
            assert_eq!(v.base.filter, Some("v IS NOT NULL".to_string()));
        }
        QueryHandle::Plain(_) => panic!("nearest_to must move to the vector state"),
    }
    assert!(q.offset(1).is_ok());
    match &q {
        QueryHandle::Vector(v) => assert_eq!(v.base.offset, Some(1)),
        QueryHandle::Plain(_) => panic!("offset must not change the state tag"),
    }
}

#[test]
fn nearest_neighbor_builder_chain() {
    // Configure a nearest-neighbor query the way a foreign caller would:
    // vector of dimension 4, cosine metric, at most 2 rows.
    let mut q = QueryHandle::new();
    let components: Vec<f32> = vec![1.0, 0.0, 0.0, 0.0];
    let bits: Vec<u32> = components.iter().map(|c| c.to_bits()).collect();
    assert!(q.nearest_to(bits.clone()).is_ok());
    let metric = metric_from_code(1).expect("code 1 is cosine");
    assert!(q.distance_type(metric).is_ok());
    assert!(q.limit(2).is_ok());
    match &q {
        QueryHandle::Vector(v) => {
            assert_eq!(v.vector, bits);
            assert_eq!(v.metric, Some(Metric::Cosine));
            assert_eq!(v.base.limit, Some(2));
        }
        QueryHandle::Plain(_) => panic!("the chain must end in the vector state"),
    }
}

#[test]
fn metric_codes_decode() {
    assert_eq!(metric_from_code(0), Some(Metric::L2));
    assert_eq!(metric_from_code(1), Some(Metric::Cosine));
    assert_eq!(metric_from_code(2), Some(Metric::Dot));
    assert_eq!(metric_from_code(3), None);
    assert_eq!(metric_from_code(-1), None);
}

#[test]
fn plan_query_new_checks_table() {
    assert_eq!(plan_query_new(false), Ok(()));
    assert_eq!(plan_query_new(true), Err("table handle cannot be null".to_string()));
}

#[test]
fn plan_nearest_to_checks_arguments() {
    assert_eq!(plan_query_nearest_to(false, false, 4), Ok(()));
    let expected = "handle, vector cannot be null and vector_len must be positive";
    assert_eq!(plan_query_nearest_to(true, false, 4), Err(expected.to_string()));
    assert_eq!(plan_query_nearest_to(false, true, 4), Err(expected.to_string()));
    assert_eq!(plan_query_nearest_to(false, false, 0), Err(expected.to_string()));
    assert_eq!(plan_query_nearest_to(false, false, -2), Err(expected.to_string()));
}

#[test]
fn plan_distance_type_decodes_metric() {
    assert_eq!(plan_query_distance_type(false, 0), Ok(Metric::L2));
    assert_eq!(plan_query_distance_type(false, 1), Ok(Metric::Cosine));
    assert_eq!(plan_query_distance_type(false, 2), Ok(Metric::Dot));
    assert_eq!(plan_query_distance_type(true, 0), Err("handle cannot be null".to_string()));
    assert_eq!(
        plan_query_distance_type(false, 7),
        Err("invalid distance type: must be 0 (L2), 1 (Cosine), or 2 (Dot)".to_string())
    );
}

#[test]
fn plan_limit_accepts_zero_and_rejects_negative() {
    assert_eq!(plan_query_limit(false, 0), Ok(0));
    assert_eq!(plan_query_limit(false, 17), Ok(17));
    let expected = "handle cannot be null and limit must be non-negative";
    assert_eq!(plan_query_limit(false, -1), Err(expected.to_string()));
    assert_eq!(plan_query_limit(true, 1), Err(expected.to_string()));
}

#[test]
fn plan_limit_accepts_the_largest_code() {
    assert_eq!(plan_query_limit(false, i32::MAX), Ok(i32::MAX as usize));
}

#[test]
fn plan_offset_accepts_zero_and_rejects_negative() {
    assert_eq!(plan_query_offset(false, 0), Ok(0));
    assert_eq!(plan_query_offset(false, 9), Ok(9));
    let expected = "handle cannot be null and offset must be non-negative";
    assert_eq!(plan_query_offset(false, -5), Err(expected.to_string()));
    assert_eq!(plan_query_offset(true, 0), Err(expected.to_string()));
}

#[test]
fn plan_filter_checks_nulls_only() {
    assert_eq!(plan_query_filter(false, false), Ok(()));
    let expected = "handle and filter cannot be null";
    assert_eq!(plan_query_filter(true, false), Err(expected.to_string()));
    assert_eq!(plan_query_filter(false, true), Err(expected.to_string()));
}

#[test]
fn plan_select_checks_arguments() {
    assert_eq!(plan_query_select(false, false, 2), Ok(2));
    let expected = "handle, columns cannot be null and columns_len must be positive";
    assert_eq!(plan_query_select(true, false, 2), Err(expected.to_string()));
    assert_eq!(plan_query_select(false, true, 2), Err(expected.to_string()));
    assert_eq!(plan_query_select(false, false, 0), Err(expected.to_string()));
}

#[test]
fn plan_execute_checks_output_slots() {
    assert_eq!(plan_query_execute(false, false, false, false), Ok(()));
    let expected = "handle, arrays_out, schemas_out, and count_out cannot be null";
    assert_eq!(plan_query_execute(true, false, false, false), Err(expected.to_string()));
    assert_eq!(plan_query_execute(false, true, false, false), Err(expected.to_string()));
    assert_eq!(plan_query_execute(false, false, true, false), Err(expected.to_string()));
    assert_eq!(plan_query_execute(false, false, false, true), Err(expected.to_string()));
}

#[test]
fn plan_execute_stream_checks_handle() {
    assert_eq!(plan_query_execute_stream(false), Ok(()));
    assert_eq!(plan_query_execute_stream(true), Err("handle cannot be null".to_string()));
}

#[test]
fn plan_stream_next_checks_arguments() {
    assert_eq!(plan_stream_next(false, false, false), Ok(()));
    let expected = "handle, array_out, and schema_out cannot be null";
    assert_eq!(plan_stream_next(true, false, false), Err(expected.to_string()));
    assert_eq!(plan_stream_next(false, true, false), Err(expected.to_string()));
    assert_eq!(plan_stream_next(false, false, true), Err(expected.to_string()));
}
