use dune_api::types::{
    CancelExecutionResponse, ExecuteQueryRequest, ExecuteResponse, ExecuteSqlRequest,
    ExecutionResultsResponse, ExecutionState, ExecutionStatusResponse, Pagination,
    PipelineExecuteResponse, QueryParameter, ResultData, ResultMetadata,
};
use std::collections::HashMap;

fn metadata(total_row_count: u64, datapoint_count: u64) -> ResultMetadata {
    ResultMetadata {
        column_names: vec!["ts".to_string(), "amount".to_string()],
        column_types: vec!["timestamp".to_string()],
        total_row_count,
        datapoint_count,
        result_set_bytes: None,
        pending_time_millis: None,
        execution_time_millis: None,
    }
}

fn decode_metadata(payload: &str) -> ResultMetadata {
    let value: serde_json::Value = serde_json::from_str(payload).unwrap();
    let names = |key: &str| -> Vec<String> {
        match value.get(key).and_then(|v| v.as_array()) {
            Some(items) => items.iter().map(|v| v.as_str().unwrap().to_string()).collect(),
            None => Vec::new(),
        }
    };
    ResultMetadata {
        column_names: names("column_names"),
        column_types: names("column_types"),
        total_row_count: value["total_row_count"].as_u64().unwrap(),
        datapoint_count: value["datapoint_count"].as_u64().unwrap(),
        result_set_bytes: value.get("result_set_bytes").and_then(|v| v.as_u64()),
        pending_time_millis: value.get("pending_time_millis").and_then(|v| v.as_u64()),
        execution_time_millis: value.get("execution_time_millis").and_then(|v| v.as_u64()),
    }
}

#[test]
fn decoded_page_never_reports_more_than_the_total() {
    let payload = "{\"column_names\": [\"ts\", \"amount\"], \"total_row_count\": 100, \
                   \"datapoint_count\": 10, \"execution_time_millis\": 1200}";
    let decoded = decode_metadata(payload);
    assert_eq!(decoded.total_row_count, 100);
    assert_eq!(decoded.datapoint_count, 10);
    assert_eq!(decoded.column_types, Vec::<String>::new());
    assert_eq!(decoded.result_set_bytes, None);
    assert_eq!(decoded.execution_time_millis, Some(1200));
    assert!(decoded.is_consistent());
    let page = decoded.pagination().unwrap();
    assert_eq!(page, Pagination { total_row_count: 100, datapoint_count: 10, remaining: 90 });
    assert!(page.datapoint_count <= page.total_row_count);
    assert_eq!(page.datapoint_count + page.remaining, page.total_row_count);
}

#[test]
fn full_page_has_nothing_remaining() {
    let m = metadata(10, 10);
    assert!(m.is_consistent());
    assert_eq!(
        m.pagination(),
        Some(Pagination { total_row_count: 10, datapoint_count: 10, remaining: 0 })
    );
}

#[test]
fn empty_result_is_consistent() {
    let m = metadata(0, 0);
    assert!(m.is_consistent());
    assert_eq!(
        m.pagination(),
        Some(Pagination { total_row_count: 0, datapoint_count: 0, remaining: 0 })
    );
}

#[test]
fn more_returned_than_available_is_not_reported() {
    let m = metadata(10, 100);
    assert!(!m.is_consistent());
    assert_eq!(m.pagination(), None);
    let m = metadata(0, 1);
    assert!(!m.is_consistent());
    assert_eq!(m.pagination(), None);
}

#[test]
fn largest_counts_do_not_overflow() {
    let m = metadata(u64::MAX, 0);
    assert_eq!(
        m.pagination(),
        Some(Pagination { total_row_count: u64::MAX, datapoint_count: 0, remaining: u64::MAX })
    );
    let m = metadata(u64::MAX, u64::MAX);
    assert_eq!(m.pagination().unwrap().remaining, 0);
    assert_eq!(metadata(u64::MAX - 1, u64::MAX).pagination(), None);
}

#[test]
fn pagination_holds_over_a_grid() {
    for total in 0..12u64 {
        for returned in 0..12u64 {
            let m = metadata(total, returned);
            assert_eq!(m.is_consistent(), returned <= total);
            match m.pagination() {
                Some(p) => {
                    assert!(returned <= total);
                    assert!(p.datapoint_count <= p.total_row_count);
                    assert_eq!(p.remaining, total - returned);
                }
                None => assert!(returned > total),
            }
        }
    }
}

#[test]
fn rows_carry_loosely_typed_cells() {
    let mut row: HashMap<String, serde_json::Value> = HashMap::new();
    row.insert("ts".to_string(), serde_json::Value::String("2024-01-01".to_string()));
    row.insert("amount".to_string(), serde_json::Value::from(42u64));
    row.insert("tags".to_string(), serde_json::Value::Array(vec![serde_json::Value::Null]));
    let data = ResultData { metadata: metadata(100, 1), rows: vec![row] };
    let copy = data.clone();
    assert_eq!(copy.rows.len(), 1);
    assert_eq!(copy.rows[0]["amount"].as_u64(), Some(42));
    assert_eq!(copy.rows[0]["ts"].as_str(), Some("2024-01-01"));
    assert!(copy.rows[0]["tags"].is_array());
    assert_eq!(copy.metadata.column_names, vec!["ts".to_string(), "amount".to_string()]);
}

#[test]
fn results_response_may_lack_a_result() {
    let response = ExecutionResultsResponse {
        execution_id: "01HZX".to_string(),
        query_id: Some(7),
        state: ExecutionState::Executing,
        submitted_at: Some("2024-01-01T00:00:00Z".to_string()),
        execution_started_at: None,
        execution_ended_at: None,
        expires_at: None,
        result: None,
    };
    assert!(response.result.is_none());
    assert!(!response.state.is_terminal());
    let done = ExecutionResultsResponse {
        state: ExecutionState::Completed,
        result: Some(ResultData { metadata: metadata(2, 2), rows: vec![HashMap::new(), HashMap::new()] }),
        ..response.clone()
    };
    assert!(done.state.is_success());
    assert_eq!(done.result.unwrap().rows.len(), 2);
}

#[test]
fn request_defaults_set_nothing() {
    let sql = ExecuteSqlRequest::default();
    assert_eq!(sql.sql, "");
    assert!(sql.query_parameters.is_none());
    assert!(sql.performance.is_none());
    let saved = ExecuteQueryRequest::default();
    assert!(saved.query_parameters.is_none());
    assert!(saved.performance.is_none());
}

#[test]
fn requests_hold_what_they_are_given() {
    let parameter = QueryParameter {
        key: "chain".to_string(),
        param_type: "enum".to_string(),
        value: "ethereum".to_string(),
    };
    let request = ExecuteSqlRequest {
        sql: "select 1".to_string(),
        query_parameters: Some(vec![parameter.clone()]),
        performance: Some("large".to_string()),
    };
    let copy = request.clone();
    assert_eq!(copy.sql, "select 1");
    assert_eq!(copy.performance.as_deref(), Some("large"));
    let parameters = copy.query_parameters.unwrap();
    assert_eq!(parameters.len(), 1);
    assert_eq!(parameters[0].key, "chain");
    assert_eq!(parameters[0].param_type, "enum");
    assert_eq!(parameters[0].value, "ethereum");
    let saved = ExecuteQueryRequest { query_parameters: Some(vec![]), ..ExecuteQueryRequest::default() };
    assert_eq!(saved.query_parameters.unwrap().len(), 0);
}

#[test]
fn responses_hold_what_they_are_given() {
    let handle = ExecuteResponse { execution_id: "01HZX".to_string(), state: ExecutionState::Pending };
    assert_eq!(handle.clone().execution_id, "01HZX");
    assert_eq!(handle.state, ExecutionState::Pending);
    let pipeline = PipelineExecuteResponse {
        pipeline_execution_id: "p-1".to_string(),
        state: ExecutionState::Executing,
    };
    assert_eq!(pipeline.clone().pipeline_execution_id, "p-1");
    let status = ExecutionStatusResponse {
        execution_id: "01HZX".to_string(),
        query_id: None,
        state: ExecutionState::Pending,
        submitted_at: None,
        execution_started_at: None,
        execution_ended_at: None,
        expires_at: None,
        queue_position: Some(0),
    };
    assert_eq!(status.clone().queue_position, Some(0));
    assert_ne!(status.queue_position, None);
    let cancel = CancelExecutionResponse { success: false };
    assert!(!cancel.clone().success);
}
