use novu::changes::{list_query, Change, ChangeType, Changes, ChangesResponse};
use novu::query::{decimal_string, generate_query_string};
use novu::response::{into_result, NovuError, Response};

fn entries_of(query: &str) -> Vec<(String, String)> {
    let mut out = Vec::new();
    for part in query.split('&') {
        let (k, v) = part.split_once('=').expect("entry without '='");
        out.push((k.to_string(), v.to_string()));
    }
    out.sort();
    out
}

fn sample_change(id: &str, change_type: ChangeType) -> Change {
    Change {
        _id: id.to_string(),
        _creator_id: "creator".to_string(),
        _environment_id: "env".to_string(),
        _organization_id: "org".to_string(),
        _entity_id: "entity".to_string(),
        _parent_id: "parent".to_string(),
        enabled: true,
        created_at: "2023-01-01T00:00:00.000Z".to_string(),
        change_type,
    }
}

#[test]
fn test_list_changes() {
    let changes = Changes::new(());
    let path = changes.list_path(None, Some(10), false);
    assert_eq!(path, "/changes/?limit=10&promoted=false");
    // with no base URL the request cannot be sent: the transport fails
    let outcome: Result<Response<ChangesResponse>, NovuError> =
        Err(NovuError::Transport("relative URL without a base".to_string()));
    let result = into_result(outcome);
    assert!(result.is_err());
}

#[test]
fn listing_query_has_exactly_the_given_keys() {
    for page in [None, Some(0u32), Some(5)] {
        for limit in [None, Some(1u32), Some(100)] {
            for promoted in [true, false] {
                let q = list_query(page, limit, promoted);
                let es = entries_of(&q);
                let mut expected = Vec::new();
                if let Some(p) = page {
                    expected.push(("page".to_string(), p.to_string()));
                }
                if let Some(l) = limit {
                    expected.push(("limit".to_string(), l.to_string()));
                }
                expected.push(("promoted".to_string(), promoted.to_string()));
                expected.sort();
                assert_eq!(es, expected, "query {}", q);
                assert_eq!(q.matches("promoted=").count(), 1);
            }
        }
    }
}

#[test]
fn listing_path_exact() {
    let changes = Changes::new(());
    assert_eq!(changes.list_path(Some(5), Some(100), true), "/changes/?page=5&limit=100&promoted=true");
    assert_eq!(changes.list_path(Some(0), None, false), "/changes/?page=0&promoted=false");
    assert_eq!(changes.list_path(None, None, true), "/changes/?promoted=true");
}

#[test]
fn building_twice_gives_the_same_entries() {
    let a = vec![("page", Some("2".to_string())), ("limit", None), ("promoted", Some("true".to_string()))];
    let b = vec![("promoted", Some("true".to_string())), ("page", Some("2".to_string())), ("limit", None)];
    let q1 = generate_query_string(&a);
    let q2 = generate_query_string(&a);
    assert_eq!(q1, q2);
    let q3 = generate_query_string(&b);
    assert_eq!(q1, "page=2&promoted=true");
    assert_eq!(q3, "promoted=true&page=2");
    assert_eq!(entries_of(&q1), entries_of(&q3));
}

#[test]
fn absent_values_give_empty_query() {
    let none: Vec<(&str, Option<String>)> = vec![("page", None), ("limit", None)];
    assert_eq!(generate_query_string(&none), "");
    let empty: Vec<(&str, Option<String>)> = Vec::new();
    assert_eq!(generate_query_string(&empty), "");
    assert_eq!(list_query(None, None, false), "promoted=false");
    assert_eq!(list_query(None, None, true), "promoted=true");
}

#[test]
fn values_are_not_escaped() {
    let params = vec![("q", Some("a b&c".to_string())), ("x", Some(String::new()))];
    assert_eq!(generate_query_string(&params), "q=a b&c&x=");
}

#[test]
fn decimal_forms() {
    assert_eq!(decimal_string(0), "0");
    assert_eq!(decimal_string(7), "7");
    assert_eq!(decimal_string(10), "10");
    assert_eq!(decimal_string(305), "305");
    assert_eq!(decimal_string(u32::MAX), "4294967295");
}

#[test]
fn success_envelope_gives_the_page() {
    let page = ChangesResponse { page: 1, total_count: 2, page_size: 10, data: vec![] };
    let result = into_result(Ok(Response::Success(page)));
    let got = result.expect("success");
    assert_eq!(got.page, 1);
    assert_eq!(got.total_count, 2);
    assert_eq!(got.page_size, 10);
    assert!(got.data.is_empty());
}

#[test]
fn success_envelope_keeps_the_changes() {
    let data = vec![sample_change("a", ChangeType::Feed), sample_change("b", ChangeType::NotificationGroup)];
    let page = ChangesResponse { page: 0, total_count: 2, page_size: 10, data: data.clone() };
    let got = into_result(Ok(Response::Success(page))).expect("success");
    assert_eq!(got.data, data);
    assert_eq!(got.data[1].change_type, ChangeType::NotificationGroup);
}

#[test]
fn error_envelope_is_a_typed_failure() {
    let outcome: Result<Response<ChangesResponse>, NovuError> =
        Ok(Response::Error("API Key not found".to_string()));
    assert_eq!(into_result(outcome), Err(NovuError::Server("API Key not found".to_string())));
}

#[test]
fn messages_envelope_is_a_typed_failure() {
    let msgs = vec!["limit must not be greater than 100".to_string()];
    let outcome: Result<Response<ChangesResponse>, NovuError> = Ok(Response::Messages(msgs.clone()));
    assert_eq!(into_result(outcome), Err(NovuError::Messages(msgs)));
}

#[test]
fn decoding_failure_passes_through() {
    let outcome: Result<Response<ChangesResponse>, NovuError> = Err(NovuError::Decode("bad shape".to_string()));
    assert_eq!(into_result(outcome), Err(NovuError::Decode("bad shape".to_string())));
}

#[test]
fn client_is_kept() {
    let changes = Changes::new("handle");
    assert_eq!(*changes.client(), "handle");
}
