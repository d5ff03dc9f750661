use tw_rs::forgejo::headers::HeaderMap;
use tw_rs::forgejo::structs::{
    AdminSearchEmailsQuery, AdminSearchUsersQuery, AdminSearchUsersQuerySort, CommitListHeaders,
    IssueListIssuesQuery, IssueListIssuesQueryState,
};
use tw_rs::forgejo::{Forgejo, StructureError};

#[test]
fn client_keeps_its_base_url() {
    let f = Forgejo::new("https://codeberg.org/".to_string());
    assert_eq!(f.base_url(), "https://codeberg.org/");
}

#[test]
fn request_carries_its_arguments() {
    let f = Forgejo::new("https://example.org".to_string());
    let r = f.repo_get("owner", "name");
    assert_eq!(r.endpoint.owner, "owner");
    assert_eq!(r.endpoint.repo, "name");
    assert!(std::ptr::eq(r.client, &f));
}

#[test]
fn query_lists_only_present_parameters_in_order() {
    let q = AdminSearchEmailsQuery { q: Some("alice".to_string()) };
    assert_eq!(q.into_list(), vec![("q", "alice".to_string())]);
    let q = AdminSearchEmailsQuery { q: None };
    assert!(q.into_list().is_empty());
    let q = AdminSearchUsersQuery {
        source_id: Some(-3),
        login_name: None,
        sort: Some(AdminSearchUsersQuerySort::Reversealphabetically),
    };
    assert_eq!(
        q.into_list(),
        vec![("source_id", "-3".to_string()), ("sort", "reversealphabetically".to_string())]
    );
}

#[test]
fn query_writes_timestamps_in_rfc3339() {
    let q = IssueListIssuesQuery {
        state: Some(IssueListIssuesQueryState::Open),
        labels: None,
        q: None,
        type_: None,
        milestones: None,
        since: Some(time::OffsetDateTime::from_unix_timestamp(0).unwrap()),
        before: None,
        created_by: None,
        assigned_by: None,
        mentioned_by: None,
        sort: None,
    };
    let list = q.try_into_list().unwrap();
    assert_eq!(
        list,
        vec![("state", "open".to_string()), ("since", "1970-01-01T00:00:00Z".to_string())]
    );
}

#[test]
fn headers_are_read_case_insensitively() {
    let mut m = HeaderMap::new();
    m.append("X-HasMore", b"true".to_vec());
    m.append("X-Total-Count", b"42".to_vec());
    let h = CommitListHeaders::try_from(&m).unwrap();
    assert_eq!(h.x_has_more, Some(true));
    assert_eq!(h.x_total_count, Some(42));
}

#[test]
fn missing_headers_are_none_and_bad_ones_are_errors() {
    let m = HeaderMap::new();
    let h = CommitListHeaders::try_from(&m).unwrap();
    assert_eq!(h.x_has_more, None);
    assert_eq!(h.x_total_count, None);
    let mut m = HeaderMap::new();
    m.append("x-total-count", b"many".to_vec());
    assert!(matches!(CommitListHeaders::try_from(&m), Err(StructureError::HeaderParseFailed)));
    let mut m = HeaderMap::new();
    m.append("x-hasmore", vec![0xff]);
    assert!(matches!(CommitListHeaders::try_from(&m), Err(StructureError::HeaderNotAscii)));
}
