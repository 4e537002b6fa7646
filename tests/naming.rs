use file2link::naming::{file_name_from_response, generate_final_file_name, new_token, sanitize};
use file2link::queue::{FileQueueItem, MessageRef};

fn item(file_name: Option<&str>) -> FileQueueItem {
    let m = MessageRef { chat_id: 1, message_id: 10 };
    let s = MessageRef { chat_id: 1, message_id: 11 };
    FileQueueItem::new(m, s, Some("F1".to_string()), file_name.map(|n| n.to_string()), None)
}

#[test]
fn token_is_five_safe_characters() {
    let t = new_token();
    assert_eq!(t.chars().count(), 5);
    assert!(t.chars().all(|c| c.is_ascii_alphanumeric() || c == '_' || c == '-'));
}

#[test]
fn tokens_differ_between_calls() {
    let a = new_token();
    let b = new_token();
    let c = new_token();
    assert!(a != b || b != c);
}

#[test]
fn sanitize_replaces_every_space() {
    let s: String = sanitize("my  report v2.pdf").into_iter().collect();
    assert_eq!(s, "my__report_v2.pdf");
}

#[test]
fn final_name_uses_sanitized_requested_name() {
    let n = generate_final_file_name(&item(Some("my report.pdf")), "abcde", "documents/file_1.pdf");
    assert_eq!(n, Some("abcde_my_report.pdf".to_string()));
}

#[test]
fn final_name_falls_back_to_path() {
    let n = generate_final_file_name(&item(None), "x_y-1", "photos/file_7.jpg");
    assert_eq!(n, Some("x_y-1_file_7.jpg".to_string()));
    assert_eq!(generate_final_file_name(&item(None), "abcde", "a/.."), None);
}

#[test]
fn two_jobs_with_one_name_get_distinct_files() {
    let a = generate_final_file_name(&item(Some("same.txt")), &new_token(), "p");
    let b = generate_final_file_name(&item(Some("same.txt")), "zzzzz", "p");
    assert!(a.unwrap().ends_with("_same.txt"));
    assert_eq!(b, Some("zzzzz_same.txt".to_string()));
}

#[test]
fn response_name_from_disposition() {
    let cd = Some("attachment; filename=\"data.csv\"".to_string());
    assert_eq!(file_name_from_response(&cd, "https://h.org/x/y"), Some("data.csv".to_string()));
}

#[test]
fn response_name_from_url() {
    assert_eq!(file_name_from_response(&None, "https://h.org/x/y.zip"), Some("y.zip".to_string()));
    let cd = Some("inline".to_string());
    assert_eq!(file_name_from_response(&cd, "https://h.org/x/y.zip"), Some("y.zip".to_string()));
}

#[test]
fn response_name_missing() {
    assert_eq!(file_name_from_response(&None, "https://h.org/x/"), None);
    let cd = Some("attachment; filename=\"\"".to_string());
    assert_eq!(file_name_from_response(&cd, "https://h.org/x/y.zip"), None);
}
