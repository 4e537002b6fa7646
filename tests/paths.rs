use file2link::paths::{get_file_name_from_path, get_folder_and_file_name};

#[test]
fn file_name_is_last_component() {
    assert_eq!(get_file_name_from_path("documents/file_1.pdf"), Some("file_1.pdf".to_string()));
    assert_eq!(get_file_name_from_path("report.pdf"), Some("report.pdf".to_string()));
    assert_eq!(get_file_name_from_path("a/b/"), Some("b".to_string()));
    assert_eq!(get_file_name_from_path("a//b/."), Some("b".to_string()));
}

#[test]
fn file_name_missing() {
    assert_eq!(get_file_name_from_path(""), None);
    assert_eq!(get_file_name_from_path("/"), None);
    assert_eq!(get_file_name_from_path("a/.."), None);
    assert_eq!(get_file_name_from_path("."), None);
}

#[test]
fn folder_and_file_name() {
    assert_eq!(get_folder_and_file_name("/var/data/documents/file_1.pdf"), Some("documents/file_1.pdf".to_string()));
    assert_eq!(get_folder_and_file_name("photos/file_2.jpg"), Some("photos/file_2.jpg".to_string()));
    assert_eq!(get_folder_and_file_name("file.jpg"), None);
    assert_eq!(get_folder_and_file_name("/file.jpg"), None);
    assert_eq!(get_folder_and_file_name("../file.jpg"), None);
}
