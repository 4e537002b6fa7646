use file2link::server::{file_headers, files_list_html, stored_file_path};

#[test]
fn list_page() {
    let html = files_list_html(&vec!["a.txt".to_string(), "b c.pdf".to_string()]);
    assert_eq!(
        html,
        "<h1>Files in directory</h1><ul><li><a href=\"/files/a.txt\">a.txt</a></li><li><a href=\"/files/b c.pdf\">b c.pdf</a></li></ul>"
    );
    assert_eq!(files_list_html(&Vec::new()), "<h1>Files in directory</h1><ul></ul>");
}

#[test]
fn headers_of_stored_file() {
    assert_eq!(stored_file_path("abcde_x.pdf"), "files/abcde_x.pdf");
    let h = file_headers("abcde_x.pdf");
    assert_eq!(h.content_type, "application/pdf");
    assert_eq!(h.content_disposition, "attachment; filename=\"abcde_x.pdf\"");
    let u = file_headers("noext");
    assert_eq!(u.content_type, "application/octet-stream");
}
