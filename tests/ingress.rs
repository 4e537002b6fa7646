use file2link::ingress::{
    classify_message, extract_first_link, get_url_from_message, queue_position_message,
    Attachment, IncomingMessage,
};
use file2link::queue::{FileQueue, FileQueueItem, MessageRef};

fn message() -> IncomingMessage {
    IncomingMessage {
        message: MessageRef { chat_id: 5, message_id: 1 },
        document: None,
        photo: Vec::new(),
        video: None,
        animation: None,
        text: None,
        reply_text: None,
    }
}

#[test]
fn document_is_a_request() {
    let mut m = message();
    m.document = Some(Attachment { file_id: "F1".to_string(), file_name: Some("report.pdf".to_string()) });
    m.video = Some(Attachment { file_id: "V".to_string(), file_name: None });
    let r = classify_message(&m).unwrap();
    assert_eq!(r.file_id, Some("F1".to_string()));
    assert_eq!(r.file_name, Some("report.pdf".to_string()));
    assert_eq!(r.url, None);
}

#[test]
fn photo_takes_largest_size() {
    let mut m = message();
    m.photo = vec!["small".to_string(), "large".to_string()];
    let r = classify_message(&m).unwrap();
    assert_eq!(r.file_id, Some("large".to_string()));
    assert_eq!(r.file_name, None);
}

#[test]
fn animation_is_a_request() {
    let mut m = message();
    m.animation = Some(Attachment { file_id: "A".to_string(), file_name: Some("a.gif".to_string()) });
    let r = classify_message(&m).unwrap();
    assert_eq!(r.file_id, Some("A".to_string()));
}

#[test]
fn url_command_with_argument() {
    let mut m = message();
    m.text = Some("/url see https://example.com/a.zip now".to_string());
    assert_eq!(get_url_from_message(&m), Some("https://example.com/a.zip".to_string()));
    let r = classify_message(&m).unwrap();
    assert_eq!(r.url, Some("https://example.com/a.zip".to_string()));
    assert_eq!(r.file_id, None);
}

#[test]
fn url_command_uses_reply() {
    let mut m = message();
    m.text = Some("/url".to_string());
    m.reply_text = Some("get http://files.org/b.bin please".to_string());
    assert_eq!(get_url_from_message(&m), Some("http://files.org/b.bin".to_string()));
}

#[test]
fn plain_text_is_ignored() {
    let mut m = message();
    m.text = Some("hello https://example.com".to_string());
    assert!(classify_message(&m).is_none());
    m.text = Some("/url nothing here".to_string());
    assert!(classify_message(&m).is_none());
    assert!(classify_message(&message()).is_none());
}

#[test]
fn first_link_stops_at_white_space() {
    assert_eq!(extract_first_link("a https:// b http://x.y/z\tq"), Some("http://x.y/z".to_string()));
    assert_eq!(extract_first_link("none"), None);
}

#[test]
fn queue_position_reply() {
    assert_eq!(queue_position_message(1), "Queue position: 1");
    assert_eq!(queue_position_message(12), "Queue position: 12");
}

#[test]
fn enqueue_reports_position_and_appends() {
    let mut q = FileQueue::new();
    let r = MessageRef { chat_id: 1, message_id: 1 };
    for i in 0..3 {
        assert_eq!(q.next_position(), i + 1);
        let p = q.enqueue(FileQueueItem::new(r, MessageRef { chat_id: 1, message_id: i as i32 }, Some("f".to_string()), None, None));
        assert_eq!(p, i + 1);
    }
    assert_eq!(q.len(), 3);
    assert_eq!(q.peek_front().unwrap().queue_message.message_id, 0);
    q.pop_front();
    assert_eq!(q.peek_front().unwrap().queue_message.message_id, 1);
    q.pop_front();
    q.pop_front();
    q.pop_front();
    assert!(q.is_empty());
}
