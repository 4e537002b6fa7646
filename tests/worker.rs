use file2link::ingress::{classify_message, queue_position_message, Attachment, IncomingMessage};
use file2link::queue::{FileQueue, FileQueueItem, MessageRef};
use file2link::worker::{add_chunk, progress_message, Action, Event, Phase, TransferWorker};

fn job(n: i32, url: Option<&str>, file_id: Option<&str>, name: Option<&str>) -> FileQueueItem {
    FileQueueItem::new(
        MessageRef { chat_id: 7, message_id: n },
        MessageRef { chat_id: 7, message_id: 100 + n },
        file_id.map(|s| s.to_string()),
        name.map(|s| s.to_string()),
        url.map(|s| s.to_string()),
    )
}

fn edit_text(a: &Action) -> (i32, String) {
    match a {
        Action::EditStatus { target, text, .. } => (target.message_id, text.clone()),
        other => panic!("expected an edit, got {:?}", other),
    }
}

#[test]
fn spurious_wake_on_empty_queue() {
    let mut q = FileQueue::new();
    let mut w = TransferWorker::new("http://h/".to_string());
    assert!(matches!(w.step(&mut q, Event::Signal), Action::WaitForSignal));
    assert!(matches!(w.phase, Phase::Idle));
}

#[test]
fn status_edit_retried_with_backoff() {
    let mut q = FileQueue::new();
    q.enqueue(job(1, Some("https://h.org/a.bin"), None, None));
    let mut w = TransferWorker::new("http://h/".to_string());
    assert_eq!(edit_text(&w.step(&mut q, Event::Signal)).1, "Processing file...");
    let mut slept = 0u64;
    for expected in [1u64, 2] {
        match w.step(&mut q, Event::EditFailed) {
            Action::Sleep { seconds } => {
                assert_eq!(seconds, expected);
                slept += seconds;
            }
            other => panic!("expected a sleep, got {:?}", other),
        }
        assert_eq!(edit_text(&w.step(&mut q, Event::Slept)).1, "Processing file...");
    }
    assert!(slept >= 3);
    match w.step(&mut q, Event::EditOk) {
        Action::HttpGet { url } => assert_eq!(url, "https://h.org/a.bin"),
        other => panic!("expected a request, got {:?}", other),
    }
}

#[test]
fn status_edit_gives_up_after_three_and_goes_on() {
    let mut q = FileQueue::new();
    q.enqueue(job(1, None, Some("F9"), None));
    let mut w = TransferWorker::new("http://h/".to_string());
    w.step(&mut q, Event::Signal);
    w.step(&mut q, Event::EditFailed);
    w.step(&mut q, Event::Slept);
    w.step(&mut q, Event::EditFailed);
    w.step(&mut q, Event::Slept);
    match w.step(&mut q, Event::EditFailed) {
        Action::GetFileInfo { file_id } => assert_eq!(file_id, "F9"),
        other => panic!("expected a file lookup, got {:?}", other),
    }
}

#[test]
fn file_info_retried_then_job_fails() {
    let mut q = FileQueue::new();
    q.enqueue(job(1, None, Some("F1"), None));
    q.enqueue(job(2, None, Some("F2"), None));
    let mut w = TransferWorker::new("http://h/".to_string());
    w.step(&mut q, Event::Signal);
    w.step(&mut q, Event::EditOk);
    for _ in 0..2 {
        assert!(matches!(w.step(&mut q, Event::FileInfoFailed), Action::Sleep { seconds: 5 }));
        assert!(matches!(w.step(&mut q, Event::Slept), Action::GetFileInfo { .. }));
    }
    let a = w.step(&mut q, Event::FileInfoFailed);
    assert_eq!(q.len(), 1);
    assert_eq!(edit_text(&a), (102, "File processed. Remaining files in queue: 1".to_string()));
}

#[test]
fn failed_download_advances_queue() {
    let mut q = FileQueue::new();
    q.enqueue(job(1, Some("https://h.org/a.bin"), None, None));
    q.enqueue(job(2, Some("https://h.org/b.bin"), None, None));
    q.enqueue(job(3, Some("https://h.org/c.bin"), None, None));
    let mut w = TransferWorker::new("http://h/".to_string());
    w.step(&mut q, Event::Signal);
    w.step(&mut q, Event::EditOk);
    let a = w.step(&mut q, Event::Response { content_disposition: None, token: "abcde".to_string() });
    assert!(matches!(a, Action::SaveResponse { .. }));
    let before = q.len();
    let a = w.step(&mut q, Event::SaveFailed);
    assert_eq!(q.len(), before - 1);
    assert_eq!(edit_text(&a), (102, "File processed. Remaining files in queue: 2".to_string()));
    assert_eq!(edit_text(&w.step(&mut q, Event::EditOk)), (102, "Processing file...".to_string()));
}

#[test]
fn failed_request_on_last_job_goes_idle() {
    let mut q = FileQueue::new();
    q.enqueue(job(1, Some("https://h.org/"), None, None));
    let mut w = TransferWorker::new("http://h/".to_string());
    w.step(&mut q, Event::Signal);
    w.step(&mut q, Event::EditOk);
    assert!(matches!(w.step(&mut q, Event::RequestFailed), Action::WaitForSignal));
    assert!(q.is_empty());
}

#[test]
fn end_to_end_document() {
    let mut q = FileQueue::new();
    let mut w = TransferWorker::new("http://example.com/".to_string());
    let msg = IncomingMessage {
        message: MessageRef { chat_id: 9, message_id: 1 },
        document: Some(Attachment { file_id: "F1".to_string(), file_name: Some("report.pdf".to_string()) }),
        photo: Vec::new(),
        video: None,
        animation: None,
        text: None,
        reply_text: None,
    };
    let req = classify_message(&msg).unwrap();
    assert_eq!(queue_position_message(q.next_position()), "Queue position: 1");
    let status = MessageRef { chat_id: 9, message_id: 2 };
    q.enqueue(FileQueueItem::new(msg.message, status, req.file_id, req.file_name, req.url));

    assert_eq!(edit_text(&w.step(&mut q, Event::Signal)), (2, "Processing file...".to_string()));
    match w.step(&mut q, Event::EditOk) {
        Action::GetFileInfo { file_id } => assert_eq!(file_id, "F1"),
        other => panic!("expected a file lookup, got {:?}", other),
    }
    let a = w.step(&mut q, Event::FileInfo { path: "documents/file_3.pdf".to_string(), size: 1234, token: "Ab_9-".to_string() });
    match a {
        Action::Download { remote_path, file_name, total } => {
            assert_eq!(remote_path, "documents/file_3.pdf");
            assert_eq!(file_name, "Ab_9-_report.pdf");
            assert_eq!(total, 1234);
        }
        other => panic!("expected a download, got {:?}", other),
    }
    let a = w.step(&mut q, Event::Saved { bytes: 1234 });
    match &a {
        Action::EditStatus { target, text, html } => {
            assert_eq!(*target, status);
            assert!(*html);
            assert_eq!(
                text,
                "Downloaded. Size: 1234 bytes\n\n<b><a href=\"http://example.com/Ab_9-_report.pdf\">http://example.com/Ab_9-_report.pdf</a></b>"
            );
        }
        other => panic!("expected an edit, got {:?}", other),
    }
    assert!(matches!(w.step(&mut q, Event::EditOk), Action::WaitForSignal));
    assert!(q.is_empty());
}

#[test]
fn all_jobs_processed_once_in_order() {
    let mut q = FileQueue::new();
    for i in 1..=4 {
        q.enqueue(job(i, Some("https://h.org/f"), None, None));
    }
    let mut w = TransferWorker::new("http://h/".to_string());
    let mut started = Vec::new();
    let mut a = w.step(&mut q, Event::Signal);
    let mut steps = 0;
    loop {
        steps += 1;
        assert!(steps < 100);
        let e = match &a {
            Action::WaitForSignal => break,
            Action::EditStatus { target, text, .. } => {
                if text == "Processing file..." {
                    started.push(target.message_id);
                }
                Event::EditOk
            }
            Action::HttpGet { .. } => Event::Response { content_disposition: None, token: "tokn1".to_string() },
            Action::SaveResponse { .. } => Event::Saved { bytes: 10 },
            other => panic!("unexpected {:?}", other),
        };
        a = w.step(&mut q, e);
    }
    assert_eq!(started, vec![101, 102, 103, 104]);
    assert!(q.is_empty());
    assert!(matches!(w.step(&mut q, Event::Signal), Action::WaitForSignal));
}

#[test]
fn unexpected_event_changes_nothing() {
    let mut q = FileQueue::new();
    let mut w = TransferWorker::new("http://h/".to_string());
    assert!(matches!(w.step(&mut q, Event::Saved { bytes: 1 }), Action::Nothing));
    assert!(matches!(w.phase, Phase::Idle));
}

#[test]
fn progress_lines() {
    assert_eq!(progress_message(10, Some(40)), "Downloaded 10 of 40 bytes");
    assert_eq!(progress_message(0, None), "Downloaded 0 bytes");
    assert_eq!(add_chunk(5, 7), Some(12));
    assert_eq!(add_chunk(u64::MAX, 1), None);
}
