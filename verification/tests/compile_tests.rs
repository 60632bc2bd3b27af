use texhub::compile_queue::{complete_end_response, compile_end_response, compile_stream_fields};
use texhub::model::project_resp::LatestCompile;
use texhub::compile_log::{
    extract_message_content, judge_flush_reply, CompileLogRelay, FlushFailure, FlushReply, LogAction,
};
use texhub::compile_queue::{
    compile_complete_time, compile_log_file_name, estimated_compile_time, expired_queue_cutoff,
    get_proj_compile_req, latest_pdf_name, latest_version_no, queue_ids, queue_start_time,
};
use texhub::model::records::TexCompQueue;

fn queue(id: i64, version_no: &str) -> TexCompQueue {
    TexCompQueue {
        id,
        project_id: "p".to_string(),
        user_id: 1,
        created_time: 0,
        updated_time: 0,
        comp_status: 0,
        comp_result: 0,
        start_time: 0,
        complete_time: 0,
        version_no: version_no.to_string(),
        compile_duration_ms: None,
    }
}

#[test]
fn estimate_is_largest_positive_duration() {
    assert_eq!(estimated_compile_time(&vec![Some(1200), None, Some(3400), Some(-5)]), 3400);
    assert_eq!(estimated_compile_time(&vec![]), 0);
    assert_eq!(estimated_compile_time(&vec![None, Some(0), Some(-1)]), 0);
    assert_eq!(estimated_compile_time(&vec![Some(7), Some(7)]), 7);
}

#[test]
fn complete_time_only_when_compiled() {
    assert_eq!(compile_complete_time(2, 1_700_000_000_000), 1_700_000_000_000);
    assert_eq!(compile_complete_time(1, 1_700_000_000_000), 0);
    assert_eq!(compile_complete_time(3, 5), 0);
}

#[test]
fn start_time_defaults_to_now() {
    assert_eq!(queue_start_time(42, 1000), 42);
    assert_eq!(queue_start_time(0, 1000), 1000);
    assert_eq!(queue_start_time(-3, 1000), 1000);
}

#[test]
fn expiry_cutoff_is_ten_minutes_ahead() {
    assert_eq!(expired_queue_cutoff(1_000), 601_000);
    assert_eq!(expired_queue_cutoff(0), 600_000);
}

#[test]
fn ids_in_order() {
    assert_eq!(queue_ids(&vec![queue(5, "a"), queue(2, "b"), queue(9, "c")]), vec![5, 2, 9]);
    assert!(queue_ids(&vec![]).is_empty());
}

#[test]
fn pdf_and_log_names() {
    assert_eq!(latest_pdf_name("main", "1700000000000"), "main.pdf?v=1700000000000");
    assert_eq!(compile_log_file_name("thesis"), "thesis.log");
    let q = queue(1, "v42");
    assert_eq!(latest_version_no(Some(&q), "now".to_string()), "v42");
    assert_eq!(latest_version_no(None, "now".to_string()), "now");
}

#[test]
fn compile_request_paths() {
    let r = get_proj_compile_req(&"abc".to_string(), &"main.tex".to_string(), 77);
    assert_eq!(r.file_path, "/opt/data/project/abc/main.tex");
    assert_eq!(r.out_path, "/opt/data/project/abc");
    assert_eq!(r.req_time, 77);
    assert_eq!(r.project_id, "abc");
}

#[test]
fn message_content_defaults_to_space() {
    assert_eq!(extract_message_content(Some("line".to_string())), "line");
    assert_eq!(extract_message_content(Some(String::new())), " ");
    assert_eq!(extract_message_content(None), " ");
}

#[test]
fn stream_relay_stops_at_end_marker() {
    let mut relay = CompileLogRelay::new();
    match relay.on_stream_message("This is pdfTeX") {
        LogAction::Send(t) => assert_eq!(t, "This is pdfTeX\n换行"),
        _ => panic!("expected a log line"),
    }
    assert!(matches!(relay.on_stream_message("done ====END==== ok"), LogAction::Finish));
    assert!(relay.finished);
    assert!(matches!(relay.on_stream_message("late line"), LogAction::Ignore));
    assert!(matches!(relay.on_stream_message("====END===="), LogAction::Ignore));
}

#[test]
fn file_relay_appends_newline() {
    let mut relay = CompileLogRelay::new();
    match relay.on_log_line("Output written on main.pdf") {
        LogAction::Send(t) => assert_eq!(t, "Output written on main.pdf\n"),
        _ => panic!("expected a log line"),
    }
    assert!(matches!(relay.on_log_line("====END===="), LogAction::Finish));
    assert!(matches!(relay.on_log_line("x"), LogAction::Ignore));
}

#[test]
fn flush_reply_judgement() {
    let ok = FlushReply { code: Some(200), failed_files: Some(0) };
    assert!(judge_flush_reply(true, Some(ok), true).is_ok());
    assert!(matches!(judge_flush_reply(false, None, true), Err(FlushFailure::Status)));
    assert!(matches!(judge_flush_reply(true, None, true), Err(FlushFailure::Unreadable)));
    let no_code = FlushReply { code: None, failed_files: None };
    assert!(matches!(judge_flush_reply(true, Some(no_code), false), Err(FlushFailure::Code(-1))));
    let bad = FlushReply { code: Some(500), failed_files: None };
    assert!(matches!(judge_flush_reply(true, Some(bad), true), Err(FlushFailure::Code(500))));
    let partial = FlushReply { code: Some(200), failed_files: Some(2) };
    assert!(matches!(judge_flush_reply(true, Some(partial), true), Err(FlushFailure::FilesFailed(2))));
    let partial = FlushReply { code: Some(200), failed_files: Some(2) };
    assert!(judge_flush_reply(true, Some(partial), false).is_ok());
}

#[test]
fn end_response_uses_defaults() {
    let r = compile_end_response(None, None);
    assert_eq!((r.comp.path.as_str(), r.queue.id, r.queue.version_no.as_str()), ("", 0, ""));
    let q = &r.queue;
    assert_eq!(
        (q.user_id, q.created_time, q.updated_time, q.start_time, q.complete_time, q.comp_result, q.comp_status),
        (0, 0, 0, 0, 0, 0, 0)
    );
    assert!(q.project_id.is_empty() && q.compile_duration_ms.is_none());
    let latest = LatestCompile { path: "2026/p/main.pdf?v=1".to_string(), project_id: "p".to_string() };
    let r = compile_end_response(Some(latest), Some(queue(4, "v")));
    assert_eq!((r.comp.path.as_str(), r.queue.id), ("2026/p/main.pdf?v=1", 4));
}

#[test]
fn file_log_end_needs_both_parts() {
    let latest = || LatestCompile { path: "p/main.pdf?v=2".to_string(), project_id: "p".to_string() };
    assert!(complete_end_response(Some(latest()), None).is_none());
    assert!(complete_end_response(None, Some(queue(1, "v"))).is_none());
    let r = complete_end_response(Some(latest()), Some(queue(9, "v9"))).unwrap();
    assert_eq!((r.comp.path.as_str(), r.queue.id, r.queue.version_no.as_str()), ("p/main.pdf?v=2", 9, "v9"));
}

#[test]
fn stream_fields_in_protocol_order() {
    let s = |x: &str| x.to_string();
    let f = compile_stream_fields(s("/d/p/main.tex"), s("/d/p"), s("p"), s("100"), s("7"), s("v1"), s("main.log"), s("50"));
    let keys: Vec<&str> = f.iter().map(|(k, _)| *k).collect();
    assert_eq!(keys, vec!["file_path", "out_path", "project_id", "req_time", "qid", "version_no", "log_file_name", "proj_created_time"]);
    assert_eq!(f[4].1, "7");
    assert_eq!(f[7].1, "50");
}
