use vietnote::capture::{audio_backlog_limit, audio_frame_admitted, audio_pcm_encodable, audio_pcm_field, capture_plan, permission_settings_target};
use vietnote::completion::{
    chat_request, completion_authorization, completion_content, completion_token_budget, groq_unreachable,
    json_object_in_reply, nine_router_unreachable, reply_is_frameable, service_unavailable, SUMMARY_INSTRUCTIONS,
    summary_max_tokens, summary_request, transcript_text, translation_request,
};
use vietnote::config::SummaryAiConfig;
use vietnote::notes::{migrated_date, notes_file, NotesFile};
use vietnote::summary::TranscriptSegment;
use vietnote::worker::{
    project_root_source, worker_arguments, worker_output_step, worker_program, worker_ready_port, worker_session_current, ProjectRoot,
    WorkerLineStep, WorkerProgram, worker_cache_location, worker_start_needed, WorkerCache,
};

fn seg(id: &str, text: &str) -> TranscriptSegment {
    TranscriptSegment { id: id.into(), timestamp: "09:00".into(), audio_source: "microphone".into(), raw_text: "r".into(), clean_text: text.into() }
}

#[test]
fn endpoints_and_budgets() {
    let c = SummaryAiConfig { api_url: "http://h/v1".into(), model: "m".into(), provider: "nine_router".into() };
    let r = chat_request(&c, "SYS", "USER", 300);
    assert_eq!(r.endpoint, "http://h/v1/chat/completions");
    assert!(!r.groq);
    assert_eq!(r.token_limit, 300);
    assert_eq!(r.token_field, "max_tokens");
    assert_eq!((r.reasoning_effort, r.include_reasoning), (None, None));
    assert_eq!(r.messages.len(), 2);
    assert_eq!((r.messages[0].role.as_str(), r.messages[0].content.as_str()), ("system", "SYS"));
    assert_eq!((r.messages[1].role.as_str(), r.messages[1].content.as_str()), ("user", "USER"));
    let g = SummaryAiConfig { api_url: "https://x/chat/completions".into(), model: "openai/gpt-oss-120b".into(), provider: "groq".into() };
    let r = chat_request(&g, "SYS", "USER", 1800);
    assert_eq!(r.endpoint, "https://x/chat/completions");
    assert!(r.groq);
    assert_eq!(r.token_limit, 3600);
    assert_eq!(r.token_field, "max_completion_tokens");
    assert_eq!((r.reasoning_effort, r.include_reasoning), (Some("low"), Some(false)));
    assert_eq!(r.messages.len(), 1);
    assert_eq!(r.messages[0].content, "SYS\n\nUSER");
    assert_eq!(completion_token_budget(300), 1024);
    assert_eq!(completion_token_budget(512), 1024);
    assert_eq!(completion_token_budget(513), 1026);
    assert_eq!(completion_token_budget(u32::MAX), u32::MAX);
}

#[test]
fn request_keys() {
    assert_eq!(completion_authorization(true, Ok(None), None, None, Some("gsk_b")), Ok(Some("gsk_b".into())));
    assert_eq!(completion_authorization(true, Ok(None), None, None, None), Err("Dịch vụ xử lý tạm thời chưa sẵn sàng.".into()));
    assert_eq!(completion_authorization(true, Ok(Some("  ".into())), None, None, None), Err("Dịch vụ xử lý tạm thời chưa sẵn sàng.".into()));
    assert_eq!(completion_authorization(false, Ok(Some("s".into())), None, Some("e".into()), None), Ok(Some("s".into())));
    assert_eq!(completion_authorization(false, Err("x".into()), None, Some("e".into()), None), Ok(Some("e".into())));
    assert_eq!(completion_authorization(false, Ok(None), Some("g".into()), None, Some("b")), Ok(None));
}

#[test]
fn reply_handling() {
    assert_eq!(completion_content(Some("  hi \n".into()), None), Ok("hi".into()));
    assert_eq!(completion_content(Some(" ".into()), Some("length".into())), Err("Model không trả về nội dung (finish_reason: length)".into()));
    assert_eq!(completion_content(None, None), Err("Model không trả về nội dung (finish_reason: không rõ)".into()));
    assert_eq!(groq_unreachable(), "Không kết nối được dịch vụ xử lý");
    assert_eq!(nine_router_unreachable("refused"), "Không gọi được 9Router: refused");
    assert_eq!(service_unavailable("503 Service Unavailable"), "Dịch vụ xử lý tạm thời không khả dụng (HTTP 503 Service Unavailable)");
}

#[test]
fn json_object_framing() {
    assert_eq!(json_object_in_reply("Here: {\"a\":{\"b\":1}} done"), Ok("{\"a\":{\"b\":1}}"));
    assert_eq!(json_object_in_reply("ôi {\"x\":\"é\"}"), Ok("{\"x\":\"é\"}"));
    assert_eq!(json_object_in_reply("no json"), Err("Model không trả về JSON object".to_string()));
    assert_eq!(json_object_in_reply("{ open"), Err("JSON từ model bị thiếu dấu đóng".to_string()));
    assert_eq!(json_object_in_reply("}{"), Ok(""));
    assert!(reply_is_frameable("}{"));
    assert!(!reply_is_frameable("} x {"));
    assert!(reply_is_frameable("plain"));
}

#[test]
fn transcript_and_prompts() {
    let segs = [seg("s1", "Xin chào"), seg("s2", "Hello")];
    assert_eq!(transcript_text(&segs), "[s1] [09:00] [microphone] Xin chào\n[s2] [09:00] [microphone] Hello");
    assert_eq!(transcript_text(&[]), "");
    assert_eq!(summary_request(&[], "null"), None);
    assert_eq!(
        summary_request(&segs[..1], "null"),
        Some("BẢN NHÁP TRƯỚC (có thể null):\nnull\n\nTRANSCRIPT CÓ ID:\n[s1] [09:00] [microphone] Xin chào".to_string())
    );
    assert_eq!(summary_max_tokens(), 1800);
    assert!(SUMMARY_INSTRUCTIONS.contains("\"No final decision\""));
}

#[test]
fn translation_prompts() {
    assert_eq!(translation_request("hi", "fr", "").err().unwrap(), "Ngôn ngữ nguồn không hỗ trợ dịch");
    let q = translation_request("Hello", "en", "  ").ok().unwrap();
    assert_eq!(q.user, "Không có đoạn trước.\n\nĐOẠN CẦN DỊCH:\nHello");
    assert!(q.system.starts_with("Bạn là biên tập viên bản ghi và phiên dịch viên từ tiếng Anh sang tiếng Việt."));
    assert_eq!(q.max_tokens, 300);
    let q = translation_request("你好", "zh", "Before").ok().unwrap();
    assert_eq!(q.user, "Đoạn ngay trước đó (chỉ dùng làm ngữ cảnh, không dịch lại):\nBefore\n\nĐOẠN CẦN DỊCH:\n你好");
    assert!(q.system.contains("từ tiếng Trung giản thể sang"));
}

#[test]
fn capture_sources() {
    assert_eq!(capture_plan(true, "both").err().unwrap(), "Đang ghi âm");
    assert_eq!(capture_plan(false, "speaker").err().unwrap(), "Nguồn âm thanh không hợp lệ");
    let p = capture_plan(false, "both").ok().unwrap();
    assert!(p.microphone && p.system);
    let p = capture_plan(false, "microphone").ok().unwrap();
    assert!(p.microphone && !p.system);
    let p = capture_plan(false, "system").ok().unwrap();
    assert!(!p.microphone && p.system);
}

#[test]
fn audio_backlog_and_payload() {
    assert_eq!(audio_backlog_limit(), 25);
    assert!(audio_frame_admitted(24));
    assert!(!audio_frame_admitted(25));
    let one: Vec<u8> = 1.0f32.to_le_bytes().to_vec();
    assert_eq!(audio_pcm_field(&one), "AACAPw==");
    assert_eq!(audio_pcm_field(&[]), "");
    assert_eq!(audio_pcm_field(b"abc"), "YWJj");
    assert!(audio_pcm_encodable(1_000_000));
    assert!(!audio_pcm_encodable(usize::MAX));
}

#[test]
fn permission_pages() {
    assert_eq!(permission_settings_target("screen", false), "x-apple.systempreferences:com.apple.preference.security?Privacy_ScreenCapture");
    assert_eq!(permission_settings_target("microphone", false), "x-apple.systempreferences:com.apple.preference.security?Privacy_Microphone");
    assert_eq!(permission_settings_target("screen", true), "ms-settings:sound");
    assert_eq!(permission_settings_target("mic", true), "ms-settings:privacy-microphone");
}

#[test]
fn worker_setup() {
    assert_eq!(project_root_source(true, true, true, true).ok(), Some(ProjectRoot::FromEnvironment));
    assert_eq!(project_root_source(false, false, false, true).ok(), Some(ProjectRoot::ResourcesUp));
    assert_eq!(project_root_source(false, false, false, false).err().unwrap(), "Không tìm thấy asr/server.py trong tài nguyên ứng dụng");
    assert_eq!(worker_program(false, true, true).ok(), Some(WorkerProgram::EnvironmentPython));
    assert_eq!(worker_program(false, true, false).ok(), Some(WorkerProgram::BundledPython));
    assert_eq!(worker_program(true, true, true).ok(), Some(WorkerProgram::Packaged));
    assert_eq!(worker_cache_location(true), WorkerCache::Project);
    assert_eq!(worker_cache_location(false), WorkerCache::AppData);
    assert!(worker_start_needed(false));
    assert!(!worker_start_needed(true));
    assert_eq!(worker_program(false, false, false).err().unwrap(), "Thiếu bộ xử lý âm thanh đi kèm ứng dụng");
    assert!(worker_arguments(WorkerProgram::Packaged).is_empty());
    assert_eq!(worker_arguments(WorkerProgram::EnvironmentPython), vec!["-u", "asr/server.py"]);
    assert_eq!(worker_ready_port(Some("ready"), Some(50123)), Some(50123));
    assert_eq!(worker_ready_port(Some("ready"), Some(70000)), Some(4464));
    assert_eq!(worker_ready_port(Some("status"), Some(1)), None);
    assert_eq!(worker_ready_port(Some("ready"), None), None);
}

#[test]
fn notes_files_and_dates() {
    assert_eq!(notes_file(true, true), NotesFile::Current);
    assert_eq!(notes_file(false, true), NotesFile::Legacy);
    assert_eq!(notes_file(false, false), NotesFile::Current);
    assert_eq!(migrated_date(0), Some("1970-01-01T00:00:00+00:00".to_string()));
    assert_eq!(migrated_date(978_307_200_000), Some("2001-01-01T00:00:00+00:00".to_string()));
    assert_eq!(migrated_date(947_638_923_004), Some("2000-01-12T01:02:03.004+00:00".to_string()));
    assert_eq!(migrated_date(i64::MAX), None);
    assert!(migrated_date(8_210_266_876_799_999).is_some());
    assert_eq!(migrated_date(8_210_266_876_800_000), None);
    assert!(migrated_date(-8_334_601_228_800_000).is_some());
    assert_eq!(migrated_date(-8_334_601_228_800_001), None);
    assert_eq!(migrated_date(253_402_300_799_999), Some("9999-12-31T23:59:59.999+00:00".to_string()));
}

#[test]
fn worker_output_reading() {
    assert_eq!(worker_output_step(2, 3, false, Some("ready"), Some(5000)), WorkerLineStep::Stop);
    assert_eq!(worker_output_step(2, 3, true, Some("log"), None), WorkerLineStep::Stop);
    assert_eq!(worker_output_step(3, 3, false, Some("ready"), Some(5000)), WorkerLineStep::Connect(5000));
    assert_eq!(worker_output_step(3, 3, true, Some("ready"), Some(5000)), WorkerLineStep::Skip);
    assert_eq!(worker_output_step(3, 3, false, Some("log"), Some(5000)), WorkerLineStep::Skip);
    assert_eq!(worker_output_step(3, 3, false, None, None), WorkerLineStep::Skip);
    assert!(worker_session_current(4, 4));
    assert!(!worker_session_current(4, 5));
}
