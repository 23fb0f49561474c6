use vietnote::config::{default_summary_provider, summary_ai_config, validated_summary_ai_config, SummaryAiConfig};
use vietnote::voice::{
    find_voice, missing_voice_pack_message, selected_tts_voice_id, tts_voice_choice, tts_voice_config, tts_voice_definitions,
    voice_archive,
};

fn cfg(api_url: &str, model: &str, provider: &str) -> SummaryAiConfig {
    SummaryAiConfig { api_url: api_url.into(), model: model.into(), provider: provider.into() }
}

#[test]
fn default_config_is_groq() {
    assert_eq!(default_summary_provider(), "groq");
    let c = SummaryAiConfig::default();
    assert_eq!(c.api_url, "https://api.groq.com/openai/v1");
    assert_eq!(c.model, "openai/gpt-oss-120b");
    assert_eq!(c.provider, "groq");
    let c = summary_ai_config(None);
    assert_eq!(c.provider, "groq");
}

#[test]
fn old_local_provider_is_read_as_nine_router() {
    let c = summary_ai_config(Some(cfg("http://x", "m", "local")));
    assert_eq!(c.provider, "nine_router");
    assert_eq!(c.api_url, "http://x");
    let c = summary_ai_config(Some(cfg("http://x", "m", "Local")));
    assert_eq!(c.provider, "Local");
}

#[test]
fn nine_router_settings_are_cleaned() {
    let c = validated_summary_ai_config(cfg("  http://127.0.0.1:20128/v1// ", " cx/gpt-5.5 ", "local")).unwrap();
    assert_eq!(c.api_url, "http://127.0.0.1:20128/v1");
    assert_eq!(c.model, "cx/gpt-5.5");
    assert_eq!(c.provider, "nine_router");
    assert_eq!(
        validated_summary_ai_config(cfg("ftp://x", "m", "nine_router")).err().unwrap(),
        "API phải bắt đầu bằng http:// hoặc https://"
    );
    assert_eq!(validated_summary_ai_config(cfg("http://x", "  ", "nine_router")).err().unwrap(), "Tên model không được trống");
}

#[test]
fn groq_settings_are_fixed() {
    let c = validated_summary_ai_config(cfg("http://ignored", "openai/gpt-oss-120b", "GROQ")).unwrap();
    assert_eq!(c.api_url, "https://api.groq.com/openai/v1");
    assert_eq!(c.provider, "groq");
    assert_eq!(
        validated_summary_ai_config(cfg("", "llama", "groq")).err().unwrap(),
        "Hiện Groq chỉ được cấu hình sẵn cho openai/gpt-oss-120b"
    );
    assert_eq!(validated_summary_ai_config(cfg("", "m", "x")).err().unwrap(), "Nhà cung cấp AI không hợp lệ");
}

#[test]
fn saved_config_reads_back_unchanged() {
    for c in [cfg(" https://h/v1/ ", "m", " local "), cfg("", "openai/gpt-oss-120b", "groq")] {
        let saved = validated_summary_ai_config(c).unwrap();
        let loaded = summary_ai_config(Some(saved.clone()));
        assert_eq!((loaded.api_url, loaded.model, loaded.provider), (saved.api_url, saved.model, saved.provider));
    }
}

#[test]
fn voice_definitions_and_selection() {
    let defs = tts_voice_definitions();
    assert_eq!(defs[0], ("thuc-day-di", "Giọng Nam", "Trung niên", "thuc-day-di.zip"));
    assert_eq!(defs[1].0, "ngoc-huyen");
    assert_eq!(defs[1].3, "Ngoc-Huyen-7owuK1LaOPOaQjeSzmQ4.zip");
    assert_eq!(selected_tts_voice_id(None), "thuc-day-di");
    assert_eq!(selected_tts_voice_id(Some("ngoc-huyen".into())), "ngoc-huyen");
    assert_eq!(selected_tts_voice_id(Some("unknown".into())), "thuc-day-di");
    assert!(find_voice("nope").is_none());
}

#[test]
fn voice_config_lists_every_voice() {
    let c = tts_voice_config(Some("ngoc-huyen".into()));
    assert_eq!(c.selected_id, "ngoc-huyen");
    assert_eq!(c.voices.len(), 2);
    assert_eq!(c.voices[1].display_name, "Giọng Nữ");
    assert_eq!(c.voices[1].description, "Kể truyện · review phim");
    assert_eq!(c.voices[0].id, "thuc-day-di");
}

#[test]
fn voice_choice_and_packs() {
    assert_eq!(tts_voice_choice(true, "ngoc-huyen").err().unwrap(), "Hãy dừng ghi âm trước khi đổi giọng đọc");
    assert_eq!(tts_voice_choice(false, "x").err().unwrap(), "Giọng đọc không hợp lệ");
    let d = tts_voice_choice(false, "ngoc-huyen").unwrap();
    assert_eq!(selected_tts_voice_id(Some(d.0.to_string())), "ngoc-huyen");
    assert_eq!(voice_archive(d.0), "Ngoc-Huyen-7owuK1LaOPOaQjeSzmQ4.zip");
    assert_eq!(voice_archive("other"), "thuc-day-di.zip");
    assert_eq!(missing_voice_pack_message(d.1), "Không tìm thấy gói giọng Giọng Nữ");
}
