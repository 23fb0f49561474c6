use vietnote::provider::{
    access_key_entry, access_key_saving, access_key_status, access_key_to_store, ai_key_status, api_key_removal,
    api_key_saving, built_in_groq_key, keep_nonblank, normalize_ai_provider, plan_ai_api_key, provider_env_key,
    provider_from_lowercase, provider_key_account, provider_key_entry, resolved_provider_key, stored_groq_key,
    stored_provider_key, CredentialRead, CredentialRemoval, KeyChange,
};

fn s(v: &str) -> Option<String> {
    Some(v.to_string())
}

#[test]
fn provider_names_are_normalized() {
    assert_eq!(normalize_ai_provider("groq"), Ok("groq"));
    assert_eq!(normalize_ai_provider("  GROQ \n"), Ok("groq"));
    assert_eq!(normalize_ai_provider("Local"), Ok("nine_router"));
    assert_eq!(normalize_ai_provider("nine_router"), Ok("nine_router"));
    assert_eq!(normalize_ai_provider("\u{a0}Nine_Router\u{3000}"), Ok("nine_router"));
    assert_eq!(normalize_ai_provider("openai"), Err("Nhà cung cấp AI không hợp lệ".to_string()));
    assert_eq!(normalize_ai_provider(""), Err("Nhà cung cấp AI không hợp lệ".to_string()));
    assert_eq!(provider_from_lowercase("GROQ"), Err("Nhà cung cấp AI không hợp lệ".to_string()));
}

#[test]
fn provider_accounts_and_entries() {
    assert_eq!(provider_key_account("groq"), Ok("groq-asr-api-key"));
    assert_eq!(provider_key_account(" local "), Ok("9router-api-key"));
    assert!(provider_key_account("x").is_err());
    match provider_key_entry("bogus") {
        Err(e) => assert_eq!(e, "Nhà cung cấp AI không hợp lệ"),
        Ok(_) => panic!("an unknown provider has no entry"),
    }
    let e = provider_key_entry(" GROQ ").ok().expect("the credential store opens");
    assert_eq!((e.service(), e.account()), ("local.vietnote.desktop", "groq-asr-api-key"));
    let e = provider_key_entry("local").ok().expect("the credential store opens");
    assert_eq!((e.service(), e.account()), ("local.vietnote.desktop", "9router-api-key"));
    let e = access_key_entry().ok().expect("the credential store opens");
    assert_eq!((e.service(), e.account()), ("local.vietnote.desktop", "vietnote-access-key"));
}

#[test]
fn stored_keys_are_read() {
    assert_eq!(stored_provider_key(CredentialRead::Found("k".into())), Ok(s("k")));
    assert_eq!(stored_provider_key(CredentialRead::Missing), Ok(None));
    assert_eq!(stored_provider_key(CredentialRead::Failed), Err("Không đọc được API key từ kho mật khẩu hệ thống".to_string()));
}

#[test]
fn environment_keys_follow_the_provider() {
    assert_eq!(provider_env_key("groq", s("gsk_a"), s("nr")), s("gsk_a"));
    assert_eq!(provider_env_key("Local", s("gsk_a"), s("nr")), s("nr"));
    assert_eq!(provider_env_key("groq", s("  "), s("nr")), None);
    assert_eq!(provider_env_key("groq", s(" gsk_a "), None), s(" gsk_a "));
    assert_eq!(provider_env_key("other", s("gsk_a"), s("nr")), None);
    assert_eq!(keep_nonblank(s("\t")), None);
}

#[test]
fn built_in_key_is_trimmed() {
    assert_eq!(built_in_groq_key(Some("  gsk_b ")), s("gsk_b"));
    assert_eq!(built_in_groq_key(Some("   ")), None);
    assert_eq!(built_in_groq_key(None), None);
}

#[test]
fn key_resolution_order() {
    assert_eq!(resolved_provider_key("groq", Ok(s("stored")), s("env"), None, Some("built")), s("stored"));
    assert_eq!(resolved_provider_key("groq", Ok(None), s("env"), None, Some("built")), s("env"));
    assert_eq!(resolved_provider_key("groq", Err("x".into()), None, None, Some(" built ")), s("built"));
    assert_eq!(resolved_provider_key("nine_router", Ok(None), s("env"), None, Some("built")), None);
    assert_eq!(resolved_provider_key("nine_router", Ok(None), None, s("nr"), Some("built")), s("nr"));
    assert_eq!(stored_groq_key(Ok(None), None, None, Some("b")), s("b"));
    assert_eq!(stored_groq_key(Ok(None), None, None, None), None);
}

#[test]
fn key_status_reports_the_source() {
    assert_eq!(ai_key_status("groq", Ok(s("k")), None, None, None), Ok("saved".to_string()));
    assert_eq!(ai_key_status("groq", Ok(None), s("k"), None, None), Ok("environment".to_string()));
    assert_eq!(ai_key_status("groq", Ok(None), None, None, Some("k")), Ok("environment".to_string()));
    assert_eq!(ai_key_status("local", Ok(None), None, None, Some("k")), Ok("none".to_string()));
    assert_eq!(ai_key_status("local", Ok(None), None, s("k"), None), Ok("environment".to_string()));
    assert_eq!(ai_key_status("groq", Err("boom".into()), s("k"), None, None), Err("boom".to_string()));
    assert_eq!(ai_key_status("x", Ok(s("k")), None, None, None), Err("Nhà cung cấp AI không hợp lệ".to_string()));
}

#[test]
fn status_and_resolution_agree() {
    for stored in [None, s("k")] {
        for env in [None, s("e"), s(" ")] {
            for compiled in [None, Some("c"), Some(" ")] {
                for id in ["groq", "nine_router"] {
                    let status = ai_key_status(id, Ok(stored.clone()), env.clone(), env.clone(), compiled).unwrap();
                    let key = resolved_provider_key(id, Ok(stored.clone()), env.clone(), env.clone(), compiled);
                    assert_eq!(status == "none", key.is_none());
                }
            }
        }
    }
}

#[test]
fn api_key_changes_are_checked() {
    assert_eq!(plan_ai_api_key(true, "groq", s("gsk_1")).err(), s("Hãy dừng ghi âm trước khi đổi API key"));
    assert_eq!(plan_ai_api_key(false, "nope", s("gsk_1")).err(), s("Nhà cung cấp AI không hợp lệ"));
    assert_eq!(plan_ai_api_key(false, "groq", s("gsk_1 2")).err(), s("API key không được chứa khoảng trắng"));
    assert_eq!(plan_ai_api_key(false, "groq", s("abc")).err(), s("Groq API key không đúng định dạng (bắt đầu bằng gsk_)"));
    let u = plan_ai_api_key(false, " GROQ ", s("  gsk_abc  ")).ok().unwrap();
    assert_eq!(u.provider, "groq");
    assert!(u.restart_worker);
    assert!(matches!(u.change, KeyChange::Store(ref k) if k == "gsk_abc"));
    let u = plan_ai_api_key(false, "local", s("sk-any")).ok().unwrap();
    assert_eq!(u.provider, "nine_router");
    assert!(!u.restart_worker);
    assert!(matches!(u.change, KeyChange::Store(ref k) if k == "sk-any"));
    let u = plan_ai_api_key(false, "groq", s("   ")).ok().unwrap();
    assert!(matches!(u.change, KeyChange::Remove));
    let u = plan_ai_api_key(false, "nine_router", None).ok().unwrap();
    assert!(matches!(u.change, KeyChange::Remove));
}

#[test]
fn credential_store_outcomes() {
    assert_eq!(api_key_removal(CredentialRemoval::Removed), Ok(()));
    assert_eq!(api_key_removal(CredentialRemoval::Missing), Ok(()));
    assert_eq!(api_key_removal(CredentialRemoval::Failed), Err("Không xóa được API key khỏi kho mật khẩu hệ thống".to_string()));
    assert_eq!(api_key_saving(true), Ok(()));
    assert_eq!(api_key_saving(false), Err("Không lưu được API key vào kho mật khẩu hệ thống".to_string()));
}

#[test]
fn access_keys() {
    assert_eq!(access_key_status(CredentialRead::Found("abc".into())), Ok(true));
    assert_eq!(access_key_status(CredentialRead::Found("  ".into())), Ok(false));
    assert_eq!(access_key_status(CredentialRead::Missing), Ok(false));
    assert_eq!(access_key_status(CredentialRead::Failed), Err("Không đọc được key VietNote từ kho mật khẩu hệ thống".to_string()));
    assert_eq!(access_key_to_store("  vn-key "), Ok("vn-key".to_string()));
    assert_eq!(access_key_to_store(" \n "), Err("Vui lòng nhập key".to_string()));
    assert_eq!(access_key_to_store("a b"), Err("Key không được chứa khoảng trắng".to_string()));
    assert_eq!(access_key_saving(true), Ok(true));
    assert_eq!(access_key_saving(false), Err("Không lưu được key vào kho mật khẩu hệ thống".to_string()));
}
