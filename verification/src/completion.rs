//! Requests to the chat-completion service and the reading of its replies:
//! endpoint, token budget, authorization, prompts, and the JSON object a
//! summary reply must contain.
use vstd::prelude::*;
use crate::text::{is_blank, trim, ends_with, trim_str, is_blank_str, has_suffix, str_equal, owned};
use crate::config::SummaryAiConfig;
use crate::text::opt_view;
use crate::provider::{nonblank, resolved_key, stored_view, str_opt_view, env_key, keep_nonblank, resolved_provider_key, provider_env_key};
use crate::summary::TranscriptSegment;

verus! {

/// The chat-completions endpoint for a configured API address.
pub open spec fn chat_endpoint(api_url: Seq<char>) -> Seq<char> {
    if ends_with(api_url, "/chat/completions"@) {
        api_url
    } else {
        api_url + "/chat/completions"@
    }
}

/// GPT-OSS on Groq spends tokens on reasoning first: twice the budget, and
/// never less than 1024.
pub open spec fn groq_token_budget(max_tokens: u32) -> u32 {
    let doubled = if 2 * max_tokens > u32::MAX { u32::MAX } else { (2 * max_tokens) as u32 };
    if doubled < 1024 { 1024 } else { doubled }
}

pub fn completion_token_budget(max_tokens: u32) -> (r: u32)
    ensures
        r == groq_token_budget(max_tokens),
{
    let doubled: u32 = if max_tokens > u32::MAX / 2 { u32::MAX } else { max_tokens * 2 };
    if doubled < 1024 { 1024 } else { doubled }
}

pub struct ChatMessage {
    pub role: String,
    pub content: String,
}

/// A chat-completion request: the body holds `model`, `messages`, the token
/// limit under the name `token_field`, and, where present, `reasoning_effort`
/// and `include_reasoning`.
pub struct ChatRequest {
    pub endpoint: String,
    pub groq: bool,
    pub model: String,
    pub messages: Vec<ChatMessage>,
    pub token_field: &'static str,
    pub token_limit: u32,
    pub reasoning_effort: Option<&'static str>,
    pub include_reasoning: Option<bool>,
}

pub open spec fn message_view(m: ChatMessage) -> (Seq<char>, Seq<char>) {
    (m.role@, m.content@)
}

/// The messages sent: Groq gets one user message holding the instructions, a
/// blank line and the input; other providers a system and a user message.
pub open spec fn chat_messages(groq: bool, system: Seq<char>, user: Seq<char>) -> Seq<(Seq<char>, Seq<char>)> {
    if groq {
        seq![("user"@, system + "\n\n"@ + user)]
    } else {
        seq![("system"@, system), ("user"@, user)]
    }
}

/// The request that asks the configured provider to complete `user` under
/// the instructions `system`.
pub fn chat_request(config: &SummaryAiConfig, system: &str, user: &str, max_tokens: u32) -> (r: ChatRequest)
    ensures
        r.endpoint@ == chat_endpoint(config.api_url@),
        r.groq == (config.provider@ == "groq"@),
        r.model@ == config.model@,
        r.messages@.map_values(|m: ChatMessage| message_view(m)) == chat_messages(r.groq, system@, user@),
        r.token_limit == (if r.groq { groq_token_budget(max_tokens) } else { max_tokens }),
        r.token_field@ == (if r.groq { "max_completion_tokens"@ } else { "max_tokens"@ }),
        r.groq ==> (r.reasoning_effort matches Some(e) && e@ == "low"@) && r.include_reasoning == Some(false),
        !r.groq ==> r.reasoning_effort is None && r.include_reasoning is None,
{
    let endpoint = if has_suffix(config.api_url.as_str(), "/chat/completions") {
        config.api_url.clone()
    } else {
        let mut e = config.api_url.clone();
        e.append("/chat/completions");
        e
    };
    let groq = str_equal(config.provider.as_str(), "groq");
    let mut messages: Vec<ChatMessage> = Vec::new();
    let token_limit = if groq {
        let mut content = owned(system);
        content.append("\n\n");
        content.append(user);
        messages.push(ChatMessage { role: owned("user"), content });
        completion_token_budget(max_tokens)
    } else {
        messages.push(ChatMessage { role: owned("system"), content: owned(system) });
        messages.push(ChatMessage { role: owned("user"), content: owned(user) });
        max_tokens
    };
    assert(messages@.map_values(|m: ChatMessage| message_view(m)) =~= chat_messages(groq, system@, user@));
    let (token_field, reasoning_effort, include_reasoning) = if groq {
        ("max_completion_tokens", Some("low"), Some(false))
    } else {
        ("max_tokens", None, None)
    };
    ChatRequest { endpoint, groq, model: config.model.clone(), messages, token_field, token_limit, reasoning_effort, include_reasoning }
}

pub open spec fn service_not_ready_message() -> Seq<char> {
    "Dịch vụ xử lý tạm thời chưa sẵn sàng."@
}

/// The bearer key sent with a request. Groq needs its resolved key and
/// refuses without one; 9Router sends its stored key, else its environment
/// key, else no key. `stored` is what reading the provider's credential
/// entry gave.
pub open spec fn completion_key(
    groq: bool,
    stored: Result<Option<Seq<char>>, Seq<char>>,
    groq_env: Option<Seq<char>>,
    nine_router_env: Option<Seq<char>>,
    compiled: Option<Seq<char>>,
) -> Result<Option<Seq<char>>, Seq<char>> {
    if groq {
        match nonblank(resolved_key("groq"@, stored, groq_env, nine_router_env, compiled)) {
            Some(k) => Ok(Some(k)),
            None => Err(service_not_ready_message()),
        }
    } else if let Ok(Some(k)) = stored {
        Ok(Some(k))
    } else {
        Ok(env_key("nine_router"@, groq_env, nine_router_env))
    }
}

pub fn completion_authorization(
    groq: bool,
    stored: Result<Option<String>, String>,
    groq_env: Option<String>,
    nine_router_env: Option<String>,
    compiled: Option<&str>,
) -> (r: Result<Option<String>, String>)
    ensures
        match r {
            Ok(k) => completion_key(groq, stored_view(stored), opt_view(groq_env), opt_view(nine_router_env), str_opt_view(compiled)) == Ok::<Option<Seq<char>>, Seq<char>>(opt_view(k)),
            Err(e) => completion_key(groq, stored_view(stored), opt_view(groq_env), opt_view(nine_router_env), str_opt_view(compiled)) == Err::<Option<Seq<char>>, Seq<char>>(e@),
        },
{
    if groq {
        match keep_nonblank(resolved_provider_key("groq", stored, groq_env, nine_router_env, compiled)) {
            Some(k) => Ok(Some(k)),
            None => Err(owned("Dịch vụ xử lý tạm thời chưa sẵn sàng.")),
        }
    } else {
        if let Ok(Some(k)) = stored {
            return Ok(Some(k));
        }
        Ok(provider_env_key("nine_router", groq_env, nine_router_env))
    }
}

/// The key a Groq request carries: the saved Groq key when one is saved and
/// not blank, else a non-blank `GROQ_API_KEY`, else the built-in key. It is
/// always one of these three, never `NINE_ROUTER_API_KEY` in their place, and
/// with none of them the request is refused as not ready.
pub proof fn lemma_groq_request_key(
    stored: Result<Option<Seq<char>>, Seq<char>>,
    groq_env: Option<Seq<char>>,
    nine_router_env: Option<Seq<char>>,
    compiled: Option<Seq<char>>,
)
    ensures
        forall|k: Seq<char>| stored == Ok::<Option<Seq<char>>, Seq<char>>(Some(k)) && !is_blank(k)
            ==> #[trigger] completion_key(true, stored, groq_env, nine_router_env, compiled) == Ok::<Option<Seq<char>>, Seq<char>>(Some(k)),
        forall|k: Seq<char>| !(stored matches Ok(Some(_))) && groq_env == Some(k) && !is_blank(k)
            ==> #[trigger] completion_key(true, stored, groq_env, nine_router_env, compiled) == Ok::<Option<Seq<char>>, Seq<char>>(Some(k)),
        forall|s: Seq<char>| !(stored matches Ok(Some(_))) && !(groq_env matches Some(g) && !is_blank(g))
            && compiled == Some(s) && !is_blank(trim(s))
            ==> #[trigger] completion_key(true, stored, groq_env, nine_router_env, compiled) == Ok::<Option<Seq<char>>, Seq<char>>(Some(trim(s))),
        completion_key(true, stored, groq_env, nine_router_env, compiled) matches Ok(Some(k)) ==> {
            ||| stored == Ok::<Option<Seq<char>>, Seq<char>>(Some(k))
            ||| groq_env == Some(k)
            ||| (compiled matches Some(s) && k == trim(s))
        },
        !(completion_key(true, stored, groq_env, nine_router_env, compiled) matches Ok(None)),
        !(stored matches Ok(Some(_))) && !(groq_env matches Some(g) && !is_blank(g)) && compiled is None
            ==> completion_key(true, stored, groq_env, nine_router_env, compiled) == Err::<Option<Seq<char>>, Seq<char>>(service_not_ready_message()),
{
    crate::provider::lemma_known_provider_names();
}

/// The key a 9Router request carries: the saved 9Router key when one is
/// saved, else a non-blank `NINE_ROUTER_API_KEY`, else none; never
/// `GROQ_API_KEY` or the built-in Groq key, and the request is never refused
/// for want of a key.
pub proof fn lemma_nine_router_request_key(
    stored: Result<Option<Seq<char>>, Seq<char>>,
    groq_env: Option<Seq<char>>,
    nine_router_env: Option<Seq<char>>,
    compiled: Option<Seq<char>>,
)
    ensures
        forall|k: Seq<char>| stored == Ok::<Option<Seq<char>>, Seq<char>>(Some(k))
            ==> #[trigger] completion_key(false, stored, groq_env, nine_router_env, compiled) == Ok::<Option<Seq<char>>, Seq<char>>(Some(k)),
        forall|k: Seq<char>| !(stored matches Ok(Some(_))) && nine_router_env == Some(k) && !is_blank(k)
            ==> #[trigger] completion_key(false, stored, groq_env, nine_router_env, compiled) == Ok::<Option<Seq<char>>, Seq<char>>(Some(k)),
        !(stored matches Ok(Some(_))) && !(nine_router_env matches Some(n) && !is_blank(n))
            ==> completion_key(false, stored, groq_env, nine_router_env, compiled) == Ok::<Option<Seq<char>>, Seq<char>>(None),
        completion_key(false, stored, groq_env, nine_router_env, compiled) matches Ok(Some(k)) ==> {
            ||| stored == Ok::<Option<Seq<char>>, Seq<char>>(Some(k))
            ||| nine_router_env == Some(k)
        },
        completion_key(false, stored, groq_env, nine_router_env, compiled) is Ok,
{
    crate::provider::lemma_known_provider_names();
    reveal_strlit("groq");
    reveal_strlit("nine_router");
    assert("nine_router"@ != "groq"@);
}

pub open spec fn groq_unreachable_message() -> Seq<char> {
    "Không kết nối được dịch vụ xử lý"@
}

/// The message when Groq cannot be reached.
pub fn groq_unreachable() -> (r: String)
    ensures
        r@ == groq_unreachable_message(),
{
    owned("Không kết nối được dịch vụ xử lý")
}

/// The message when 9Router cannot be reached, with the transport's reason.
pub fn nine_router_unreachable(reason: &str) -> (r: String)
    ensures
        r@ == "Không gọi được 9Router: "@ + reason@,
{
    let mut m = owned("Không gọi được 9Router: ");
    m.append(reason);
    m
}

/// The message for an HTTP status other than success.
pub fn service_unavailable(status: &str) -> (r: String)
    ensures
        r@ == "Dịch vụ xử lý tạm thời không khả dụng (HTTP "@ + status@ + ")"@,
{
    let mut m = owned("Dịch vụ xử lý tạm thời không khả dụng (HTTP ");
    m.append(status);
    m.append(")");
    m
}

/// The reply text: the first choice's message content, trimmed, when there
/// is some; otherwise an error naming the finish reason ("không rõ" when
/// there is none).
pub open spec fn completion_text(content: Option<Seq<char>>, finish_reason: Option<Seq<char>>) -> Result<Seq<char>, Seq<char>> {
    match content {
        Some(c) if trim(c).len() > 0 => Ok(trim(c)),
        _ => Err("Model không trả về nội dung (finish_reason: "@ + (match finish_reason {
            Some(f) => f,
            None => "không rõ"@,
        }) + ")"@),
    }
}

pub open spec fn text_result_view(r: Result<String, String>) -> Result<Seq<char>, Seq<char>> {
    match r {
        Ok(s) => Ok(s@),
        Err(e) => Err(e@),
    }
}

/// What the reply's `/choices/0/message/content` and
/// `/choices/0/finish_reason` strings (when present) come to.
pub fn completion_content(content: Option<String>, finish_reason: Option<String>) -> (r: Result<String, String>)
    ensures
        text_result_view(r) == completion_text(opt_view(content), opt_view(finish_reason)),
{
    if let Some(c) = &content {
        let t = trim_str(c.as_str());
        if t.unicode_len() > 0 {
            return Ok(owned(t));
        }
    }
    let mut m = owned("Model không trả về nội dung (finish_reason: ");
    match &finish_reason {
        Some(f) => m.append(f.as_str()),
        None => m.append("không rõ"),
    }
    m.append(")");
    Err(m)
}

/// The position of the first `c` in `s`.
pub open spec fn first_index(s: Seq<char>, c: char) -> Option<int> {
    if exists|i: int| 0 <= i < s.len() && s[i] == c {
        Some(choose|i: int| 0 <= i < s.len() && s[i] == c && forall|j: int| 0 <= j < i ==> s[j] != c)
    } else {
        None
    }
}

/// The position of the last `c` in `s`.
pub open spec fn last_index(s: Seq<char>, c: char) -> Option<int> {
    if exists|i: int| 0 <= i < s.len() && s[i] == c {
        Some(choose|i: int| 0 <= i < s.len() && s[i] == c && forall|j: int| i < j < s.len() ==> s[j] != c)
    } else {
        None
    }
}

/// A reply can be framed unless its last '}' comes before its first '{'
/// with text between them.
pub open spec fn frameable(s: Seq<char>) -> bool {
    match (first_index(s, '{'), last_index(s, '}')) {
        (Some(start), Some(end)) => start <= end + 1,
        _ => true,
    }
}

/// The JSON object in a model reply: from the first '{' to the last '}'.
pub open spec fn json_object_frame(s: Seq<char>) -> Result<Seq<char>, Seq<char>> {
    match first_index(s, '{') {
        None => Err("Model không trả về JSON object"@),
        Some(start) => match last_index(s, '}') {
            None => Err("JSON từ model bị thiếu dấu đóng"@),
            Some(end) => Ok(s.subrange(start, end + 1)),
        },
    }
}

proof fn lemma_first_index(s: Seq<char>, c: char, i: int)
    requires
        0 <= i < s.len(),
        s[i] == c,
        forall|j: int| 0 <= j < i ==> s[j] != c,
    ensures
        first_index(s, c) == Some(i),
{
    let k = first_index(s, c)->0;
    assert(s[k] == c);
    assert(!(k < i));
    assert(!(i < k));
}

proof fn lemma_last_index(s: Seq<char>, c: char, i: int)
    requires
        0 <= i < s.len(),
        s[i] == c,
        forall|j: int| i < j < s.len() ==> s[j] != c,
    ensures
        last_index(s, c) == Some(i),
{
    let k = last_index(s, c)->0;
    assert(s[k] == c);
    assert(!(k < i));
    assert(!(i < k));
}

fn find_first(s: &str, c: char) -> (r: Option<usize>)
    ensures
        match r {
            Some(i) => first_index(s@, c) == Some(i as int) && i < s@.len(),
            None => first_index(s@, c) is None,
        },
{
    let n = s.unicode_len();
    let mut i: usize = 0;
    while i < n
        invariant
            n == s@.len(),
            i <= n,
            forall|j: int| 0 <= j < i ==> s@[j] != c,
        decreases n - i,
    {
        if s.get_char(i) == c {
            proof {
                lemma_first_index(s@, c, i as int);
            }
            return Some(i);
        }
        i = i + 1;
    }
    None
}

fn find_last(s: &str, c: char) -> (r: Option<usize>)
    ensures
        match r {
            Some(i) => last_index(s@, c) == Some(i as int) && i < s@.len(),
            None => last_index(s@, c) is None,
        },
{
    let n = s.unicode_len();
    let mut i: usize = n;
    while i > 0
        invariant
            n == s@.len(),
            i <= n,
            forall|j: int| i <= j < n ==> s@[j] != c,
        decreases i,
    {
        if s.get_char(i - 1) == c {
            proof {
                lemma_last_index(s@, c, i - 1);
            }
            return Some(i - 1);
        }
        i = i - 1;
    }
    None
}

/// Whether a reply can be framed (see `json_object_in_reply`).
pub fn reply_is_frameable(reply: &str) -> (r: bool)
    ensures
        r == frameable(reply@),
{
    let _n = reply.unicode_len();
    match (find_first(reply, '{'), find_last(reply, '}')) {
        (Some(start), Some(end)) => start <= end + 1,
        _ => true,
    }
}

/// The text from the first '{' to the last '}' of a model reply, or why
/// there is none; the caller parses it as JSON.
pub fn json_object_in_reply(reply: &str) -> (r: Result<&str, String>)
    requires
        frameable(reply@),
    ensures
        text_ref_view(r) == json_object_frame(reply@),
{
    let _n = reply.unicode_len();
    let start = match find_first(reply, '{') {
        Some(i) => i,
        None => return Err(owned("Model không trả về JSON object")),
    };
    let end = match find_last(reply, '}') {
        Some(i) => i,
        None => return Err(owned("JSON từ model bị thiếu dấu đóng")),
    };
    assert(start <= end + 1);
    let piece = reply.substring_char(start, end + 1);
    Ok(piece)
}

pub open spec fn text_ref_view(r: Result<&str, String>) -> Result<Seq<char>, Seq<char>> {
    match r {
        Ok(s) => Ok(s@),
        Err(e) => Err(e@),
    }
}

/// How a transcript segment is shown to the model: its ID, time and source
/// in brackets, then its cleaned text.
pub open spec fn segment_line(s: TranscriptSegment) -> Seq<char> {
    "["@ + s.id@ + "] ["@ + s.timestamp@ + "] ["@ + s.audio_source@ + "] "@ + s.clean_text@
}

/// Lines joined with newlines.
pub open spec fn joined_lines(lines: Seq<Seq<char>>) -> Seq<char>
    decreases lines.len(),
{
    if lines.len() == 0 {
        Seq::empty()
    } else if lines.len() == 1 {
        lines[0]
    } else {
        joined_lines(lines.drop_last()) + "\n"@ + lines.last()
    }
}

fn line_of(s: &TranscriptSegment) -> (r: String)
    ensures
        r@ == segment_line(*s),
{
    let mut line = owned("[");
    line.append(s.id.as_str());
    line.append("] [");
    line.append(s.timestamp.as_str());
    line.append("] [");
    line.append(s.audio_source.as_str());
    line.append("] ");
    line.append(s.clean_text.as_str());
    line
}

/// The transcript as the model reads it, one segment per line.
pub fn transcript_text(segments: &[TranscriptSegment]) -> (r: String)
    ensures
        r@ == joined_lines(segments@.map_values(|s: TranscriptSegment| segment_line(s))),
{
    let ghost lines = segments@.map_values(|s: TranscriptSegment| segment_line(s));
    let mut out = String::new();
    let n = segments.len();
    let mut i: usize = 0;
    while i < n
        invariant
            n == segments@.len(),
            i <= n,
            lines == segments@.map_values(|s: TranscriptSegment| segment_line(s)),
            out@ == joined_lines(lines.subrange(0, i as int)),
        decreases n - i,
    {
        let line = line_of(&segments[i]);
        proof {
            let next = lines.subrange(0, i + 1);
            assert(next.drop_last() =~= lines.subrange(0, i as int));
            assert(next.last() == lines[i as int]);
        }
        if i > 0 {
            out.append("\n");
        }
        out.append(line.as_str());
        proof {
            if i == 0 {
                assert(lines.subrange(0, 0) =~= Seq::<Seq<char>>::empty());
                assert(out@ =~= line@);
            }
        }
        i = i + 1;
    }
    assert(lines.subrange(0, n as int) =~= lines);
    out
}

/// What the model is asked for a summary: the previous draft (as JSON, or
/// "null") and the transcript with its IDs.
pub open spec fn summary_user_prompt(previous: Seq<char>, transcript: Seq<char>) -> Seq<char> {
    "BẢN NHÁP TRƯỚC (có thể null):\n"@ + previous + "\n\nTRANSCRIPT CÓ ID:\n"@ + transcript
}

/// The user prompt for a summary of `segments`; none when there are no
/// segments, in which case the previous summary stands as it is.
pub fn summary_request(segments: &[TranscriptSegment], previous_json: &str) -> (r: Option<String>)
    ensures
        segments@.len() == 0 <==> r is None,
        r matches Some(p) ==> p@ == summary_user_prompt(previous_json@, joined_lines(segments@.map_values(|s: TranscriptSegment| segment_line(s)))),
{
    if segments.len() == 0 {
        return None;
    }
    let transcript = transcript_text(segments);
    let mut prompt = owned("BẢN NHÁP TRƯỚC (có thể null):\n");
    prompt.append(previous_json);
    prompt.append("\n\nTRANSCRIPT CÓ ID:\n");
    prompt.append(transcript.as_str());
    Some(prompt)
}

/// The token budget of a summary request.
pub fn summary_max_tokens() -> (r: u32)
    ensures
        r == 1800,
{
    1800
}

/// The instructions a summary is written under: conservative about
/// decisions, evidence IDs taken from the transcript, JSON in camelCase.
pub const SUMMARY_INSTRUCTIONS: &'static str = r#"Bạn là thư ký cuộc họp AI/Tech cực kỳ thận trọng. Tạo meeting note ngắn, dễ scan và có thể kiểm chứng.

QUY TẮC BẮT BUỘC:
- Chỉ tạo decision khi transcript có lời chốt/đồng ý rõ ràng. Một người nêu preference không phải consensus.
- Nếu nhiều option được bàn mà chưa chốt, đưa vào unresolvedTopics với status chính xác là "No final decision".
- Preference chưa commit phải nằm ở tentativeDecisions, không phải decisions.
- Không phát minh decision, action item, owner, deadline, blocker, next step hoặc conclusion.
- Action item chỉ có owner/deadline khi transcript nói rõ. Dùng null khi thiếu.
- Preserve uncertainty. Khi phân vân, dùng unresolved thay vì đoán.
- Mỗi decision, tentative decision, unresolved topic, action item và deferred item phải có evidenceIds lấy nguyên văn từ ID trong dấu [] ở transcript.
- Không dùng nhãn microphone/system làm tên người. Chỉ ghi owner khi tên người xuất hiện rõ trong lời nói.
- Previous summary chỉ là bản nháp để hợp nhất và có thể sai; transcript mới cùng evidence mới là nguồn sự thật.
- Không tạo section giả để lấp chỗ trống. Dùng mảng rỗng.

Chỉ trả về một JSON object, không markdown, đúng camelCase schema:
{"tldr":"string","keyPoints":[{"id":"string","text":"string","evidenceIds":["segment-id"]}],"decisions":[],"tentativeDecisions":[],"unresolvedTopics":[{"id":"string","text":"string","topic":"string","options":["string"],"status":"No final decision","evidenceIds":["segment-id"]}],"actionItems":[{"id":"string","owner":null,"task":"string","deadline":null,"evidenceIds":["segment-id"]}],"openQuestions":[],"deferred":[{"id":"string","text":"string","target":null,"evidenceIds":["segment-id"]}]}"#;

/// A translation request: instructions, input and token budget.
pub struct TranslationRequest {
    pub system: String,
    pub user: String,
    pub max_tokens: u32,
}

/// The name of a source language in the instructions: English or
/// simplified Chinese.
pub open spec fn source_language_name(code: Seq<char>) -> Option<Seq<char>> {
    if code == "en"@ {
        Some("tiếng Anh"@)
    } else if code == "zh"@ {
        Some("tiếng Trung giản thể"@)
    } else {
        None
    }
}

/// The context block: the previous passage, to be used but not translated.
pub open spec fn translation_context(previous: Seq<char>) -> Seq<char> {
    if is_blank(previous) {
        "Không có đoạn trước."@
    } else {
        "Đoạn ngay trước đó (chỉ dùng làm ngữ cảnh, không dịch lại):\n"@ + previous
    }
}

pub open spec fn translation_instructions(source: Seq<char>) -> Seq<char> {
    "Bạn là biên tập viên bản ghi và phiên dịch viên từ "@ + source
        + " sang tiếng Việt. Đầu vào là một đoạn ghép từ nhiều kết quả ASR liên tiếp. Hãy dùng toàn bộ ngữ cảnh để sửa các lỗi nhận diện rõ ràng, nối lại câu bị ngắt, thêm dấu câu, rồi dịch cả đoạn sang tiếng Việt tự nhiên. Giữ nguyên tên riêng, số liệu và thuật ngữ chuyên môn. Không bịa nội dung. Chỉ trả về bản dịch tiếng Việt hoàn chỉnh của ĐOẠN CẦN DỊCH; không dịch lại ngữ cảnh và không giải thích."@
}

pub open spec fn unsupported_language_message() -> Seq<char> {
    "Ngôn ngữ nguồn không hỗ trợ dịch"@
}

/// The request that translates `text` (English or Chinese) into Vietnamese,
/// with the previous passage as context.
pub fn translation_request(text: &str, source_language: &str, previous_context: &str) -> (r: Result<TranslationRequest, String>)
    ensures
        source_language_name(source_language@) is None ==> (r matches Err(e) && e@ == unsupported_language_message()),
        source_language_name(source_language@) matches Some(name) ==> (r matches Ok(q) && {
            &&& q.system@ == translation_instructions(name)
            &&& q.user@ == translation_context(previous_context@) + "\n\nĐOẠN CẦN DỊCH:\n"@ + text@
            &&& q.max_tokens == 300
        }),
{
    let source = if str_equal(source_language, "en") {
        "tiếng Anh"
    } else if str_equal(source_language, "zh") {
        "tiếng Trung giản thể"
    } else {
        return Err(owned("Ngôn ngữ nguồn không hỗ trợ dịch"));
    };
    proof {
        reveal_strlit("en");
        reveal_strlit("zh");
    }
    let mut context = if is_blank_str(previous_context) {
        owned("Không có đoạn trước.")
    } else {
        let mut c = owned("Đoạn ngay trước đó (chỉ dùng làm ngữ cảnh, không dịch lại):\n");
        c.append(previous_context);
        c
    };
    context.append("\n\nĐOẠN CẦN DỊCH:\n");
    context.append(text);
    let mut system = owned("Bạn là biên tập viên bản ghi và phiên dịch viên từ ");
    system.append(source);
    system.append(" sang tiếng Việt. Đầu vào là một đoạn ghép từ nhiều kết quả ASR liên tiếp. Hãy dùng toàn bộ ngữ cảnh để sửa các lỗi nhận diện rõ ràng, nối lại câu bị ngắt, thêm dấu câu, rồi dịch cả đoạn sang tiếng Việt tự nhiên. Giữ nguyên tên riêng, số liệu và thuật ngữ chuyên môn. Không bịa nội dung. Chỉ trả về bản dịch tiếng Việt hoàn chỉnh của ĐOẠN CẦN DỊCH; không dịch lại ngữ cảnh và không giải thích.");
    Ok(TranslationRequest { system, user: context, max_tokens: 300 })
}

} // verus!
