//! Text-to-speech voices: the packs that ship, and which one is selected.
use vstd::prelude::*;
use crate::text::{opt_view, str_equal, owned};

verus! {

/// A voice: ID, display name, description, and the archive of its pack.
pub type VoiceDefinition = (&'static str, &'static str, &'static str, &'static str);

pub open spec fn definition_view(d: VoiceDefinition) -> (Seq<char>, Seq<char>, Seq<char>, Seq<char>) {
    (d.0@, d.1@, d.2@, d.3@)
}

/// The voices that ship, in display order.
pub open spec fn voice_table() -> Seq<(Seq<char>, Seq<char>, Seq<char>, Seq<char>)> {
    seq![
        ("thuc-day-di"@, "Giọng Nam"@, "Trung niên"@, "thuc-day-di.zip"@),
        ("ngoc-huyen"@, "Giọng Nữ"@, "Kể truyện · review phim"@, "Ngoc-Huyen-7owuK1LaOPOaQjeSzmQ4.zip"@),
    ]
}

pub open spec fn default_voice() -> Seq<char> {
    "thuc-day-di"@
}

/// The voices that ship, in display order.
pub fn tts_voice_definitions() -> (r: [VoiceDefinition; 2])
    ensures
        r@.map_values(|d: VoiceDefinition| definition_view(d)) == voice_table(),
{
    let r: [VoiceDefinition; 2] = [
        ("thuc-day-di", "Giọng Nam", "Trung niên", "thuc-day-di.zip"),
        ("ngoc-huyen", "Giọng Nữ", "Kể truyện · review phim", "Ngoc-Huyen-7owuK1LaOPOaQjeSzmQ4.zip"),
    ];
    assert(r@.map_values(|d: VoiceDefinition| definition_view(d)) =~= voice_table());
    r
}

/// The index of the shipped voice with this ID, if any.
pub open spec fn voice_index(id: Seq<char>) -> Option<int> {
    if voice_table()[0].0 == id {
        Some(0)
    } else if voice_table()[1].0 == id {
        Some(1)
    } else {
        None
    }
}

/// The shipped voice with this ID.
pub fn find_voice(id: &str) -> (r: Option<VoiceDefinition>)
    ensures
        match r {
            Some(d) => voice_index(id@) matches Some(i) && definition_view(d) == voice_table()[i],
            None => voice_index(id@) is None,
        },
{
    let defs = tts_voice_definitions();
    proof {
        assert(definition_view(defs@[0]) == voice_table()[0]);
        assert(definition_view(defs@[1]) == voice_table()[1]);
    }
    let d0 = defs[0];
    let d1 = defs[1];
    if str_equal(d0.0, id) {
        Some(d0)
    } else if str_equal(d1.0, id) {
        Some(d1)
    } else {
        None
    }
}

/// The selected voice: the stored choice when it names a shipped voice,
/// otherwise the default voice.
pub open spec fn selected_voice(stored: Option<Seq<char>>) -> Seq<char> {
    let choice = match stored {
        Some(s) => s,
        None => default_voice(),
    };
    if voice_index(choice) is Some {
        choice
    } else {
        default_voice()
    }
}

/// The ID of the selected voice, given the stored choice (if one was read).
pub fn selected_tts_voice_id(stored: Option<String>) -> (r: String)
    ensures
        r@ == selected_voice(opt_view(stored)),
        voice_index(r@) is Some,
{
    proof {
        reveal_strlit("thuc-day-di");
        reveal_strlit("ngoc-huyen");
    }
    let choice = match stored {
        Some(s) => s,
        None => owned("thuc-day-di"),
    };
    match find_voice(choice.as_str()) {
        Some(d) => owned(d.0),
        None => owned("thuc-day-di"),
    }
}

#[derive(Debug, Clone)]
pub struct TtsVoiceOption {
    pub id: String,
    pub display_name: String,
    pub description: String,
}

#[derive(Debug, Clone)]
pub struct TtsVoiceConfig {
    pub selected_id: String,
    pub voices: Vec<TtsVoiceOption>,
}

pub open spec fn option_view(o: TtsVoiceOption) -> (Seq<char>, Seq<char>, Seq<char>) {
    (o.id@, o.display_name@, o.description@)
}

/// The voices offered to the user: every shipped voice without its archive.
pub open spec fn offered_voices() -> Seq<(Seq<char>, Seq<char>, Seq<char>)> {
    voice_table().map_values(|d: (Seq<char>, Seq<char>, Seq<char>, Seq<char>)| (d.0, d.1, d.2))
}

/// The voice settings shown to the user.
pub fn tts_voice_config(stored: Option<String>) -> (r: TtsVoiceConfig)
    ensures
        r.selected_id@ == selected_voice(opt_view(stored)),
        r.voices@.map_values(|o: TtsVoiceOption| option_view(o)) == offered_voices(),
{
    let defs = tts_voice_definitions();
    proof {
        assert(definition_view(defs@[0]) == voice_table()[0]);
        assert(definition_view(defs@[1]) == voice_table()[1]);
    }
    let mut voices: Vec<TtsVoiceOption> = Vec::new();
    voices.push(TtsVoiceOption { id: owned(defs[0].0), display_name: owned(defs[0].1), description: owned(defs[0].2) });
    voices.push(TtsVoiceOption { id: owned(defs[1].0), display_name: owned(defs[1].1), description: owned(defs[1].2) });
    assert(voices@.map_values(|o: TtsVoiceOption| option_view(o)) =~= offered_voices());
    TtsVoiceConfig { selected_id: selected_tts_voice_id(stored), voices }
}

pub open spec fn stop_recording_for_voice_message() -> Seq<char> {
    "Hãy dừng ghi âm trước khi đổi giọng đọc"@
}

pub open spec fn invalid_voice_message() -> Seq<char> {
    "Giọng đọc không hợp lệ"@
}

/// The voice a user picks, or why the choice is refused: not while
/// recording, and only a shipped voice.
pub fn tts_voice_choice(capturing: bool, voice_id: &str) -> (r: Result<VoiceDefinition, String>)
    ensures
        capturing ==> (r matches Err(e) && e@ == stop_recording_for_voice_message()),
        !capturing && voice_index(voice_id@) is None ==> (r matches Err(e) && e@ == invalid_voice_message()),
        !capturing && voice_index(voice_id@) is Some ==> (r matches Ok(d) && definition_view(d) == voice_table()[voice_index(voice_id@)->0]),
{
    if capturing {
        return Err(owned("Hãy dừng ghi âm trước khi đổi giọng đọc"));
    }
    match find_voice(voice_id) {
        Some(d) => Ok(d),
        None => Err(owned("Giọng đọc không hợp lệ")),
    }
}

/// "Không tìm thấy gói giọng " followed by the voice's display name.
pub fn missing_voice_pack_message(display_name: &str) -> (r: String)
    ensures
        r@ == "Không tìm thấy gói giọng "@ + display_name@,
{
    let mut m = owned("Không tìm thấy gói giọng ");
    m.append(display_name);
    m
}

/// The archive of the selected voice's pack; the default voice's pack for an
/// unknown ID.
pub fn voice_archive(selected: &str) -> (r: &'static str)
    ensures
        r@ == (match voice_index(selected@) { Some(i) => voice_table()[i].3, None => voice_table()[0].3 }),
{
    match find_voice(selected) {
        Some(d) => d.3,
        None => "thuc-day-di.zip",
    }
}

/// A voice the user picked is, read back, the selected voice, and the
/// worker then loads that voice's pack.
pub proof fn lemma_chosen_voice_is_selected(capturing: bool, voice_id: Seq<char>)
    ensures
        !capturing && voice_index(voice_id) is Some ==> {
            &&& selected_voice(Some(voice_id)) == voice_id
            &&& voice_table()[voice_index(selected_voice(Some(voice_id)))->0].0 == voice_id
        },
{
}

/// Whatever is stored, the selected voice is a shipped voice.
pub proof fn lemma_selected_voice_ships(stored: Option<Seq<char>>)
    ensures
        voice_index(selected_voice(stored)) is Some,
{
    reveal_strlit("thuc-day-di");
    reveal_strlit("ngoc-huyen");
}

} // verus!
