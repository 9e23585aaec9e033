//! The messages exchanged with the translation service.
use vstd::prelude::*;

use crate::codec::encode_base64;
use crate::json::{
    as_text, at_pointer, get_member, member_text, object1, object2, parse_json, print_json,
    text_value,
};
use crate::json::JsonView;
use crate::pcm::samples_to_bytes;
use crate::status::Speech;
use crate::text::{join2, same_text};

verus! {

/// Where the translation service listens.
pub const SERVICE_URL: &'static str = "wss://api.openai.com/v1/realtime/translations?model=gpt-realtime-translate";

/// The credentials that a connection is opened with.
pub fn authorization(api_key: &str) -> (r: String)
    ensures
        r@ == "Bearer "@ + api_key@,
{
    join2("Bearer ", api_key)
}

/// The request for a session that translates to a language.
pub open spec fn session_update_json(language: Seq<char>) -> JsonView {
    let transcription = JsonView::Object(map!["model"@ => JsonView::Text("gpt-realtime-whisper"@)]);
    let noise_reduction = JsonView::Object(map!["type"@ => JsonView::Text("near_field"@)]);
    let input = JsonView::Object(
        map!["transcription"@ => transcription, "noise_reduction"@ => noise_reduction],
    );
    let output = JsonView::Object(map!["language"@ => JsonView::Text(language)]);
    let audio = JsonView::Object(map!["input"@ => input, "output"@ => output]);
    let session = JsonView::Object(map!["audio"@ => audio]);
    JsonView::Object(map!["type"@ => JsonView::Text("session.update"@), "session"@ => session])
}

/// The message that hands on captured audio.
pub open spec fn append_json(audio: Seq<char>) -> JsonView {
    JsonView::Object(
        map![
            "type"@ => JsonView::Text("session.input_audio_buffer.append"@),
            "audio"@ => JsonView::Text(audio),
        ],
    )
}

/// The bytes of audio that can be read back from a message that hands them on.
pub open spec fn audio_in(text: Seq<char>) -> Option<Seq<u8>> {
    match crate::json::json_parsed(text) {
        Some(json) => match crate::json::text_of(crate::json::member(json, "audio"@)) {
            Some(audio) => crate::codec::base64_decoded(audio),
            None => None,
        },
        None => None,
    }
}

/// Writes the request for a session that translates to a language.
pub fn session_update(language: &str) -> (r: String)
    ensures
        r@ == crate::json::json_text(session_update_json(language@)),
        crate::json::json_parsed(r@) == Some(session_update_json(language@)),
{
    proof {
        reveal_strlit("transcription");
        reveal_strlit("noise_reduction");
        reveal_strlit("input");
        reveal_strlit("output");
        reveal_strlit("type");
        reveal_strlit("session");
        assert("transcription"@[0] != "noise_reduction"@[0]);
        assert("input"@[0] != "output"@[0]);
        assert("type"@[0] != "session"@[0]);
        reveal_with_fuel(crate::json::string_tree, 6);
    }
    let transcription: serde_json::Value = object1("model", text_value("gpt-realtime-whisper"));
    let noise_reduction: serde_json::Value = object1("type", text_value("near_field"));
    let input: serde_json::Value = object2(
        "transcription",
        transcription,
        "noise_reduction",
        noise_reduction,
    );
    let output: serde_json::Value = object1("language", text_value(language));
    let audio: serde_json::Value = object2("input", input, "output", output);
    let session: serde_json::Value = object1("audio", audio);
    let message: serde_json::Value = object2(
        "type",
        text_value("session.update"),
        "session",
        session,
    );
    print_json(&message)
}

/// Writes the message that hands on captured audio, given in base64.
pub fn append_message(audio: &str) -> (r: String)
    ensures
        r@ == crate::json::json_text(append_json(audio@)),
        crate::json::json_parsed(r@) == Some(append_json(audio@)),
        audio_in(r@) == crate::codec::base64_decoded(audio@),
{
    proof {
        reveal_strlit("type");
        reveal_strlit("audio");
        assert("type"@[0] != "audio"@[0]);
        reveal_with_fuel(crate::json::string_tree, 3);
        let members = map![
            "type"@ => JsonView::Text("session.input_audio_buffer.append"@),
            "audio"@ => JsonView::Text(audio@),
        ];
        assert(members.contains_key("audio"@) && members["audio"@] == JsonView::Text(audio@));
    }
    let message: serde_json::Value = object2(
        "type",
        text_value("session.input_audio_buffer.append"),
        "audio",
        text_value(audio),
    );
    print_json(&message)
}

/// Writes the message that hands on captured audio, given as little-endian 16-bit PCM.
pub fn append_audio(pcm: &[u8]) -> (r: String)
    requires
        crate::codec::base64_fits(pcm@.len() as int),
    ensures
        r@ == crate::json::json_text(append_json(crate::codec::base64_encoded(pcm@))),
        crate::json::json_parsed(r@) == Some(
            append_json(crate::codec::base64_encoded(pcm@)),
        ),
        audio_in(r@) == Some(pcm@),
{
    proof {
        crate::codec::law_base64_comes_back(pcm@);
    }
    append_message(encode_base64(pcm).as_str())
}

/// Writes the message that hands on captured samples.
pub fn append_samples(samples: &[i16]) -> (r: String)
    requires
        crate::codec::base64_fits((2 * samples@.len()) as int),
    ensures
        r@ == crate::json::json_text(
            append_json(crate::codec::base64_encoded(crate::pcm::bytes_of(samples@))),
        ),
        crate::json::json_parsed(r@) == Some(
            append_json(crate::codec::base64_encoded(crate::pcm::bytes_of(samples@))),
        ),
        audio_in(r@) == Some(crate::pcm::bytes_of(samples@)),
        crate::pcm::samples_in(audio_in(r@)->0) == samples@,
{
    let pcm: Vec<u8> = samples_to_bytes(samples);
    proof {
        crate::pcm::law_samples_survive_bytes(samples@);
    }
    append_audio(pcm.as_slice())
}

/// What a message of the service is about.
#[derive(Clone, Copy, Debug, PartialEq, Eq, Structural)]
pub enum EventKind {
    Session,
    Audio,
    TranslatedDelta,
    TranslatedDone,
    SourceDelta,
    SourceDone,
    Error,
    Other,
}

/// What a message of the given type is about.
pub open spec fn kind_of(name: Seq<char>) -> EventKind {
    if name == "session.created"@ || name == "session.updated"@ {
        EventKind::Session
    } else if name == "session.output_audio.delta"@ || name == "response.output_audio.delta"@
        || name == "output_audio.delta"@ {
        EventKind::Audio
    } else if name == "session.output_transcript.delta"@ || name
        == "response.output_audio_transcript.delta"@ {
        EventKind::TranslatedDelta
    } else if name == "session.output_transcript.done"@ || name
        == "response.output_audio_transcript.done"@ {
        EventKind::TranslatedDone
    } else if name == "session.input_transcript.delta"@ || name
        == "conversation.item.input_audio_transcription.delta"@ {
        EventKind::SourceDelta
    } else if name == "session.input_transcript.completed"@ || name
        == "conversation.item.input_audio_transcription.completed"@ {
        EventKind::SourceDone
    } else if name == "error"@ {
        EventKind::Error
    } else {
        EventKind::Other
    }
}

/// A message of the service, as far as the library reads it.
#[derive(Debug)]
pub enum ServerEvent {
    /// The session was set up: the type of the message, the language and the model.
    Session { name: String, language: String, model: String },
    /// A piece of translated audio, in base64.
    Audio { delta: Option<String> },
    /// A piece of a transcript.
    Transcript { speech: Speech, delta: Option<String> },
    /// The end of a transcript, and for what was said its language.
    TranscriptDone { speech: Speech, spoken: Option<String> },
    /// An error of the service, as JSON.
    Error { detail: String },
    /// A message of any other type.
    Other { name: String },
}

/// The meaning of a [`ServerEvent`].
pub enum EventView {
    Session { name: Seq<char>, language: Seq<char>, model: Seq<char> },
    Audio { delta: Option<Seq<char>> },
    Transcript { speech: Speech, delta: Option<Seq<char>> },
    TranscriptDone { speech: Speech, spoken: Option<Seq<char>> },
    Error { detail: Seq<char> },
    Other { name: Seq<char> },
}

impl View for ServerEvent {
    type V = EventView;

    open spec fn view(&self) -> EventView {
        match self {
            ServerEvent::Session { name, language, model } => EventView::Session {
                name: name@,
                language: language@,
                model: model@,
            },
            ServerEvent::Audio { delta } => EventView::Audio {
                delta: crate::text::opt_view(*delta),
            },
            ServerEvent::Transcript { speech, delta } => EventView::Transcript {
                speech: *speech,
                delta: crate::text::opt_view(*delta),
            },
            ServerEvent::TranscriptDone { speech, spoken } => EventView::TranscriptDone {
                speech: *speech,
                spoken: crate::text::opt_view(*spoken),
            },
            ServerEvent::Error { detail } => EventView::Error { detail: detail@ },
            ServerEvent::Other { name } => EventView::Other { name: name@ },
        }
    }
}

/// A text, or a stand-in where there is none.
pub open spec fn text_or(text: Option<Seq<char>>, stand_in: Seq<char>) -> Seq<char> {
    match text {
        Some(inner) => inner,
        None => stand_in,
    }
}

/// Where a session message names its language.
pub open spec fn session_language_path() -> Seq<Seq<char>> {
    seq!["session"@, "audio"@, "output"@, "language"@]
}

/// Where a session message names its model.
pub open spec fn session_model_path() -> Seq<Seq<char>> {
    seq!["session"@, "model"@]
}

/// Where the end of a transcript names the language that was spoken.
pub open spec fn transcript_language_path() -> Seq<Seq<char>> {
    seq!["transcript"@, "language"@]
}

/// The text that a document holds at the end of a path of keys.
pub open spec fn text_at(json: JsonView, keys: Seq<Seq<char>>) -> Option<Seq<char>> {
    crate::json::text_of(crate::json::descend(json, keys))
}

/// The parts of a message that the library reads, each where the message has it.
#[derive(Debug)]
pub struct Fields {
    /// The type that the message gives itself.
    pub name: Option<String>,
    /// A piece of audio or of a transcript.
    pub delta: Option<String>,
    /// The language of the session.
    pub language: Option<String>,
    /// The model of the session.
    pub model: Option<String>,
    /// The language that was spoken.
    pub spoken: Option<String>,
    /// An error, as JSON.
    pub error: Option<String>,
}

/// The meaning of [`Fields`].
pub struct FieldsView {
    pub name: Option<Seq<char>>,
    pub delta: Option<Seq<char>>,
    pub language: Option<Seq<char>>,
    pub model: Option<Seq<char>>,
    pub spoken: Option<Seq<char>>,
    pub error: Option<Seq<char>>,
}

impl View for Fields {
    type V = FieldsView;

    open spec fn view(&self) -> FieldsView {
        FieldsView {
            name: crate::text::opt_view(self.name),
            delta: crate::text::opt_view(self.delta),
            language: crate::text::opt_view(self.language),
            model: crate::text::opt_view(self.model),
            spoken: crate::text::opt_view(self.spoken),
            error: crate::text::opt_view(self.error),
        }
    }
}

/// The parts of a message that the library reads.
pub open spec fn fields_of(json: JsonView) -> FieldsView {
    FieldsView {
        name: crate::json::text_of(crate::json::member(json, "type"@)),
        delta: crate::json::text_of(crate::json::member(json, "delta"@)),
        language: text_at(json, session_language_path()),
        model: text_at(json, session_model_path()),
        spoken: text_at(json, transcript_language_path()),
        error: match crate::json::member(json, "error"@) {
            Some(error) => Some(crate::json::json_text(error)),
            None => None,
        },
    }
}

/// What a message says, by its parts. A message without a type is of no type that is known.
pub open spec fn interpreted(fields: FieldsView) -> EventView {
    let name = text_or(fields.name, Seq::empty());
    let delta = fields.delta;
    match kind_of(name) {
        EventKind::Session => EventView::Session {
            name,
            language: text_or(fields.language, "?"@),
            model: text_or(fields.model, "?"@),
        },
        EventKind::Audio => EventView::Audio { delta },
        EventKind::TranslatedDelta => EventView::Transcript { speech: Speech::Translated, delta },
        EventKind::SourceDelta => EventView::Transcript { speech: Speech::Source, delta },
        EventKind::TranslatedDone => EventView::TranscriptDone {
            speech: Speech::Translated,
            spoken: None,
        },
        EventKind::SourceDone => EventView::TranscriptDone {
            speech: Speech::Source,
            spoken: fields.spoken,
        },
        EventKind::Error => EventView::Error { detail: text_or(fields.error, Seq::empty()) },
        EventKind::Other => EventView::Other { name },
    }
}

/// What a message says.
pub open spec fn event_of(json: JsonView) -> EventView {
    interpreted(fields_of(json))
}

/// Tells what a message of the given type is about.
pub fn classify(name: &str) -> (r: EventKind)
    ensures
        r == kind_of(name@),
{
    if same_text(name, "session.created") || same_text(name, "session.updated") {
        EventKind::Session
    } else if same_text(name, "session.output_audio.delta") || same_text(
        name,
        "response.output_audio.delta",
    ) || same_text(name, "output_audio.delta") {
        EventKind::Audio
    } else if same_text(name, "session.output_transcript.delta") || same_text(
        name,
        "response.output_audio_transcript.delta",
    ) {
        EventKind::TranslatedDelta
    } else if same_text(name, "session.output_transcript.done") || same_text(
        name,
        "response.output_audio_transcript.done",
    ) {
        EventKind::TranslatedDone
    } else if same_text(name, "session.input_transcript.delta") || same_text(
        name,
        "conversation.item.input_audio_transcription.delta",
    ) {
        EventKind::SourceDelta
    } else if same_text(name, "session.input_transcript.completed") || same_text(
        name,
        "conversation.item.input_audio_transcription.completed",
    ) {
        EventKind::SourceDone
    } else if same_text(name, "error") {
        EventKind::Error
    } else {
        EventKind::Other
    }
}

/// The text of the string that a pointer reaches.
fn pointer_str(value: &serde_json::Value, pointer: &str, Ghost(keys): Ghost<Seq<Seq<char>>>) -> (r:
    Option<String>)
    requires
        pointer@ == crate::json::pointer_text(keys),
        forall|i: int| 0 <= i < keys.len() ==> crate::json::plain_key(#[trigger] keys[i]),
    ensures
        crate::text::opt_view(r) == text_at(crate::json::json_of(*value), keys),
{
    match at_pointer(value, pointer) {
        Some(inner) => match as_text(inner) {
            Some(text) => Some(text.to_owned()),
            None => None,
        },
        None => None,
    }
}

/// The pointers that the library follows are made of plain keys.
proof fn lemma_pointers()
    ensures
        "/session/audio/output/language"@ == crate::json::pointer_text(session_language_path()),
        "/session/model"@ == crate::json::pointer_text(session_model_path()),
        "/transcript/language"@ == crate::json::pointer_text(transcript_language_path()),
        forall|i: int|
            0 <= i < 4 ==> crate::json::plain_key(#[trigger] session_language_path()[i]),
        forall|i: int| 0 <= i < 2 ==> crate::json::plain_key(#[trigger] session_model_path()[i]),
        forall|i: int|
            0 <= i < 2 ==> crate::json::plain_key(#[trigger] transcript_language_path()[i]),
{
    reveal_strlit("/session/audio/output/language");
    reveal_strlit("/session/model");
    reveal_strlit("/transcript/language");
    reveal_strlit("session");
    reveal_strlit("audio");
    reveal_strlit("output");
    reveal_strlit("language");
    reveal_strlit("model");
    reveal_strlit("transcript");
    reveal_with_fuel(crate::json::pointer_text, 5);
    let path = session_language_path();
    assert(path.skip(1) =~= seq!["audio"@, "output"@, "language"@]);
    assert(path.skip(1).skip(1) =~= seq!["output"@, "language"@]);
    assert(path.skip(1).skip(1).skip(1) =~= seq!["language"@]);
    assert(path.skip(1).skip(1).skip(1).skip(1) =~= Seq::empty());
    assert("/session/audio/output/language"@ =~= crate::json::pointer_text(path));
    let path = session_model_path();
    assert(path.skip(1) =~= seq!["model"@]);
    assert(path.skip(1).skip(1) =~= Seq::empty());
    assert("/session/model"@ =~= crate::json::pointer_text(path));
    let path = transcript_language_path();
    assert(path.skip(1) =~= seq!["language"@]);
    assert(path.skip(1).skip(1) =~= Seq::empty());
    assert("/transcript/language"@ =~= crate::json::pointer_text(path));
}

/// A text, or a stand-in where there is none.
fn or_text(text: Option<String>, stand_in: &str) -> (r: String)
    ensures
        r@ == text_or(crate::text::opt_view(text), stand_in@),
{
    match text {
        Some(inner) => inner,
        None => stand_in.to_owned(),
    }
}

/// Tells what a message says, by its parts.
pub fn interpret(fields: Fields) -> (r: ServerEvent)
    ensures
        r@ == interpreted(fields@),
{
    let name: String = or_text(fields.name, "");
    proof {
        reveal_strlit("");
        assert(""@ =~= Seq::empty());
    }
    match classify(name.as_str()) {
        EventKind::Session => ServerEvent::Session {
            name,
            language: or_text(fields.language, "?"),
            model: or_text(fields.model, "?"),
        },
        EventKind::Audio => ServerEvent::Audio { delta: fields.delta },
        EventKind::TranslatedDelta => ServerEvent::Transcript {
            speech: Speech::Translated,
            delta: fields.delta,
        },
        EventKind::SourceDelta => ServerEvent::Transcript {
            speech: Speech::Source,
            delta: fields.delta,
        },
        EventKind::TranslatedDone => ServerEvent::TranscriptDone {
            speech: Speech::Translated,
            spoken: None,
        },
        EventKind::SourceDone => ServerEvent::TranscriptDone {
            speech: Speech::Source,
            spoken: fields.spoken,
        },
        EventKind::Error => ServerEvent::Error { detail: or_text(fields.error, "") },
        EventKind::Other => ServerEvent::Other { name },
    }
}

/// Reads the parts of a message.
pub(crate) fn read_fields(value: &serde_json::Value) -> (r: Fields)
    ensures
        r@ == fields_of(crate::json::json_of(*value)),
{
    proof {
        lemma_pointers();
    }
    let error: Option<String> = match get_member(value, "error") {
        Some(inner) => Some(print_json(inner)),
        None => None,
    };
    Fields {
        name: member_text(value, "type"),
        delta: member_text(value, "delta"),
        language: pointer_str(
            value,
            "/session/audio/output/language",
            Ghost(session_language_path()),
        ),
        model: pointer_str(value, "/session/model", Ghost(session_model_path())),
        spoken: pointer_str(value, "/transcript/language", Ghost(transcript_language_path())),
        error,
    }
}

/// Reads a message of the service; `None` where it is no JSON.
pub fn read_event(text: &str) -> (r: Option<ServerEvent>)
    ensures
        match crate::json::json_parsed(text@) {
            Some(json) => r is Some && r->0@ == event_of(json),
            None => r is None,
        },
{
    match parse_json(text) {
        Ok(value) => Some(interpret(read_fields(&value))),
        Err(_) => None,
    }
}

/// A session that is asked to translate to a language names that language where a session
/// message of the service names its own.
pub proof fn law_request_names_its_language(language: Seq<char>)
    ensures
        text_at(session_update_json(language), session_language_path()) == Some(language),
{
    reveal_strlit("type");
    reveal_strlit("session");
    reveal_strlit("input");
    reveal_strlit("output");
    assert("type"@[0] != "session"@[0]);
    assert("input"@[0] != "output"@[0]);
    reveal_with_fuel(crate::json::descend, 5);
    let path = session_language_path();
    assert(path.skip(1) =~= seq!["audio"@, "output"@, "language"@]);
    assert(path.skip(1).skip(1) =~= seq!["output"@, "language"@]);
    assert(path.skip(1).skip(1).skip(1) =~= seq!["language"@]);
    assert(path.skip(1).skip(1).skip(1).skip(1) =~= Seq::empty());
}

/// How long the types are; two that are equally long and of different kinds differ all the same.
proof fn lemma_type_lengths()
    ensures
        "session.created"@.len() == 15,
        "session.updated"@.len() == 15,
        "session.output_audio.delta"@.len() == 26,
        "response.output_audio.delta"@.len() == 27,
        "output_audio.delta"@.len() == 18,
        "session.output_transcript.delta"@.len() == 31,
        "response.output_audio_transcript.delta"@.len() == 38,
        "session.output_transcript.done"@.len() == 30,
        "response.output_audio_transcript.done"@.len() == 37,
        "session.input_transcript.delta"@.len() == 30,
        "conversation.item.input_audio_transcription.delta"@.len() == 49,
        "session.input_transcript.completed"@.len() == 34,
        "conversation.item.input_audio_transcription.completed"@.len() == 53,
        "error"@.len() == 5,
        "session.output_transcript.done"@ != "session.input_transcript.delta"@,
{
    reveal_strlit("session.created");
    reveal_strlit("session.updated");
    reveal_strlit("session.output_audio.delta");
    reveal_strlit("response.output_audio.delta");
    reveal_strlit("output_audio.delta");
    reveal_strlit("session.output_transcript.delta");
    reveal_strlit("response.output_audio_transcript.delta");
    reveal_strlit("session.output_transcript.done");
    reveal_strlit("response.output_audio_transcript.done");
    reveal_strlit("session.input_transcript.delta");
    reveal_strlit("conversation.item.input_audio_transcription.delta");
    reveal_strlit("session.input_transcript.completed");
    reveal_strlit("conversation.item.input_audio_transcription.completed");
    reveal_strlit("error");
    assert("session.output_transcript.done"@[8] != "session.input_transcript.delta"@[8]);
}

/// What messages are about is told by fourteen types; any other type is of no kind that is known.
pub proof fn law_types_are_told_apart(name: Seq<char>)
    ensures
        kind_of("session.created"@) == EventKind::Session,
        kind_of("session.updated"@) == EventKind::Session,
        kind_of("session.output_audio.delta"@) == EventKind::Audio,
        kind_of("response.output_audio.delta"@) == EventKind::Audio,
        kind_of("output_audio.delta"@) == EventKind::Audio,
        kind_of("session.output_transcript.delta"@) == EventKind::TranslatedDelta,
        kind_of("response.output_audio_transcript.delta"@) == EventKind::TranslatedDelta,
        kind_of("session.output_transcript.done"@) == EventKind::TranslatedDone,
        kind_of("response.output_audio_transcript.done"@) == EventKind::TranslatedDone,
        kind_of("session.input_transcript.delta"@) == EventKind::SourceDelta,
        kind_of("conversation.item.input_audio_transcription.delta"@) == EventKind::SourceDelta,
        kind_of("session.input_transcript.completed"@) == EventKind::SourceDone,
        kind_of("conversation.item.input_audio_transcription.completed"@) == EventKind::SourceDone,
        kind_of("error"@) == EventKind::Error,
        !is_session_type(name) && !is_audio_type(name) && !is_translated_piece(name)
            && !is_translated_end(name) && !is_source_piece(name) && !is_source_end(name) && name
            != "error"@ ==> kind_of(name) == EventKind::Other,
{
    lemma_type_lengths();
}

/// The types of the messages that tell of the session.
pub open spec fn is_session_type(name: Seq<char>) -> bool {
    name == "session.created"@ || name == "session.updated"@
}

/// The types of the messages that bring audio.
pub open spec fn is_audio_type(name: Seq<char>) -> bool {
    name == "session.output_audio.delta"@ || name == "response.output_audio.delta"@ || name
        == "output_audio.delta"@
}

/// The types of the messages that bring a piece of the translation.
pub open spec fn is_translated_piece(name: Seq<char>) -> bool {
    name == "session.output_transcript.delta"@ || name == "response.output_audio_transcript.delta"@
}

/// The types of the messages that end a translation.
pub open spec fn is_translated_end(name: Seq<char>) -> bool {
    name == "session.output_transcript.done"@ || name == "response.output_audio_transcript.done"@
}

/// The types of the messages that bring a piece of what was said.
pub open spec fn is_source_piece(name: Seq<char>) -> bool {
    name == "session.input_transcript.delta"@ || name
        == "conversation.item.input_audio_transcription.delta"@
}

/// The types of the messages that end what was said.
pub open spec fn is_source_end(name: Seq<char>) -> bool {
    name == "session.input_transcript.completed"@ || name
        == "conversation.item.input_audio_transcription.completed"@
}

/// The text that an object has under a key, where it has one there.
pub open spec fn text_under(members: Map<Seq<char>, JsonView>, key: Seq<char>) -> Option<
    Seq<char>,
> {
    if members.contains_key(key) && members[key] is Text {
        Some(members[key]->Text_0)
    } else {
        None
    }
}

/// The members of the object that an object has under a key; none where it has no object there.
pub open spec fn object_under(members: Map<Seq<char>, JsonView>, key: Seq<char>) -> Map<
    Seq<char>,
    JsonView,
> {
    if members.contains_key(key) && members[key] is Object {
        members[key]->Object_0
    } else {
        Map::empty()
    }
}

/// Every message says what its type tells: a piece carries the message's `delta`, what was said
/// and what was translated are kept apart, a session message carries the language and the model
/// that it names, with `?` where it names none, the end of what was said its language, and an
/// error its detail as JSON.
pub proof fn law_messages_say_what_their_type_tells(members: Map<Seq<char>, JsonView>)
    ensures
        ({
            let event = event_of(JsonView::Object(members));
            let delta = text_under(members, "delta"@);
            let session = object_under(members, "session"@);
            let language = text_under(
                object_under(object_under(session, "audio"@), "output"@),
                "language"@,
            );
            match text_under(members, "type"@) {
                Some(name) => {
                    &&& is_audio_type(name) ==> event == (EventView::Audio { delta })
                    &&& is_translated_piece(name) ==> event == (EventView::Transcript {
                        speech: Speech::Translated,
                        delta,
                    })
                    &&& is_source_piece(name) ==> event == (EventView::Transcript {
                        speech: Speech::Source,
                        delta,
                    })
                    &&& is_translated_end(name) ==> event == (EventView::TranscriptDone {
                        speech: Speech::Translated,
                        spoken: None,
                    })
                    &&& is_source_end(name) ==> event == (EventView::TranscriptDone {
                        speech: Speech::Source,
                        spoken: text_under(object_under(members, "transcript"@), "language"@),
                    })
                    &&& is_session_type(name) ==> event == (EventView::Session {
                        name,
                        language: if language is Some { language->0 } else { "?"@ },
                        model: if text_under(session, "model"@) is Some {
                            text_under(session, "model"@)->0
                        } else {
                            "?"@
                        },
                    })
                    &&& name == "error"@ && members.contains_key("error"@) ==> event == (
                    EventView::Error { detail: crate::json::json_text(members["error"@]) })
                    &&& name == "error"@ && !members.contains_key("error"@) ==> event == (
                    EventView::Error { detail: Seq::empty() })
                    &&& !is_session_type(name) && !is_audio_type(name) && !is_translated_piece(name)
                        && !is_translated_end(name) && !is_source_piece(name) && !is_source_end(
                        name,
                    ) && name != "error"@ ==> event == (EventView::Other { name })
                },
                None => event == (EventView::Other { name: Seq::empty() }),
            }
        }),
{
    let json = JsonView::Object(members);
    let name = text_or(fields_of(json).name, Seq::empty());
    law_types_are_told_apart(name);
    lemma_paths(json);
    lemma_type_lengths();
}

/// Where the paths of a message lead.
proof fn lemma_paths(json: JsonView)
    requires
        json is Object,
    ensures
        ({
            let members = json->Object_0;
            let session = object_under(members, "session"@);
            &&& text_at(json, session_language_path()) == text_under(
                object_under(object_under(session, "audio"@), "output"@),
                "language"@,
            )
            &&& text_at(json, session_model_path()) == text_under(session, "model"@)
            &&& text_at(json, transcript_language_path()) == text_under(
                object_under(members, "transcript"@),
                "language"@,
            )
        }),
{
    reveal_with_fuel(crate::json::descend, 5);
    let path = session_language_path();
    assert(path.skip(1) =~= seq!["audio"@, "output"@, "language"@]);
    assert(path.skip(1).skip(1) =~= seq!["output"@, "language"@]);
    assert(path.skip(1).skip(1).skip(1) =~= seq!["language"@]);
    assert(path.skip(1).skip(1).skip(1).skip(1) =~= Seq::empty());
    let path = session_model_path();
    assert(path.skip(1) =~= seq!["model"@]);
    assert(path.skip(1).skip(1) =~= Seq::empty());
    let path = transcript_language_path();
    assert(path.skip(1) =~= seq!["language"@]);
    assert(path.skip(1).skip(1) =~= Seq::empty());
}

/// The request for a session is of its type, asks for the language and for nothing but it in the
/// output, and asks for a transcript and for noise reduction in the input.
pub proof fn law_request_asks_for_the_session(language: Seq<char>)
    ensures
        session_update_json(language) is Object,
        ({
            let members = session_update_json(language)->Object_0;
            let audio = object_under(object_under(members, "session"@), "audio"@);
            let input = object_under(audio, "input"@);
            &&& text_under(members, "type"@) == Some("session.update"@)
            &&& object_under(audio, "output"@) == map!["language"@ => JsonView::Text(language)]
            &&& text_under(object_under(input, "transcription"@), "model"@) == Some(
                "gpt-realtime-whisper"@,
            )
            &&& text_under(object_under(input, "noise_reduction"@), "type"@) == Some("near_field"@)
        }),
{
    reveal_strlit("type");
    reveal_strlit("session");
    reveal_strlit("input");
    reveal_strlit("output");
    reveal_strlit("transcription");
    reveal_strlit("noise_reduction");
    assert("type"@[0] != "session"@[0]);
    assert("input"@[0] != "output"@[0]);
    assert("transcription"@[0] != "noise_reduction"@[0]);
}

/// The message that hands on audio is of its type and carries that audio, and nothing else.
pub proof fn law_appended_audio_is_carried(audio: Seq<char>)
    ensures
        append_json(audio) is Object,
        ({
            let members = append_json(audio)->Object_0;
            &&& text_under(members, "type"@) == Some("session.input_audio_buffer.append"@)
            &&& text_under(members, "audio"@) == Some(audio)
            &&& forall|key: Seq<char>|
                #[trigger] members.contains_key(key) ==> key == "type"@ || key == "audio"@
        }),
{
    reveal_strlit("type");
    reveal_strlit("audio");
    assert("type"@[0] != "audio"@[0]);
}

/// A JSON text that is no object is a message of no type that is known.
pub proof fn law_untyped_messages_are_unknown(json: JsonView)
    requires
        !(json is Object),
    ensures
        event_of(json) == (EventView::Other { name: Seq::empty() }),
{
    lemma_type_lengths();
}

} // verus!
