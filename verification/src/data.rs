use vstd::prelude::*;

verus! {

/// Model identifiers offered by the text-generation vendor.
#[derive(Clone, Copy, PartialEq, Eq, Structural, Debug)]
pub enum OpenAiModel {
    Gpt4o,
}

/// Model identifiers offered by the reasoning-chat vendor.
#[derive(Clone, Copy, PartialEq, Eq, Structural, Debug)]
pub enum AnthropicModel {
    Claude35Sonnet,
}

/// Provider/model selector: a closed set of vendors, each with an
/// enumerated set of models, chosen per call.
#[derive(Clone, Copy, PartialEq, Eq, Structural, Debug)]
pub enum Api {
    OpenAi(OpenAiModel),
    Anthropic(AnthropicModel),
}

/// Role of one conversational message.
#[derive(Clone, Copy, PartialEq, Eq, Structural, Debug)]
pub enum MessageType {
    System,
    User,
    Assistant,
}

/// One conversational message addressed to a provider.
pub struct Message {
    pub message_type: MessageType,
    pub content: String,
    pub api: Api,
    pub system_prompt: String,
}

/// Input of the memo-extraction operation.
pub struct MemoRequest {
    pub memo: String,
    pub genres: String,
}

/// Output of the memo-extraction operation. Either the success fields or
/// `error` is populated, never both.
#[derive(Debug, Clone, PartialEq)]
pub struct Response {
    pub emoji: Option<String>,
    pub name: Option<String>,
    pub duration: Option<u32>,
    pub error: Option<String>,
}

/// One extracted activity record, as the weekly operation receives it.
#[derive(Debug, Clone)]
pub struct Memo {
    pub genre: String,
    pub name: String,
    pub duration: u32,
    pub memo: String,
}

/// Input of the weekly-report operation.
pub struct WeeklyRequest {
    pub memos: Vec<Memo>,
}

/// Output of the weekly-report operation.
#[derive(Debug, Clone, PartialEq)]
pub struct WeeklyResponse {
    pub content: Option<String>,
    pub error: Option<String>,
}

/// Spec-level image of a `Memo`.
pub ghost struct MemoView {
    pub genre: Seq<char>,
    pub name: Seq<char>,
    pub duration: u32,
    pub memo: Seq<char>,
}

impl View for Memo {
    type V = MemoView;

    open spec fn view(&self) -> MemoView {
        MemoView {
            genre: self.genre@,
            name: self.name@,
            duration: self.duration,
            memo: self.memo@,
        }
    }
}

impl View for WeeklyRequest {
    type V = Seq<MemoView>;

    open spec fn view(&self) -> Seq<MemoView> {
        self.memos@.map_values(|m: Memo| m@)
    }
}

/// Spec-level view of an optional owned string.
pub open spec fn opt_view(o: Option<String>) -> Option<Seq<char>> {
    match o {
        Some(s) => Some(s@),
        None => None,
    }
}

} // verus!
