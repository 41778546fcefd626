use vstd::prelude::*;
use crate::data::{
    AnthropicModel, Api, Message, MessageType, MemoRequest, MemoView, OpenAiModel, Response,
    WeeklyRequest, WeeklyResponse, opt_view,
};
use crate::digits::spec_u32_dec;
use crate::parse::{parse_extraction, spec_parse_extraction};
use crate::prompt::{build_memo_prompt, build_weekly_prompt, spec_memo_prompt, spec_weekly_prompt};
use crate::serial::{
    lemma_memo_json_embeds, lemma_weekly_json_contains, serialize_weekly, spec_memo_json,
    spec_weekly_json, unescaped,
};
use crate::text::{contains_seq, lemma_contains_in_middle, lemma_contains_trans};

verus! {

/// A fully planned provider call: the chosen provider/model, an empty
/// system prompt, and the single user message carrying the instruction
/// text.
pub struct ProviderCall {
    pub api: Api,
    pub system_prompt: String,
    pub messages: Vec<Message>,
}

/// What the memo-extraction operation decides before any provider work:
/// either reject the request outright, or make exactly this call.
pub enum MemoPlan {
    Reject(Response),
    Call(ProviderCall),
}

/// The planned call consists of one user message carrying `prompt`,
/// addressed to `api`, with no system prompt anywhere.
pub open spec fn call_shape(c: ProviderCall, api: Api, prompt: Seq<char>) -> bool {
    &&& c.api == api
    &&& c.system_prompt@ == Seq::<char>::empty()
    &&& c.messages@.len() == 1
    &&& c.messages@[0].message_type == MessageType::User
    &&& c.messages@[0].content@ == prompt
    &&& c.messages@[0].api == api
    &&& c.messages@[0].system_prompt@ == Seq::<char>::empty()
}

/// A response whose only populated field is `error`, holding `msg`.
pub open spec fn error_response(r: Response, msg: Seq<char>) -> bool {
    &&& r.emoji is None
    &&& r.name is None
    &&& r.duration is None
    &&& opt_view(r.error) == Some(msg)
}

fn make_call(api: Api, prompt: String) -> (c: ProviderCall)
    ensures
        call_shape(c, api, prompt@),
{
    let mut messages: Vec<Message> = Vec::new();
    messages.push(
        Message {
            message_type: MessageType::User,
            content: prompt,
            api,
            system_prompt: String::new(),
        },
    );
    ProviderCall { api, system_prompt: String::new(), messages }
}

/// Validate a memo-extraction request. An empty memo is rejected before
/// any provider work; otherwise the one provider call is planned: the
/// text-generation vendor's flagship model, and the extraction
/// instruction text built over the memo and the genre history.
pub fn plan_memo(req: &MemoRequest) -> (p: MemoPlan)
    ensures
        req.memo@.len() == 0 ==> (p matches MemoPlan::Reject(r) && error_response(
            r,
            "No activity memo provided"@,
        )),
        req.memo@.len() != 0 ==> (p matches MemoPlan::Call(c) && call_shape(
            c,
            Api::OpenAi(OpenAiModel::Gpt4o),
            spec_memo_prompt(req.memo@, req.genres@),
        )),
{
    if req.memo.as_str().is_empty() {
        MemoPlan::Reject(
            Response {
                emoji: None,
                name: None,
                duration: None,
                error: Some("No activity memo provided".to_owned()),
            },
        )
    } else {
        let prompt = build_memo_prompt(req.memo.as_str(), req.genres.as_str());
        MemoPlan::Call(make_call(Api::OpenAi(OpenAiModel::Gpt4o), prompt))
    }
}

/// Map the outcome of the planned extraction call to the operation's
/// response. A provider failure carries its message; a reply outside
/// the expected schema yields the fixed malformed-reply message; a
/// reply inside it populates exactly the fields it holds.
pub fn conclude_memo(outcome: Result<String, String>) -> (r: Response)
    ensures
        outcome matches Err(m) ==> error_response(r, m@),
        outcome matches Ok(raw) ==> match spec_parse_extraction(raw@) {
            Some(f) => {
                &&& opt_view(r.name) == f.name
                &&& opt_view(r.emoji) == f.emoji
                &&& r.duration == f.duration
                &&& r.error is None
            },
            None => error_response(r, "Provider reply was not the expected JSON schema"@),
        },
{
    match outcome {
        Err(m) => Response { emoji: None, name: None, duration: None, error: Some(m) },
        Ok(raw) => match parse_extraction(raw.as_str()) {
            Some(f) => Response {
                emoji: f.emoji,
                name: f.name,
                duration: f.duration,
                error: None,
            },
            None => Response {
                emoji: None,
                name: None,
                duration: None,
                error: Some("Provider reply was not the expected JSON schema".to_owned()),
            },
        },
    }
}

/// Plan the weekly-report call: serialize the batch, and address the
/// reasoning-chat vendor's latest model with the report instruction
/// text built around it. Serialization is total, so no request is
/// rejected here.
pub fn plan_weekly(req: &WeeklyRequest) -> (c: ProviderCall)
    ensures
        call_shape(
            c,
            Api::Anthropic(AnthropicModel::Claude35Sonnet),
            spec_weekly_prompt(spec_weekly_json(req@)),
        ),
{
    let body = serialize_weekly(req);
    let prompt = build_weekly_prompt(body.as_str());
    make_call(Api::Anthropic(AnthropicModel::Claude35Sonnet), prompt)
}

/// Round trip of the weekly pipeline: serializing a request and
/// feeding it to the prompt builder embeds every record's genre, name
/// and memo text verbatim in the resulting instruction text, and its
/// duration as that number's decimal text — provided the texts hold no
/// character that the JSON string escape rewrites.
pub proof fn lemma_weekly_prompt_embeds_memo(ms: Seq<MemoView>, k: int)
    requires
        0 <= k < ms.len(),
        unescaped(ms[k].genre),
        unescaped(ms[k].name),
        unescaped(ms[k].memo),
    ensures
        contains_seq(spec_weekly_prompt(spec_weekly_json(ms)), ms[k].genre),
        contains_seq(spec_weekly_prompt(spec_weekly_json(ms)), ms[k].name),
        contains_seq(spec_weekly_prompt(spec_weekly_json(ms)), spec_u32_dec(ms[k].duration as int)),
        contains_seq(spec_weekly_prompt(spec_weekly_json(ms)), ms[k].memo),
{
    let body = spec_weekly_json(ms);
    let whole = spec_weekly_prompt(body);
    lemma_weekly_json_contains(ms, k);
    lemma_contains_in_middle(
        "Take the following activity memos and generate a friendly report recounting the user's activities over the past week:\n\n'"@,
        body,
        "'\n\nBe especially attentive to any latent needs or deficiencies, or abject successes or achievements. Also, be familiar--don't be professionally distant!"@,
        spec_memo_json(ms[k]),
    );
    lemma_memo_json_embeds(ms[k]);
    lemma_contains_trans(whole, spec_memo_json(ms[k]), ms[k].genre);
    lemma_contains_trans(whole, spec_memo_json(ms[k]), ms[k].name);
    lemma_contains_trans(whole, spec_memo_json(ms[k]), spec_u32_dec(ms[k].duration as int));
    lemma_contains_trans(whole, spec_memo_json(ms[k]), ms[k].memo);
}

/// Map the outcome of the weekly call to the operation's response: the
/// raw reply is itself the narrative, and a provider failure carries
/// its message.
pub fn conclude_weekly(outcome: Result<String, String>) -> (r: WeeklyResponse)
    ensures
        outcome matches Ok(t) ==> opt_view(r.content) == Some(t@) && r.error is None,
        outcome matches Err(m) ==> r.content is None && opt_view(r.error) == Some(m@),
{
    match outcome {
        Ok(t) => WeeklyResponse { content: Some(t), error: None },
        Err(m) => WeeklyResponse { content: None, error: Some(m) },
    }
}

} // verus!
