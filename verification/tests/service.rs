use memocore::data::{Api, AnthropicModel, Memo, MemoRequest, MessageType, OpenAiModel, WeeklyRequest};
use memocore::latch::SlotLatch;
use memocore::handlers::{conclude_memo, conclude_weekly, plan_memo, plan_weekly, MemoPlan};

fn memo_request(memo: &str, genres: &str) -> MemoRequest {
    MemoRequest { memo: memo.to_string(), genres: genres.to_string() }
}

#[test]
fn empty_memo_rejected_without_provider_call() {
    let mut provider_calls = 0;
    let plan = plan_memo(&memo_request("", "🏃"));
    match plan {
        MemoPlan::Reject(r) => {
            assert_eq!(r.error.as_deref(), Some("No activity memo provided"));
            assert_eq!(r.emoji, None);
            assert_eq!(r.name, None);
            assert_eq!(r.duration, None);
        }
        MemoPlan::Call(_) => {
            provider_calls += 1;
            panic!("an empty memo must not reach the provider");
        }
    }
    assert_eq!(provider_calls, 0);
}

#[test]
fn extraction_call_is_planned_for_openai() {
    let plan = plan_memo(&memo_request("went for a 30 minute jog", "🏃,🚴"));
    match plan {
        MemoPlan::Reject(_) => panic!("a non-empty memo must be forwarded"),
        MemoPlan::Call(c) => {
            assert_eq!(c.api, Api::OpenAi(OpenAiModel::Gpt4o));
            assert_eq!(c.system_prompt, "");
            assert_eq!(c.messages.len(), 1);
            let m = &c.messages[0];
            assert_eq!(m.message_type, MessageType::User);
            assert_eq!(m.api, Api::OpenAi(OpenAiModel::Gpt4o));
            assert_eq!(m.system_prompt, "");
            assert!(m.content.contains("went for a 30 minute jog"));
            assert!(m.content.contains("🏃,🚴"));
            assert!(m.content.contains(
                "Schema: {\"name\": string, \"emoji\": string, \"duration\": integer}"
            ));
            assert!(m.content.contains("_Nothing other than JSON should be in your response_"));
        }
    }
}

#[test]
fn extraction_success_scenario() {
    let reply = "{\"name\":\"Jog\",\"emoji\":\"🏃\",\"duration\":30}";
    let r = conclude_memo(Ok(reply.to_string()));
    assert_eq!(r.name.as_deref(), Some("Jog"));
    assert_eq!(r.emoji.as_deref(), Some("🏃"));
    assert_eq!(r.duration, Some(30));
    assert_eq!(r.error, None);
}

#[test]
fn extraction_success_with_valid_schema_json() {
    let reply = " {\n  \"name\": \"Ride\",\n  \"emoji\": \"🚴\",\n  \"duration\": 45\n} ";
    let r = conclude_memo(Ok(reply.to_string()));
    assert_eq!(r.name.as_deref(), Some("Ride"));
    assert_eq!(r.emoji.as_deref(), Some("🚴"));
    assert_eq!(r.duration, Some(45));
    assert_eq!(r.error, None);
}

#[test]
fn malformed_reply_sets_error() {
    let r = conclude_memo(Ok("I went ahead and picked a schema for you!".to_string()));
    assert_eq!(r.error.as_deref(), Some("Provider reply was not the expected JSON schema"));
    assert_eq!(r.emoji, None);
    assert_eq!(r.name, None);
    assert_eq!(r.duration, None);
}

#[test]
fn schema_mismatch_sets_error() {
    let r = conclude_memo(Ok("{\"name\":3}".to_string()));
    assert!(r.error.is_some());
    assert_eq!(r.name, None);
    let r = conclude_memo(Ok("```json\n{\"name\":\"Jog\"}\n```".to_string()));
    assert!(r.error.is_some());
    assert_eq!(r.name, None);
}

#[test]
fn provider_error_carries_message() {
    let r = conclude_memo(Err("provider returned status 429".to_string()));
    assert_eq!(r.error.as_deref(), Some("provider returned status 429"));
    assert_eq!(r.emoji, None);
    assert_eq!(r.name, None);
    assert_eq!(r.duration, None);
}

#[test]
fn weekly_report_scenario() {
    let req = WeeklyRequest {
        memos: vec![Memo {
            genre: "🏃".to_string(),
            name: "Jog".to_string(),
            duration: 30,
            memo: "jogged".to_string(),
        }],
    };
    let c = plan_weekly(&req);
    assert_eq!(c.api, Api::Anthropic(AnthropicModel::Claude35Sonnet));
    assert_eq!(c.system_prompt, "");
    assert_eq!(c.messages.len(), 1);
    let m = &c.messages[0];
    assert_eq!(m.message_type, MessageType::User);
    assert!(m.content.contains("generate a friendly report"));
    assert!(m.content.contains("🏃"));
    assert!(m.content.contains("Jog"));
    assert!(m.content.contains("30"));
    assert!(m.content.contains("jogged"));

    let narrative = "What a week of jogging!";
    let r = conclude_weekly(Ok(narrative.to_string()));
    assert_eq!(r.content.as_deref(), Some(narrative));
    assert_eq!(r.error, None);
}

#[test]
fn weekly_provider_error_carries_message() {
    let r = conclude_weekly(Err("network transport failed".to_string()));
    assert_eq!(r.content, None);
    assert_eq!(r.error.as_deref(), Some("network transport failed"));
}

#[test]
fn weekly_prompt_embeds_every_memo_field() {
    let req = WeeklyRequest {
        memos: vec![
            Memo {
                genre: "🏃".to_string(),
                name: "Jog".to_string(),
                duration: 30,
                memo: "an easy morning run".to_string(),
            },
            Memo {
                genre: "🚴".to_string(),
                name: "Ride".to_string(),
                duration: 95,
                memo: "long hill loop".to_string(),
            },
        ],
    };
    let c = plan_weekly(&req);
    let text = &c.messages[0].content;
    for m in &req.memos {
        assert!(text.contains(&m.genre));
        assert!(text.contains(&m.name));
        assert!(text.contains(&m.duration.to_string()));
        assert!(text.contains(&m.memo));
    }
}

#[test]
fn latch_admits_one_holder_at_a_time() {
    let mut g = SlotLatch::new();
    assert!(g.try_acquire());
    assert!(!g.try_acquire());
    assert!(!g.try_acquire());
    g.release();
    assert!(g.try_acquire());
    g.release();
}
