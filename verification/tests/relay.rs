use chat_relay::config::{
    gateway_capabilities, startup_config, BotConfig, Capability, ConfigError,
};
use chat_relay::model::{ChatMessage, Choice, FetchRequest, OutboundMessage, PromptEntry, Role};
use chat_relay::outbound::{
    after_send, initial_action, outbound_plan, SendFollowUp, HISTORY_FETCH_LIMIT,
};
use chat_relay::prompt::{build_prompt, build_request, persona_instruction, prompt_entry, role_for};

const PERSONA: &str = "あなたはマメゾンボヌールの使用人です。「でやんす」や「やんす」が語尾に付くような話し方をしてください。";

fn message(author_is_bot: bool, content: &str, channel_id: u64) -> ChatMessage {
    ChatMessage { author_is_bot, content: content.to_string(), channel_id }
}

fn entries_equal(a: &PromptEntry, b: &PromptEntry) -> bool {
    a.role == b.role && a.content == b.content
}

#[test]
fn persona_is_the_fixed_instruction() {
    assert_eq!(persona_instruction(), PERSONA);
}

#[test]
fn prompt_first_entry_is_persona_system_entry() {
    let history = vec![
        message(true, "いらっしゃいませでやんす", 5),
        message(false, "こんにちは", 5),
    ];
    let prompt = build_prompt(&history);
    assert_eq!(prompt[0].role, Role::System);
    assert_eq!(prompt[0].content, PERSONA);
}

#[test]
fn prompt_has_one_entry_per_history_item_for_all_window_sizes() {
    for n in 0..=HISTORY_FETCH_LIMIT as usize {
        let history: Vec<ChatMessage> =
            (0..n).map(|i| message(i % 2 == 0, &format!("m{}", i), 9)).collect();
        let prompt = build_prompt(&history);
        assert_eq!(prompt.len(), n + 1);
        assert!(prompt[1..].iter().all(|e| e.role != Role::System));
        for i in 0..n {
            let expected_role = if history[i].author_is_bot { Role::Assistant } else { Role::User };
            assert_eq!(prompt[i + 1].role, expected_role);
            assert_eq!(prompt[i + 1].content, history[i].content);
        }
    }
}

#[test]
fn role_mapping_depends_only_on_author_flag() {
    assert_eq!(role_for(true), Role::Assistant);
    assert_eq!(role_for(false), Role::User);
    let empty_bot = prompt_entry(&message(true, "", 1));
    assert_eq!(empty_bot.role, Role::Assistant);
    assert_eq!(empty_bot.content, "");
    let empty_user = prompt_entry(&message(false, "", 1));
    assert_eq!(empty_user.role, Role::User);
    assert_eq!(empty_user.content, "");
}

#[test]
fn prompt_construction_is_idempotent() {
    let history = vec![
        message(false, "ご飯はまだ?", 2),
        message(true, "もうすぐでやんす", 2),
        message(false, "", 2),
    ];
    let first = build_prompt(&history);
    let second = build_prompt(&history);
    assert_eq!(first.len(), second.len());
    for (a, b) in first.iter().zip(second.iter()) {
        assert!(entries_equal(a, b));
    }
    let choices = vec![Choice { content: Some("はいでやんす".to_string()) }];
    let plan_a = outbound_plan(2, &choices);
    let plan_b = outbound_plan(2, &choices);
    assert_eq!(plan_a.len(), plan_b.len());
    assert_eq!(plan_a[0].content, plan_b[0].content);
    assert_eq!(plan_a[0].channel_id, plan_b[0].channel_id);
}

#[test]
fn scenario_hello_with_single_choice_reply() {
    let channel: u64 = 42;
    let inbound = message(false, "Hello", channel);
    let fetch = initial_action(&inbound).expect("a non-agent message starts a response");
    assert_eq!(fetch, FetchRequest { channel_id: channel, limit: 8 });

    // The platform returns the triggering message as the whole window.
    let history = vec![message(false, "Hello", channel)];
    let request = build_request(&history);
    assert_eq!(request.model, "gpt-3.5-turbo");
    assert_eq!(request.entries.len(), 2);
    assert_eq!(request.entries[0].role, Role::System);
    assert_eq!(request.entries[0].content, PERSONA);
    assert_eq!(request.entries[1].role, Role::User);
    assert_eq!(request.entries[1].content, "Hello");

    let choices = vec![Choice { content: Some("こんにちでやんす".to_string()) }];
    let plan = outbound_plan(fetch.channel_id, &choices);
    assert_eq!(plan.len(), 1);
    assert_eq!(plan[0].channel_id, channel);
    assert_eq!(plan[0].content, "こんにちでやんす");
}

#[test]
fn scenario_agent_author_is_discarded() {
    let inbound = message(true, "beep", 7);
    assert!(initial_action(&inbound).is_none());
}

#[test]
fn scenario_two_choices_give_two_sends_in_order() {
    let choices = vec![
        Choice { content: Some("一つ目でやんす".to_string()) },
        Choice { content: Some("二つ目でやんす".to_string()) },
    ];
    let plan = outbound_plan(3, &choices);
    assert_eq!(plan.len(), 2);
    assert_eq!(plan[0].content, "一つ目でやんす");
    assert_eq!(plan[1].content, "二つ目でやんす");
    assert_eq!(plan[0].channel_id, 3);
    assert_eq!(plan[1].channel_id, 3);
}

#[test]
fn scenario_failed_first_send_is_logged_and_second_still_sent() {
    let choices = vec![
        Choice { content: Some("一つ目でやんす".to_string()) },
        Choice { content: Some("二つ目でやんす".to_string()) },
    ];
    let plan = outbound_plan(3, &choices);
    let deliveries = [false, true];
    let mut sent: Vec<&OutboundMessage> = Vec::new();
    let mut errors_logged = 0;
    for (outbound, delivered) in plan.iter().zip(deliveries.iter()) {
        match after_send(*delivered) {
            SendFollowUp::Continue { log_error } => {
                if log_error {
                    errors_logged += 1;
                }
                sent.push(outbound);
            }
            SendFollowUp::Abort => break,
        }
    }
    assert_eq!(errors_logged, 1);
    assert_eq!(sent.len(), 2);
    assert_eq!(sent[1].content, "二つ目でやんす");
}

#[test]
fn choice_without_content_is_skipped() {
    let choices = vec![
        Choice { content: Some("前でやんす".to_string()) },
        Choice { content: None },
        Choice { content: Some("後でやんす".to_string()) },
    ];
    let plan = outbound_plan(11, &choices);
    assert_eq!(plan.len(), 2);
    assert_eq!(plan[0].content, "前でやんす");
    assert_eq!(plan[1].content, "後でやんす");
}

#[test]
fn empty_response_sends_nothing() {
    let plan = outbound_plan(11, &Vec::new());
    assert!(plan.is_empty());
}

#[test]
fn startup_fails_without_discord_token() {
    let r = startup_config(None, Some("key".to_string()));
    assert_eq!(r.err(), Some(ConfigError::MissingDiscordToken));
    assert_eq!(
        ConfigError::MissingDiscordToken.message(),
        "'DISCORD_TOKEN' was not found"
    );
}

#[test]
fn startup_fails_without_openai_key() {
    let r = startup_config(Some("token".to_string()), None);
    assert_eq!(r.err(), Some(ConfigError::MissingOpenAiKey));
    assert_eq!(ConfigError::MissingOpenAiKey.message(), "'OPENAI_KEY' was not found");
}

#[test]
fn startup_succeeds_with_both_secrets() {
    let r = startup_config(Some("token".to_string()), Some("key".to_string()));
    let config: BotConfig = r.ok().expect("both secrets are present");
    assert_eq!(config.discord_token, "token");
    assert_eq!(config.openai_key, "key");
}

#[test]
fn gateway_declares_three_capabilities() {
    let caps = gateway_capabilities();
    assert_eq!(
        caps,
        vec![
            Capability::GuildMessages,
            Capability::MessageContent,
            Capability::DirectMessages,
        ]
    );
}
