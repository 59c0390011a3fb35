use digmbot::llm::{
    finish_reply, fill_system_prompt, pack, ChatMessageRole, LlmChatRequest, LlmError, LlmSettings,
    TOO_LONG_REPLY,
};
use digmbot::volatile_state::HistoryEntry;

fn entry(author_id: u64, name: &str, content: &str) -> HistoryEntry {
    HistoryEntry {
        author_id,
        author_name: name.to_string(),
        human_format_content: content.to_string(),
    }
}

fn settings(system: &str, budget: usize) -> LlmSettings {
    LlmSettings {
        model_name: "llama".to_string(),
        system: system.to_string(),
        context_size: budget,
    }
}

const BOT: u64 = 99;

#[test]
fn empty_history_is_an_error() {
    let r = LlmChatRequest::from_recent_history(&Vec::new(), &settings("x", 100), BOT, "bot");
    assert!(matches!(r, Err(LlmError::NoHistory)));
}

#[test]
fn system_message_first_then_chronological() {
    let history = vec![
        entry(1, "alice", "hi"),
        entry(BOT, "bot", "hello alice"),
        entry(2, "bob", "yo"),
    ];
    let req = LlmChatRequest::from_recent_history(
        &history,
        &settings("I am {{bot}}, talking to {{user}}.", 1000),
        BOT,
        "Digm",
    )
    .unwrap();
    assert_eq!(req.model, "llama");
    assert!(!req.stream);
    assert_eq!(req.num_ctx, 1000);
    let m = &req.messages;
    assert_eq!(m.len(), 4);
    assert_eq!(m[0].role, ChatMessageRole::System);
    assert_eq!(m[0].content, "I am Digm, talking to bob.");
    assert_eq!(m[1].role, ChatMessageRole::User);
    assert_eq!(m[1].content, "alice: hi");
    assert_eq!(m[2].role, ChatMessageRole::Assistant);
    assert_eq!(m[2].content, "hello alice");
    assert_eq!(m[3].role, ChatMessageRole::User);
    assert_eq!(m[3].content, "bob: yo");
    assert!(m[1..].iter().all(|x| x.role != ChatMessageRole::System));
}

#[test]
fn placeholders_replaced_everywhere() {
    assert_eq!(
        fill_system_prompt("{{bot}}/{{bot}}/{{user}}{{user}}", "B", "U"),
        "B/B/UU"
    );
    assert_eq!(fill_system_prompt("no placeholders", "B", "U"), "no placeholders");
}

#[test]
fn budget_drops_oldest_first() {
    // Each rendered user message "u: xxxxxxxx" is 11 bytes; the system message is 3 bytes.
    let history: Vec<HistoryEntry> = (0..10).map(|i| entry(1, "u", &format!("xxxxxxx{}", i))).collect();
    // Budget 10 tokens = up to 32 bytes in all: 3 + 11 + 11 = 25 fits, a third makes 36.
    let messages = pack(&history, "sys".to_string(), BOT, 10);
    assert_eq!(messages.len(), 3);
    assert_eq!(messages[0].content, "sys");
    assert_eq!(messages[1].content, "u: xxxxxxx8");
    assert_eq!(messages[2].content, "u: xxxxxxx9");
    let total: usize = 3 + history.iter().map(|e| e.author_name.len() + 2 + e.human_format_content.len()).sum::<usize>();
    assert!(total > 3 * 10);
}

#[test]
fn budget_stop_is_exact_at_the_boundary() {
    // 3 + 11 + 11 + 11 = 36 bytes: 36 / 3 = 12 fits a budget of 12, not of 11.
    let history: Vec<HistoryEntry> = (0..3).map(|i| entry(1, "u", &format!("xxxxxxx{}", i))).collect();
    assert_eq!(pack(&history, "sys".to_string(), BOT, 12).len(), 4);
    assert_eq!(pack(&history, "sys".to_string(), BOT, 11).len(), 3);
}

#[test]
fn oversized_system_prompt_keeps_only_system() {
    let history = vec![entry(1, "u", "a")];
    let messages = pack(&history, "a long system prompt".to_string(), BOT, 1);
    assert_eq!(messages.len(), 1);
    assert_eq!(messages[0].role, ChatMessageRole::System);
}

#[test]
fn sizes_count_utf8_bytes() {
    // "é" is two bytes: "u: éé" is 7 bytes, so 3 + 7 = 10 bytes, 10 / 3 = 3 tokens.
    let history = vec![entry(1, "u", "éé")];
    assert_eq!(pack(&history, "sys".to_string(), BOT, 3).len(), 2);
    assert_eq!(pack(&history, "sys".to_string(), BOT, 2).len(), 1);
}

#[test]
fn long_replies_are_replaced() {
    assert_eq!(finish_reply("short".to_string()), "short");
    assert_eq!(finish_reply("a".repeat(1899)), "a".repeat(1899));
    assert_eq!(finish_reply("a".repeat(1900)), TOO_LONG_REPLY);
    // 950 two-byte characters make 1900 bytes.
    assert_eq!(finish_reply("é".repeat(950)), TOO_LONG_REPLY);
}

#[test]
fn larger_budget_keeps_longer_suffix() {
    let history: Vec<HistoryEntry> = (0..6).map(|i| entry(1, "u", &format!("xxxxxxx{}", i))).collect();
    let mut previous = 0;
    for budget in 0..30 {
        let kept = pack(&history, "sys".to_string(), BOT, budget).len() - 1;
        assert!(kept >= previous);
        previous = kept;
    }
    assert_eq!(previous, 6);
}
