use bioma_tool::cognition::conversation::MessageRole;
use bioma_tool::discord::{
    author_display_name, build_conversation, history_message, known_names, mention_ids, message_action,
    replace_mentions, system_prompt, ChannelMessage, DiscordAction,
};

fn names() -> Vec<(u64, String)> {
    vec![(42, "bot".to_string()), (7, "alice".to_string())]
}

#[test]
fn discord_action_on_mention_ping_and_other() {
    assert_eq!(message_action(true, "hello"), DiscordAction::Respond);
    assert_eq!(message_action(true, "!ping"), DiscordAction::Respond);
    assert_eq!(message_action(false, "!ping"), DiscordAction::Pong);
    assert_eq!(message_action(false, "!ping "), DiscordAction::Ignore);
    assert_eq!(message_action(false, "hi"), DiscordAction::Ignore);
}

#[test]
fn discord_mentions_become_names() {
    assert_eq!(replace_mentions("hi <@7> and <@!42>!", &names()), "hi alice and bot!");
}

#[test]
fn discord_unknown_mention_is_normalised() {
    assert_eq!(replace_mentions("ask <@!0099>", &names()), "ask <@99>");
}

#[test]
fn discord_oversized_mention_is_kept() {
    let text = "x <@!99999999999999999999> y";
    assert_eq!(replace_mentions(text, &names()), text);
}

#[test]
fn discord_malformed_mentions_are_kept() {
    for text in ["<@>", "<@!>", "<@12", "<@1a>", "<<@7>", "@7>", "<@!!7>"] {
        let expected = text.replace("<@7>", "alice");
        assert_eq!(replace_mentions(text, &names()), expected);
    }
}

#[test]
fn discord_text_without_mentions_unchanged() {
    assert_eq!(replace_mentions("plain text <b>", &names()), "plain text <b>");
    assert_eq!(replace_mentions("", &names()), "");
}

#[test]
fn discord_mention_ids_in_order() {
    assert_eq!(mention_ids("<@7> <@!42> <@99999999999999999999> <@7> <@x>"), vec![7, 42, 7]);
    assert_eq!(mention_ids("none"), Vec::<u64>::new());
}

#[test]
fn discord_leading_dots_removed() {
    assert_eq!(author_display_name("..bob"), "bob");
    assert_eq!(author_display_name("b.o.b"), "b.o.b");
    assert_eq!(author_display_name("..."), "");
}

#[test]
fn discord_history_message_format() {
    let m = history_message(".carol", "hello", false);
    assert_eq!(m.role, MessageRole::User);
    assert_eq!(m.content, "carol: hello");
    let b = history_message("bot", "hi", true);
    assert_eq!(b.role, MessageRole::Assistant);
}

#[test]
fn discord_known_names_bot_first() {
    let found = vec![(42, "impostor".to_string()), (7, "alice".to_string())];
    let n = known_names(42, "bot", &found);
    assert_eq!(n, vec![(42, "bot".to_string()), (7, "alice".to_string())]);
}

#[test]
fn discord_system_prompt_mentions_channel_and_bot() {
    let p = system_prompt("general", "bot", "42");
    assert!(p.contains("in the group channel #general. \n"));
    assert!(p.contains("You are the bot named \"bot\" (ID: 42)"));
    assert!(p.contains("Respond naturally as \"bot\""));
}

#[test]
fn discord_conversation_oldest_first() {
    let messages = vec![
        ChannelMessage { author_id: 42, author_name: "bot".to_string(), content: "hi <@7>".to_string() },
        ChannelMessage { author_id: 7, author_name: ".alice".to_string(), content: "<@42> help".to_string() },
    ];
    let c = build_conversation(None, "bot", 42, &messages, &names());
    assert_eq!(c.len(), 3);
    assert_eq!(c[0].role, MessageRole::System);
    assert!(c[0].content.contains("#unknown-channel. "));
    assert!(c[0].content.contains("(ID: 42)"));
    assert_eq!(c[1].role, MessageRole::User);
    assert_eq!(c[1].content, "alice: bot help");
    assert_eq!(c[2].role, MessageRole::Assistant);
    assert_eq!(c[2].content, "bot: hi alice");
    let named = build_conversation(Some("general".to_string()), "bot", 42, &Vec::new(), &names());
    assert_eq!(named.len(), 1);
    assert!(named[0].content.contains("#general. "));
}
