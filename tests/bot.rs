use matrix_mozilla_bot::bot::{
    is_trusted, parse_command, BotConfig, Command, InviteDecision, LoginData,
};
use matrix_mozilla_bot::session::SessionStorage;

fn config(allow: &[&str], autojoin: bool) -> BotConfig {
    BotConfig::new(
        LoginData::UsernamePassword("bot".to_string(), "pw".to_string()),
        "https://hs.example".to_string(),
        SessionStorage::Ephemeral,
        true,
        autojoin,
        allow.iter().map(|s| s.to_string()).collect(),
    )
}

#[test]
fn empty_allow_list_trusts_everyone() {
    assert!(is_trusted(&Vec::new(), "@anyone:hs"));
}

#[test]
fn allow_list_trusts_only_listed() {
    let allow = vec!["@alice:hs".to_string()];
    assert!(is_trusted(&allow, "@alice:hs"));
    assert!(!is_trusted(&allow, "@mallory:hs"));
}

#[test]
fn commands_match_exactly() {
    assert_eq!(parse_command("!ping"), Some(Command::Ping));
    assert_eq!(parse_command("!watch"), Some(Command::Watch));
    assert_eq!(parse_command("!leave"), Some(Command::Leave));
    assert_eq!(parse_command("!watch "), None);
    assert_eq!(parse_command("ping"), None);
    assert_eq!(parse_command(""), None);
}

#[test]
fn replies_to_commands() {
    assert_eq!(Command::Ping.reply(), "pong");
    assert_eq!(Command::Watch.reply(), "Watching...");
    assert_eq!(Command::Leave.reply(), "Bye");
}

#[test]
fn messages_from_trusted_senders_are_commands() {
    let cfg = config(&["@alice:hs"], true);
    assert_eq!(
        cfg.decide_message(true, "@alice:hs", Some("@bot:hs"), "!watch"),
        Some(Command::Watch)
    );
    assert_eq!(cfg.decide_message(true, "@mallory:hs", Some("@bot:hs"), "!watch"), None);
    assert_eq!(cfg.decide_message(false, "@alice:hs", Some("@bot:hs"), "!watch"), None);
    assert_eq!(cfg.decide_message(true, "@alice:hs", Some("@bot:hs"), "hello"), None);
}

#[test]
fn own_messages_are_ignored() {
    let cfg = config(&[], true);
    assert_eq!(cfg.decide_message(true, "@bot:hs", Some("@bot:hs"), "!ping"), None);
    assert_eq!(
        cfg.decide_message(true, "@bot:hs", None, "!ping"),
        Some(Command::Ping)
    );
    let mut echo = config(&[], true);
    echo.ignore_own_messages = false;
    assert_eq!(
        echo.decide_message(true, "@bot:hs", Some("@bot:hs"), "!ping"),
        Some(Command::Ping)
    );
}

#[test]
fn invitations_follow_allow_list() {
    let open = config(&[], true);
    assert_eq!(
        open.decide_invite("@bot:hs", "@bot:hs", true, "@anyone:hs"),
        InviteDecision::Accept
    );
    let strict = config(&["@alice:hs"], true);
    assert_eq!(
        strict.decide_invite("@bot:hs", "@bot:hs", true, "@alice:hs"),
        InviteDecision::Accept
    );
    assert_eq!(
        strict.decide_invite("@bot:hs", "@bot:hs", true, "@mallory:hs"),
        InviteDecision::Reject
    );
}

#[test]
fn invitations_for_others_are_ignored() {
    let cfg = config(&[], true);
    assert_eq!(
        cfg.decide_invite("@other:hs", "@bot:hs", true, "@alice:hs"),
        InviteDecision::Ignore
    );
    assert_eq!(
        cfg.decide_invite("@bot:hs", "@bot:hs", false, "@alice:hs"),
        InviteDecision::Ignore
    );
}
