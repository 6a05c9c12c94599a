use chatbot_core::general::{
    door_notice, quote_reply, quote_text, roll_reply, say_cleaning, wait_notice, Cleaning,
    DOOR_CHANNEL, QUOTE_CHANNEL,
};
use chatbot_core::mention::UserId;
use chatbot_core::moderation::Mod;
use chatbot_core::FailureKind;

fn user(value: u64) -> UserId {
    UserId::new(value).unwrap()
}

#[test]
fn ban_answers() {
    assert_eq!(Mod::ban_reply(user(123), "spam", true), "Banned <@123> for spam");
    assert_eq!(
        Mod::ban_reply(user(123), "No reason provided.", true),
        "Banned <@123> for No reason provided."
    );
    assert_eq!(Mod::ban_reply(user(123), "spam", false), "I cannot ban this user.");
}

#[test]
fn kick_answers() {
    assert_eq!(Mod::kick_reply(user(9), "noise", true), "Kicked <@9> for noise");
    assert_eq!(Mod::kick_reply(user(9), "noise", false), "I cannot kick this user.");
}

#[test]
fn unban_answers() {
    assert_eq!(Mod::unban_reply(user(77), true), "Unbanned <@77>");
    assert_eq!(Mod::unban_reply(user(77), false), "I cannot unban this user.");
}

#[test]
fn warn_answers() {
    assert_eq!(Mod::warn_reply(user(5), "spam", Ok(())), "Warned <@5> for spam");
    assert_eq!(
        Mod::warn_reply(user(5), "spam", Err(FailureKind::StorageUnavailable)),
        "Something went wrong, nothing was recorded."
    );
}

#[test]
fn checkwarns_answers() {
    let lines = vec![
        "[2024-01-01 10:00:00] spam".to_string(),
        "[2024-01-02 10:00:00] more".to_string(),
        "[2024-01-03 10:00:00] again".to_string(),
    ];
    assert_eq!(
        Mod::checkwarns_reply(user(5), &Ok(lines)),
        "Warnings for <@5>:\n[2024-01-01 10:00:00] spam\n[2024-01-02 10:00:00] more\n[2024-01-03 10:00:00] again"
    );
    assert_eq!(
        Mod::checkwarns_reply(user(5), &Ok(vec!["only".to_string()])),
        "Warnings for <@5>:\nonly"
    );
    assert_eq!(Mod::checkwarns_reply(user(5), &Ok(vec![])), "<@5> has no warnings.");
    assert_eq!(
        Mod::checkwarns_reply(user(5), &Err(FailureKind::NotFound)),
        "<@5> has no warnings."
    );
    assert_eq!(
        Mod::checkwarns_reply(user(5), &Err(FailureKind::StorageUnavailable)),
        "Something went wrong, nothing was recorded."
    );
}

#[test]
fn each_failure_has_its_answer() {
    assert_eq!(
        Mod::failure_reply(FailureKind::MalformedMention),
        "You need to provide a user mention!"
    );
    assert_eq!(
        Mod::failure_reply(FailureKind::StorageUnavailable),
        "Something went wrong, nothing was recorded."
    );
    assert_eq!(Mod::failure_reply(FailureKind::NotFound), "There are no warnings on file.");
}

#[test]
fn key_is_the_display_name_or_the_stand_in() {
    assert_eq!(Mod::target_key(Some("alice")), "alice");
    assert_eq!(Mod::target_key(Some("")), "Unknown_user");
    assert_eq!(Mod::target_key(None), "Unknown_user");
}

#[test]
fn roll_answers() {
    assert_eq!(roll_reply(4), "You rolled a 4!");
    assert_eq!(roll_reply(0), "You rolled a 0!");
    assert_eq!(roll_reply(u32::MAX), "You rolled a 4294967295!");
}

#[test]
fn quote_is_what_follows_the_command_word() {
    assert_eq!(quote_text("?zitat to be or not"), Some(" to be or not".to_string()));
    assert_eq!(quote_text("?zitat "), Some(" ".to_string()));
    assert_eq!(quote_text(" x"), Some(" x".to_string()));
    assert_eq!(quote_text("?zitat"), None);
    assert_eq!(quote_text(""), None);
    assert_eq!(quote_text("a\tb"), None);
    for message in ["?zitat ä ö ü", "a  b", "x y z ", "nospace", " "] {
        let expected = message.find(' ').map(|at| message.to_string().split_off(at));
        assert_eq!(quote_text(message), expected);
    }
}

#[test]
fn quote_answers() {
    assert_eq!(QUOTE_CHANNEL, 1290616138308386816);
    assert_eq!(quote_reply(true), "Zitat posted in <#1290616138308386816>!");
    assert_eq!(quote_reply(false), "You need to add a zitat!");
}

#[test]
fn rate_limit_is_told_once() {
    assert_eq!(wait_notice(true, 5), Some("Try this again in 5 seconds.".to_string()));
    assert_eq!(wait_notice(true, 0), Some("Try this again in 0 seconds.".to_string()));
    assert_eq!(wait_notice(false, 5), None);
}

#[test]
fn say_cleans_more_in_a_guild() {
    assert_eq!(
        say_cleaning(true),
        Cleaning { users: true, roles: true, channels: false, as_members: true }
    );
    assert_eq!(
        say_cleaning(false),
        Cleaning { users: true, roles: false, channels: false, as_members: false }
    );
}

#[test]
fn door_events_are_told() {
    assert_eq!(DOOR_CHANNEL, 1263881335479472240);
    assert_eq!(door_notice("pepito"), Some("recieved pepito"));
    assert_eq!(door_notice("heartbeat"), Some("recieved heartbeat"));
    assert_eq!(door_notice("message"), None);
    assert_eq!(door_notice(""), None);
}
