use crate::text::{
    chars_of, decimal_string, decimal_text, find_char, position_of, push_char, same_text,
};
use vstd::prelude::*;

verus! {

/// The channel that quotes are posted to.
pub const QUOTE_CHANNEL: u64 = 1290616138308386816;

/// What `roll` answers for a roll of `rolled`.
pub open spec fn roll_text(rolled: u32) -> Seq<char> {
    "You rolled a "@ + decimal_text(rolled as nat) + "!"@
}

/// Writes the answer of `roll`.
pub fn roll_reply(rolled: u32) -> (reply: String)
    ensures
        reply@ == roll_text(rolled),
{
    let mut reply = "You rolled a ".to_owned();
    reply.append(decimal_string(rolled as u64).as_str());
    reply.append("!");
    reply
}

/// The quote in a message that asks for one to be posted: all that follows
/// the command word, from the first space on and with that space. A message
/// of one word holds no quote.
pub open spec fn quote_of(message: Seq<char>) -> Option<Seq<char>> {
    let space = position_of(message, ' ', 0);
    if space < message.len() {
        Some(message.skip(space))
    } else {
        None
    }
}

/// Takes the quote out of a message.
pub fn quote_text(message: &str) -> (quote: Option<String>)
    ensures
        match quote {
            Some(text) => quote_of(message@) == Some(text@),
            None => quote_of(message@) is None,
        },
{
    let chars = chars_of(message);
    let space = find_char(&chars, ' ', 0);
    if space == chars.len() {
        return None;
    }
    let mut text = String::new();
    let mut i: usize = space;
    while i < chars.len()
        invariant
            space <= i <= chars.len(),
            text@ == chars@.subrange(space as int, i as int),
        decreases chars.len() - i,
    {
        push_char(&mut text, chars[i]);
        i += 1;
    }
    Some(text)
}

/// What `zitat` answers: where the quote went, or that there was none.
pub open spec fn quote_reply_text(posted: bool) -> Seq<char> {
    if posted {
        "Zitat posted in <#"@ + decimal_text(QUOTE_CHANNEL as nat) + ">!"@
    } else {
        "You need to add a zitat!"@
    }
}

/// Writes the answer of `zitat`.
pub fn quote_reply(posted: bool) -> (reply: String)
    ensures
        reply@ == quote_reply_text(posted),
{
    if posted {
        let mut reply = "Zitat posted in <#".to_owned();
        reply.append(decimal_string(QUOTE_CHANNEL).as_str());
        reply.append(">!");
        reply
    } else {
        "You need to add a zitat!".to_owned()
    }
}

/// What a caller is told who ran into a rate limit: how long to wait, the
/// first time it happens, and nothing after that.
pub open spec fn wait_text(first_try: bool, seconds: u64) -> Option<Seq<char>> {
    if first_try {
        Some("Try this again in "@ + decimal_text(seconds as nat) + " seconds."@)
    } else {
        None
    }
}

/// Writes the notice for a caller who ran into a rate limit.
pub fn wait_notice(first_try: bool, seconds: u64) -> (notice: Option<String>)
    ensures
        match notice {
            Some(text) => wait_text(first_try, seconds) == Some(text@),
            None => wait_text(first_try, seconds) is None,
        },
{
    if first_try {
        let mut text = "Try this again in ".to_owned();
        text.append(decimal_string(seconds).as_str());
        text.append(" seconds.");
        Some(text)
    } else {
        None
    }
}

/// What `say` takes out of a text before it repeats it.
#[derive(Clone, Copy, Debug, PartialEq, Eq, Structural)]
pub struct Cleaning {
    /// Mentions of users are replaced by names.
    pub users: bool,
    /// Mentions of roles are replaced by names.
    pub roles: bool,
    /// Mentions of channels are replaced by names.
    pub channels: bool,
    /// Users are named as the guild knows them.
    pub as_members: bool,
}

/// How `say` cleans a text: mentions of users always go and mentions of
/// channels, which reach nobody, always stay; in a guild the mentions of roles
/// go too, and users are named as the guild knows them.
pub fn say_cleaning(in_guild: bool) -> (cleaning: Cleaning)
    ensures
        cleaning == (Cleaning {
            users: true,
            roles: in_guild,
            channels: false,
            as_members: in_guild,
        }),
{
    Cleaning { users: true, roles: in_guild, channels: false, as_members: in_guild }
}

/// The channel that hears of the cat door.
pub const DOOR_CHANNEL: u64 = 1263881335479472240;

/// What is said of an event of the cat door, by the event's kind; nothing of
/// a kind that is not listened for.
pub open spec fn door_text(kind: Seq<char>) -> Option<Seq<char>> {
    if kind == "pepito"@ {
        Some("recieved pepito"@)
    } else if kind == "heartbeat"@ {
        Some("recieved heartbeat"@)
    } else {
        None
    }
}

/// Chooses what to say of an event of the cat door.
pub fn door_notice(kind: &str) -> (notice: Option<&'static str>)
    ensures
        match notice {
            Some(text) => door_text(kind@) == Some(text@),
            None => door_text(kind@) is None,
        },
{
    if same_text(kind, "pepito") {
        Some("recieved pepito")
    } else if same_text(kind, "heartbeat") {
        Some("recieved heartbeat")
    } else {
        None
    }
}

} // verus!
