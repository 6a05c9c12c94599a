use crate::ledger::texts_of;
use crate::mention::{mention_string, mention_text, UserId};
use crate::FailureKind;
use vstd::prelude::*;

verus! {

/// The moderation commands: what each of them answers.
pub struct Mod;

/// The name under which a user's warnings are filed: the display name that the
/// platform has for the user or, where it has none, a name that stands for
/// every unknown user.
pub open spec fn key_for(display_name: Option<Seq<char>>) -> Seq<char> {
    match display_name {
        Some(name) => if name.len() > 0 {
            name
        } else {
            "Unknown_user"@
        },
        None => "Unknown_user"@,
    }
}

/// What a command answers when it could not do its work.
pub open spec fn failure_text(kind: FailureKind) -> Seq<char> {
    match kind {
        FailureKind::MalformedMention => "You need to provide a user mention!"@,
        FailureKind::StorageUnavailable => "Something went wrong, nothing was recorded."@,
        FailureKind::NotFound => "There are no warnings on file."@,
    }
}

/// `lines`, each after the first on a line of its own.
pub open spec fn joined(lines: Seq<Seq<char>>) -> Seq<char>
    decreases lines.len(),
{
    if lines.len() == 0 {
        Seq::empty()
    } else if lines.len() == 1 {
        lines[0]
    } else {
        joined(lines.drop_last()) + seq!['\n'] + lines.last()
    }
}

/// What `ban` answers.
pub open spec fn ban_text(user: u64, reason: Seq<char>, done: bool) -> Seq<char> {
    if done {
        "Banned "@ + mention_text(user as nat) + " for "@ + reason
    } else {
        "I cannot ban this user."@
    }
}

/// What `kick` answers.
pub open spec fn kick_text(user: u64, reason: Seq<char>, done: bool) -> Seq<char> {
    if done {
        "Kicked "@ + mention_text(user as nat) + " for "@ + reason
    } else {
        "I cannot kick this user."@
    }
}

/// What `unban` answers.
pub open spec fn unban_text(user: u64, done: bool) -> Seq<char> {
    if done {
        "Unbanned "@ + mention_text(user as nat)
    } else {
        "I cannot unban this user."@
    }
}

/// What `warn` answers.
pub open spec fn warn_text(user: u64, reason: Seq<char>, outcome: Result<(), FailureKind>) -> Seq<
    char,
> {
    match outcome {
        Ok(_) => "Warned "@ + mention_text(user as nat) + " for "@ + reason,
        Err(kind) => failure_text(kind),
    }
}

/// What `checkwarns` answers.
pub open spec fn checkwarns_text(user: u64, listing: Result<Seq<Seq<char>>, FailureKind>) -> Seq<
    char,
> {
    match listing {
        Ok(lines) => if lines.len() == 0 {
            mention_text(user as nat) + " has no warnings."@
        } else {
            "Warnings for "@ + mention_text(user as nat) + ":\n"@ + joined(lines)
        },
        Err(kind) => if kind == FailureKind::NotFound {
            mention_text(user as nat) + " has no warnings."@
        } else {
            failure_text(kind)
        },
    }
}

impl Mod {
    /// The key under which the warnings of a user are filed.
    pub fn target_key(display_name: Option<&str>) -> (key: String)
        ensures
            key@ == key_for(
                match display_name {
                    Some(name) => Some(name@),
                    None => None,
                },
            ),
            key@.len() > 0,
    {
        proof {
            reveal_strlit("Unknown_user");
        }
        match display_name {
            Some(name) => {
                if name.is_empty() {
                    "Unknown_user".to_owned()
                } else {
                    name.to_owned()
                }
            },
            None => "Unknown_user".to_owned(),
        }
    }

    /// The answer to a command that failed with `kind`.
    pub fn failure_reply(kind: FailureKind) -> (reply: &'static str)
        ensures
            reply@ == failure_text(kind),
    {
        match kind {
            FailureKind::MalformedMention => "You need to provide a user mention!",
            FailureKind::StorageUnavailable => "Something went wrong, nothing was recorded.",
            FailureKind::NotFound => "There are no warnings on file.",
        }
    }

    /// The answer of `ban`, once the platform has said whether `user` was
    /// banned.
    pub fn ban_reply(user: UserId, reason: &str, done: bool) -> (reply: String)
        ensures
            reply@ == ban_text(user@, reason@, done),
    {
        if done {
            let mut reply = "Banned ".to_owned();
            reply.append(mention_string(user).as_str());
            reply.append(" for ");
            reply.append(reason);
            reply
        } else {
            "I cannot ban this user.".to_owned()
        }
    }

    /// The answer of `kick`, once the platform has said whether `user` was
    /// removed.
    pub fn kick_reply(user: UserId, reason: &str, done: bool) -> (reply: String)
        ensures
            reply@ == kick_text(user@, reason@, done),
    {
        if done {
            let mut reply = "Kicked ".to_owned();
            reply.append(mention_string(user).as_str());
            reply.append(" for ");
            reply.append(reason);
            reply
        } else {
            "I cannot kick this user.".to_owned()
        }
    }

    /// The answer of `unban`, once the platform has said whether the ban on
    /// `user` was lifted.
    pub fn unban_reply(user: UserId, done: bool) -> (reply: String)
        ensures
            reply@ == unban_text(user@, done),
    {
        if done {
            let mut reply = "Unbanned ".to_owned();
            reply.append(mention_string(user).as_str());
            reply
        } else {
            "I cannot unban this user.".to_owned()
        }
    }

    /// The answer of `warn`, once the warning was filed or could not be.
    pub fn warn_reply(user: UserId, reason: &str, outcome: Result<(), FailureKind>) -> (reply:
        String)
        ensures
            reply@ == warn_text(user@, reason@, outcome),
    {
        match outcome {
            Ok(_) => {
                let mut reply = "Warned ".to_owned();
                reply.append(mention_string(user).as_str());
                reply.append(" for ");
                reply.append(reason);
                reply
            },
            Err(kind) => Mod::failure_reply(kind).to_owned(),
        }
    }

    /// The answer of `checkwarns`: the warnings on file, one to a line under
    /// a heading, or the news that there are none.
    pub fn checkwarns_reply(user: UserId, listing: &Result<Vec<String>, FailureKind>) -> (reply:
        String)
        ensures
            reply@ == checkwarns_text(
                user@,
                match *listing {
                    Ok(lines) => Ok(texts_of(lines@)),
                    Err(kind) => Err(kind),
                },
            ),
    {
        match listing {
            Ok(lines) => {
                if lines.len() == 0 {
                    let mut reply = mention_string(user);
                    reply.append(" has no warnings.");
                    reply
                } else {
                    let mut reply = "Warnings for ".to_owned();
                    reply.append(mention_string(user).as_str());
                    reply.append(":\n");
                    let ghost head = reply@;
                    reply.append(lines[0].as_str());
                    let mut i: usize = 1;
                    while i < lines.len()
                        invariant
                            1 <= i <= lines.len(),
                            reply@ == head + joined(texts_of(lines@).take(i as int)),
                        decreases lines.len() - i,
                    {
                        proof {
                            reveal_strlit("\n");
                            assert(texts_of(lines@).take(i + 1).drop_last() =~= texts_of(
                                lines@,
                            ).take(i as int));
                        }
                        reply.append("\n");
                        reply.append(lines[i].as_str());
                        i += 1;
                    }
                    proof {
                        assert(texts_of(lines@).take(i as int) =~= texts_of(lines@));
                    }
                    reply
                }
            },
            Err(kind) => {
                match kind {
                    FailureKind::NotFound => {
                        let mut reply = mention_string(user);
                        reply.append(" has no warnings.");
                        reply
                    },
                    _ => Mod::failure_reply(*kind).to_owned(),
                }
            },
        }
    }
}

} // verus!
