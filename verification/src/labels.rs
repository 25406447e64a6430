//! How a member is named in reports, suggestions and the search index.

use crate::text::{decimal, push_decimal};
use vstd::prelude::*;
use vstd::string::*;

verus! {

/// The text of an optional string.
pub open spec fn opt_text(s: Option<String>) -> Option<Seq<char>> {
    match s {
        Some(text) => Some(text@),
        None => None,
    }
}

/// The name of a member who has a server name and an account name: both,
/// unless the server name is empty.
pub open spec fn known_as(nick: Seq<char>, account: Seq<char>) -> Seq<char> {
    if nick.len() > 0 {
        nick + " (aka "@ + account + ")"@
    } else {
        account
    }
}

/// The name of a member from the names on record, or `fallback` where there is none.
pub open spec fn label_or(
    account: Option<Seq<char>>,
    server: Option<Seq<char>>,
    fallback: Seq<char>,
) -> Seq<char> {
    match (server, account) {
        (Some(nick), Some(acc)) => known_as(nick, acc),
        (None, Some(acc)) => acc,
        (Some(nick), None) => nick,
        (None, None) => fallback,
    }
}

/// The label of a member in a report: by name, or else as a mention.
pub open spec fn member_label(
    user_id: Seq<char>,
    account: Option<Seq<char>>,
    server: Option<Seq<char>>,
) -> Seq<char> {
    label_or(account, server, "<@"@ + user_id + ">"@)
}

/// The label of a member among suggestions: by name, or else by identifier.
pub open spec fn suggestion_label(
    user_id: Seq<char>,
    account: Option<Seq<char>>,
    server: Option<Seq<char>>,
) -> Seq<char> {
    label_or(account, server, "User "@ + user_id)
}

/// The label of a member in the search index: the server name unless it is
/// missing or empty, else the account name, else the identifier.
pub open spec fn index_label(
    user_id: Seq<char>,
    account: Option<Seq<char>>,
    server: Option<Seq<char>>,
) -> Seq<char> {
    match (server, account) {
        (Some(nick), Some(acc)) => if nick.len() > 0 {
            nick
        } else {
            acc
        },
        (Some(nick), None) => if nick.len() > 0 {
            nick
        } else {
            "User "@ + user_id
        },
        (None, Some(acc)) => acc,
        (None, None) => "User "@ + user_id,
    }
}

fn named(account_username: &Option<String>, server_username: &Option<String>) -> (label: Option<
    String,
>)
    ensures
        label is None <==> account_username is None && server_username is None,
        label is Some ==> label->0@ == label_or(
            opt_text(*account_username),
            opt_text(*server_username),
            Seq::empty(),
        ),
{
    match (server_username, account_username) {
        (Some(nick), Some(acc)) => {
            if nick.as_str().is_empty() {
                Some(acc.clone())
            } else {
                let mut label = nick.clone();
                label.append(" (aka ");
                label.append(acc.as_str());
                label.append(")");
                assert(label@ =~= nick@ + " (aka "@ + acc@ + ")"@);
                Some(label)
            }
        },
        (None, Some(acc)) => Some(acc.clone()),
        (Some(nick), None) => Some(nick.clone()),
        (None, None) => None,
    }
}

/// The label of a member in a report: the server name with the account name
/// beside it, either of them alone, or a mention of the identifier.
pub fn format_member_label(
    user_id: &str,
    account_username: &Option<String>,
    server_username: &Option<String>,
) -> (label: String)
    ensures
        label@ == member_label(
            user_id@,
            opt_text(*account_username),
            opt_text(*server_username),
        ),
{
    match named(account_username, server_username) {
        Some(label) => label,
        None => {
            let mut label = String::from_str("<@");
            label.append(user_id);
            label.append(">");
            label
        },
    }
}

/// The label of a member among suggestions.
pub fn format_suggestion_label(
    user_id: &str,
    account_username: &Option<String>,
    server_username: &Option<String>,
) -> (label: String)
    ensures
        label@ == suggestion_label(
            user_id@,
            opt_text(*account_username),
            opt_text(*server_username),
        ),
{
    match named(account_username, server_username) {
        Some(label) => label,
        None => {
            let mut label = String::from_str("User ");
            label.append(user_id);
            label
        },
    }
}

/// The label of a member in the search index.
pub fn format_index_label(
    user_id: &str,
    account_username: &Option<String>,
    server_username: &Option<String>,
) -> (label: String)
    ensures
        label@ == index_label(user_id@, opt_text(*account_username), opt_text(*server_username)),
{
    let preferred = match server_username {
        Some(nick) => !nick.as_str().is_empty(),
        None => false,
    };
    match (server_username, account_username) {
        (Some(nick), _) if preferred => nick.clone(),
        (_, Some(acc)) => acc.clone(),
        _ => {
            let mut label = String::from_str("User ");
            label.append(user_id);
            label
        },
    }
}

/// What is announced when a member joins.
pub open spec fn join_notice_text(user_id: u64) -> Seq<char> {
    "<@"@ + decimal(user_id as nat) + "> joined."@
}

/// What is announced when a member goes, by a ban or otherwise.
pub open spec fn leave_notice_text(user_id: u64, banned: bool) -> Seq<char> {
    "<@"@ + decimal(user_id as nat) + "> "@ + (if banned {
        "was **banned**"@
    } else {
        "left"@
    }) + "."@
}

/// What is announced when a member joins.
pub fn join_notice(user_id: u64) -> (text: String)
    ensures
        text@ == join_notice_text(user_id),
{
    let mut text = String::from_str("<@");
    push_decimal(&mut text, user_id);
    text.append("> joined.");
    text
}

/// What is announced when a member goes.
pub fn leave_notice(user_id: u64, banned: bool) -> (text: String)
    ensures
        text@ == leave_notice_text(user_id, banned),
{
    let mut text = String::from_str("<@");
    push_decimal(&mut text, user_id);
    text.append("> ");
    if banned {
        text.append("was **banned**");
    } else {
        text.append("left");
    }
    text.append(".");
    assert(text@ =~= leave_notice_text(user_id, banned));
    text
}

} // verus!
