use vstd::prelude::*;

use crate::number::{decimal, decimal_string, lemma_parse_decimal_roundtrip, parsed_u64};

verus! {

/// The state of a conversation with the bot; there is only the one.
#[derive(Clone, Copy, Debug, PartialEq, Eq, Structural)]
pub enum State {
    Start,
}

impl Default for State {
    fn default() -> (res: State)
        ensures
            res == State::Start,
    {
        State::Start
    }
}

/// Whether a message whose sender has the id `sender` (`None` where it has
/// no sender) comes from the bot's maintainer `maintainer`.
pub fn is_owner(sender: Option<u64>, maintainer: u64) -> (res: bool)
    ensures
        res == (sender == Some(maintainer)),
{
    match sender {
        Some(id) => id == maintainer,
        None => false,
    }
}

/// The answer to `/help` for the user with the id `user_id`.
pub open spec fn help_text(user_id: u64) -> Seq<char> {
    "help has been invoked, your user id is "@ + decimal(user_id as nat)
}

/// The answer to `/help`, which tells the user their id.
pub fn help_message(user_id: u64) -> (res: String)
    ensures
        res@ == help_text(user_id),
{
    let mut text = String::from_str("help has been invoked, your user id is ");
    let id = decimal_string(user_id);
    text.append(id.as_str());
    text
}

/// The `/help` answer is the fixed sentence followed by the user's id, all
/// of it: reading back the text after the sentence gives the id.
pub proof fn lemma_help_text_gives_back_the_id(user_id: u64)
    ensures
        help_text(user_id).len() > "help has been invoked, your user id is "@.len(),
        help_text(user_id).subrange(0, "help has been invoked, your user id is "@.len() as int)
            == "help has been invoked, your user id is "@,
        parsed_u64(
            help_text(user_id).subrange(
                "help has been invoked, your user id is "@.len() as int,
                help_text(user_id).len() as int,
            ),
        ) == Some(user_id),
{
    let p = "help has been invoked, your user id is "@;
    let d = decimal(user_id as nat);
    lemma_parse_decimal_roundtrip(user_id);
    assert(help_text(user_id).subrange(0, p.len() as int) =~= p);
    assert(help_text(user_id).subrange(p.len() as int, help_text(user_id).len() as int) =~= d);
}

/// What a received message holds, as far as the bot tells messages apart.
#[derive(Clone, Copy, Debug, PartialEq, Eq, Structural)]
pub enum IncomingKind {
    /// A common message with text.
    Text,
    /// A common message with a photo.
    Photo,
    /// A common message with any other media.
    OtherMedia,
    /// Any message that is not a common one (a service message).
    NotCommon,
}

/// What the bot does with a received message.
#[derive(Clone, Debug, PartialEq, Eq)]
pub enum Reaction {
    /// Nothing: the message is not from the maintainer.
    Ignore,
    /// File the text into the second brain.
    HandleText,
    /// Save the photo and file it into the second brain.
    HandlePhoto,
    /// Answer with this text.
    Reply(String),
}

/// What the bot does with a message, and whether it then deletes the
/// acknowledgement it sent on receiving it.
pub struct MessagePlan {
    pub reaction: Reaction,
    pub delete_ack: bool,
}

/// The answer to media that the bot does not handle.
pub open spec fn media_not_implemented() -> Seq<char> {
    "Media::Kind Type not implemented"@
}

/// The answer to a message that is not a common one.
pub open spec fn kind_not_implemented() -> Seq<char> {
    "MessageKind not implemented"@
}

/// The answers to what the bots do not handle, word for word.
pub proof fn lemma_unhandled_answers()
    ensures
        media_not_implemented() == "Media::Kind Type not implemented"@,
        kind_not_implemented() == "MessageKind not implemented"@,
{
}

/// The plan for a message of kind `kind` from `sender`: the bot ignores
/// anyone but the maintainer; it files text, and answers anything else that
/// it does not handle.  Once it has acted on a message it deletes its
/// acknowledgement.
pub fn plan_message(sender: Option<u64>, maintainer: u64, kind: IncomingKind) -> (res:
    MessagePlan)
    ensures
        sender != Some(maintainer) ==> res.reaction is Ignore && !res.delete_ack,
        sender == Some(maintainer) ==> res.delete_ack,
        sender == Some(maintainer) && kind is Text ==> res.reaction is HandleText,
        sender == Some(maintainer) && (kind is Photo || kind is OtherMedia) ==> (
        res.reaction matches Reaction::Reply(t) && t@ == media_not_implemented()),
        sender == Some(maintainer) && kind is NotCommon ==> (res.reaction matches Reaction::Reply(
            t,
        ) && t@ == kind_not_implemented()),
{
    if !is_owner(sender, maintainer) {
        return MessagePlan { reaction: Reaction::Ignore, delete_ack: false };
    }
    let reaction = match kind {
        IncomingKind::Text => Reaction::HandleText,
        IncomingKind::Photo | IncomingKind::OtherMedia => Reaction::Reply(
            String::from_str("Media::Kind Type not implemented"),
        ),
        IncomingKind::NotCommon => Reaction::Reply(String::from_str("MessageKind not implemented")),
    };
    MessagePlan { reaction, delete_ack: true }
}

/// `plan_message` as the link bot plans: it also files photos,
/// and never deletes its acknowledgement.
pub fn link_bot_plan_message(sender: Option<u64>, maintainer: u64, kind: IncomingKind) -> (res:
    MessagePlan)
    ensures
        !res.delete_ack,
        sender != Some(maintainer) ==> res.reaction is Ignore,
        sender == Some(maintainer) && kind is Text ==> res.reaction is HandleText,
        sender == Some(maintainer) && kind is Photo ==> res.reaction is HandlePhoto,
        sender == Some(maintainer) && kind is OtherMedia ==> (res.reaction matches Reaction::Reply(
            t,
        ) && t@ == media_not_implemented()),
        sender == Some(maintainer) && kind is NotCommon ==> (res.reaction matches Reaction::Reply(
            t,
        ) && t@ == kind_not_implemented()),
{
    if !is_owner(sender, maintainer) {
        return MessagePlan { reaction: Reaction::Ignore, delete_ack: false };
    }
    let reaction = match kind {
        IncomingKind::Text => Reaction::HandleText,
        IncomingKind::Photo => Reaction::HandlePhoto,
        IncomingKind::OtherMedia => Reaction::Reply(
            String::from_str("Media::Kind Type not implemented"),
        ),
        IncomingKind::NotCommon => Reaction::Reply(String::from_str("MessageKind not implemented")),
    };
    MessagePlan { reaction, delete_ack: false }
}

} // verus!
