//! The update announcer: from the submitted form to the message that goes out.

use vstd::prelude::*;
use vstd::string::*;

verus! {

/// Channel that update logs go to.
pub const UPDATE_CHANNEL_ID: u64 = 1023607934825013310;

/// The form that the author of an update fills in.
#[derive(Clone, Debug, PartialEq, Eq)]
pub struct UpdateModal {
    pub version: String,
    pub description: String,
}

/// What the bot does with a submitted form.
#[derive(Clone, Debug, PartialEq, Eq)]
pub enum UpdateReply {
    /// Post `content` to the channel.
    Announce { channel_id: u64, content: String },
    /// Tell the invoker, and nobody else, that no form data arrived.
    Failure { content: String },
}

/// A reply to the update command as a mathematical value.
pub ghost enum UpdateReplyView {
    Announce { channel_id: u64, content: Seq<char> },
    Failure { content: Seq<char> },
}

impl View for UpdateReply {
    type V = UpdateReplyView;

    open spec fn view(&self) -> UpdateReplyView {
        match self {
            UpdateReply::Announce { channel_id, content } => UpdateReplyView::Announce {
                channel_id: *channel_id,
                content: content@,
            },
            UpdateReply::Failure { content } => UpdateReplyView::Failure { content: content@ },
        }
    }
}

/// `text` with a bullet marker put after each of its line breaks.
pub open spec fn bulleted(text: Seq<char>) -> Seq<char>
    decreases text.len(),
{
    if text.len() == 0 {
        Seq::empty()
    } else if text.last() == '\n' {
        bulleted(text.drop_last()) + "\n   ・ "@
    } else {
        bulleted(text.drop_last()).push(text.last())
    }
}

/// The update log of `version`: a headline, and `description` as a bulleted list
/// with one entry for each of its lines.
pub open spec fn update_log(version: Seq<char>, description: Seq<char>) -> Seq<char> {
    "<:arrow:1068604670764916876> **Pyrite v"@ + version + " Update Log**\n   ・ "@ + bulleted(
        description,
    )
}

/// What the update command replies to the form data it got, if it got any.
pub open spec fn update_reply(data: Option<(Seq<char>, Seq<char>)>) -> UpdateReplyView {
    match data {
        Some((version, description)) => UpdateReplyView::Announce {
            channel_id: UPDATE_CHANNEL_ID,
            content: update_log(version, description),
        },
        None => UpdateReplyView::Failure { content: "There was an error loading the data!"@ },
    }
}

/// Puts a bullet marker after each line break of `text`.
pub fn bullet_lines(text: &str) -> (r: String)
    ensures
        r@ == bulleted(text@),
{
    let n: usize = text.unicode_len();
    let mut out: String = String::new();
    let mut i: usize = 0;
    while i < n
        invariant
            i <= n,
            n == text@.len(),
            out@ == bulleted(text@.take(i as int)),
        decreases n - i,
    {
        let ghost before = text@.take(i as int);
        let ghost now = text@.take(i + 1);
        assert(now.drop_last() =~= before);
        assert(now.last() == text@[i as int]);
        if text.get_char(i) == '\n' {
            out.append("\n   ・ ");
        } else {
            let one: &str = text.substring_char(i, i + 1);
            assert(one@ =~= seq![text@[i as int]]);
            out.append(one);
            assert(out@ =~= bulleted(before).push(text@[i as int]));
        }
        i = i + 1;
    }
    assert(text@.take(n as int) =~= text@);
    out
}

/// Replies to the update command.
pub fn update(data: Option<UpdateModal>) -> (r: UpdateReply)
    ensures
        r@ == update_reply(
            match data {
                Some(modal) => Some((modal.version@, modal.description@)),
                None => None,
            },
        ),
{
    match data {
        Some(modal) => {
            let mut content: String = String::from_str("<:arrow:1068604670764916876> **Pyrite v");
            content.append(modal.version.as_str());
            content.append(" Update Log**\n   ・ ");
            content.append(bullet_lines(modal.description.as_str()).as_str());
            UpdateReply::Announce { channel_id: UPDATE_CHANNEL_ID, content }
        },
        None => UpdateReply::Failure {
            content: String::from_str("There was an error loading the data!"),
        },
    }
}

} // verus!
