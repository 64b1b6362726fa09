//! The vote webhook handler: from a request to its response, by way of the
//! downstream calls that announce the vote and grant the voter's role.
//!
//! The handler performs no call itself. [`handle`] decides what a request asks
//! for, [`Handling::call`] names the downstream call that is due, and
//! [`Handling::advance`] takes that call's outcome to the next state, until a
//! response stands.

use vstd::prelude::*;
use vstd::string::*;
use crate::embed::{Embed, EmbedFieldView, EmbedView};
use crate::http::{
    authorized, presents_secret, route, route_of, Response, ResponseView, Route, STATUS_BAD_GATEWAY,
    STATUS_BAD_REQUEST, STATUS_METHOD_NOT_ALLOWED, STATUS_OK, STATUS_UNAUTHORIZED,
};
use crate::json::{json_member, json_member_of, JsonMember, JsonMemberView};
use crate::text::{decimal, decimal_digits, parse_u64, read_u64, same_text};

verus! {

/// Channel that vote announcements go to.
pub const ANNOUNCE_CHANNEL_ID: u64 = 1097551957570375750;

/// Guild whose members receive the voter's role.
pub const GUILD_ID: u64 = 1008365644636495953;

/// Role that a vote earns.
pub const VOTER_ROLE_ID: u64 = 1024001432078258216;

/// Member who receives the role where the voter's identifier is no number.
pub const FALLBACK_USER_ID: u64 = 807705107852558386;

/// Colour of the vote announcement.
pub const ANNOUNCEMENT_COLOUR: u32 = 0x2b2d31;

/// What the handler is configured with, once, at startup.
#[derive(Clone, Debug, PartialEq, Eq)]
pub struct Config {
    /// Shared secret that the voting service presents as its bearer token.
    pub secret: String,
    pub channel_id: u64,
    pub guild_id: u64,
    pub role_id: u64,
    pub fallback_user_id: u64,
}

/// A configuration as a mathematical value.
pub ghost struct ConfigView {
    pub secret: Seq<char>,
    pub channel_id: u64,
    pub guild_id: u64,
    pub role_id: u64,
    pub fallback_user_id: u64,
}

impl View for Config {
    type V = ConfigView;

    open spec fn view(&self) -> ConfigView {
        ConfigView {
            secret: self.secret@,
            channel_id: self.channel_id,
            guild_id: self.guild_id,
            role_id: self.role_id,
            fallback_user_id: self.fallback_user_id,
        }
    }
}

impl Config {
    /// The bot's own channel, guild, role and fallback member, under `secret`.
    pub fn new(secret: &str) -> (r: Config)
        ensures
            r@ == (ConfigView {
                secret: secret@,
                channel_id: ANNOUNCE_CHANNEL_ID,
                guild_id: GUILD_ID,
                role_id: VOTER_ROLE_ID,
                fallback_user_id: FALLBACK_USER_ID,
            }),
    {
        Config {
            secret: secret.to_owned(),
            channel_id: ANNOUNCE_CHANNEL_ID,
            guild_id: GUILD_ID,
            role_id: VOTER_ROLE_ID,
            fallback_user_id: FALLBACK_USER_ID,
        }
    }
}

/// The payload of a vote webhook: who voted.
#[derive(Clone, Debug, PartialEq, Eq)]
pub struct VoteRequest {
    pub user: String,
}

/// Why a request body yields no vote request.
#[derive(Clone, Copy, Debug, PartialEq, Eq, Structural)]
pub enum BodyError {
    /// The body is not a JSON document.
    NotJson,
    /// The document names no user: the member is missing, or it is neither a
    /// string nor an unsigned integer.
    NoUser,
}

/// The voter that a body's `user` member names: a string as it stands, an
/// unsigned integer by its decimal digits.
pub open spec fn voter_of(member: JsonMemberView) -> Result<Seq<char>, BodyError> {
    match member {
        JsonMemberView::Malformed => Err(BodyError::NotJson),
        JsonMemberView::Text(user) => Ok(user),
        JsonMemberView::Unsigned(id) => Ok(decimal_digits(id as nat)),
        JsonMemberView::Absent => Err(BodyError::NoUser),
        JsonMemberView::Other => Err(BodyError::NoUser),
    }
}

/// Reads the vote request out of a body's `user` member.
pub fn vote_request(member: JsonMember) -> (r: Result<VoteRequest, BodyError>)
    ensures
        match r {
            Ok(request) => voter_of(member@) == Ok::<Seq<char>, BodyError>(request.user@),
            Err(e) => voter_of(member@) == Err::<Seq<char>, BodyError>(e),
        },
{
    match member {
        JsonMember::Malformed => Err(BodyError::NotJson),
        JsonMember::Text(user) => Ok(VoteRequest { user }),
        JsonMember::Unsigned(id) => Ok(VoteRequest { user: decimal(id) }),
        JsonMember::Absent => Err(BodyError::NoUser),
        JsonMember::Other => Err(BodyError::NoUser),
    }
}

/// One vote to make known: the announcement to send and the role to grant.
#[derive(Clone, Debug, PartialEq, Eq)]
pub struct VoteNotification {
    /// The voter as the request named them; the announcement mentions them so.
    pub target_user: String,
    /// The guild member who receives the role.
    pub member_id: u64,
    pub channel_id: u64,
    pub guild_id: u64,
    pub role_id: u64,
}

/// A vote notification as a mathematical value.
pub ghost struct VoteNotificationView {
    pub target_user: Seq<char>,
    pub member_id: u64,
    pub channel_id: u64,
    pub guild_id: u64,
    pub role_id: u64,
}

impl View for VoteNotification {
    type V = VoteNotificationView;

    open spec fn view(&self) -> VoteNotificationView {
        VoteNotificationView {
            target_user: self.target_user@,
            member_id: self.member_id,
            channel_id: self.channel_id,
            guild_id: self.guild_id,
            role_id: self.role_id,
        }
    }
}

/// The member who receives the role for the voter `user`: the one whose
/// identifier `user` writes, or else the configured fallback member.
pub open spec fn member_of(user: Seq<char>, fallback: u64) -> u64 {
    match parse_u64(user) {
        Some(id) => id,
        None => fallback,
    }
}

/// The notification that a vote by `user` gives rise to under `config`.
pub open spec fn notification_of(config: ConfigView, user: Seq<char>) -> VoteNotificationView {
    VoteNotificationView {
        target_user: user,
        member_id: member_of(user, config.fallback_user_id),
        channel_id: config.channel_id,
        guild_id: config.guild_id,
        role_id: config.role_id,
    }
}

/// The text of the announcement of a vote by `user` that earns the role `role_id`.
pub open spec fn announcement_text(user: Seq<char>, role_id: u64) -> Seq<char> {
    "<:arrow:1068604670764916876> <@"@ + user
        + "> Just Voted **__Pyrite Bot__** on [Top.gg](https://top.gg/bot/1008400801628164096)! They have now received the <@&"@
        + decimal_digits(role_id as nat)
        + "> Role! You can vote too to get it!\n\n:heart: __Thank you for voting Pyrite Bot__"@
}

/// The embed that announces the vote `n`.
pub open spec fn announcement_of(n: VoteNotificationView) -> EmbedView {
    EmbedView {
        title: "<:pyrite:1112834249385578517> New Vote!"@,
        description: Some(announcement_text(n.target_user, n.role_id)),
        colour: ANNOUNCEMENT_COLOUR,
        thumbnail: Some("https://i.imgur.com/bbH7fEf.png"@),
        fields: Seq::empty(),
        footer_text: "Pyrite Bot Support"@,
        footer_icon: Some("https://i.imgur.com/bbH7fEf.png"@),
    }
}

impl VoteNotification {
    /// The notification for one vote request.
    pub fn new(config: &Config, request: VoteRequest) -> (r: VoteNotification)
        ensures
            r@ == notification_of(config@, request.user@),
    {
        let member_id: u64 = match read_u64(request.user.as_str()) {
            Some(id) => id,
            None => config.fallback_user_id,
        };
        VoteNotification {
            target_user: request.user,
            member_id,
            channel_id: config.channel_id,
            guild_id: config.guild_id,
            role_id: config.role_id,
        }
    }

    /// The embed that announces this vote.
    pub fn announcement(&self) -> (r: Embed)
        ensures
            r@ == announcement_of(self@),
    {
        let role: String = decimal(self.role_id);
        let mut text: String = String::from_str("<:arrow:1068604670764916876> <@");
        text.append(self.target_user.as_str());
        text.append(
            "> Just Voted **__Pyrite Bot__** on [Top.gg](https://top.gg/bot/1008400801628164096)! They have now received the <@&",
        );
        text.append(role.as_str());
        text.append(
            "> Role! You can vote too to get it!\n\n:heart: __Thank you for voting Pyrite Bot__",
        );
        let r = Embed {
            title: String::from_str("<:pyrite:1112834249385578517> New Vote!"),
            description: Some(text),
            colour: ANNOUNCEMENT_COLOUR,
            thumbnail: Some(String::from_str("https://i.imgur.com/bbH7fEf.png")),
            fields: Vec::new(),
            footer_text: String::from_str("Pyrite Bot Support"),
            footer_icon: Some(String::from_str("https://i.imgur.com/bbH7fEf.png")),
        };
        assert(r.fields.deep_view() =~= Seq::<EmbedFieldView>::empty());
        r
    }
}

/// A call to the chat platform that the handler asks for.
#[derive(Clone, Debug, PartialEq, Eq)]
pub enum Call {
    /// Send `embed` to the channel.
    SendMessage { channel_id: u64, embed: Embed },
    /// Resolve the user's membership of the guild.
    GetMember { guild_id: u64, user_id: u64 },
    /// Grant the role to the resolved member.
    AddRole { guild_id: u64, user_id: u64, role_id: u64 },
}

/// A downstream call as a mathematical value.
pub ghost enum CallView {
    SendMessage { channel_id: u64, embed: EmbedView },
    GetMember { guild_id: u64, user_id: u64 },
    AddRole { guild_id: u64, user_id: u64, role_id: u64 },
}

impl View for Call {
    type V = CallView;

    open spec fn view(&self) -> CallView {
        match self {
            Call::SendMessage { channel_id, embed } => CallView::SendMessage {
                channel_id: *channel_id,
                embed: embed@,
            },
            Call::GetMember { guild_id, user_id } => CallView::GetMember {
                guild_id: *guild_id,
                user_id: *user_id,
            },
            Call::AddRole { guild_id, user_id, role_id } => CallView::AddRole {
                guild_id: *guild_id,
                user_id: *user_id,
                role_id: *role_id,
            },
        }
    }
}

impl DeepView for Call {
    type V = CallView;

    open spec fn deep_view(&self) -> CallView {
        self@
    }
}

/// How a downstream call ended.
#[derive(Clone, Copy, Debug, PartialEq, Eq, Structural)]
pub enum Outcome {
    Done,
    Failed,
}

/// The downstream call that a vote waits for.
#[derive(Clone, Copy, Debug, PartialEq, Eq, Structural)]
pub enum Stage {
    /// The announcement is to be sent.
    Announce,
    /// The member is to be resolved.
    Resolve,
    /// The role is to be granted.
    Grant,
}

/// Where the handling of one request stands.
#[derive(Clone, Debug, PartialEq, Eq)]
pub enum Handling {
    /// A vote was accepted and the call of `stage` is due.
    Pending { notification: VoteNotification, stage: Stage },
    /// The request is answered; `log` is the line to write to the operator's log, if any.
    Finished { response: Response, log: Option<String> },
}

/// The handling of a request as a mathematical value.
pub ghost enum HandlingView {
    Pending { notification: VoteNotificationView, stage: Stage },
    Finished { response: ResponseView, log: Option<Seq<char>> },
}

impl View for Handling {
    type V = HandlingView;

    open spec fn view(&self) -> HandlingView {
        match self {
            Handling::Pending { notification, stage } => HandlingView::Pending {
                notification: notification@,
                stage: *stage,
            },
            Handling::Finished { response, log } => HandlingView::Finished {
                response: response@,
                log: log.deep_view(),
            },
        }
    }
}

/// A handling that ends without a log line.
pub open spec fn answered(status: u16, body: Seq<char>) -> HandlingView {
    HandlingView::Finished { response: ResponseView { status, body }, log: None }
}

/// A vote that ends on a failed downstream call: the caller gets `reason` with
/// the status of a bad gateway, and the log gets `reason` too.
pub open spec fn failed(reason: Seq<char>) -> HandlingView {
    HandlingView::Finished {
        response: ResponseView { status: STATUS_BAD_GATEWAY, body: reason },
        log: Some(reason),
    }
}

/// A vote that went through: an empty success response, and a log line that
/// names the voter.
pub open spec fn succeeded(user: Seq<char>) -> HandlingView {
    HandlingView::Finished {
        response: ResponseView { status: STATUS_OK, body: Seq::empty() },
        log: Some("New Vote from "@ + user),
    }
}

/// What the handler makes of a vote by `user` that came with the bearer
/// token `token`: with the secret, the vote is accepted and its announcement
/// is due; with anything else the request is refused.
pub open spec fn vote_decision(config: ConfigView, token: Seq<char>, user: Seq<char>) -> HandlingView {
    if token == config.secret {
        HandlingView::Pending { notification: notification_of(config, user), stage: Stage::Announce }
    } else {
        answered(STATUS_UNAUTHORIZED, "You're not authorized to do this operation"@)
    }
}

/// What the handler makes of a request, given what its body holds under `user`.
///
/// The root path answers the liveness check. A `POST` to `/vote` is refused
/// without the secret as bearer token, whatever the body; with it, a body that
/// names no user is a bad request, and one that names a user is an accepted
/// vote. Nothing else is served.
pub open spec fn decision(
    config: ConfigView,
    method: Seq<char>,
    path: Seq<char>,
    authorization: Option<Seq<char>>,
    member: JsonMemberView,
) -> HandlingView {
    match route_of(method, path) {
        Route::Liveness => answered(STATUS_OK, "Bot hosting running correctly!"@),
        Route::Refused => answered(STATUS_METHOD_NOT_ALLOWED, Seq::empty()),
        Route::Vote => if !presents_secret(authorization, config.secret) {
            answered(STATUS_UNAUTHORIZED, "You're not authorized to do this operation"@)
        } else {
            match voter_of(member) {
                Err(BodyError::NotJson) => answered(
                    STATUS_BAD_REQUEST,
                    "The request body is not valid JSON"@,
                ),
                Err(BodyError::NoUser) => answered(
                    STATUS_BAD_REQUEST,
                    "The request body names no user"@,
                ),
                Ok(user) => HandlingView::Pending {
                    notification: notification_of(config, user),
                    stage: Stage::Announce,
                },
            }
        },
    }
}

/// The downstream call that is due in the state `h`, if one is.
pub open spec fn call_of(h: HandlingView) -> Option<CallView> {
    match h {
        HandlingView::Finished { .. } => None,
        HandlingView::Pending { notification, stage } => Some(
            match stage {
                Stage::Announce => CallView::SendMessage {
                    channel_id: notification.channel_id,
                    embed: announcement_of(notification),
                },
                Stage::Resolve => CallView::GetMember {
                    guild_id: notification.guild_id,
                    user_id: notification.member_id,
                },
                Stage::Grant => CallView::AddRole {
                    guild_id: notification.guild_id,
                    user_id: notification.member_id,
                    role_id: notification.role_id,
                },
            },
        ),
    }
}

/// The state that follows `h` once the call that was due has ended with
/// `outcome`. A failed call ends the handling; a finished handling stays as it is.
pub open spec fn next(h: HandlingView, outcome: Outcome) -> HandlingView {
    match h {
        HandlingView::Finished { .. } => h,
        HandlingView::Pending { notification, stage } => match (stage, outcome) {
            (Stage::Announce, Outcome::Done) => HandlingView::Pending { notification, stage: Stage::Resolve },
            (Stage::Announce, Outcome::Failed) => failed("There was an error sending the vote!"@),
            (Stage::Resolve, Outcome::Done) => HandlingView::Pending { notification, stage: Stage::Grant },
            (Stage::Resolve, Outcome::Failed) => failed("Member not found"@),
            (Stage::Grant, Outcome::Done) => succeeded(notification.target_user),
            (Stage::Grant, Outcome::Failed) => failed("There was an error adding the role"@),
        },
    }
}

/// A response without text.
fn bare(status: u16) -> (r: Response)
    ensures
        r@ == (ResponseView { status, body: Seq::empty() }),
{
    proof {
        reveal_strlit("");
    }
    let r = Response::new(status, "");
    assert(r.body@ =~= Seq::<char>::empty());
    r
}

/// Ends a handling with a response and no log line.
fn answer(status: u16, body: &str) -> (h: Handling)
    ensures
        h@ == answered(status, body@),
{
    Handling::Finished { response: Response::new(status, body), log: None }
}

/// Ends a vote on a failed downstream call.
fn fail(reason: &str) -> (h: Handling)
    ensures
        h@ == failed(reason@),
{
    Handling::Finished {
        response: Response::new(STATUS_BAD_GATEWAY, reason),
        log: Some(reason.to_owned()),
    }
}

impl Handling {
    /// The downstream call to perform now, or `None` once the response stands.
    pub fn call(&self) -> (r: Option<Call>)
        ensures
            r.deep_view() == call_of(self@),
    {
        match self {
            Handling::Finished { .. } => None,
            Handling::Pending { notification, stage } => Some(
                match stage {
                    Stage::Announce => Call::SendMessage {
                        channel_id: notification.channel_id,
                        embed: notification.announcement(),
                    },
                    Stage::Resolve => Call::GetMember {
                        guild_id: notification.guild_id,
                        user_id: notification.member_id,
                    },
                    Stage::Grant => Call::AddRole {
                        guild_id: notification.guild_id,
                        user_id: notification.member_id,
                        role_id: notification.role_id,
                    },
                },
            ),
        }
    }

    /// Takes the outcome of the call that was due and moves on.
    pub fn advance(self, outcome: Outcome) -> (h: Handling)
        ensures
            h@ == next(self@, outcome),
    {
        match self {
            Handling::Finished { response, log } => Handling::Finished { response, log },
            Handling::Pending { notification, stage } => match (stage, outcome) {
                (Stage::Announce, Outcome::Done) => Handling::Pending {
                    notification,
                    stage: Stage::Resolve,
                },
                (Stage::Announce, Outcome::Failed) => fail("There was an error sending the vote!"),
                (Stage::Resolve, Outcome::Done) => Handling::Pending {
                    notification,
                    stage: Stage::Grant,
                },
                (Stage::Resolve, Outcome::Failed) => fail("Member not found"),
                (Stage::Grant, Outcome::Done) => {
                    let mut line: String = String::from_str("New Vote from ");
                    line.append(notification.target_user.as_str());
                    Handling::Finished { response: bare(STATUS_OK), log: Some(line) }
                },
                (Stage::Grant, Outcome::Failed) => fail("There was an error adding the role"),
            },
        }
    }

    /// The response, once it stands.
    pub fn response(&self) -> (r: Option<&Response>)
        ensures
            match self@ {
                HandlingView::Finished { response, .. } => r matches Some(found) && found@ == response,
                HandlingView::Pending { .. } => r is None,
            },
    {
        match self {
            Handling::Finished { response, .. } => Some(response),
            Handling::Pending { .. } => None,
        }
    }
}

/// Handles a vote that came with the bearer token `token`.
pub fn send_vote(config: &Config, token: &str, data: VoteRequest) -> (h: Handling)
    ensures
        h@ == vote_decision(config@, token@, data.user@),
{
    if !same_text(token, config.secret.as_str()) {
        answer(STATUS_UNAUTHORIZED, "You're not authorized to do this operation")
    } else {
        Handling::Pending { notification: VoteNotification::new(config, data), stage: Stage::Announce }
    }
}

/// Decides what a request asks for, given what its body holds under `user`.
pub fn decide(
    config: &Config,
    method: &str,
    path: &str,
    authorization: Option<&str>,
    member: JsonMember,
) -> (h: Handling)
    ensures
        h@ == decision(config@, method@, path@, authorization.deep_view(), member@),
{
    match route(method, path) {
        Route::Liveness => answer(STATUS_OK, "Bot hosting running correctly!"),
        Route::Refused => Handling::Finished {
            response: bare(STATUS_METHOD_NOT_ALLOWED),
            log: None,
        },
        Route::Vote => if !authorized(authorization, config.secret.as_str()) {
            answer(STATUS_UNAUTHORIZED, "You're not authorized to do this operation")
        } else {
            match vote_request(member) {
                Err(BodyError::NotJson) => answer(
                    STATUS_BAD_REQUEST,
                    "The request body is not valid JSON",
                ),
                Err(BodyError::NoUser) => answer(STATUS_BAD_REQUEST, "The request body names no user"),
                Ok(data) => send_vote(config, config.secret.as_str(), data),
            }
        },
    }
}

/// Handles one request to the webhook listener: `authorization` is the value of
/// its `Authorization` header, if it has one, and `body` its payload.
///
/// The body is parsed only for a vote that presents the secret.
pub fn handle(
    config: &Config,
    method: &str,
    path: &str,
    authorization: Option<&str>,
    body: &[u8],
) -> (h: Handling)
    ensures
        h@ == decision(
            config@,
            method@,
            path@,
            authorization.deep_view(),
            json_member_of(body@, "user"@),
        ),
{
    let parse: bool = match route(method, path) {
        Route::Vote => authorized(authorization, config.secret.as_str()),
        _ => false,
    };
    let member: JsonMember = if parse {
        json_member(body, "user")
    } else {
        JsonMember::Absent
    };
    decide(config, method, path, authorization, member)
}

} // verus!
