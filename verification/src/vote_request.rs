//! The canonical vote and the notifications of each listing service.
//!
//! Every service announces a vote in a format of its own. Each format is a
//! type here, and [`Vote`] brings all of them to the one canonical
//! [`VoteRequest`] that the relay forwards.

use crate::constants::{
    PAGE_KEY_BFD, PAGE_KEY_DBL, PAGE_KEY_DBOATS, PAGE_KEY_DLIST, PAGE_KEY_GENERIC, PAGE_KEY_TOPGG,
};
use crate::snowflake::Snowflake;
use crate::text::{clone_option_text, option_text, text_eq};
use vstd::prelude::*;

verus! {

/// A canonical vote as a mathematical value: what a [`VoteRequest`] holds,
/// its texts taken as sequences of characters.
pub struct CanonicalVote {
    pub bot_id: u64,
    pub user_id: u64,
    pub vote_type: Seq<char>,
    pub is_weekend: bool,
    pub query: Option<Seq<char>>,
    pub source: Option<Seq<char>>,
}

/// A notification of a vote, in the format of one listing service.
pub trait Vote {
    /// The canonical vote that this notification stands for.
    spec fn canonical(&self) -> CanonicalVote;

    /// The bot that was voted for.
    fn get_bot(&self) -> (bot: Snowflake)
        ensures
            bot.0 == self.canonical().bot_id,
    ;

    /// The user who voted.
    fn get_user(&self) -> (user: Snowflake)
        ensures
            user.0 == self.canonical().user_id,
    ;

    /// The tag of the service that sent the notification.
    fn get_source(&self) -> (source: String)
        ensures
            self.canonical().source == Some(source@),
    ;

    /// The notification in canonical form.
    fn get_as_generic(&self) -> (vote: VoteRequest)
        ensures
            vote@ == self.canonical(),
    ;
}

/// The canonical vote: what the relay queues and forwards. It is also the
/// format of the generic endpoint.
#[derive(Debug)]
pub struct VoteRequest {
    pub bot: Snowflake,
    pub user: Snowflake,
    pub vote_type: String,
    pub is_weekend: bool,
    pub query: Option<String>,
    pub src: Option<String>,
}

/// A notification in the format of top.gg.
#[derive(Debug)]
pub struct TopVoteRequest {
    pub bot: Snowflake,
    pub user: Snowflake,
    pub vote_type: String,
    pub is_weekend: Option<bool>,
    pub query: Option<String>,
}

/// A notification in the format of discordbotlist.com. The body does not name
/// the bot: it comes from the request path.
#[derive(Debug)]
pub struct DblComVoteRequest {
    pub bot: Option<Snowflake>,
    pub id: Snowflake,
    pub username: String,
}

/// A notification in the format of botsfordiscord.com.
#[derive(Debug)]
pub struct BfdVoteRequest {
    pub bot: Snowflake,
    pub user: Snowflake,
    pub vote_type: String,
}

/// The bot of a discord.boats notification.
#[derive(Debug)]
pub struct DBoatsBotData {
    pub id: Snowflake,
    pub name: String,
}

/// The user of a discord.boats notification.
#[derive(Debug)]
pub struct DBoatsUserData {
    pub id: Snowflake,
    pub username: String,
    pub discriminator: u16,
}

/// A notification in the format of discord.boats. Older senders leave the bot
/// out of the body and name it in the request path.
#[derive(Debug)]
pub struct DBoatsVoteRequest {
    pub bot: Option<DBoatsBotData>,
    pub user: DBoatsUserData,
}

/// The claims of a discordlist.gg notification, which arrives as a signed envelope.
#[derive(Debug)]
pub struct DiscordListVoteRequest {
    pub bot_id: Snowflake,
    pub user_id: Snowflake,
    pub query: Option<String>,
    pub is_test: bool,
}

impl View for VoteRequest {
    type V = CanonicalVote;

    open spec fn view(&self) -> CanonicalVote {
        CanonicalVote {
            bot_id: self.bot.0,
            user_id: self.user.0,
            vote_type: self.vote_type@,
            is_weekend: self.is_weekend,
            query: option_text(self.query),
            source: option_text(self.src),
        }
    }
}

impl Clone for VoteRequest {
    fn clone(&self) -> (copy: VoteRequest)
        ensures
            copy == *self,
    {
        VoteRequest {
            bot: self.bot,
            user: self.user,
            vote_type: self.vote_type.clone(),
            is_weekend: self.is_weekend,
            query: clone_option_text(&self.query),
            src: clone_option_text(&self.src),
        }
    }
}

impl Vote for VoteRequest {
    /// The vote as it is, tagged as generic where it names no source.
    open spec fn canonical(&self) -> CanonicalVote {
        CanonicalVote {
            bot_id: self.bot.0,
            user_id: self.user.0,
            vote_type: self.vote_type@,
            is_weekend: self.is_weekend,
            query: option_text(self.query),
            source: Some(
                match self.src {
                    Some(tag) => tag@,
                    None => PAGE_KEY_GENERIC@,
                },
            ),
        }
    }

    fn get_bot(&self) -> (bot: Snowflake) {
        self.bot
    }

    fn get_user(&self) -> (user: Snowflake) {
        self.user
    }

    fn get_source(&self) -> (source: String) {
        match &self.src {
            Some(tag) => tag.clone(),
            None => PAGE_KEY_GENERIC.to_owned(),
        }
    }

    fn get_as_generic(&self) -> (vote: VoteRequest) {
        VoteRequest {
            bot: self.get_bot(),
            user: self.get_user(),
            vote_type: self.vote_type.clone(),
            is_weekend: self.is_weekend,
            query: clone_option_text(&self.query),
            src: Some(self.get_source()),
        }
    }
}

impl Clone for TopVoteRequest {
    fn clone(&self) -> (copy: TopVoteRequest)
        ensures
            copy == *self,
    {
        TopVoteRequest {
            bot: self.bot,
            user: self.user,
            vote_type: self.vote_type.clone(),
            is_weekend: self.is_weekend,
            query: clone_option_text(&self.query),
        }
    }
}

impl Vote for TopVoteRequest {
    /// A vote of type `upvote` becomes one of type `vote`; a vote that does
    /// not say whether it fell on a weekend did not.
    open spec fn canonical(&self) -> CanonicalVote {
        CanonicalVote {
            bot_id: self.bot.0,
            user_id: self.user.0,
            vote_type: if self.vote_type@ == "upvote"@ {
                "vote"@
            } else {
                self.vote_type@
            },
            is_weekend: match self.is_weekend {
                Some(flag) => flag,
                None => false,
            },
            query: option_text(self.query),
            source: Some(PAGE_KEY_TOPGG@),
        }
    }

    fn get_bot(&self) -> (bot: Snowflake) {
        self.bot
    }

    fn get_user(&self) -> (user: Snowflake) {
        self.user
    }

    fn get_source(&self) -> (source: String) {
        PAGE_KEY_TOPGG.to_owned()
    }

    fn get_as_generic(&self) -> (vote: VoteRequest) {
        VoteRequest {
            bot: self.get_bot(),
            user: self.get_user(),
            vote_type: if text_eq(self.vote_type.as_str(), "upvote") {
                "vote".to_owned()
            } else {
                self.vote_type.clone()
            },
            is_weekend: match self.is_weekend {
                Some(flag) => flag,
                None => false,
            },
            query: clone_option_text(&self.query),
            src: Some(self.get_source()),
        }
    }
}

impl Clone for DblComVoteRequest {
    fn clone(&self) -> (copy: DblComVoteRequest)
        ensures
            copy == *self,
    {
        DblComVoteRequest { bot: self.bot, id: self.id, username: self.username.clone() }
    }
}

impl DblComVoteRequest {
    /// The notification with the bot that the request path names.
    pub fn with_path_bot(self, bot: u64) -> (named: DblComVoteRequest)
        ensures
            named.bot == Some(Snowflake(bot)),
            named.id == self.id,
            named.username == self.username,
    {
        DblComVoteRequest { bot: Some(Snowflake(bot)), id: self.id, username: self.username }
    }
}

impl Vote for DblComVoteRequest {
    /// Always a plain vote, never on a weekend, without query; the bot is 0
    /// until the request path has named it.
    open spec fn canonical(&self) -> CanonicalVote {
        CanonicalVote {
            bot_id: match self.bot {
                Some(bot) => bot.0,
                None => 0,
            },
            user_id: self.id.0,
            vote_type: "vote"@,
            is_weekend: false,
            query: None,
            source: Some(PAGE_KEY_DBL@),
        }
    }

    fn get_bot(&self) -> (bot: Snowflake) {
        match self.bot {
            Some(bot) => bot,
            None => Snowflake(0),
        }
    }

    fn get_user(&self) -> (user: Snowflake) {
        self.id
    }

    fn get_source(&self) -> (source: String) {
        PAGE_KEY_DBL.to_owned()
    }

    fn get_as_generic(&self) -> (vote: VoteRequest) {
        VoteRequest {
            bot: self.get_bot(),
            user: self.get_user(),
            vote_type: "vote".to_owned(),
            is_weekend: false,
            query: None,
            src: Some(self.get_source()),
        }
    }
}

impl Clone for BfdVoteRequest {
    fn clone(&self) -> (copy: BfdVoteRequest)
        ensures
            copy == *self,
    {
        BfdVoteRequest { bot: self.bot, user: self.user, vote_type: self.vote_type.clone() }
    }
}

impl Vote for BfdVoteRequest {
    /// The type as sent, never on a weekend, without query.
    open spec fn canonical(&self) -> CanonicalVote {
        CanonicalVote {
            bot_id: self.bot.0,
            user_id: self.user.0,
            vote_type: self.vote_type@,
            is_weekend: false,
            query: None,
            source: Some(PAGE_KEY_BFD@),
        }
    }

    fn get_bot(&self) -> (bot: Snowflake) {
        self.bot
    }

    fn get_user(&self) -> (user: Snowflake) {
        self.user
    }

    fn get_source(&self) -> (source: String) {
        PAGE_KEY_BFD.to_owned()
    }

    fn get_as_generic(&self) -> (vote: VoteRequest) {
        VoteRequest {
            bot: self.get_bot(),
            user: self.get_user(),
            vote_type: self.vote_type.clone(),
            is_weekend: false,
            query: None,
            src: Some(self.get_source()),
        }
    }
}

impl Clone for DBoatsBotData {
    fn clone(&self) -> (copy: DBoatsBotData)
        ensures
            copy == *self,
    {
        DBoatsBotData { id: self.id, name: self.name.clone() }
    }
}

impl Clone for DBoatsUserData {
    fn clone(&self) -> (copy: DBoatsUserData)
        ensures
            copy == *self,
    {
        DBoatsUserData {
            id: self.id,
            username: self.username.clone(),
            discriminator: self.discriminator,
        }
    }
}

impl Clone for DBoatsVoteRequest {
    fn clone(&self) -> (copy: DBoatsVoteRequest)
        ensures
            copy == *self,
    {
        DBoatsVoteRequest {
            bot: match &self.bot {
                Some(data) => Some(data.clone()),
                None => None,
            },
            user: self.user.clone(),
        }
    }
}

impl DBoatsVoteRequest {
    /// The notification of an older sender, with the bot that the request
    /// path names in place of whatever the body said.
    pub fn with_path_bot(self, bot: u64) -> (named: DBoatsVoteRequest)
        ensures
            named.bot matches Some(data) && data.id == Snowflake(bot) && data.name@ == "Bot"@,
            named.user == self.user,
    {
        DBoatsVoteRequest {
            bot: Some(DBoatsBotData { id: Snowflake(bot), name: "Bot".to_owned() }),
            user: self.user,
        }
    }
}

impl Vote for DBoatsVoteRequest {
    /// Always a plain vote, never on a weekend, without query; the bot is 0
    /// where the notification names none.
    open spec fn canonical(&self) -> CanonicalVote {
        CanonicalVote {
            bot_id: match self.bot {
                Some(data) => data.id.0,
                None => 0,
            },
            user_id: self.user.id.0,
            vote_type: "vote"@,
            is_weekend: false,
            query: None,
            source: Some(PAGE_KEY_DBOATS@),
        }
    }

    fn get_bot(&self) -> (bot: Snowflake) {
        match &self.bot {
            Some(data) => data.id,
            None => Snowflake(0),
        }
    }

    fn get_user(&self) -> (user: Snowflake) {
        self.user.id
    }

    fn get_source(&self) -> (source: String) {
        PAGE_KEY_DBOATS.to_owned()
    }

    fn get_as_generic(&self) -> (vote: VoteRequest) {
        VoteRequest {
            bot: self.get_bot(),
            user: self.get_user(),
            vote_type: "vote".to_owned(),
            is_weekend: false,
            query: None,
            src: Some(self.get_source()),
        }
    }
}

impl Clone for DiscordListVoteRequest {
    fn clone(&self) -> (copy: DiscordListVoteRequest)
        ensures
            copy == *self,
    {
        DiscordListVoteRequest {
            bot_id: self.bot_id,
            user_id: self.user_id,
            query: clone_option_text(&self.query),
            is_test: self.is_test,
        }
    }
}

impl Vote for DiscordListVoteRequest {
    /// A test notification is of type `test`, any other of type `vote`;
    /// never on a weekend.
    open spec fn canonical(&self) -> CanonicalVote {
        CanonicalVote {
            bot_id: self.bot_id.0,
            user_id: self.user_id.0,
            vote_type: if self.is_test {
                "test"@
            } else {
                "vote"@
            },
            is_weekend: false,
            query: option_text(self.query),
            source: Some(PAGE_KEY_DLIST@),
        }
    }

    fn get_bot(&self) -> (bot: Snowflake) {
        self.bot_id
    }

    fn get_user(&self) -> (user: Snowflake) {
        self.user_id
    }

    fn get_source(&self) -> (source: String) {
        PAGE_KEY_DLIST.to_owned()
    }

    fn get_as_generic(&self) -> (vote: VoteRequest) {
        VoteRequest {
            bot: self.get_bot(),
            user: self.get_user(),
            vote_type: if self.is_test {
                "test".to_owned()
            } else {
                "vote".to_owned()
            },
            is_weekend: false,
            query: clone_option_text(&self.query),
            src: Some(self.get_source()),
        }
    }
}

} // verus!
