//! Handle for the message notifier.
//!
//! The bot holds its credential and the fixed destination chat. Delivery
//! is transport work and happens outside the library; this type carries
//! the two values and hands them out unchanged.

use vstd::prelude::*;

verus! {

/// Credential and destination of the notifier.
pub struct TelegramBot {
    bot_token: String,
    chat_id: String,
}

impl TelegramBot {
    /// The credential the bot authenticates with.
    pub closed spec fn spec_bot_token(&self) -> Seq<char> {
        self.bot_token@
    }

    /// The chat every notification goes to.
    pub closed spec fn spec_chat_id(&self) -> Seq<char> {
        self.chat_id@
    }

    /// A bot handle holding exactly the given credential and chat.
    pub fn new(bot_token: String, chat_id: String) -> (bot: TelegramBot)
        ensures
            bot.spec_bot_token() == bot_token@,
            bot.spec_chat_id() == chat_id@,
    {
        TelegramBot { bot_token, chat_id }
    }

    /// The credential, unchanged.
    pub fn bot_token(&self) -> (r: &String)
        ensures
            r@ == self.spec_bot_token(),
    {
        &self.bot_token
    }

    /// The destination chat, unchanged.
    pub fn chat_id(&self) -> (r: &String)
        ensures
            r@ == self.spec_chat_id(),
    {
        &self.chat_id
    }
}

} // verus!
