use vstd::prelude::*;
use crate::error::AppError;

verus! {

/// The Bot API address of `sendMessage` for the bot `bot_token`.
pub open spec fn send_url(bot_token: Seq<char>) -> Seq<char> {
    "https://api.telegram.org/bot"@ + bot_token + "/sendMessage"@
}

/// The Bot API address to which the bot `bot_token` posts its messages.
pub fn send_message_url(bot_token: &str) -> (r: String)
    ensures
        r@ == send_url(bot_token@),
{
    let mut url = String::from_str("https://api.telegram.org/bot");
    url.append(bot_token);
    url.append("/sendMessage");
    url
}

/// The error for a message that Telegram refused, with Telegram's answer.
pub fn send_failure(error_text: &str) -> (r: AppError)
    ensures
        r@ == "Failed to send message: "@ + error_text@,
{
    let mut message = String::from_str("Failed to send message: ");
    message.append(error_text);
    AppError::from(message)
}

} // verus!
