use vstd::prelude::*;

verus! {

/// Database used when none is configured.
pub const DEFAULT_DATABASE: &'static str = "sqlite:///saysthbot.db";

/// Bot API server used when none is configured.
pub const DEFAULT_API_URL: &'static str = "https://api.telegram.org";

/// Start-up configuration of the bot.
#[derive(Debug)]
pub struct Args {
    /// Enable debug mode
    pub debug: bool,
    /// Telegram bot token
    pub tgbot_token: String,
    /// Database URI
    pub database_uri: String,
    /// Api Server URL
    pub api_url: String,
}

} // verus!
