//! The command-line argument set, as plain values. Flag parsing happens at
//! the process's edge; the library receives the parsed fields.

use vstd::prelude::*;

verus! {

/// One run's arguments.
#[derive(Debug)]
pub struct Args {
    /// Free-text location override.
    pub location: Option<String>,
    /// Canteen id override.
    pub id: Option<u32>,
    /// Date of the meal: `YYYY-MM-DD` or `"today"`.
    pub date: String,
    /// Start the chat service instead of a one-shot lookup.
    pub discord_bot: bool,
    /// Auth token for the chat service.
    pub token: Option<String>,
    /// Path of an env file holding the token.
    pub env_file: Option<String>,
    /// One-shot meme fetch.
    pub meme: bool,
    /// One-shot daily-fact fetch.
    pub daily_fact: bool,
    /// One-shot random-fact fetch.
    pub random_fact: bool,
}

} // verus!
