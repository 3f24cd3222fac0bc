//! The meme lookup: one fixed request, one decoded body.

use vstd::prelude::*;
use vstd::string::StringExecFns;

verus! {

/// A meme as the image API describes one.
#[derive(Debug)]
pub struct Meme {
    pub subreddit: String,
    pub title: String,
    pub url: String,
    pub nsfw: bool,
    pub spoiler: bool,
    pub author: String,
    pub ups: i32,
    pub preview: Vec<String>,
}

/// The fixed URL a meme is requested from.
pub fn request_url() -> (s: String)
    ensures
        s@ == "https://meme-api.com/gimme"@,
{
    String::from_str("https://meme-api.com/gimme")
}

} // verus!
