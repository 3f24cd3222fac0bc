pub mod meme_api;
pub mod uselessfact;
