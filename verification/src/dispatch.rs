//! Command dispatch: one invocation becomes one directive. The directive
//! names the single outside action the caller is to perform — start the
//! chat service, fetch a meme or a fact, look meals up — or carries the
//! reply or the validation error outright. The caller performs the action
//! and hands the outcome back to the reply functions here.

use crate::apis::meme_api::Meme;
use crate::apis::uselessfact::{FactKind, UselessFact};
use crate::args::Args;
use crate::config::Configs;
use crate::date::{date_token_valid, chrono_ymd, resolve, valid_ymd, Date, DateResolution};
use crate::errors::{FetchError, ValidationError};
use crate::resolver::{plan_canteen_query, CanteenQuery};
use vstd::prelude::*;
use vstd::string::StringExecFns;

verus! {

/// What one invocation asks for.
#[derive(Clone, Copy, Debug, PartialEq, Eq, Structural)]
pub enum Mode {
    MealLookup,
    Meme,
    DailyFact,
    RandomFact,
    BotInfo,
    StartChatService,
}

/// The resolved argument set for one run.
#[derive(Debug)]
pub struct Invocation {
    pub location: Option<String>,
    pub id: Option<u32>,
    pub date_token: String,
    pub mode: Mode,
}

/// The mode a flag set selects, first match winning: the chat service,
/// then the one-shot meme, daily fact and random fact, and otherwise the
/// meal lookup.
pub open spec fn spec_mode(args: Args) -> Mode {
    if args.discord_bot {
        Mode::StartChatService
    } else if args.meme {
        Mode::Meme
    } else if args.daily_fact {
        Mode::DailyFact
    } else if args.random_fact {
        Mode::RandomFact
    } else {
        Mode::MealLookup
    }
}

/// Reads the mode off the parsed flags.
pub fn invocation_mode(args: &Args) -> (m: Mode)
    ensures
        m == spec_mode(*args),
{
    if args.discord_bot {
        Mode::StartChatService
    } else if args.meme {
        Mode::Meme
    } else if args.daily_fact {
        Mode::DailyFact
    } else if args.random_fact {
        Mode::RandomFact
    } else {
        Mode::MealLookup
    }
}

/// Builds the invocation one argument set stands for.
pub fn invocation_from_args(args: Args) -> (inv: Invocation)
    ensures
        inv.mode == spec_mode(args),
        inv.location == args.location,
        inv.id == args.id,
        inv.date_token == args.date,
{
    let mode = invocation_mode(&args);
    Invocation { location: args.location, id: args.id, date_token: args.date, mode }
}

/// The single outside action an invocation calls for, or the reply or
/// rejection decided without one.
#[derive(Debug)]
pub enum Directive {
    /// Enter the long-running command-listening state.
    StartChat,
    /// Fetch one meme and reply with it.
    FetchMeme,
    /// Fetch one fact of this kind in this language and reply with it.
    FetchFact { kind: FactKind, language: String },
    /// Reply with this text; no outside call is needed.
    Reply(String),
    /// Query the provider for these canteens on this date.
    LookupMeals { date: DateResolution, query: CanteenQuery },
    /// The invocation is rejected; nothing is queried.
    Invalid(ValidationError),
}

/// The fixed informational URL the bot-info command replies with.
pub fn bot_info() -> (s: String)
    ensures
        s@ == "https://github.com/floork/discord-bot.git"@,
{
    String::from_str("https://github.com/floork/discord-bot.git")
}

/// Routes one invocation. A meal lookup with both overrides set is
/// rejected before anything is resolved or queried; otherwise the date
/// token and the canteen query resolve as the date and canteen resolvers
/// state.
pub fn dispatch(inv: &Invocation, config: &Configs) -> (d: Directive)
    ensures
        inv.mode == Mode::StartChatService ==> d is StartChat,
        inv.mode == Mode::Meme ==> d is FetchMeme,
        inv.mode == Mode::DailyFact ==> ({
            &&& d matches Directive::FetchFact { kind, language }
            &&& kind == FactKind::Daily
            &&& language@ == "de"@
        }),
        inv.mode == Mode::RandomFact ==> ({
            &&& d matches Directive::FetchFact { kind, language }
            &&& kind == FactKind::Random
            &&& language@ == "de"@
        }),
        inv.mode == Mode::BotInfo ==> ({
            &&& d matches Directive::Reply(s)
            &&& s@ == "https://github.com/floork/discord-bot.git"@
        }),
        inv.mode == Mode::MealLookup && inv.id is Some && inv.location is Some ==> d
            == Directive::Invalid(ValidationError),
        inv.mode == Mode::MealLookup && !(inv.id is Some && inv.location is Some) ==> ({
            &&& d matches Directive::LookupMeals { date, query }
            &&& date.date.well_formed()
            &&& date.token_invalid == !date_token_valid(inv.date_token@)
            &&& (chrono_ymd(inv.date_token@) matches Some(t) ==> inv.date_token@ != "today"@
                && valid_ymd(t.0, t.1, t.2) ==> date.date == (Date {
                year: t.0 as i32,
                month: t.1 as u8,
                day: t.2 as u8,
            }))
            &&& (inv.id matches Some(i) ==> query == CanteenQuery::ById(i))
            &&& (inv.id is None ==> match inv.location {
                Some(l) => query == CanteenQuery::ByLocation(l),
                None => query matches CanteenQuery::ByIds(v) && v@
                    == config.locations.canteens@,
            })
        }),
{
    match inv.mode {
        Mode::StartChatService => Directive::StartChat,
        Mode::Meme => Directive::FetchMeme,
        Mode::DailyFact => Directive::FetchFact {
            kind: FactKind::Daily,
            language: String::from_str("de"),
        },
        Mode::RandomFact => Directive::FetchFact {
            kind: FactKind::Random,
            language: String::from_str("de"),
        },
        Mode::BotInfo => Directive::Reply(bot_info()),
        Mode::MealLookup => match plan_canteen_query(inv.id, &inv.location, config) {
            Err(e) => Directive::Invalid(e),
            Ok(query) => {
                let date = resolve(inv.date_token.as_str());
                Directive::LookupMeals { date, query }
            },
        },
    }
}

/// Picks the chat-service token: the argument wins, else whatever the
/// environment offered.
pub fn choose_token(arg: Option<String>, env: Option<String>) -> (r: Option<String>)
    ensures
        arg matches Some(t) ==> r == Some(t),
        arg is None ==> r == env,
{
    match arg {
        Some(t) => Some(t),
        None => env,
    }
}

/// The startup-fatal line shown when no chat-service token can be found.
pub fn missing_token_message() -> (s: String)
    ensures
        s@ == "Please provide a Discord Token either as a parameter or in a .env file"@,
{
    String::from_str("Please provide a Discord Token either as a parameter or in a .env file")
}

/// A one-shot reply: the text to show, or the failure line to show when
/// the fetch failed.
#[derive(Debug)]
pub enum Reply {
    Success(String),
    Failure(String),
}

/// The reply to a meme fetch: the meme's URL, or a fixed failure line.
pub fn meme_reply(outcome: Result<Meme, FetchError>) -> (r: Reply)
    ensures
        outcome matches Ok(m) ==> r == Reply::Success(m.url),
        outcome is Err ==> ({
            &&& r matches Reply::Failure(t)
            &&& t@ == "Failed to fetch meme."@
        }),
{
    match outcome {
        Ok(m) => Reply::Success(m.url),
        Err(_) => Reply::Failure(String::from_str("Failed to fetch meme.")),
    }
}

/// The reply to a fact fetch: the fact's text, or the failure line of the
/// fact kind asked for.
pub fn fact_reply(kind: FactKind, outcome: Result<UselessFact, FetchError>) -> (r: Reply)
    ensures
        outcome matches Ok(f) ==> r == Reply::Success(f.text),
        outcome is Err && kind == FactKind::Daily ==> ({
            &&& r matches Reply::Failure(t)
            &&& t@ == "Failed to fetch daily fact."@
        }),
        outcome is Err && kind == FactKind::Random ==> ({
            &&& r matches Reply::Failure(t)
            &&& t@ == "Failed to fetch random fact."@
        }),
{
    match outcome {
        Ok(f) => Reply::Success(f.text),
        Err(_) => match kind {
            FactKind::Daily => Reply::Failure(String::from_str("Failed to fetch daily fact.")),
            FactKind::Random => Reply::Failure(String::from_str("Failed to fetch random fact.")),
        },
    }
}

} // verus!
