//! Verified core of a chat-platform command bot: per-guild prefix
//! configuration, prefix resolution, command routing, a paginated menu
//! state machine, and the bulk message purge loop.

pub mod autoreply;
pub mod config;
pub mod echo;
pub mod error;
pub mod memes;
pub mod menu;
pub mod purge;
pub mod randomness;
pub mod resolver;
pub mod router;
pub mod text;
pub mod timefmt;

pub use autoreply::message_gets_reply;
pub use config::{ConfigStore, GuildPrefixRecord, MAX_PREFIX_CHARS};
pub use echo::{plan_echo, EchoAction};
pub use error::BotError;
pub use memes::{file_stem_matches, find_meme_entry};
pub use menu::{MenuSession, MenuStep, MENU_IDLE_TIMEOUT_SECS};
pub use purge::{purge_history, MessageRef, PageAction, PurgeCursor, FETCH_PAGE_CEILING};
pub use randomness::{pick_index, pick_one, roll_between};
pub use resolver::{default_prefix, prefix_from_lookup, resolve, Origin};
pub use router::{handle_set_prefix, standard_command_table, CommandDescriptor, CommandTable,
    RouteOutcome, ADMINISTRATOR, BAN_MEMBERS, KICK_MEMBERS, MANAGE_MESSAGES};
pub use timefmt::{decimal_string, format_durationu};
