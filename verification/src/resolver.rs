//! Prefix resolution: which command prefix is active for an incoming
//! message, given its origin and the configuration store.

use vstd::prelude::*;

use crate::config::ConfigStore;
use crate::error::BotError;

verus! {

/// Where a message came from: a direct (non-guild) context, or a guild.
#[derive(Clone, Copy, Debug, PartialEq, Eq, Structural)]
pub enum Origin {
    Direct,
    Guild(u64),
}

/// The characters of the fixed default prefix.
pub open spec fn default_prefix_spec() -> Seq<char> {
    "td!"@
}

/// The fixed default prefix, used outside guilds and wherever no custom
/// prefix is configured or available.
pub fn default_prefix() -> (p: String)
    ensures
        p@ == default_prefix_spec(),
{
    String::from_str("td!")
}

/// Resolves the active prefix. A direct origin gets the fixed default
/// without consulting the store; a guild origin gets its configured
/// prefix, or the default when none is stored. Resolution never fails.
pub fn resolve(store: &ConfigStore, origin: Origin) -> (p: String)
    requires
        store.wf(),
    ensures
        origin is Direct ==> p@ == default_prefix_spec(),
        origin matches Origin::Guild(g) ==> p@ == if store@.contains_key(g) {
            store@[g]
        } else {
            default_prefix_spec()
        },
{
    match origin {
        Origin::Direct => default_prefix(),
        Origin::Guild(g) => match store.get_prefix(g) {
            Some(custom) => custom,
            None => default_prefix(),
        },
    }
}

/// Turns the outcome of an external storage lookup into the active
/// prefix: a found row wins, a missing row or a storage failure falls
/// back to the default, so resolution never fails outright.
pub fn prefix_from_lookup(lookup: Result<Option<String>, BotError>) -> (p: String)
    ensures
        lookup matches Ok(Some(custom)) ==> p@ == custom@,
        lookup matches Ok(opt) ==> (opt is None ==> p@ == default_prefix_spec()),
        lookup is Err ==> p@ == default_prefix_spec(),
{
    match lookup {
        Ok(Some(custom)) => custom,
        Ok(None) => default_prefix(),
        Err(_) => default_prefix(),
    }
}

} // verus!
