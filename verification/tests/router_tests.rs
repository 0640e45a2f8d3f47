use dojima_bot::{
    handle_set_prefix, standard_command_table, BotError, ConfigStore, RouteOutcome, ADMINISTRATOR,
    BAN_MEMBERS, MANAGE_MESSAGES,
};

const MENTION: &str = "<@777>";

#[test]
fn prefix_command_routes_with_args() {
    let table = standard_command_table();
    match table.route_message("td!hello everyone here", "td!", MENTION, 0, false) {
        RouteOutcome::Run { command_index, args } => {
            assert_eq!(command_index, 2);
            assert_eq!(args, "everyone here");
        }
        other => panic!("expected a run outcome, got {:?}", name_of(&other)),
    }
}

#[test]
fn bare_command_has_empty_args() {
    let table = standard_command_table();
    match table.route_message("td!ping", "td!", MENTION, 0, false) {
        RouteOutcome::Run { command_index, args } => {
            assert_eq!(command_index, 3);
            assert_eq!(args, "");
        }
        other => panic!("expected a run outcome, got {:?}", name_of(&other)),
    }
}

#[test]
fn mention_token_acts_as_prefix() {
    let table = standard_command_table();
    match table.route_message("<@777>  ping", "td!", MENTION, 0, false) {
        RouteOutcome::Run { command_index, args } => {
            assert_eq!(command_index, 3);
            assert_eq!(args, "");
        }
        other => panic!("expected a run outcome, got {:?}", name_of(&other)),
    }
}

#[test]
fn alias_reaches_the_same_command() {
    let table = standard_command_table();
    let direct = table.route_message("td!solve 1+2", "td!", MENTION, 0, false);
    let aliased = table.route_message("td!calc 1+2", "td!", MENTION, 0, false);
    match (direct, aliased) {
        (
            RouteOutcome::Run { command_index: a, args: x },
            RouteOutcome::Run { command_index: b, args: y },
        ) => {
            assert_eq!(a, b);
            assert_eq!(x, "1+2");
            assert_eq!(y, "1+2");
        }
        _ => panic!("expected two run outcomes"),
    }
}

#[test]
fn unprefixed_text_is_ignored() {
    let table = standard_command_table();
    assert!(matches!(
        table.route_message("just chatting", "td!", MENTION, u64::MAX, true),
        RouteOutcome::Ignored
    ));
}

#[test]
fn unknown_command_is_ignored() {
    let table = standard_command_table();
    assert!(matches!(
        table.route_message("td!frobnicate", "td!", MENTION, u64::MAX, true),
        RouteOutcome::Ignored
    ));
}

#[test]
fn matching_is_case_sensitive() {
    let table = standard_command_table();
    assert!(matches!(
        table.route_message("td!PING", "td!", MENTION, u64::MAX, true),
        RouteOutcome::Ignored
    ));
}

#[test]
fn slash_only_command_ignores_prefix_invocation() {
    let table = standard_command_table();
    assert!(matches!(
        table.route_message("td!say hi", "td!", MENTION, u64::MAX, true),
        RouteOutcome::Ignored
    ));
    assert!(matches!(
        table.route_interaction("say", 0, false),
        RouteOutcome::Run { .. }
    ));
}

#[test]
fn moderation_commands_demand_their_permission_bits() {
    let table = standard_command_table();
    assert!(matches!(
        table.route_message("td!ban @scoundrel spam", "td!", MENTION, 0, false),
        RouteOutcome::Denied
    ));
    assert!(matches!(
        table.route_message("td!ban @scoundrel spam", "td!", MENTION, BAN_MEMBERS, false),
        RouteOutcome::Run { .. }
    ));
    assert!(matches!(
        table.route_message("td!purge @scoundrel 30", "td!", MENTION, MANAGE_MESSAGES, false),
        RouteOutcome::Run { .. }
    ));
    assert!(matches!(
        table.route_message("td!bulkdel @scoundrel 30", "td!", MENTION, 0, false),
        RouteOutcome::Denied
    ));
}

#[test]
fn owner_only_command_denies_non_owner() {
    let table = standard_command_table();
    assert!(matches!(
        table.route_message("td!echo hi", "td!", MENTION, u64::MAX, false),
        RouteOutcome::Denied
    ));
    assert!(matches!(
        table.route_message("td!echo hi", "td!", MENTION, 0, true),
        RouteOutcome::Run { .. }
    ));
}

#[test]
fn interactions_check_permissions_too() {
    let table = standard_command_table();
    assert!(matches!(table.route_interaction("ban", 0, false), RouteOutcome::Denied));
    assert!(matches!(
        table.route_interaction("ban", BAN_MEMBERS, false),
        RouteOutcome::Run { .. }
    ));
    assert!(matches!(table.route_interaction("frobnicate", 0, false), RouteOutcome::Ignored));
    // The prefix-only admin command has no slash form.
    assert!(matches!(table.route_interaction("set_prefix", u64::MAX, true), RouteOutcome::Ignored));
}

#[test]
fn prefix_set_command_routes_only_for_administrators() {
    let table = standard_command_table();
    assert!(matches!(
        table.route_message("td!set_prefix zz!", "td!", MENTION, MANAGE_MESSAGES, false),
        RouteOutcome::Denied
    ));
    assert!(matches!(
        table.route_message("td!set_prefix zz!", "td!", MENTION, ADMINISTRATOR, false),
        RouteOutcome::Run { .. }
    ));
}

#[test]
fn non_administrator_cannot_set_prefix_and_store_stays() {
    let mut store = ConfigStore::new();
    let result = handle_set_prefix(&mut store, Some(42), 0, String::from("!!"));
    assert_eq!(result, Err(BotError::PermissionDenied));
    assert_eq!(store.get_prefix(42), None);
    assert_eq!(store.record_count(), 0);
}

#[test]
fn administrator_sets_prefix() {
    let mut store = ConfigStore::new();
    let result = handle_set_prefix(&mut store, Some(42), ADMINISTRATOR, String::from("!!"));
    assert_eq!(result, Ok(()));
    assert_eq!(store.get_prefix(42), Some(String::from("!!")));
}

#[test]
fn set_prefix_outside_a_guild_is_rejected() {
    let mut store = ConfigStore::new();
    let result = handle_set_prefix(&mut store, None, ADMINISTRATOR, String::from("!!"));
    assert_eq!(result, Err(BotError::Validation));
    assert_eq!(store.record_count(), 0);
}

#[test]
fn administrator_still_bound_by_length_rule() {
    let mut store = ConfigStore::new();
    let result = handle_set_prefix(&mut store, Some(42), ADMINISTRATOR, String::from("elevenchars"));
    assert_eq!(result, Err(BotError::Validation));
    assert_eq!(store.get_prefix(42), None);
}

fn name_of(outcome: &RouteOutcome) -> &'static str {
    match outcome {
        RouteOutcome::Ignored => "Ignored",
        RouteOutcome::Denied => "Denied",
        RouteOutcome::Run { .. } => "Run",
    }
}
