use sponsor::error::SponsorError;
use sponsor::guard::{authorize, Caller};
use sponsor::model::Tier;
use sponsor::param::Param;
use sponsor::sponsor::Sponsor;
use sponsor::state::CanisterState;
use sponsor::table::Regions;

fn admin() -> Caller {
    Caller { identity: "owner".to_string(), is_controller: true }
}

fn service(name: &str) -> Caller {
    Caller { identity: name.to_string(), is_controller: false }
}

fn fresh_record() -> Param {
    Param { is_whitelisted: true, is_principal: false, last_use: 0, count: 0 }
}

fn key(text: &str) -> String {
    text.to_string()
}

/// A registry with the key "gpu-quota" whitelisted and "svc-A" a manager.
fn registry() -> Sponsor {
    let mut sponsor = Sponsor::new();
    assert_eq!(sponsor.whitelist_param(&admin(), key("gpu-quota"), fresh_record()), Ok(None));
    assert_eq!(sponsor.edit_manager_canister(&admin(), key("svc-A"), true), Ok(()));
    sponsor
}

#[test]
fn a_new_registry_has_no_records() {
    let sponsor = Sponsor::new();
    assert_eq!(sponsor.get_param(&key("gpu-quota")), None);
    assert!(!sponsor.is_param_whitelisted(&key("gpu-quota")));
    assert!(!sponsor.is_param_time_available(u64::MAX, &key("gpu-quota")));
    assert!(!sponsor.is_manager_canister(&key("svc-A")));
}

#[test]
fn a_key_never_whitelisted_has_no_record_after_other_calls() {
    let mut sponsor = registry();
    assert_eq!(sponsor.set_timer_limit(&admin(), 5), Ok(()));
    assert!(sponsor.log_param_usage(&service("svc-A"), 10, &key("gpu-quota")).is_ok());
    assert_eq!(
        sponsor.whitelist_param(&service("svc-A"), key("cpu-quota"), fresh_record()),
        Err(SponsorError::AccessDenied)
    );
    assert_eq!(
        sponsor.log_param_usage(&service("svc-A"), 11, &key("cpu-quota")),
        Err(SponsorError::UnknownParam)
    );
    assert_eq!(sponsor.get_param(&key("cpu-quota")), None);
    assert!(!sponsor.is_param_whitelisted(&key("cpu-quota")));
}

#[test]
fn whitelisting_stores_the_record_and_returns_the_earlier_one() {
    let mut sponsor = Sponsor::new();
    let first = Param { is_whitelisted: true, is_principal: true, last_use: 4, count: 2 };
    let second = Param { is_whitelisted: false, is_principal: false, last_use: 0, count: 0 };
    assert_eq!(sponsor.whitelist_param(&admin(), key("k"), first), Ok(None));
    assert_eq!(sponsor.get_param(&key("k")), Some(first));
    assert!(sponsor.is_param_whitelisted(&key("k")));
    assert_eq!(sponsor.whitelist_param(&admin(), key("k"), second), Ok(Some(first)));
    assert_eq!(sponsor.get_param(&key("k")), Some(second));
}

#[test]
fn a_record_that_says_not_whitelisted_is_not_whitelisted() {
    let mut sponsor = Sponsor::new();
    let record = Param { is_whitelisted: false, is_principal: false, last_use: 0, count: 0 };
    assert_eq!(sponsor.whitelist_param(&admin(), key("k"), record), Ok(None));
    assert_eq!(sponsor.get_param(&key("k")), Some(record));
    assert!(!sponsor.is_param_whitelisted(&key("k")));
}

#[test]
fn whitelisting_is_denied_to_anyone_but_the_administrator() {
    let mut sponsor = registry();
    let other = Param { is_whitelisted: false, is_principal: true, last_use: 9, count: 9 };
    // A manager is no administrator.
    assert_eq!(
        sponsor.whitelist_param(&service("svc-A"), key("gpu-quota"), other),
        Err(SponsorError::AccessDenied)
    );
    assert_eq!(
        sponsor.whitelist_param(&service("svc-B"), key("new-key"), other),
        Err(SponsorError::AccessDenied)
    );
    assert_eq!(sponsor.get_param(&key("gpu-quota")), Some(fresh_record()));
    assert_eq!(sponsor.get_param(&key("new-key")), None);
}

#[test]
fn whitelisting_refuses_a_key_that_is_too_long() {
    let mut sponsor = Sponsor::new();
    let long = "k".repeat(101);
    assert_eq!(
        sponsor.whitelist_param(&admin(), long.clone(), fresh_record()),
        Err(SponsorError::SizeExceeded)
    );
    assert_eq!(sponsor.get_param(&long), None);
    // The caller's tier is looked at first.
    assert_eq!(
        sponsor.whitelist_param(&service("svc-A"), long, fresh_record()),
        Err(SponsorError::AccessDenied)
    );
}

#[test]
fn delegation_is_granted_and_taken_back() {
    let mut sponsor = Sponsor::new();
    assert!(!sponsor.is_manager_canister(&key("svc-A")));
    assert_eq!(sponsor.edit_manager_canister(&admin(), key("svc-A"), true), Ok(()));
    assert!(sponsor.is_manager_canister(&key("svc-A")));
    assert_eq!(sponsor.edit_manager_canister(&admin(), key("svc-A"), true), Ok(()));
    assert!(sponsor.is_manager_canister(&key("svc-A")));
    assert_eq!(sponsor.edit_manager_canister(&admin(), key("svc-A"), false), Ok(()));
    assert!(!sponsor.is_manager_canister(&key("svc-A")));
    assert_eq!(sponsor.edit_manager_canister(&admin(), key("svc-A"), true), Ok(()));
    assert!(sponsor.is_manager_canister(&key("svc-A")));
    assert!(!sponsor.is_manager_canister(&key("svc-B")));
}

#[test]
fn delegation_is_denied_to_anyone_but_the_administrator() {
    let mut sponsor = registry();
    assert_eq!(
        sponsor.edit_manager_canister(&service("svc-A"), key("svc-B"), true),
        Err(SponsorError::AccessDenied)
    );
    assert!(!sponsor.is_manager_canister(&key("svc-B")));
    assert_eq!(
        sponsor.edit_manager_canister(&service("svc-B"), key("svc-A"), false),
        Err(SponsorError::AccessDenied)
    );
    assert!(sponsor.is_manager_canister(&key("svc-A")));
}

#[test]
fn logging_is_denied_to_anyone_but_a_manager() {
    let mut sponsor = registry();
    assert_eq!(
        sponsor.log_param_usage(&service("svc-B"), 10, &key("gpu-quota")),
        Err(SponsorError::AccessDenied)
    );
    // The administrator is no manager unless delegated to.
    assert_eq!(
        sponsor.log_param_usage(&admin(), 10, &key("gpu-quota")),
        Err(SponsorError::AccessDenied)
    );
    assert_eq!(sponsor.get_param(&key("gpu-quota")), Some(fresh_record()));
}

#[test]
fn logging_is_denied_after_the_delegation_was_taken_back() {
    let mut sponsor = registry();
    assert!(sponsor.log_param_usage(&service("svc-A"), 10, &key("gpu-quota")).is_ok());
    assert_eq!(sponsor.edit_manager_canister(&admin(), key("svc-A"), false), Ok(()));
    assert_eq!(
        sponsor.log_param_usage(&service("svc-A"), 11, &key("gpu-quota")),
        Err(SponsorError::AccessDenied)
    );
    let kept = Param { is_whitelisted: true, is_principal: false, last_use: 10, count: 1 };
    assert_eq!(sponsor.get_param(&key("gpu-quota")), Some(kept));
}

#[test]
fn logging_counts_one_use_and_sets_the_time() {
    let mut sponsor = registry();
    let first = Param { is_whitelisted: true, is_principal: false, last_use: 1_000, count: 1 };
    assert_eq!(sponsor.log_param_usage(&service("svc-A"), 1_000, &key("gpu-quota")), Ok(first));
    assert_eq!(sponsor.get_param(&key("gpu-quota")), Some(first));
}

#[test]
fn logging_is_not_held_back_by_the_cooldown() {
    let mut sponsor = registry();
    assert_eq!(sponsor.set_timer_limit(&admin(), 1_000_000), Ok(()));
    let mut before = fresh_record();
    for now in [5u64, 5, 6, 6, 7] {
        let after = sponsor.log_param_usage(&service("svc-A"), now, &key("gpu-quota")).unwrap();
        assert_eq!(after.count, before.count + 1);
        assert_eq!(after.last_use, now);
        assert!(after.last_use >= before.last_use);
        assert_eq!(after.is_whitelisted, before.is_whitelisted);
        assert_eq!(after.is_principal, before.is_principal);
        before = after;
    }
    assert_eq!(before.count, 5);
}

#[test]
fn logging_keeps_the_flags_of_the_record() {
    let mut sponsor = registry();
    let record = Param { is_whitelisted: false, is_principal: true, last_use: 3, count: 41 };
    assert_eq!(sponsor.whitelist_param(&admin(), key("id"), record), Ok(None));
    let after = Param { is_whitelisted: false, is_principal: true, last_use: 8, count: 42 };
    assert_eq!(sponsor.log_param_usage(&service("svc-A"), 8, &key("id")), Ok(after));
    assert_eq!(sponsor.get_param(&key("gpu-quota")), Some(fresh_record()));
}

#[test]
fn logging_an_unknown_key_fails_for_a_manager() {
    let mut sponsor = registry();
    assert_eq!(
        sponsor.log_param_usage(&service("svc-A"), 10, &key("missing")),
        Err(SponsorError::UnknownParam)
    );
    // A manager that is the administrator too gets the same answer.
    let both = Caller { identity: "svc-A".to_string(), is_controller: true };
    assert_eq!(
        sponsor.log_param_usage(&both, 10, &key("missing")),
        Err(SponsorError::UnknownParam)
    );
    assert_eq!(sponsor.get_param(&key("missing")), None);
}

#[test]
fn logging_an_unknown_key_is_denied_to_others_first() {
    let mut sponsor = registry();
    assert_eq!(
        sponsor.log_param_usage(&service("svc-B"), 10, &key("missing")),
        Err(SponsorError::AccessDenied)
    );
}

#[test]
fn logging_stops_at_the_largest_count() {
    let mut sponsor = registry();
    let full = Param { is_whitelisted: true, is_principal: false, last_use: 3, count: u32::MAX };
    let nearly = Param { count: u32::MAX - 1, ..full };
    assert_eq!(sponsor.whitelist_param(&admin(), key("full"), full), Ok(None));
    assert_eq!(sponsor.whitelist_param(&admin(), key("nearly"), nearly), Ok(None));
    assert_eq!(
        sponsor.log_param_usage(&service("svc-A"), 9, &key("full")),
        Err(SponsorError::CountExhausted)
    );
    assert_eq!(sponsor.get_param(&key("full")), Some(full));
    assert_eq!(
        sponsor.log_param_usage(&service("svc-A"), 9, &key("nearly")),
        Ok(Param { last_use: 9, ..full })
    );
}

#[test]
fn the_cooldown_counts_from_the_last_use() {
    let mut sponsor = registry();
    assert_eq!(sponsor.set_timer_limit(&admin(), 100), Ok(()));
    assert!(sponsor.log_param_usage(&service("svc-A"), 1_000, &key("gpu-quota")).is_ok());
    assert!(!sponsor.is_param_time_available(1_000, &key("gpu-quota")));
    assert!(!sponsor.is_param_time_available(1_099, &key("gpu-quota")));
    assert!(!sponsor.is_param_time_available(1_100, &key("gpu-quota")));
    assert!(sponsor.is_param_time_available(1_101, &key("gpu-quota")));
    assert!(sponsor.is_param_time_available(u64::MAX, &key("gpu-quota")));
}

#[test]
fn without_a_cooldown_any_later_time_is_available() {
    let mut sponsor = registry();
    assert!(sponsor.log_param_usage(&service("svc-A"), 1_000, &key("gpu-quota")).is_ok());
    assert!(!sponsor.is_param_time_available(1_000, &key("gpu-quota")));
    assert!(sponsor.is_param_time_available(1_001, &key("gpu-quota")));
}

#[test]
fn a_time_before_the_last_use_is_not_available() {
    let mut sponsor = registry();
    assert!(sponsor.log_param_usage(&service("svc-A"), 1_000, &key("gpu-quota")).is_ok());
    assert!(!sponsor.is_param_time_available(0, &key("gpu-quota")));
    assert!(!sponsor.is_param_time_available(999, &key("gpu-quota")));
}

#[test]
fn a_key_without_record_is_never_available() {
    let sponsor = registry();
    assert!(!sponsor.is_param_time_available(u64::MAX, &key("missing")));
}

#[test]
fn the_cooldown_is_set_by_the_administrator_only() {
    let mut sponsor = registry();
    assert_eq!(sponsor.set_timer_limit(&admin(), 50), Ok(()));
    assert_eq!(
        sponsor.set_timer_limit(&service("svc-A"), 0),
        Err(SponsorError::AccessDenied)
    );
    assert!(sponsor.log_param_usage(&service("svc-A"), 100, &key("gpu-quota")).is_ok());
    assert!(!sponsor.is_param_time_available(150, &key("gpu-quota")));
    assert!(sponsor.is_param_time_available(151, &key("gpu-quota")));
}

#[test]
fn is_controller_reports_the_caller() {
    let sponsor = registry();
    assert!(sponsor.is_controller(&admin()));
    assert!(!sponsor.is_controller(&service("svc-A")));
    assert!(!sponsor.is_controller(&service("owner")));
}

#[test]
fn the_guard_tells_the_tiers_apart() {
    let regions = Regions::new();
    let mut state = CanisterState::over(regions.managers, regions.limits);
    state.set_manager("svc-A".to_string(), true);
    state.set_manager("svc-C".to_string(), false);
    assert_eq!(authorize(&state, &admin(), Tier::Administrator), Ok(()));
    assert_eq!(authorize(&state, &admin(), Tier::Manager), Err(SponsorError::AccessDenied));
    assert_eq!(authorize(&state, &service("svc-A"), Tier::Manager), Ok(()));
    assert_eq!(
        authorize(&state, &service("svc-A"), Tier::Administrator),
        Err(SponsorError::AccessDenied)
    );
    assert_eq!(authorize(&state, &service("svc-B"), Tier::Manager), Err(SponsorError::AccessDenied));
    assert_eq!(authorize(&state, &service("svc-C"), Tier::Manager), Err(SponsorError::AccessDenied));
}

#[test]
fn three_logged_uses_in_a_row() {
    let mut sponsor = Sponsor::new();
    let record = Param { is_whitelisted: true, is_principal: false, last_use: 0, count: 0 };
    assert_eq!(sponsor.whitelist_param(&admin(), key("gpu-quota"), record), Ok(None));
    assert_eq!(sponsor.edit_manager_canister(&admin(), key("svc-A"), true), Ok(()));
    let caller = service("svc-A");
    assert!(sponsor.log_param_usage(&caller, 1_700_000_000_000_000_001, &key("gpu-quota")).is_ok());
    assert!(sponsor.log_param_usage(&caller, 1_700_000_000_000_000_002, &key("gpu-quota")).is_ok());
    assert!(sponsor.log_param_usage(&caller, 1_700_000_000_000_000_003, &key("gpu-quota")).is_ok());
    let last = sponsor.get_param(&key("gpu-quota")).unwrap();
    assert_eq!(last.count, 3);
    assert_eq!(last.last_use, 1_700_000_000_000_000_003);
    assert!(last.is_whitelisted);
    assert!(!last.is_principal);
}

#[test]
fn a_restart_keeps_records_managers_and_limits() {
    let mut sponsor = registry();
    assert_eq!(sponsor.set_timer_limit(&admin(), 100), Ok(()));
    assert_eq!(sponsor.edit_manager_canister(&admin(), key("svc-B"), false), Ok(()));
    assert!(sponsor.log_param_usage(&service("svc-A"), 1_000, &key("gpu-quota")).is_ok());
    let mut sponsor = sponsor.reopen();
    let kept = Param { is_whitelisted: true, is_principal: false, last_use: 1_000, count: 1 };
    assert_eq!(sponsor.get_param(&key("gpu-quota")), Some(kept));
    assert!(sponsor.is_manager_canister(&key("svc-A")));
    assert!(!sponsor.is_manager_canister(&key("svc-B")));
    assert!(!sponsor.is_param_time_available(1_100, &key("gpu-quota")));
    assert!(sponsor.is_param_time_available(1_101, &key("gpu-quota")));
    let next = Param { last_use: 2_000, count: 2, ..kept };
    assert_eq!(sponsor.log_param_usage(&service("svc-A"), 2_000, &key("gpu-quota")), Ok(next));
}

#[test]
fn an_opened_registry_over_empty_memory_is_new() {
    let mut sponsor = Sponsor::open();
    assert_eq!(sponsor.get_param(&key("gpu-quota")), None);
    assert!(!sponsor.is_manager_canister(&key("svc-A")));
    assert_eq!(sponsor.whitelist_param(&admin(), key("gpu-quota"), fresh_record()), Ok(None));
    assert_eq!(sponsor.get_param(&key("gpu-quota")), Some(fresh_record()));
}

#[test]
fn two_registries_do_not_share_their_records() {
    let mut first = Sponsor::new();
    let second = Sponsor::new();
    assert_eq!(first.whitelist_param(&admin(), key("k"), fresh_record()), Ok(None));
    assert_eq!(second.get_param(&key("k")), None);
}

#[test]
fn each_failure_has_its_reason() {
    assert_eq!(SponsorError::AccessDenied.reason(), "Access denied");
    assert_eq!(SponsorError::UnknownParam.reason(), "Param is not defined");
    assert_eq!(SponsorError::SizeExceeded.reason(), "Size exceeded");
    assert_eq!(SponsorError::CountExhausted.reason(), "Usage count exhausted");
    assert_eq!(SponsorError::TransportFailure.reason(), "Transport failure");
}
