use sdkwork_settings::error::ServiceError;
use sdkwork_settings::host::{
    delete_result, requested_node_id, InputChecks, PoolKind, SettingsServiceHost, ID_FAILURE_PREFIX,
    POSTGRES_ONLY_MESSAGE,
};
use sdkwork_settings::statement::SettingsStatement;
use sdkwork_settings::text::parse_trimmed_u16;

fn ok_checks() -> InputChecks {
    InputChecks { namespace: Ok(()), key: Ok(()), value: Ok(()) }
}

fn s(v: &str) -> String {
    v.to_string()
}

#[test]
fn node_id_from_setting() {
    assert_eq!(SettingsServiceHost::new(PoolKind::Postgres, None, true).node_id(), 0);
    assert_eq!(SettingsServiceHost::new(PoolKind::Postgres, Some(" 42 "), true).node_id(), 42);
    assert_eq!(SettingsServiceHost::new(PoolKind::Postgres, Some("\t+7\n"), true).node_id(), 7);
    assert_eq!(SettingsServiceHost::new(PoolKind::Postgres, Some("70000"), true).node_id(), 0);
    assert_eq!(SettingsServiceHost::new(PoolKind::Postgres, Some("-1"), true).node_id(), 0);
    assert_eq!(SettingsServiceHost::new(PoolKind::Postgres, Some(""), true).node_id(), 0);
    assert_eq!(SettingsServiceHost::new(PoolKind::Postgres, Some("1 2"), true).node_id(), 0);
    assert_eq!(SettingsServiceHost::new(PoolKind::Sqlite, Some("\u{3000}5\u{a0}"), true).node_id(), 5);
    assert_eq!(SettingsServiceHost::new(PoolKind::Sqlite, None, true).pool(), PoolKind::Sqlite);
}

#[test]
fn parse_matches_std() {
    for text in ["0", "65535", "65536", "+", "+12", "-0", "00042", "a1", "1a", "", " 9 ", "99999999999"] {
        assert_eq!(parse_trimmed_u16(text), text.trim().parse::<u16>().ok(), "{:?}", text);
    }
}

#[test]
fn get_plans_select_statement() {
    let host = SettingsServiceHost::new(PoolKind::Postgres, None, true);
    let r = host.get_user_preference(s("t1"), s("u1"), s("ui"), s("theme"), ok_checks());
    assert_eq!(
        r,
        Ok(SettingsStatement::SelectUserPreference {
            tenant_id: s("t1"),
            user_id: s("u1"),
            namespace: s("ui"),
            key: s("theme"),
        })
    );
}

#[test]
fn namespace_is_checked_before_key() {
    let host = SettingsServiceHost::new(PoolKind::Sqlite, None, true);
    let checks = InputChecks { namespace: Err(s("bad namespace")), key: Err(s("bad key")), value: Ok(()) };
    let r = host.get_tenant_config(s("t1"), s("ns"), s("k"), checks);
    assert_eq!(r, Err(ServiceError::Validation(s("bad namespace"))));
    let checks = InputChecks { namespace: Ok(()), key: Err(s("bad key")), value: Err(s("too big")) };
    let r = host.delete_system_setting(Ok(1), s("ns"), s("k"), s("op"), checks);
    assert_eq!(r, Err(ServiceError::Validation(s("bad key"))));
}

#[test]
fn list_checks_only_namespace() {
    let host = SettingsServiceHost::new(PoolKind::Postgres, None, true);
    let checks = InputChecks { namespace: Ok(()), key: Err(s("ignored")), value: Err(s("ignored")) };
    let r = host.list_system_settings(s("ns"), checks);
    assert_eq!(r, Ok(SettingsStatement::ListSystemSettings { namespace: s("ns") }));
}

#[test]
fn non_postgres_pool_is_refused() {
    let host = SettingsServiceHost::new(PoolKind::Sqlite, None, true);
    let r = host.list_user_preferences(s("t"), s("u"), s("ns"), ok_checks());
    assert_eq!(r, Err(ServiceError::Database(s(POSTGRES_ONLY_MESSAGE))));
    let r = host.update_tenant_config(Ok(5), s("t"), s("ns"), s("k"), s("1"), s("number"), s("op"), ok_checks());
    assert_eq!(r, Err(ServiceError::Database(s(POSTGRES_ONLY_MESSAGE))));
}

#[test]
fn value_size_checked_on_writes() {
    let host = SettingsServiceHost::new(PoolKind::Postgres, None, true);
    let checks = InputChecks { namespace: Ok(()), key: Ok(()), value: Err(s("value too large")) };
    let r = host.update_user_preference(Ok(1), s("t"), s("u"), s("ns"), s("k"), s("\"x\""), s("string"), s("op"), checks);
    assert_eq!(r, Err(ServiceError::Validation(s("value too large"))));
}

#[test]
fn id_failure_is_internal_error() {
    let host = SettingsServiceHost::new(PoolKind::Sqlite, None, true);
    let r = host.update_system_setting(
        Err(s("ClockMovedBackwards")),
        s("ns"),
        s("k"),
        s("true"),
        s("boolean"),
        s("global"),
        None,
        s("op"),
        ok_checks(),
    );
    assert_eq!(r, Err(ServiceError::Internal(format!("{}ClockMovedBackwards", ID_FAILURE_PREFIX))));
    assert_eq!(host.next_id(Ok(77)), Ok(77));
}

#[test]
fn update_at_fixes_the_instant() {
    let host = SettingsServiceHost::new(PoolKind::Postgres, None, true);
    let r = host.update_system_setting_at(
        1_700_000_000_000_000,
        Ok(9),
        s("ns"),
        s("k"),
        s("true"),
        s("boolean"),
        s("region"),
        Some(s("eu")),
        s("admin"),
        ok_checks(),
    );
    assert_eq!(
        r,
        Ok(SettingsStatement::UpsertSystemSetting {
            id: 9,
            namespace: s("ns"),
            key: s("k"),
            value: s("true"),
            value_type: s("boolean"),
            scope: s("region"),
            scope_value: Some(s("eu")),
            now: 1_700_000_000_000_000,
            operator_id: s("admin"),
        })
    );
}

#[test]
fn update_uses_the_current_instant() {
    let host = SettingsServiceHost::new(PoolKind::Postgres, None, true);
    let r = host.update_user_preference(Ok(3), s("t"), s("u"), s("ns"), s("k"), s("1"), s("number"), s("op"), ok_checks());
    match r {
        Ok(SettingsStatement::UpsertUserPreference { id, now, .. }) => {
            assert_eq!(id, 3);
            // after 2020-01-01T00:00:00Z
            assert!(now > 1_577_836_800_000_000);
        }
        other => panic!("unexpected {:?}", other),
    }
}

#[test]
fn delete_result_maps_zero_rows_to_not_found() {
    assert_eq!(delete_result(0), Err(ServiceError::NotFound));
    assert_eq!(delete_result(1), Ok(()));
}

#[test]
fn node_falls_back_to_zero_when_refused() {
    assert_eq!(requested_node_id(Some(" 42 ")), 42);
    assert_eq!(requested_node_id(Some("x")), 0);
    assert_eq!(SettingsServiceHost::new(PoolKind::Postgres, Some("42"), false).node_id(), 0);
    assert_eq!(SettingsServiceHost::new(PoolKind::Postgres, Some("42"), true).node_id(), 42);
}

#[test]
fn refusal_message_text() {
    assert_eq!(
        POSTGRES_ONLY_MESSAGE,
        "settings service requires a PostgreSQL pool (DATABASE_SPEC: authoritative-server persistence is PostgreSQL only)"
    );
}

#[test]
fn all_pass_needs_every_check() {
    let checks = InputChecks { namespace: Ok(()), key: Ok(()), value: Ok(()) };
    assert!(checks.all_pass());
    let checks = InputChecks { namespace: Ok(()), key: Ok(()), value: Err(s("big")) };
    assert!(!checks.all_pass());
}

#[test]
fn failed_update_does_not_need_the_clock() {
    let host = SettingsServiceHost::new(PoolKind::Postgres, None, true);
    let r = host.update_tenant_config(Err(s("gen")), s("t"), s("ns"), s("k"), s("1"), s("number"), s("op"), ok_checks());
    assert_eq!(r, Err(ServiceError::Internal(format!("{}gen", ID_FAILURE_PREFIX))));
}

#[test]
fn delete_plans_a_recorded_removal() {
    let host = SettingsServiceHost::new(PoolKind::Postgres, None, true);
    let r = host.delete_tenant_config_at(77, Ok(5), s("t"), s("ns"), s("k"), s("admin"), ok_checks());
    assert_eq!(
        r,
        Ok(SettingsStatement::DeleteTenantConfig {
            id: 5,
            tenant_id: s("t"),
            namespace: s("ns"),
            key: s("k"),
            now: 77,
            operator_id: s("admin"),
        })
    );
    let r = host.delete_user_preference(Err(s("gen")), s("t"), s("u"), s("ns"), s("k"), s("me"), ok_checks());
    assert_eq!(r, Err(ServiceError::Internal(format!("{}gen", ID_FAILURE_PREFIX))));
    let host = SettingsServiceHost::new(PoolKind::Sqlite, None, true);
    let r = host.delete_system_setting(Ok(2), s("ns"), s("k"), s("op"), ok_checks());
    assert_eq!(r, Err(ServiceError::Database(s(POSTGRES_ONLY_MESSAGE))));
}

#[test]
fn clock_reads_after_2020() {
    let now = sdkwork_settings::clock::utc_now_micros().expect("clock readable");
    assert!(now > 1_577_836_800_000_000);
}
