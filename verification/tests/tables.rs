use sdkwork_settings::host::{delete_result, InputChecks, PoolKind, SettingsServiceHost};
use sdkwork_settings::error::ServiceError;
use sdkwork_settings::model::{ConfigLevel, SystemSetting, TenantConfig, UserPreference};
use sdkwork_settings::statement::{SettingsStatement, StatementOutcome};
use sdkwork_settings::tables::SettingsTables;

fn s(v: &str) -> String {
    v.to_string()
}

fn upsert_pref(id: i64, key: &str, value: &str, now: i64) -> SettingsStatement {
    SettingsStatement::UpsertUserPreference {
        id,
        tenant_id: s("t1"),
        user_id: s("u1"),
        namespace: s("ui"),
        key: s(key),
        value: s(value),
        value_type: s("string"),
        now,
        operator_id: s("me"),
    }
}

fn select_pref(key: &str) -> SettingsStatement {
    SettingsStatement::SelectUserPreference { tenant_id: s("t1"), user_id: s("u1"), namespace: s("ui"), key: s(key) }
}

fn prefs(out: StatementOutcome) -> Vec<UserPreference> {
    match out {
        StatementOutcome::UserPreferences(rows) => rows,
        other => panic!("unexpected {:?}", other),
    }
}

#[test]
fn read_after_write_user_preference() {
    let mut db = SettingsTables::new();
    let written = prefs(db.execute(&upsert_pref(10, "theme", "\"dark\"", 100)));
    assert_eq!(written.len(), 1);
    assert_eq!(written[0].id, 10);
    assert_eq!(written[0].created_at, 100);
    assert_eq!(written[0].updated_at, 100);
    assert_eq!(written[0].created_by, None);
    let read = prefs(db.execute(&select_pref("theme")));
    assert_eq!(read, written);
    assert_eq!(read[0].preference_value, "\"dark\"");
}

#[test]
fn upsert_on_existing_key_keeps_id_and_creation() {
    let mut db = SettingsTables::new();
    db.execute(&upsert_pref(10, "theme", "\"dark\"", 100));
    let second = prefs(db.execute(&upsert_pref(11, "theme", "\"light\"", 200)));
    assert_eq!(second[0].id, 10);
    assert_eq!(second[0].created_at, 100);
    assert_eq!(second[0].updated_at, 200);
    assert_eq!(second[0].preference_value, "\"light\"");
    let all = prefs(db.execute(&SettingsStatement::ListUserPreferences {
        tenant_id: s("t1"),
        user_id: s("u1"),
        namespace: s("ui"),
    }));
    assert_eq!(all.len(), 1);
}

#[test]
fn delete_then_read_and_delete_again() {
    let mut db = SettingsTables::new();
    db.execute(&upsert_pref(10, "theme", "1", 100));
    let del = SettingsStatement::DeleteUserPreference {
        id: 20,
        tenant_id: s("t1"),
        user_id: s("u1"),
        namespace: s("ui"),
        key: s("theme"),
        now: 5,
        operator_id: s("me"),
    };
    assert_eq!(db.execute(&del), StatementOutcome::RowsAffected(1));
    assert_eq!(prefs(db.execute(&select_pref("theme"))), vec![]);
    match db.execute(&del) {
        StatementOutcome::RowsAffected(n) => assert_eq!(delete_result(n), Err(ServiceError::NotFound)),
        other => panic!("unexpected {:?}", other),
    }
}

#[test]
fn list_gives_only_the_scope() {
    let mut db = SettingsTables::new();
    db.execute(&upsert_pref(1, "a", "1", 1));
    db.execute(&upsert_pref(2, "b", "2", 2));
    db.execute(&SettingsStatement::UpsertUserPreference {
        id: 3,
        tenant_id: s("t1"),
        user_id: s("u2"),
        namespace: s("ui"),
        key: s("a"),
        value: s("3"),
        value_type: s("number"),
        now: 3,
        operator_id: s("me"),
    });
    db.execute(&SettingsStatement::UpsertUserPreference {
        id: 4,
        tenant_id: s("t1"),
        user_id: s("u1"),
        namespace: s("editor"),
        key: s("a"),
        value: s("4"),
        value_type: s("number"),
        now: 4,
        operator_id: s("me"),
    });
    let listed = prefs(db.execute(&SettingsStatement::ListUserPreferences {
        tenant_id: s("t1"),
        user_id: s("u1"),
        namespace: s("ui"),
    }));
    let ids: Vec<i64> = listed.iter().map(|r| r.id).collect();
    assert_eq!(ids, vec![1, 2]);
}

#[test]
fn tenant_config_authors() {
    let mut db = SettingsTables::new();
    let up = |id: i64, value: &str, now: i64, op: &str| SettingsStatement::UpsertTenantConfig {
        id,
        tenant_id: s("t1"),
        namespace: s("billing"),
        key: s("currency"),
        value: s(value),
        value_type: s("string"),
        now,
        operator_id: s(op),
    };
    let first: Vec<TenantConfig> = match db.execute(&up(1, "\"EUR\"", 10, "alice")) {
        StatementOutcome::TenantConfigs(rows) => rows,
        other => panic!("unexpected {:?}", other),
    };
    assert_eq!(first[0].created_by, "alice");
    assert_eq!(first[0].updated_by, "alice");
    let second: Vec<TenantConfig> = match db.execute(&up(2, "\"USD\"", 20, "bob")) {
        StatementOutcome::TenantConfigs(rows) => rows,
        other => panic!("unexpected {:?}", other),
    };
    assert_eq!(second[0].id, 1);
    assert_eq!(second[0].created_by, "alice");
    assert_eq!(second[0].updated_by, "bob");
    assert_eq!(second[0].created_at, 10);
    assert_eq!(second[0].config_value, "\"USD\"");
    let sel = SettingsStatement::SelectTenantConfig { tenant_id: s("t1"), namespace: s("billing"), key: s("currency") };
    assert_eq!(db.execute(&sel), StatementOutcome::TenantConfigs(second));
    let del = SettingsStatement::DeleteTenantConfig {
        id: 21,
        tenant_id: s("t1"),
        namespace: s("billing"),
        key: s("currency"),
        now: 30,
        operator_id: s("carol"),
    };
    assert_eq!(db.execute(&del), StatementOutcome::RowsAffected(1));
    assert_eq!(db.execute(&del), StatementOutcome::RowsAffected(0));
}

#[test]
fn system_setting_scope_is_updated() {
    let mut db = SettingsTables::new();
    let up = |id: i64, scope: &str, scope_value: Option<&str>, now: i64| SettingsStatement::UpsertSystemSetting {
        id,
        namespace: s("mail"),
        key: s("sender"),
        value: s("\"noreply\""),
        value_type: s("string"),
        scope: s(scope),
        scope_value: scope_value.map(s),
        now,
        operator_id: s("root"),
    };
    db.execute(&up(1, "global", None, 5));
    let second: Vec<SystemSetting> = match db.execute(&up(2, "region", Some("eu"), 6)) {
        StatementOutcome::SystemSettings(rows) => rows,
        other => panic!("unexpected {:?}", other),
    };
    assert_eq!(second[0].id, 1);
    assert_eq!(second[0].scope, "region");
    assert_eq!(second[0].scope_value.as_deref(), Some("eu"));
    let listed = db.execute(&SettingsStatement::ListSystemSettings { namespace: s("mail") });
    assert_eq!(listed, StatementOutcome::SystemSettings(second));
    let listed = db.execute(&SettingsStatement::ListSystemSettings { namespace: s("other") });
    assert_eq!(listed, StatementOutcome::SystemSettings(vec![]));
}

#[test]
fn host_plans_run_in_process() {
    let host = SettingsServiceHost::new(PoolKind::Postgres, None, true);
    let checks = || InputChecks { namespace: Ok(()), key: Ok(()), value: Ok(()) };
    let mut db = SettingsTables::new();
    let write = host
        .update_user_preference_at(50, Ok(7), s("t"), s("u"), s("ns"), s("k"), s("42"), s("number"), s("op"), checks())
        .unwrap();
    db.execute(&write);
    let read = host.get_user_preference(s("t"), s("u"), s("ns"), s("k"), checks()).unwrap();
    let rows = prefs(db.execute(&read));
    assert_eq!(rows.len(), 1);
    assert_eq!(rows[0].preference_value, "42");
    assert_eq!(rows[0].id, 7);
    let delete = host.delete_user_preference_at(60, Ok(8), s("t"), s("u"), s("ns"), s("k"), s("op"), checks()).unwrap();
    match db.execute(&delete) {
        StatementOutcome::RowsAffected(n) => assert_eq!(delete_result(n), Ok(())),
        other => panic!("unexpected {:?}", other),
    }
}

#[test]
fn writes_are_recorded_in_the_history() {
    let mut db = SettingsTables::new();
    assert!(db.config_revisions().is_empty());
    db.execute(&upsert_pref(10, "theme", "\"dark\"", 100));
    db.execute(&upsert_pref(11, "theme", "\"light\"", 200));
    db.execute(&SettingsStatement::UpsertSystemSetting {
        id: 12,
        namespace: s("mail"),
        key: s("sender"),
        value: s("\"x\""),
        value_type: s("string"),
        scope: s("region"),
        scope_value: Some(s("eu")),
        now: 300,
        operator_id: s("root"),
    });
    db.execute(&select_pref("theme"));
    db.execute(&SettingsStatement::DeleteUserPreference {
        id: 13,
        tenant_id: s("t1"),
        user_id: s("u1"),
        namespace: s("ui"),
        key: s("theme"),
        now: 400,
        operator_id: s("me"),
    });
    db.execute(&SettingsStatement::DeleteSystemSetting {
        id: 14,
        namespace: s("mail"),
        key: s("missing"),
        now: 500,
        operator_id: s("root"),
    });
    let history = db.config_revisions();
    assert_eq!(history.len(), 4);
    assert_eq!(history[0].level, ConfigLevel::UserPreference);
    assert_eq!(history[0].config_value.as_deref(), Some("\"dark\""));
    assert_eq!(history[1].id, 11);
    assert_eq!(history[1].config_value.as_deref(), Some("\"light\""));
    assert_eq!(history[1].value_type.as_deref(), Some("string"));
    assert_eq!(history[1].changed_at, 200);
    assert_eq!(history[1].changed_by, "me");
    assert_eq!(history[1].tenant_id.as_deref(), Some("t1"));
    assert_eq!(history[1].user_id.as_deref(), Some("u1"));
    assert_eq!(history[2].level, ConfigLevel::SystemSetting);
    assert_eq!(history[2].tenant_id, None);
    assert_eq!(history[2].scope.as_deref(), Some("region"));
    assert_eq!(history[2].scope_value.as_deref(), Some("eu"));
    assert_eq!(history[2].changed_by, "root");
    assert_eq!(history[3].id, 13);
    assert_eq!(history[3].level, ConfigLevel::UserPreference);
    assert_eq!(history[3].config_key, "theme");
    assert_eq!(history[3].config_value, None);
    assert_eq!(history[3].value_type, None);
    assert_eq!(history[3].changed_at, 400);
}
