use sdkwork_settings::statement::{
    SettingsStatement, SqlParam, UPSERT_SYSTEM_SETTING_SQL, UPSERT_TENANT_CONFIG_SQL, UPSERT_USER_PREFERENCE_SQL,
};

fn s(v: &str) -> String {
    v.to_string()
}

#[test]
fn select_sql_and_binds() {
    let st = SettingsStatement::SelectUserPreference { tenant_id: s("t"), user_id: s("u"), namespace: s("n"), key: s("k") };
    assert_eq!(
        st.sql(),
        "SELECT * FROM settings_user_preference WHERE tenant_id = $1 AND user_id = $2 AND namespace = $3 AND preference_key = $4"
    );
    assert_eq!(st.binds(), vec![SqlParam::Text(s("t")), SqlParam::Text(s("u")), SqlParam::Text(s("n")), SqlParam::Text(s("k"))]);
}

#[test]
fn upsert_tenant_config_binds_in_placeholder_order() {
    let st = SettingsStatement::UpsertTenantConfig {
        id: 8,
        tenant_id: s("t"),
        namespace: s("n"),
        key: s("k"),
        value: s("{\"a\":1}"),
        value_type: s("object"),
        now: 99,
        operator_id: s("op"),
    };
    assert_eq!(st.sql(), UPSERT_TENANT_CONFIG_SQL);
    assert!(st.sql().contains("VALUES ($1, $2, $3, $4, $5, $6, $7, $7, $8, $8)"));
    assert_eq!(
        st.binds(),
        vec![
            SqlParam::BigInt(8),
            SqlParam::Text(s("t")),
            SqlParam::Text(s("n")),
            SqlParam::Text(s("k")),
            SqlParam::Json(s("{\"a\":1}")),
            SqlParam::Text(s("object")),
            SqlParam::Timestamp(99),
            SqlParam::Text(s("op")),
        ]
    );
}

#[test]
fn upsert_system_setting_binds_scope_value() {
    let st = SettingsStatement::UpsertSystemSetting {
        id: 1,
        namespace: s("n"),
        key: s("k"),
        value: s("1"),
        value_type: s("number"),
        scope: s("global"),
        scope_value: None,
        now: 5,
        operator_id: s("op"),
    };
    let binds = st.binds();
    assert_eq!(binds.len(), 9);
    assert_eq!(binds[6], SqlParam::NullableText(None));
    assert_eq!(binds[7], SqlParam::Timestamp(5));
    assert!(st.sql().starts_with("WITH written AS (INSERT INTO settings_system_setting"));
    assert!(st.sql().contains("INSERT INTO settings_config_revision"));
    assert!(st.sql().ends_with("SELECT * FROM written"));
}

#[test]
fn delete_and_list_sql() {
    let del = SettingsStatement::DeleteSystemSetting { id: 3, namespace: s("n"), key: s("k"), now: 9, operator_id: s("op") };
    assert!(del.sql().starts_with("WITH removed AS (DELETE FROM settings_system_setting WHERE namespace = $1 AND setting_key = $2 RETURNING *)"));
    assert!(del.sql().contains("SELECT $3, 'system_setting', NULL, NULL, namespace, setting_key, NULL, NULL, scope, scope_value, $4, $5 FROM removed"));
    assert!(del.sql().ends_with("SELECT COUNT(*) AS rows_affected FROM removed"));
    assert_eq!(
        del.binds(),
        vec![SqlParam::Text(s("n")), SqlParam::Text(s("k")), SqlParam::BigInt(3), SqlParam::Text(s("op")), SqlParam::Timestamp(9)]
    );
    let list = SettingsStatement::ListTenantConfigs { tenant_id: s("t"), namespace: s("n") };
    assert_eq!(list.sql(), "SELECT * FROM settings_tenant_config WHERE tenant_id = $1 AND namespace = $2");
}

#[test]
fn upsert_user_preference_binds_operator() {
    let st = SettingsStatement::UpsertUserPreference {
        id: 1,
        tenant_id: s("t"),
        user_id: s("u"),
        namespace: s("n"),
        key: s("k"),
        value: s("1"),
        value_type: s("number"),
        now: 2,
        operator_id: s("op"),
    };
    let binds = st.binds();
    assert_eq!(binds.len(), 9);
    assert_eq!(binds[8], SqlParam::Text(s("op")));
    assert!(st.sql().contains("VALUES ($1, 'user_preference', $2, $3, $4, $5, $6, $7, NULL, NULL, $9, $8)"));
}

#[test]
fn upserts_on_conflict_keep_creation() {
    assert!(UPSERT_USER_PREFERENCE_SQL.contains(
        "DO UPDATE SET preference_value = EXCLUDED.preference_value, value_type = EXCLUDED.value_type, updated_at = EXCLUDED.updated_at RETURNING *"
    ));
    assert!(UPSERT_TENANT_CONFIG_SQL.contains(
        "DO UPDATE SET config_value = EXCLUDED.config_value, value_type = EXCLUDED.value_type, updated_at = EXCLUDED.updated_at, updated_by = EXCLUDED.updated_by RETURNING *"
    ));
    assert!(UPSERT_SYSTEM_SETTING_SQL.contains(
        "DO UPDATE SET setting_value = EXCLUDED.setting_value, value_type = EXCLUDED.value_type, scope = EXCLUDED.scope, scope_value = EXCLUDED.scope_value, updated_at = EXCLUDED.updated_at, updated_by = EXCLUDED.updated_by RETURNING *"
    ));
}
