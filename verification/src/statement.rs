//! The statements that the service host issues against its three tables:
//! their SQL text, their bound parameters in placeholder order, and what each
//! one does to the tables and answers.

use vstd::prelude::*;
use crate::binding::{binds_follow_sql, law_binds_follow_sql};
use crate::keyed::{has_key, index_of_key};
use crate::model::{
    ConfigLevel, ConfigRevision, clone_opt_string, preference_key, system_setting_key, tenant_config_key, PreferenceKey,
    SystemSetting, SystemSettingKey, TenantConfig, TenantConfigKey, UserPreference,
};

verus! {

/// One statement against the settings tables, with the values it binds.
/// Values are JSON text; `now` is the instant of a write or removal in
/// microseconds, `id` the id of its change history entry (and of a new row).
#[derive(Debug, PartialEq, Eq)]
pub enum SettingsStatement {
    SelectUserPreference { tenant_id: String, user_id: String, namespace: String, key: String },
    ListUserPreferences { tenant_id: String, user_id: String, namespace: String },
    UpsertUserPreference {
        id: i64,
        tenant_id: String,
        user_id: String,
        namespace: String,
        key: String,
        value: String,
        value_type: String,
        now: i64,
        operator_id: String,
    },
    DeleteUserPreference {
        id: i64,
        tenant_id: String,
        user_id: String,
        namespace: String,
        key: String,
        now: i64,
        operator_id: String,
    },
    SelectTenantConfig { tenant_id: String, namespace: String, key: String },
    ListTenantConfigs { tenant_id: String, namespace: String },
    UpsertTenantConfig {
        id: i64,
        tenant_id: String,
        namespace: String,
        key: String,
        value: String,
        value_type: String,
        now: i64,
        operator_id: String,
    },
    DeleteTenantConfig {
        id: i64,
        tenant_id: String,
        namespace: String,
        key: String,
        now: i64,
        operator_id: String,
    },
    SelectSystemSetting { namespace: String, key: String },
    ListSystemSettings { namespace: String },
    UpsertSystemSetting {
        id: i64,
        namespace: String,
        key: String,
        value: String,
        value_type: String,
        scope: String,
        scope_value: Option<String>,
        now: i64,
        operator_id: String,
    },
    DeleteSystemSetting { id: i64, namespace: String, key: String, now: i64, operator_id: String },
}

/// A value bound to a placeholder.
#[derive(Debug, PartialEq, Eq)]
pub enum SqlParam {
    BigInt(i64),
    Text(String),
    /// JSON text, bound as a JSON value.
    Json(String),
    /// Microseconds since the Unix epoch, bound as a UTC timestamp.
    Timestamp(i64),
    NullableText(Option<String>),
}

/// What a statement answers: the rows it returns, or how many rows it removed.
#[derive(Debug, PartialEq, Eq)]
pub enum StatementOutcome {
    UserPreferences(Vec<UserPreference>),
    TenantConfigs(Vec<TenantConfig>),
    SystemSettings(Vec<SystemSetting>),
    RowsAffected(u64),
}

/// Mathematical value of a [`StatementOutcome`].
pub enum OutcomeData {
    UserPreferences(Seq<UserPreference>),
    TenantConfigs(Seq<TenantConfig>),
    SystemSettings(Seq<SystemSetting>),
    RowsAffected(nat),
}

impl View for StatementOutcome {
    type V = OutcomeData;

    open spec fn view(&self) -> OutcomeData {
        match self {
            StatementOutcome::UserPreferences(v) => OutcomeData::UserPreferences(v@),
            StatementOutcome::TenantConfigs(v) => OutcomeData::TenantConfigs(v@),
            StatementOutcome::SystemSettings(v) => OutcomeData::SystemSettings(v@),
            StatementOutcome::RowsAffected(n) => OutcomeData::RowsAffected(*n as nat),
        }
    }
}

/// The contents of the three tables.
pub struct SettingsData {
    pub user_preferences: Seq<UserPreference>,
    pub tenant_configs: Seq<TenantConfig>,
    pub system_settings: Seq<SystemSetting>,
    /// The configuration change history, oldest first.
    pub config_revisions: Seq<ConfigRevision>,
}

pub open spec fn preference_key_fn() -> spec_fn(UserPreference) -> PreferenceKey {
    |r: UserPreference| preference_key(r)
}

pub open spec fn tenant_config_key_fn() -> spec_fn(TenantConfig) -> TenantConfigKey {
    |r: TenantConfig| tenant_config_key(r)
}

pub open spec fn system_setting_key_fn() -> spec_fn(SystemSetting) -> SystemSettingKey {
    |r: SystemSetting| system_setting_key(r)
}

/// The row with key `k`, as a sequence of at most one row.
pub open spec fn select_by_key<R, K>(rows: Seq<R>, key: spec_fn(R) -> K, k: K) -> Seq<R> {
    if has_key(rows, key, k) {
        seq![rows[index_of_key(rows, key, k)]]
    } else {
        Seq::empty()
    }
}

/// The row written by an upsert of a user preference: on a key that exists,
/// the row keeps its id, key, creation instant and authors and takes the new
/// value, value type and update instant; otherwise a new row.
pub open spec fn upserted_user_preference(
    rows: Seq<UserPreference>,
    id: i64,
    tenant_id: String,
    user_id: String,
    namespace: String,
    key: String,
    value: String,
    value_type: String,
    now: i64,
) -> UserPreference {
    let k = (tenant_id@, user_id@, namespace@, key@);
    if has_key(rows, preference_key_fn(), k) {
        let old = rows[index_of_key(rows, preference_key_fn(), k)];
        UserPreference { preference_value: value, value_type, updated_at: now, ..old }
    } else {
        UserPreference {
            id,
            tenant_id,
            user_id,
            namespace,
            preference_key: key,
            preference_value: value,
            value_type,
            created_at: now,
            updated_at: now,
            created_by: None,
            updated_by: None,
        }
    }
}

/// The row written by an upsert of a tenant configuration entry: on a key
/// that exists, the row keeps its id, key, creation instant and creator and
/// takes the new value, value type, update instant and updater; otherwise a
/// new row created and updated by the operator.
pub open spec fn upserted_tenant_config(
    rows: Seq<TenantConfig>,
    id: i64,
    tenant_id: String,
    namespace: String,
    key: String,
    value: String,
    value_type: String,
    now: i64,
    operator_id: String,
) -> TenantConfig {
    let k = (tenant_id@, namespace@, key@);
    if has_key(rows, tenant_config_key_fn(), k) {
        let old = rows[index_of_key(rows, tenant_config_key_fn(), k)];
        TenantConfig {
            config_value: value,
            value_type,
            updated_at: now,
            updated_by: operator_id,
            ..old
        }
    } else {
        TenantConfig {
            id,
            tenant_id,
            namespace,
            config_key: key,
            config_value: value,
            value_type,
            created_at: now,
            updated_at: now,
            created_by: operator_id,
            updated_by: operator_id,
        }
    }
}

/// The row written by an upsert of a system setting: on a key that exists,
/// the row keeps its id, key, creation instant and creator and takes the new
/// value, value type, scope, scope value, update instant and updater;
/// otherwise a new row created and updated by the operator.
pub open spec fn upserted_system_setting(
    rows: Seq<SystemSetting>,
    id: i64,
    namespace: String,
    key: String,
    value: String,
    value_type: String,
    scope: String,
    scope_value: Option<String>,
    now: i64,
    operator_id: String,
) -> SystemSetting {
    let k = (namespace@, key@);
    if has_key(rows, system_setting_key_fn(), k) {
        let old = rows[index_of_key(rows, system_setting_key_fn(), k)];
        SystemSetting {
            setting_value: value,
            value_type,
            scope,
            scope_value,
            updated_at: now,
            updated_by: operator_id,
            ..old
        }
    } else {
        SystemSetting {
            id,
            namespace,
            setting_key: key,
            setting_value: value,
            value_type,
            scope,
            scope_value,
            created_at: now,
            updated_at: now,
            created_by: operator_id,
            updated_by: operator_id,
        }
    }
}

/// Writes `r` in place of the row with the same key, or appends it.
pub open spec fn write_row<R, K>(rows: Seq<R>, key: spec_fn(R) -> K, r: R) -> Seq<R> {
    if has_key(rows, key, key(r)) {
        rows.update(index_of_key(rows, key, key(r)), r)
    } else {
        rows.push(r)
    }
}

/// Removes the row with key `k`, if there is one.
pub open spec fn delete_row<R, K>(rows: Seq<R>, key: spec_fn(R) -> K, k: K) -> Seq<R> {
    if has_key(rows, key, k) {
        rows.remove(index_of_key(rows, key, k))
    } else {
        rows
    }
}

/// Number of rows that a delete of key `k` removes.
pub open spec fn delete_count<R, K>(rows: Seq<R>, key: spec_fn(R) -> K, k: K) -> nat {
    if has_key(rows, key, k) {
        1
    } else {
        0
    }
}

/// The user preferences of one user in one namespace.
pub open spec fn user_preferences_in(
    rows: Seq<UserPreference>,
    tenant_id: Seq<char>,
    user_id: Seq<char>,
    namespace: Seq<char>,
) -> Seq<UserPreference> {
    rows.filter(in_user_namespace(tenant_id, user_id, namespace))
}

/// Whether a user preference belongs to the given user and namespace.
pub open spec fn in_user_namespace(tenant_id: Seq<char>, user_id: Seq<char>, namespace: Seq<char>) -> spec_fn(
    UserPreference,
) -> bool {
    |r: UserPreference| r.tenant_id@ == tenant_id && r.user_id@ == user_id && r.namespace@ == namespace
}

/// The configuration entries of one tenant in one namespace.
pub open spec fn tenant_configs_in(
    rows: Seq<TenantConfig>,
    tenant_id: Seq<char>,
    namespace: Seq<char>,
) -> Seq<TenantConfig> {
    rows.filter(in_tenant_namespace(tenant_id, namespace))
}

/// Whether a configuration entry belongs to the given tenant and namespace.
pub open spec fn in_tenant_namespace(tenant_id: Seq<char>, namespace: Seq<char>) -> spec_fn(
    TenantConfig,
) -> bool {
    |r: TenantConfig| r.tenant_id@ == tenant_id && r.namespace@ == namespace
}

/// The system settings in one namespace.
pub open spec fn system_settings_in(rows: Seq<SystemSetting>, namespace: Seq<char>) -> Seq<
    SystemSetting,
> {
    rows.filter(in_system_namespace(namespace))
}

/// Whether a system setting belongs to the given namespace.
pub open spec fn in_system_namespace(namespace: Seq<char>) -> spec_fn(SystemSetting) -> bool {
    |r: SystemSetting| r.namespace@ == namespace
}

/// The history entry of an upsert of a user preference.
pub open spec fn user_preference_revision(
    id: i64,
    tenant_id: String,
    user_id: String,
    namespace: String,
    key: String,
    value: String,
    value_type: String,
    now: i64,
    operator_id: String,
) -> ConfigRevision {
    ConfigRevision {
        id,
        level: ConfigLevel::UserPreference,
        tenant_id: Some(tenant_id),
        user_id: Some(user_id),
        namespace,
        config_key: key,
        config_value: Some(value),
        value_type: Some(value_type),
        scope: None,
        scope_value: None,
        changed_by: operator_id,
        changed_at: now,
    }
}

/// The history entry of an upsert of a tenant configuration entry.
pub open spec fn tenant_config_revision(
    id: i64,
    tenant_id: String,
    namespace: String,
    key: String,
    value: String,
    value_type: String,
    now: i64,
    operator_id: String,
) -> ConfigRevision {
    ConfigRevision {
        id,
        level: ConfigLevel::TenantConfig,
        tenant_id: Some(tenant_id),
        user_id: None,
        namespace,
        config_key: key,
        config_value: Some(value),
        value_type: Some(value_type),
        scope: None,
        scope_value: None,
        changed_by: operator_id,
        changed_at: now,
    }
}

/// The history entry of an upsert of a system setting.
pub open spec fn system_setting_revision(
    id: i64,
    namespace: String,
    key: String,
    value: String,
    value_type: String,
    scope: String,
    scope_value: Option<String>,
    now: i64,
    operator_id: String,
) -> ConfigRevision {
    ConfigRevision {
        id,
        level: ConfigLevel::SystemSetting,
        tenant_id: None,
        user_id: None,
        namespace,
        config_key: key,
        config_value: Some(value),
        value_type: Some(value_type),
        scope: Some(scope),
        scope_value,
        changed_by: operator_id,
        changed_at: now,
    }
}

/// The history entry of the removal of user preference `r`.
pub open spec fn removed_user_preference_revision(
    id: i64,
    r: UserPreference,
    now: i64,
    operator_id: String,
) -> ConfigRevision {
    ConfigRevision {
        id,
        level: ConfigLevel::UserPreference,
        tenant_id: Some(r.tenant_id),
        user_id: Some(r.user_id),
        namespace: r.namespace,
        config_key: r.preference_key,
        config_value: None,
        value_type: None,
        scope: None,
        scope_value: None,
        changed_by: operator_id,
        changed_at: now,
    }
}

/// The history entry of the removal of tenant configuration entry `r`.
pub open spec fn removed_tenant_config_revision(
    id: i64,
    r: TenantConfig,
    now: i64,
    operator_id: String,
) -> ConfigRevision {
    ConfigRevision {
        id,
        level: ConfigLevel::TenantConfig,
        tenant_id: Some(r.tenant_id),
        user_id: None,
        namespace: r.namespace,
        config_key: r.config_key,
        config_value: None,
        value_type: None,
        scope: None,
        scope_value: None,
        changed_by: operator_id,
        changed_at: now,
    }
}

/// The history entry of the removal of system setting `r`.
pub open spec fn removed_system_setting_revision(
    id: i64,
    r: SystemSetting,
    now: i64,
    operator_id: String,
) -> ConfigRevision {
    ConfigRevision {
        id,
        level: ConfigLevel::SystemSetting,
        tenant_id: None,
        user_id: None,
        namespace: r.namespace,
        config_key: r.setting_key,
        config_value: None,
        value_type: None,
        scope: Some(r.scope),
        scope_value: r.scope_value,
        changed_by: operator_id,
        changed_at: now,
    }
}

/// The change history after a removal of key `k`: one entry more where a row
/// was removed.
pub open spec fn history_after_delete<R, K>(
    history: Seq<ConfigRevision>,
    rows: Seq<R>,
    key: spec_fn(R) -> K,
    k: K,
    entry: spec_fn(R) -> ConfigRevision,
) -> Seq<ConfigRevision> {
    if has_key(rows, key, k) {
        history.push(entry(rows[index_of_key(rows, key, k)]))
    } else {
        history
    }
}

/// What a statement does to the tables, and what it answers.
pub open spec fn apply_statement(db: SettingsData, st: SettingsStatement) -> (SettingsData, OutcomeData) {
    let up = db.user_preferences;
    let tc = db.tenant_configs;
    let ss = db.system_settings;
    match st {
        SettingsStatement::SelectUserPreference { tenant_id, user_id, namespace, key } => (
            db,
            OutcomeData::UserPreferences(
                select_by_key(up, preference_key_fn(), (tenant_id@, user_id@, namespace@, key@)),
            ),
        ),
        SettingsStatement::ListUserPreferences { tenant_id, user_id, namespace } => (
            db,
            OutcomeData::UserPreferences(
                user_preferences_in(up, tenant_id@, user_id@, namespace@),
            ),
        ),
        SettingsStatement::UpsertUserPreference {
            id,
            tenant_id,
            user_id,
            namespace,
            key,
            value,
            value_type,
            now,
            operator_id,
        } => {
            let revision = user_preference_revision(
                id,
                tenant_id,
                user_id,
                namespace,
                key,
                value,
                value_type,
                now,
                operator_id,
            );
            let r = upserted_user_preference(
                up,
                id,
                tenant_id,
                user_id,
                namespace,
                key,
                value,
                value_type,
                now,
            );
            (
                SettingsData {
                    user_preferences: write_row(up, preference_key_fn(), r),
                    config_revisions: db.config_revisions.push(revision),
                    ..db
                },
                OutcomeData::UserPreferences(seq![r]),
            )
        },
        SettingsStatement::DeleteUserPreference { id, tenant_id, user_id, namespace, key, now, operator_id } => {
            let k = (tenant_id@, user_id@, namespace@, key@);
            (
                SettingsData {
                    user_preferences: delete_row(up, preference_key_fn(), k),
                    config_revisions: history_after_delete(
                        db.config_revisions,
                        up,
                        preference_key_fn(),
                        k,
                        |r: UserPreference| removed_user_preference_revision(id, r, now, operator_id),
                    ),
                    ..db
                },
                OutcomeData::RowsAffected(delete_count(up, preference_key_fn(), k)),
            )
        },
        SettingsStatement::SelectTenantConfig { tenant_id, namespace, key } => (
            db,
            OutcomeData::TenantConfigs(
                select_by_key(tc, tenant_config_key_fn(), (tenant_id@, namespace@, key@)),
            ),
        ),
        SettingsStatement::ListTenantConfigs { tenant_id, namespace } => (
            db,
            OutcomeData::TenantConfigs(tenant_configs_in(tc, tenant_id@, namespace@)),
        ),
        SettingsStatement::UpsertTenantConfig {
            id,
            tenant_id,
            namespace,
            key,
            value,
            value_type,
            now,
            operator_id,
        } => {
            let revision = tenant_config_revision(
                id,
                tenant_id,
                namespace,
                key,
                value,
                value_type,
                now,
                operator_id,
            );
            let r = upserted_tenant_config(
                tc,
                id,
                tenant_id,
                namespace,
                key,
                value,
                value_type,
                now,
                operator_id,
            );
            (
                SettingsData {
                    tenant_configs: write_row(tc, tenant_config_key_fn(), r),
                    config_revisions: db.config_revisions.push(revision),
                    ..db
                },
                OutcomeData::TenantConfigs(seq![r]),
            )
        },
        SettingsStatement::DeleteTenantConfig { id, tenant_id, namespace, key, now, operator_id } => {
            let k = (tenant_id@, namespace@, key@);
            (
                SettingsData {
                    tenant_configs: delete_row(tc, tenant_config_key_fn(), k),
                    config_revisions: history_after_delete(
                        db.config_revisions,
                        tc,
                        tenant_config_key_fn(),
                        k,
                        |r: TenantConfig| removed_tenant_config_revision(id, r, now, operator_id),
                    ),
                    ..db
                },
                OutcomeData::RowsAffected(delete_count(tc, tenant_config_key_fn(), k)),
            )
        },
        SettingsStatement::SelectSystemSetting { namespace, key } => (
            db,
            OutcomeData::SystemSettings(
                select_by_key(ss, system_setting_key_fn(), (namespace@, key@)),
            ),
        ),
        SettingsStatement::ListSystemSettings { namespace } => (
            db,
            OutcomeData::SystemSettings(system_settings_in(ss, namespace@)),
        ),
        SettingsStatement::UpsertSystemSetting {
            id,
            namespace,
            key,
            value,
            value_type,
            scope,
            scope_value,
            now,
            operator_id,
        } => {
            let revision = system_setting_revision(
                id,
                namespace,
                key,
                value,
                value_type,
                scope,
                scope_value,
                now,
                operator_id,
            );
            let r = upserted_system_setting(
                ss,
                id,
                namespace,
                key,
                value,
                value_type,
                scope,
                scope_value,
                now,
                operator_id,
            );
            (
                SettingsData {
                    system_settings: write_row(ss, system_setting_key_fn(), r),
                    config_revisions: db.config_revisions.push(revision),
                    ..db
                },
                OutcomeData::SystemSettings(seq![r]),
            )
        },
        SettingsStatement::DeleteSystemSetting { id, namespace, key, now, operator_id } => {
            let k = (namespace@, key@);
            (
                SettingsData {
                    system_settings: delete_row(ss, system_setting_key_fn(), k),
                    config_revisions: history_after_delete(
                        db.config_revisions,
                        ss,
                        system_setting_key_fn(),
                        k,
                        |r: SystemSetting| removed_system_setting_revision(id, r, now, operator_id),
                    ),
                    ..db
                },
                OutcomeData::RowsAffected(delete_count(ss, system_setting_key_fn(), k)),
            )
        },
    }
}

/// SQL text of [`SettingsStatement::SelectUserPreference`].
pub const SELECT_USER_PREFERENCE_SQL: &'static str = "SELECT * FROM settings_user_preference WHERE tenant_id = $1 AND user_id = $2 AND namespace = $3 AND preference_key = $4";

/// SQL text of [`SettingsStatement::ListUserPreferences`].
pub const LIST_USER_PREFERENCES_SQL: &'static str = "SELECT * FROM settings_user_preference WHERE tenant_id = $1 AND user_id = $2 AND namespace = $3";

/// SQL text of [`SettingsStatement::UpsertUserPreference`].
pub const UPSERT_USER_PREFERENCE_SQL: &'static str = "WITH written AS (INSERT INTO settings_user_preference (id, tenant_id, user_id, namespace, preference_key, preference_value, value_type, created_at, updated_at) VALUES ($1, $2, $3, $4, $5, $6, $7, $8, $8) ON CONFLICT (tenant_id, user_id, namespace, preference_key) DO UPDATE SET preference_value = EXCLUDED.preference_value, value_type = EXCLUDED.value_type, updated_at = EXCLUDED.updated_at RETURNING *), revision AS (INSERT INTO settings_config_revision (id, config_level, tenant_id, user_id, namespace, config_key, config_value, value_type, scope, scope_value, changed_by, changed_at) VALUES ($1, 'user_preference', $2, $3, $4, $5, $6, $7, NULL, NULL, $9, $8)) SELECT * FROM written";

/// SQL text of [`SettingsStatement::DeleteUserPreference`].
pub const DELETE_USER_PREFERENCE_SQL: &'static str = "WITH removed AS (DELETE FROM settings_user_preference WHERE tenant_id = $1 AND user_id = $2 AND namespace = $3 AND preference_key = $4 RETURNING *), revision AS (INSERT INTO settings_config_revision (id, config_level, tenant_id, user_id, namespace, config_key, config_value, value_type, scope, scope_value, changed_by, changed_at) SELECT $5, 'user_preference', tenant_id, user_id, namespace, preference_key, NULL, NULL, NULL, NULL, $6, $7 FROM removed) SELECT COUNT(*) AS rows_affected FROM removed";

/// SQL text of [`SettingsStatement::SelectTenantConfig`].
pub const SELECT_TENANT_CONFIG_SQL: &'static str = "SELECT * FROM settings_tenant_config WHERE tenant_id = $1 AND namespace = $2 AND config_key = $3";

/// SQL text of [`SettingsStatement::ListTenantConfigs`].
pub const LIST_TENANT_CONFIGS_SQL: &'static str = "SELECT * FROM settings_tenant_config WHERE tenant_id = $1 AND namespace = $2";

/// SQL text of [`SettingsStatement::UpsertTenantConfig`].
pub const UPSERT_TENANT_CONFIG_SQL: &'static str = "WITH written AS (INSERT INTO settings_tenant_config (id, tenant_id, namespace, config_key, config_value, value_type, created_at, updated_at, created_by, updated_by) VALUES ($1, $2, $3, $4, $5, $6, $7, $7, $8, $8) ON CONFLICT (tenant_id, namespace, config_key) DO UPDATE SET config_value = EXCLUDED.config_value, value_type = EXCLUDED.value_type, updated_at = EXCLUDED.updated_at, updated_by = EXCLUDED.updated_by RETURNING *), revision AS (INSERT INTO settings_config_revision (id, config_level, tenant_id, user_id, namespace, config_key, config_value, value_type, scope, scope_value, changed_by, changed_at) VALUES ($1, 'tenant_config', $2, NULL, $3, $4, $5, $6, NULL, NULL, $8, $7)) SELECT * FROM written";

/// SQL text of [`SettingsStatement::DeleteTenantConfig`].
pub const DELETE_TENANT_CONFIG_SQL: &'static str = "WITH removed AS (DELETE FROM settings_tenant_config WHERE tenant_id = $1 AND namespace = $2 AND config_key = $3 RETURNING *), revision AS (INSERT INTO settings_config_revision (id, config_level, tenant_id, user_id, namespace, config_key, config_value, value_type, scope, scope_value, changed_by, changed_at) SELECT $4, 'tenant_config', tenant_id, NULL, namespace, config_key, NULL, NULL, NULL, NULL, $5, $6 FROM removed) SELECT COUNT(*) AS rows_affected FROM removed";

/// SQL text of [`SettingsStatement::SelectSystemSetting`].
pub const SELECT_SYSTEM_SETTING_SQL: &'static str = "SELECT * FROM settings_system_setting WHERE namespace = $1 AND setting_key = $2";

/// SQL text of [`SettingsStatement::ListSystemSettings`].
pub const LIST_SYSTEM_SETTINGS_SQL: &'static str = "SELECT * FROM settings_system_setting WHERE namespace = $1";

/// SQL text of [`SettingsStatement::UpsertSystemSetting`].
pub const UPSERT_SYSTEM_SETTING_SQL: &'static str = "WITH written AS (INSERT INTO settings_system_setting (id, namespace, setting_key, setting_value, value_type, scope, scope_value, created_at, updated_at, created_by, updated_by) VALUES ($1, $2, $3, $4, $5, $6, $7, $8, $8, $9, $9) ON CONFLICT (namespace, setting_key) DO UPDATE SET setting_value = EXCLUDED.setting_value, value_type = EXCLUDED.value_type, scope = EXCLUDED.scope, scope_value = EXCLUDED.scope_value, updated_at = EXCLUDED.updated_at, updated_by = EXCLUDED.updated_by RETURNING *), revision AS (INSERT INTO settings_config_revision (id, config_level, tenant_id, user_id, namespace, config_key, config_value, value_type, scope, scope_value, changed_by, changed_at) VALUES ($1, 'system_setting', NULL, NULL, $2, $3, $4, $5, $6, $7, $9, $8)) SELECT * FROM written";

/// SQL text of [`SettingsStatement::DeleteSystemSetting`].
pub const DELETE_SYSTEM_SETTING_SQL: &'static str = "WITH removed AS (DELETE FROM settings_system_setting WHERE namespace = $1 AND setting_key = $2 RETURNING *), revision AS (INSERT INTO settings_config_revision (id, config_level, tenant_id, user_id, namespace, config_key, config_value, value_type, scope, scope_value, changed_by, changed_at) SELECT $3, 'system_setting', NULL, NULL, namespace, setting_key, NULL, NULL, scope, scope_value, $4, $5 FROM removed) SELECT COUNT(*) AS rows_affected FROM removed";

/// SQL text of a statement.
pub open spec fn spec_sql(st: SettingsStatement) -> Seq<char> {
    match st {
        SettingsStatement::SelectUserPreference { .. } => SELECT_USER_PREFERENCE_SQL@,
        SettingsStatement::ListUserPreferences { .. } => LIST_USER_PREFERENCES_SQL@,
        SettingsStatement::UpsertUserPreference { .. } => UPSERT_USER_PREFERENCE_SQL@,
        SettingsStatement::DeleteUserPreference { .. } => DELETE_USER_PREFERENCE_SQL@,
        SettingsStatement::SelectTenantConfig { .. } => SELECT_TENANT_CONFIG_SQL@,
        SettingsStatement::ListTenantConfigs { .. } => LIST_TENANT_CONFIGS_SQL@,
        SettingsStatement::UpsertTenantConfig { .. } => UPSERT_TENANT_CONFIG_SQL@,
        SettingsStatement::DeleteTenantConfig { .. } => DELETE_TENANT_CONFIG_SQL@,
        SettingsStatement::SelectSystemSetting { .. } => SELECT_SYSTEM_SETTING_SQL@,
        SettingsStatement::ListSystemSettings { .. } => LIST_SYSTEM_SETTINGS_SQL@,
        SettingsStatement::UpsertSystemSetting { .. } => UPSERT_SYSTEM_SETTING_SQL@,
        SettingsStatement::DeleteSystemSetting { .. } => DELETE_SYSTEM_SETTING_SQL@,
    }
}

/// Values bound to the placeholders `$1`, `$2`, ... of a statement, in order.
pub open spec fn spec_binds(st: SettingsStatement) -> Seq<SqlParam> {
    match st {
        SettingsStatement::SelectUserPreference { tenant_id, user_id, namespace, key } => seq![
            SqlParam::Text(tenant_id),
            SqlParam::Text(user_id),
            SqlParam::Text(namespace),
            SqlParam::Text(key),
        ],
        SettingsStatement::ListUserPreferences { tenant_id, user_id, namespace } => seq![
            SqlParam::Text(tenant_id),
            SqlParam::Text(user_id),
            SqlParam::Text(namespace),
        ],
        SettingsStatement::UpsertUserPreference { id, tenant_id, user_id, namespace, key, value, value_type, now, operator_id } => seq![
            SqlParam::BigInt(id),
            SqlParam::Text(tenant_id),
            SqlParam::Text(user_id),
            SqlParam::Text(namespace),
            SqlParam::Text(key),
            SqlParam::Json(value),
            SqlParam::Text(value_type),
            SqlParam::Timestamp(now),
            SqlParam::Text(operator_id),
        ],
        SettingsStatement::DeleteUserPreference { id, tenant_id, user_id, namespace, key, now, operator_id } => seq![
            SqlParam::Text(tenant_id),
            SqlParam::Text(user_id),
            SqlParam::Text(namespace),
            SqlParam::Text(key),
            SqlParam::BigInt(id),
            SqlParam::Text(operator_id),
            SqlParam::Timestamp(now),
        ],
        SettingsStatement::SelectTenantConfig { tenant_id, namespace, key } => seq![
            SqlParam::Text(tenant_id),
            SqlParam::Text(namespace),
            SqlParam::Text(key),
        ],
        SettingsStatement::ListTenantConfigs { tenant_id, namespace } => seq![
            SqlParam::Text(tenant_id),
            SqlParam::Text(namespace),
        ],
        SettingsStatement::UpsertTenantConfig { id, tenant_id, namespace, key, value, value_type, now, operator_id } => seq![
            SqlParam::BigInt(id),
            SqlParam::Text(tenant_id),
            SqlParam::Text(namespace),
            SqlParam::Text(key),
            SqlParam::Json(value),
            SqlParam::Text(value_type),
            SqlParam::Timestamp(now),
            SqlParam::Text(operator_id),
        ],
        SettingsStatement::DeleteTenantConfig { id, tenant_id, namespace, key, now, operator_id } => seq![
            SqlParam::Text(tenant_id),
            SqlParam::Text(namespace),
            SqlParam::Text(key),
            SqlParam::BigInt(id),
            SqlParam::Text(operator_id),
            SqlParam::Timestamp(now),
        ],
        SettingsStatement::SelectSystemSetting { namespace, key } => seq![
            SqlParam::Text(namespace),
            SqlParam::Text(key),
        ],
        SettingsStatement::ListSystemSettings { namespace } => seq![
            SqlParam::Text(namespace),
        ],
        SettingsStatement::UpsertSystemSetting { id, namespace, key, value, value_type, scope, scope_value, now, operator_id } => seq![
            SqlParam::BigInt(id),
            SqlParam::Text(namespace),
            SqlParam::Text(key),
            SqlParam::Json(value),
            SqlParam::Text(value_type),
            SqlParam::Text(scope),
            SqlParam::NullableText(scope_value),
            SqlParam::Timestamp(now),
            SqlParam::Text(operator_id),
        ],
        SettingsStatement::DeleteSystemSetting { id, namespace, key, now, operator_id } => seq![
            SqlParam::Text(namespace),
            SqlParam::Text(key),
            SqlParam::BigInt(id),
            SqlParam::Text(operator_id),
            SqlParam::Timestamp(now),
        ],
    }
}

/// What the database may answer to a statement: the tables change, and the
/// statement answers, as [`apply_statement`] says, except that a list may
/// give its rows in any order, as the SQL of a list fixes none.
pub open spec fn statement_answers(
    db: SettingsData,
    st: SettingsStatement,
    after: SettingsData,
    out: OutcomeData,
) -> bool {
    let (spec_after, spec_out) = apply_statement(db, st);
    match st {
        SettingsStatement::ListUserPreferences { .. } => {
            &&& after == db
            &&& out matches OutcomeData::UserPreferences(rows) && spec_out matches OutcomeData::UserPreferences(
                expected,
            ) && rows.to_multiset() == expected.to_multiset()
        },
        SettingsStatement::ListTenantConfigs { .. } => {
            &&& after == db
            &&& out matches OutcomeData::TenantConfigs(rows) && spec_out matches OutcomeData::TenantConfigs(
                expected,
            ) && rows.to_multiset() == expected.to_multiset()
        },
        SettingsStatement::ListSystemSettings { .. } => {
            &&& after == db
            &&& out matches OutcomeData::SystemSettings(rows) && spec_out matches OutcomeData::SystemSettings(
                expected,
            ) && rows.to_multiset() == expected.to_multiset()
        },
        _ => after == spec_after && out == spec_out,
    }
}

/// The in-process run of [`apply_statement`] is one of the answers the
/// database may give.
pub proof fn lemma_apply_statement_answers(db: SettingsData, st: SettingsStatement)
    ensures
        statement_answers(db, st, apply_statement(db, st).0, apply_statement(db, st).1),
{
}

impl SettingsStatement {
    /// The SQL text of the statement.
    pub fn sql(&self) -> (s: &'static str)
        ensures
            s@ == spec_sql(*self),
    {
        match self {
            SettingsStatement::SelectUserPreference { .. } => SELECT_USER_PREFERENCE_SQL,
            SettingsStatement::ListUserPreferences { .. } => LIST_USER_PREFERENCES_SQL,
            SettingsStatement::UpsertUserPreference { .. } => UPSERT_USER_PREFERENCE_SQL,
            SettingsStatement::DeleteUserPreference { .. } => DELETE_USER_PREFERENCE_SQL,
            SettingsStatement::SelectTenantConfig { .. } => SELECT_TENANT_CONFIG_SQL,
            SettingsStatement::ListTenantConfigs { .. } => LIST_TENANT_CONFIGS_SQL,
            SettingsStatement::UpsertTenantConfig { .. } => UPSERT_TENANT_CONFIG_SQL,
            SettingsStatement::DeleteTenantConfig { .. } => DELETE_TENANT_CONFIG_SQL,
            SettingsStatement::SelectSystemSetting { .. } => SELECT_SYSTEM_SETTING_SQL,
            SettingsStatement::ListSystemSettings { .. } => LIST_SYSTEM_SETTINGS_SQL,
            SettingsStatement::UpsertSystemSetting { .. } => UPSERT_SYSTEM_SETTING_SQL,
            SettingsStatement::DeleteSystemSetting { .. } => DELETE_SYSTEM_SETTING_SQL,
        }
    }

    /// The values bound to its placeholders, in placeholder order: each is
    /// what the statement holds for a column that the SQL text names with
    /// that placeholder.
    pub fn binds(&self) -> (ps: Vec<SqlParam>)
        ensures
            ps@ == spec_binds(*self),
            binds_follow_sql(*self),
    {
        proof {
            law_binds_follow_sql(*self);
        }
        match self {
            SettingsStatement::SelectUserPreference { tenant_id, user_id, namespace, key } => {
                let mut ps: Vec<SqlParam> = Vec::new();
                ps.push(SqlParam::Text(tenant_id.clone()));
                ps.push(SqlParam::Text(user_id.clone()));
                ps.push(SqlParam::Text(namespace.clone()));
                ps.push(SqlParam::Text(key.clone()));
                assert(ps@ =~= spec_binds(*self));
                ps
            },
            SettingsStatement::ListUserPreferences { tenant_id, user_id, namespace } => {
                let mut ps: Vec<SqlParam> = Vec::new();
                ps.push(SqlParam::Text(tenant_id.clone()));
                ps.push(SqlParam::Text(user_id.clone()));
                ps.push(SqlParam::Text(namespace.clone()));
                assert(ps@ =~= spec_binds(*self));
                ps
            },
            SettingsStatement::UpsertUserPreference { id, tenant_id, user_id, namespace, key, value, value_type, now, operator_id } => {
                let mut ps: Vec<SqlParam> = Vec::new();
                ps.push(SqlParam::BigInt(*id));
                ps.push(SqlParam::Text(tenant_id.clone()));
                ps.push(SqlParam::Text(user_id.clone()));
                ps.push(SqlParam::Text(namespace.clone()));
                ps.push(SqlParam::Text(key.clone()));
                ps.push(SqlParam::Json(value.clone()));
                ps.push(SqlParam::Text(value_type.clone()));
                ps.push(SqlParam::Timestamp(*now));
                ps.push(SqlParam::Text(operator_id.clone()));
                assert(ps@ =~= spec_binds(*self));
                ps
            },
            SettingsStatement::DeleteUserPreference { id, tenant_id, user_id, namespace, key, now, operator_id } => {
                let mut ps: Vec<SqlParam> = Vec::new();
                ps.push(SqlParam::Text(tenant_id.clone()));
                ps.push(SqlParam::Text(user_id.clone()));
                ps.push(SqlParam::Text(namespace.clone()));
                ps.push(SqlParam::Text(key.clone()));
                ps.push(SqlParam::BigInt(*id));
                ps.push(SqlParam::Text(operator_id.clone()));
                ps.push(SqlParam::Timestamp(*now));
                assert(ps@ =~= spec_binds(*self));
                ps
            },
            SettingsStatement::SelectTenantConfig { tenant_id, namespace, key } => {
                let mut ps: Vec<SqlParam> = Vec::new();
                ps.push(SqlParam::Text(tenant_id.clone()));
                ps.push(SqlParam::Text(namespace.clone()));
                ps.push(SqlParam::Text(key.clone()));
                assert(ps@ =~= spec_binds(*self));
                ps
            },
            SettingsStatement::ListTenantConfigs { tenant_id, namespace } => {
                let mut ps: Vec<SqlParam> = Vec::new();
                ps.push(SqlParam::Text(tenant_id.clone()));
                ps.push(SqlParam::Text(namespace.clone()));
                assert(ps@ =~= spec_binds(*self));
                ps
            },
            SettingsStatement::UpsertTenantConfig { id, tenant_id, namespace, key, value, value_type, now, operator_id } => {
                let mut ps: Vec<SqlParam> = Vec::new();
                ps.push(SqlParam::BigInt(*id));
                ps.push(SqlParam::Text(tenant_id.clone()));
                ps.push(SqlParam::Text(namespace.clone()));
                ps.push(SqlParam::Text(key.clone()));
                ps.push(SqlParam::Json(value.clone()));
                ps.push(SqlParam::Text(value_type.clone()));
                ps.push(SqlParam::Timestamp(*now));
                ps.push(SqlParam::Text(operator_id.clone()));
                assert(ps@ =~= spec_binds(*self));
                ps
            },
            SettingsStatement::DeleteTenantConfig { id, tenant_id, namespace, key, now, operator_id } => {
                let mut ps: Vec<SqlParam> = Vec::new();
                ps.push(SqlParam::Text(tenant_id.clone()));
                ps.push(SqlParam::Text(namespace.clone()));
                ps.push(SqlParam::Text(key.clone()));
                ps.push(SqlParam::BigInt(*id));
                ps.push(SqlParam::Text(operator_id.clone()));
                ps.push(SqlParam::Timestamp(*now));
                assert(ps@ =~= spec_binds(*self));
                ps
            },
            SettingsStatement::SelectSystemSetting { namespace, key } => {
                let mut ps: Vec<SqlParam> = Vec::new();
                ps.push(SqlParam::Text(namespace.clone()));
                ps.push(SqlParam::Text(key.clone()));
                assert(ps@ =~= spec_binds(*self));
                ps
            },
            SettingsStatement::ListSystemSettings { namespace } => {
                let mut ps: Vec<SqlParam> = Vec::new();
                ps.push(SqlParam::Text(namespace.clone()));
                assert(ps@ =~= spec_binds(*self));
                ps
            },
            SettingsStatement::UpsertSystemSetting { id, namespace, key, value, value_type, scope, scope_value, now, operator_id } => {
                let mut ps: Vec<SqlParam> = Vec::new();
                ps.push(SqlParam::BigInt(*id));
                ps.push(SqlParam::Text(namespace.clone()));
                ps.push(SqlParam::Text(key.clone()));
                ps.push(SqlParam::Json(value.clone()));
                ps.push(SqlParam::Text(value_type.clone()));
                ps.push(SqlParam::Text(scope.clone()));
                ps.push(SqlParam::NullableText(clone_opt_string(scope_value)));
                ps.push(SqlParam::Timestamp(*now));
                ps.push(SqlParam::Text(operator_id.clone()));
                assert(ps@ =~= spec_binds(*self));
                ps
            },
            SettingsStatement::DeleteSystemSetting { id, namespace, key, now, operator_id } => {
                let mut ps: Vec<SqlParam> = Vec::new();
                ps.push(SqlParam::Text(namespace.clone()));
                ps.push(SqlParam::Text(key.clone()));
                ps.push(SqlParam::BigInt(*id));
                ps.push(SqlParam::Text(operator_id.clone()));
                ps.push(SqlParam::Timestamp(*now));
                assert(ps@ =~= spec_binds(*self));
                ps
            },
        }
    }
}

} // verus!
