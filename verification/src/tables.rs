//! The three settings tables held in process: they run a
//! [`SettingsStatement`] exactly as [`apply_statement`] says.

use vstd::prelude::*;
use crate::keyed::{
    has_key, index_of_key, lemma_keyed_map_at, lemma_keyed_map_push, lemma_keyed_map_remove,
    lemma_keyed_map_update, unique_keys,
};
use crate::model::{
    ConfigLevel, ConfigRevision, clone_opt_string, preference_key, system_setting_key, tenant_config_key, SystemSetting,
    TenantConfig, UserPreference,
};
use crate::statement::{
    apply_statement, statement_answers, lemma_apply_statement_answers, delete_count, system_setting_revision, tenant_config_revision,
    user_preference_revision, delete_row, preference_key_fn, select_by_key,
    system_setting_key_fn, system_settings_in, tenant_config_key_fn, tenant_configs_in,
    upserted_system_setting, upserted_tenant_config, upserted_user_preference,
    user_preferences_in, write_row, in_user_namespace, in_tenant_namespace, in_system_namespace,
    OutcomeData, SettingsData, SettingsStatement, StatementOutcome,
};

verus! {

broadcast use vstd::seq_lib::group_seq_properties;

/// No two rows of a table share their key.
pub open spec fn tables_well_formed(d: SettingsData) -> bool {
    &&& unique_keys(d.user_preferences, preference_key_fn())
    &&& unique_keys(d.tenant_configs, tenant_config_key_fn())
    &&& unique_keys(d.system_settings, system_setting_key_fn())
}

/// The user preference, tenant configuration and system setting tables.
pub struct SettingsTables {
    user_preferences: Vec<UserPreference>,
    tenant_configs: Vec<TenantConfig>,
    system_settings: Vec<SystemSetting>,
    config_revisions: Vec<ConfigRevision>,
}

impl View for SettingsTables {
    type V = SettingsData;

    closed spec fn view(&self) -> SettingsData {
        SettingsData {
            user_preferences: self.user_preferences@,
            tenant_configs: self.tenant_configs@,
            system_settings: self.system_settings@,
            config_revisions: self.config_revisions@,
        }
    }
}

fn find_user_preference(
    rows: &Vec<UserPreference>,
    tenant_id: &String,
    user_id: &String,
    namespace: &String,
    key: &String,
) -> (r: Option<usize>)
    ensures
        match r {
            Some(i) => i < rows@.len() && preference_key(rows@[i as int]) == (
                tenant_id@,
                user_id@,
                namespace@,
                key@,
            ),
            None => !has_key(rows@, preference_key_fn(), (tenant_id@, user_id@, namespace@, key@)),
        },
{
    let ghost k = (tenant_id@, user_id@, namespace@, key@);
    for i in 0..rows.len()
        invariant
            k == (tenant_id@, user_id@, namespace@, key@),
            forall|j: int| 0 <= j < i ==> preference_key(#[trigger] rows@[j]) != k,
    {
        let row = &rows[i];
        if row.tenant_id.eq(tenant_id) && row.user_id.eq(user_id) && row.namespace.eq(namespace)
            && row.preference_key.eq(key) {
            return Some(i);
        }

    }
    assert(!has_key(rows@, preference_key_fn(), k)) by {
        if has_key(rows@, preference_key_fn(), k) {
            let j = index_of_key(rows@, preference_key_fn(), k);
            assert(preference_key(rows@[j]) == k);
        }
    }
    None
}

fn find_tenant_config(
    rows: &Vec<TenantConfig>,
    tenant_id: &String,
    namespace: &String,
    key: &String,
) -> (r: Option<usize>)
    ensures
        match r {
            Some(i) => i < rows@.len() && tenant_config_key(rows@[i as int]) == (
                tenant_id@,
                namespace@,
                key@,
            ),
            None => !has_key(rows@, tenant_config_key_fn(), (tenant_id@, namespace@, key@)),
        },
{
    let ghost k = (tenant_id@, namespace@, key@);
    for i in 0..rows.len()
        invariant
            k == (tenant_id@, namespace@, key@),
            forall|j: int| 0 <= j < i ==> tenant_config_key(#[trigger] rows@[j]) != k,
    {
        let row = &rows[i];
        if row.tenant_id.eq(tenant_id) && row.namespace.eq(namespace) && row.config_key.eq(key) {
            return Some(i);
        }
    }
    assert(!has_key(rows@, tenant_config_key_fn(), k)) by {
        if has_key(rows@, tenant_config_key_fn(), k) {
            let j = index_of_key(rows@, tenant_config_key_fn(), k);
            assert(tenant_config_key(rows@[j]) == k);
        }
    }
    None
}

fn find_system_setting(rows: &Vec<SystemSetting>, namespace: &String, key: &String) -> (r:
    Option<usize>)
    ensures
        match r {
            Some(i) => i < rows@.len() && system_setting_key(rows@[i as int]) == (namespace@, key@),
            None => !has_key(rows@, system_setting_key_fn(), (namespace@, key@)),
        },
{
    let ghost k = (namespace@, key@);
    for i in 0..rows.len()
        invariant
            k == (namespace@, key@),
            forall|j: int| 0 <= j < i ==> system_setting_key(#[trigger] rows@[j]) != k,
    {
        let row = &rows[i];
        if row.namespace.eq(namespace) && row.setting_key.eq(key) {
            return Some(i);
        }
    }
    assert(!has_key(rows@, system_setting_key_fn(), k)) by {
        if has_key(rows@, system_setting_key_fn(), k) {
            let j = index_of_key(rows@, system_setting_key_fn(), k);
            assert(system_setting_key(rows@[j]) == k);
        }
    }
    None
}


fn list_user_preferences(
    rows: &Vec<UserPreference>,
    tenant_id: &String,
    user_id: &String,
    namespace: &String,
) -> (r: Vec<UserPreference>)
    ensures
        r@ == user_preferences_in(rows@, tenant_id@, user_id@, namespace@),
{
    let ghost pred = in_user_namespace(tenant_id@, user_id@, namespace@);
    let mut out: Vec<UserPreference> = Vec::new();
    for i in 0..rows.len()
        invariant
            pred == in_user_namespace(tenant_id@, user_id@, namespace@),
            out@ == rows@.take(i as int).filter(pred),
    {
        proof {
            assert(rows@.take(i + 1) =~= rows@.take(i as int).push(rows@[i as int]));
            rows@.take(i as int).lemma_filter_push(rows@[i as int], pred);
        }
        let row = &rows[i];
        if row.tenant_id.eq(tenant_id) && row.user_id.eq(user_id) && row.namespace.eq(namespace) {
            out.push(row.clone());
        }
    }
    assert(rows@.take(rows@.len() as int) =~= rows@);
    out
}

fn list_tenant_configs(rows: &Vec<TenantConfig>, tenant_id: &String, namespace: &String) -> (r:
    Vec<TenantConfig>)
    ensures
        r@ == tenant_configs_in(rows@, tenant_id@, namespace@),
{
    let ghost pred = in_tenant_namespace(tenant_id@, namespace@);
    let mut out: Vec<TenantConfig> = Vec::new();
    for i in 0..rows.len()
        invariant
            pred == in_tenant_namespace(tenant_id@, namespace@),
            out@ == rows@.take(i as int).filter(pred),
    {
        proof {
            assert(rows@.take(i + 1) =~= rows@.take(i as int).push(rows@[i as int]));
            rows@.take(i as int).lemma_filter_push(rows@[i as int], pred);
        }
        let row = &rows[i];
        if row.tenant_id.eq(tenant_id) && row.namespace.eq(namespace) {
            out.push(row.clone());
        }
    }
    assert(rows@.take(rows@.len() as int) =~= rows@);
    out
}

fn list_system_settings(rows: &Vec<SystemSetting>, namespace: &String) -> (r: Vec<SystemSetting>)
    ensures
        r@ == system_settings_in(rows@, namespace@),
{
    let ghost pred = in_system_namespace(namespace@);
    let mut out: Vec<SystemSetting> = Vec::new();
    for i in 0..rows.len()
        invariant
            pred == in_system_namespace(namespace@),
            out@ == rows@.take(i as int).filter(pred),
    {
        proof {
            assert(rows@.take(i + 1) =~= rows@.take(i as int).push(rows@[i as int]));
            rows@.take(i as int).lemma_filter_push(rows@[i as int], pred);
        }
        let row = &rows[i];
        if row.namespace.eq(namespace) {
            out.push(row.clone());
        }
    }
    assert(rows@.take(rows@.len() as int) =~= rows@);
    out
}

impl SettingsTables {
    #[verifier::type_invariant]
    spec fn keys_are_unique(self) -> bool {
        tables_well_formed(self@)
    }

    /// Empty tables.
    pub fn new() -> (t: SettingsTables)
        ensures
            t@.user_preferences.len() == 0,
            t@.tenant_configs.len() == 0,
            t@.system_settings.len() == 0,
            t@.config_revisions.len() == 0,
            tables_well_formed(t@),
    {
        SettingsTables {
            user_preferences: Vec::new(),
            tenant_configs: Vec::new(),
            system_settings: Vec::new(),
            config_revisions: Vec::new(),
        }
    }

    /// The configuration change history, oldest first.
    pub fn config_revisions(&self) -> (r: &Vec<ConfigRevision>)
        ensures
            r@ == self@.config_revisions,
    {
        &self.config_revisions
    }

    fn record_revision(&mut self, revision: ConfigRevision)
        ensures
            final(self)@ == (SettingsData {
                config_revisions: old(self)@.config_revisions.push(revision),
                ..old(self)@
            }),
    {
        proof {
            use_type_invariant(&*self);
        }
        let mut history: Vec<ConfigRevision> = Vec::new();
        std::mem::swap(&mut history, &mut self.config_revisions);
        history.push(revision);
        self.config_revisions = history;
    }
}


impl SettingsTables {
    fn select_user_preference(
        &self,
        tenant_id: &String,
        user_id: &String,
        namespace: &String,
        key: &String,
    ) -> (r: Vec<UserPreference>)
        ensures
            r@ == select_by_key(
                self@.user_preferences,
                preference_key_fn(),
                (tenant_id@, user_id@, namespace@, key@),
            ),
    {
        proof {
            use_type_invariant(self);
        }
        let mut out: Vec<UserPreference> = Vec::new();
        match find_user_preference(&self.user_preferences, tenant_id, user_id, namespace, key) {
            Some(i) => {
                proof {
                    lemma_keyed_map_at(self@.user_preferences, preference_key_fn(), i as int);
                }
                out.push(self.user_preferences[i].clone());
                assert(out@ =~= select_by_key(
                    self@.user_preferences,
                    preference_key_fn(),
                    (tenant_id@, user_id@, namespace@, key@),
                ));
            },
            None => {
                assert(out@ =~= select_by_key(
                    self@.user_preferences,
                    preference_key_fn(),
                    (tenant_id@, user_id@, namespace@, key@),
                ));
            },
        }
        out
    }

    fn upsert_user_preference(
        &mut self,
        id: i64,
        tenant_id: &String,
        user_id: &String,
        namespace: &String,
        key: &String,
        value: &String,
        value_type: &String,
        now: i64,
    ) -> (r: UserPreference)
        ensures
            r == upserted_user_preference(
                old(self)@.user_preferences,
                id,
                *tenant_id,
                *user_id,
                *namespace,
                *key,
                *value,
                *value_type,
                now,
            ),
            final(self)@ == (SettingsData {
                user_preferences: write_row(old(self)@.user_preferences, preference_key_fn(), r),
                ..old(self)@
            }),
    {
        proof {
            use_type_invariant(&*self);
        }
        let ghost rows = self@.user_preferences;
        match find_user_preference(&self.user_preferences, tenant_id, user_id, namespace, key) {
            Some(i) => {
                proof {
                    lemma_keyed_map_at(rows, preference_key_fn(), i as int);
                }
                let old_row = &self.user_preferences[i];
                let row = UserPreference {
                    id: old_row.id,
                    tenant_id: old_row.tenant_id.clone(),
                    user_id: old_row.user_id.clone(),
                    namespace: old_row.namespace.clone(),
                    preference_key: old_row.preference_key.clone(),
                    preference_value: value.clone(),
                    value_type: value_type.clone(),
                    created_at: old_row.created_at,
                    updated_at: now,
                    created_by: clone_opt_string(&old_row.created_by),
                    updated_by: clone_opt_string(&old_row.updated_by),
                };
                proof {
                    lemma_keyed_map_update(rows, preference_key_fn(), i as int, row);
                }
                let mut rows_now: Vec<UserPreference> = Vec::new();
                std::mem::swap(&mut rows_now, &mut self.user_preferences);
                rows_now.set(i, row.clone());
                self.user_preferences = rows_now;
                row
            },
            None => {
                let row = UserPreference {
                    id,
                    tenant_id: tenant_id.clone(),
                    user_id: user_id.clone(),
                    namespace: namespace.clone(),
                    preference_key: key.clone(),
                    preference_value: value.clone(),
                    value_type: value_type.clone(),
                    created_at: now,
                    updated_at: now,
                    created_by: None,
                    updated_by: None,
                };
                proof {
                    lemma_keyed_map_push(rows, preference_key_fn(), row);
                }
                let mut rows_now: Vec<UserPreference> = Vec::new();
                std::mem::swap(&mut rows_now, &mut self.user_preferences);
                rows_now.push(row.clone());
                self.user_preferences = rows_now;
                row
            },
        }
    }

    fn delete_user_preference(
        &mut self,
        tenant_id: &String,
        user_id: &String,
        namespace: &String,
        key: &String,
    ) -> (n: u64)
        ensures
            n == delete_count(
                old(self)@.user_preferences,
                preference_key_fn(),
                (tenant_id@, user_id@, namespace@, key@),
            ),
            final(self)@ == (SettingsData {
                user_preferences: delete_row(
                    old(self)@.user_preferences,
                    preference_key_fn(),
                    (tenant_id@, user_id@, namespace@, key@),
                ),
                ..old(self)@
            }),
    {
        proof {
            use_type_invariant(&*self);
        }
        let ghost rows = self@.user_preferences;
        match find_user_preference(&self.user_preferences, tenant_id, user_id, namespace, key) {
            Some(i) => {
                proof {
                    lemma_keyed_map_at(rows, preference_key_fn(), i as int);
                    lemma_keyed_map_remove(rows, preference_key_fn(), i as int);
                }
                let mut rows_now: Vec<UserPreference> = Vec::new();
                std::mem::swap(&mut rows_now, &mut self.user_preferences);
                rows_now.remove(i);
                self.user_preferences = rows_now;
                1
            },
            None => 0,
        }
    }
}


impl SettingsTables {
    fn select_tenant_config(
        &self,
        tenant_id: &String,
        namespace: &String,
        key: &String,
    ) -> (r: Vec<TenantConfig>)
        ensures
            r@ == select_by_key(self@.tenant_configs, tenant_config_key_fn(), (tenant_id@, namespace@, key@)),
    {
        proof {
            use_type_invariant(self);
        }
        let mut out: Vec<TenantConfig> = Vec::new();
        match find_tenant_config(&self.tenant_configs, tenant_id, namespace, key) {
            Some(i) => {
                proof {
                    lemma_keyed_map_at(self@.tenant_configs, tenant_config_key_fn(), i as int);
                }
                out.push(self.tenant_configs[i].clone());
                assert(out@ =~= select_by_key(self@.tenant_configs, tenant_config_key_fn(), (tenant_id@, namespace@, key@)));
            },
            None => {
                assert(out@ =~= select_by_key(self@.tenant_configs, tenant_config_key_fn(), (tenant_id@, namespace@, key@)));
            },
        }
        out
    }

    fn upsert_tenant_config(
        &mut self,
        id: i64,
        tenant_id: &String,
        namespace: &String,
        key: &String,
        value: &String,
        value_type: &String,
        now: i64,
        operator_id: &String,
    ) -> (r: TenantConfig)
        ensures
            r == upserted_tenant_config(old(self)@.tenant_configs, id, *tenant_id, *namespace, *key, *value, *value_type, now, *operator_id),
            final(self)@ == (SettingsData {
                tenant_configs: write_row(old(self)@.tenant_configs, tenant_config_key_fn(), r),
                ..old(self)@
            }),
    {
        proof {
            use_type_invariant(&*self);
        }
        let ghost rows = self@.tenant_configs;
        match find_tenant_config(&self.tenant_configs, tenant_id, namespace, key) {
            Some(i) => {
                proof {
                    lemma_keyed_map_at(rows, tenant_config_key_fn(), i as int);
                }
                let old_row = &self.tenant_configs[i];
                let row = TenantConfig {
                    id: old_row.id,
                    tenant_id: old_row.tenant_id.clone(),
                    namespace: old_row.namespace.clone(),
                    config_key: old_row.config_key.clone(),
                    config_value: value.clone(),
                    value_type: value_type.clone(),
                    created_at: old_row.created_at,
                    updated_at: now,
                    created_by: old_row.created_by.clone(),
                    updated_by: operator_id.clone(),
                };
                proof {
                    lemma_keyed_map_update(rows, tenant_config_key_fn(), i as int, row);
                }
                let mut rows_now: Vec<TenantConfig> = Vec::new();
                std::mem::swap(&mut rows_now, &mut self.tenant_configs);
                rows_now.set(i, row.clone());
                self.tenant_configs = rows_now;
                row
            },
            None => {
                let row = TenantConfig {
                    id,
                    tenant_id: tenant_id.clone(),
                    namespace: namespace.clone(),
                    config_key: key.clone(),
                    config_value: value.clone(),
                    value_type: value_type.clone(),
                    created_at: now,
                    updated_at: now,
                    created_by: operator_id.clone(),
                    updated_by: operator_id.clone(),
                };
                proof {
                    lemma_keyed_map_push(rows, tenant_config_key_fn(), row);
                }
                let mut rows_now: Vec<TenantConfig> = Vec::new();
                std::mem::swap(&mut rows_now, &mut self.tenant_configs);
                rows_now.push(row.clone());
                self.tenant_configs = rows_now;
                row
            },
        }
    }

    fn delete_tenant_config(
        &mut self,
        tenant_id: &String,
        namespace: &String,
        key: &String,
    ) -> (n: u64)
        ensures
            n == delete_count(old(self)@.tenant_configs, tenant_config_key_fn(), (tenant_id@, namespace@, key@)),
            final(self)@ == (SettingsData {
                tenant_configs: delete_row(old(self)@.tenant_configs, tenant_config_key_fn(), (tenant_id@, namespace@, key@)),
                ..old(self)@
            }),
    {
        proof {
            use_type_invariant(&*self);
        }
        let ghost rows = self@.tenant_configs;
        match find_tenant_config(&self.tenant_configs, tenant_id, namespace, key) {
            Some(i) => {
                proof {
                    lemma_keyed_map_at(rows, tenant_config_key_fn(), i as int);
                    lemma_keyed_map_remove(rows, tenant_config_key_fn(), i as int);
                }
                let mut rows_now: Vec<TenantConfig> = Vec::new();
                std::mem::swap(&mut rows_now, &mut self.tenant_configs);
                rows_now.remove(i);
                self.tenant_configs = rows_now;
                1
            },
            None => 0,
        }
    }
}

impl SettingsTables {
    fn select_system_setting(
        &self,
        namespace: &String,
        key: &String,
    ) -> (r: Vec<SystemSetting>)
        ensures
            r@ == select_by_key(self@.system_settings, system_setting_key_fn(), (namespace@, key@)),
    {
        proof {
            use_type_invariant(self);
        }
        let mut out: Vec<SystemSetting> = Vec::new();
        match find_system_setting(&self.system_settings, namespace, key) {
            Some(i) => {
                proof {
                    lemma_keyed_map_at(self@.system_settings, system_setting_key_fn(), i as int);
                }
                out.push(self.system_settings[i].clone());
                assert(out@ =~= select_by_key(self@.system_settings, system_setting_key_fn(), (namespace@, key@)));
            },
            None => {
                assert(out@ =~= select_by_key(self@.system_settings, system_setting_key_fn(), (namespace@, key@)));
            },
        }
        out
    }

    fn upsert_system_setting(
        &mut self,
        id: i64,
        namespace: &String,
        key: &String,
        value: &String,
        value_type: &String,
        scope: &String,
        scope_value: &Option<String>,
        now: i64,
        operator_id: &String,
    ) -> (r: SystemSetting)
        ensures
            r == upserted_system_setting(old(self)@.system_settings, id, *namespace, *key, *value, *value_type, *scope, *scope_value, now, *operator_id),
            final(self)@ == (SettingsData {
                system_settings: write_row(old(self)@.system_settings, system_setting_key_fn(), r),
                ..old(self)@
            }),
    {
        proof {
            use_type_invariant(&*self);
        }
        let ghost rows = self@.system_settings;
        match find_system_setting(&self.system_settings, namespace, key) {
            Some(i) => {
                proof {
                    lemma_keyed_map_at(rows, system_setting_key_fn(), i as int);
                }
                let old_row = &self.system_settings[i];
                let row = SystemSetting {
                    id: old_row.id,
                    namespace: old_row.namespace.clone(),
                    setting_key: old_row.setting_key.clone(),
                    setting_value: value.clone(),
                    value_type: value_type.clone(),
                    scope: scope.clone(),
                    scope_value: clone_opt_string(scope_value),
                    created_at: old_row.created_at,
                    updated_at: now,
                    created_by: old_row.created_by.clone(),
                    updated_by: operator_id.clone(),
                };
                proof {
                    lemma_keyed_map_update(rows, system_setting_key_fn(), i as int, row);
                }
                let mut rows_now: Vec<SystemSetting> = Vec::new();
                std::mem::swap(&mut rows_now, &mut self.system_settings);
                rows_now.set(i, row.clone());
                self.system_settings = rows_now;
                row
            },
            None => {
                let row = SystemSetting {
                    id,
                    namespace: namespace.clone(),
                    setting_key: key.clone(),
                    setting_value: value.clone(),
                    value_type: value_type.clone(),
                    scope: scope.clone(),
                    scope_value: clone_opt_string(scope_value),
                    created_at: now,
                    updated_at: now,
                    created_by: operator_id.clone(),
                    updated_by: operator_id.clone(),
                };
                proof {
                    lemma_keyed_map_push(rows, system_setting_key_fn(), row);
                }
                let mut rows_now: Vec<SystemSetting> = Vec::new();
                std::mem::swap(&mut rows_now, &mut self.system_settings);
                rows_now.push(row.clone());
                self.system_settings = rows_now;
                row
            },
        }
    }

    fn delete_system_setting(
        &mut self,
        namespace: &String,
        key: &String,
    ) -> (n: u64)
        ensures
            n == delete_count(old(self)@.system_settings, system_setting_key_fn(), (namespace@, key@)),
            final(self)@ == (SettingsData {
                system_settings: delete_row(old(self)@.system_settings, system_setting_key_fn(), (namespace@, key@)),
                ..old(self)@
            }),
    {
        proof {
            use_type_invariant(&*self);
        }
        let ghost rows = self@.system_settings;
        match find_system_setting(&self.system_settings, namespace, key) {
            Some(i) => {
                proof {
                    lemma_keyed_map_at(rows, system_setting_key_fn(), i as int);
                    lemma_keyed_map_remove(rows, system_setting_key_fn(), i as int);
                }
                let mut rows_now: Vec<SystemSetting> = Vec::new();
                std::mem::swap(&mut rows_now, &mut self.system_settings);
                rows_now.remove(i);
                self.system_settings = rows_now;
                1
            },
            None => 0,
        }
    }
}

impl SettingsTables {
    /// Runs a statement: the tables change, and the statement answers, as
    /// [`apply_statement`] says (lists in table order, which is one of the
    /// answers [`statement_answers`] allows); no two rows of a table ever share
    /// a key.
    pub fn execute(&mut self, st: &SettingsStatement) -> (out: StatementOutcome)
        ensures
            (final(self)@, out@) == apply_statement(old(self)@, *st),
            statement_answers(old(self)@, *st, final(self)@, out@),
            tables_well_formed(old(self)@),
            tables_well_formed(final(self)@),
    {
        proof {
            use_type_invariant(&*self);
        }
        let out = match st {
            SettingsStatement::SelectUserPreference { tenant_id, user_id, namespace, key } => {
                StatementOutcome::UserPreferences(
                    self.select_user_preference(tenant_id, user_id, namespace, key),
                )
            },
            SettingsStatement::ListUserPreferences { tenant_id, user_id, namespace } => {
                StatementOutcome::UserPreferences(
                    list_user_preferences(&self.user_preferences, tenant_id, user_id, namespace),
                )
            },
            SettingsStatement::UpsertUserPreference {
                id,
                tenant_id,
                user_id,
                namespace,
                key,
                value,
                value_type,
                now,
                operator_id,
            } => {
                let revision = ConfigRevision {
                    id: *id,
                    level: ConfigLevel::UserPreference,
                    tenant_id: Some(tenant_id.clone()),
                    user_id: Some(user_id.clone()),
                    namespace: namespace.clone(),
                    config_key: key.clone(),
                    config_value: Some(value.clone()),
                    value_type: Some(value_type.clone()),
                    scope: None,
                    scope_value: None,
                    changed_by: operator_id.clone(),
                    changed_at: *now,
                };
                let row = self.upsert_user_preference(
                    *id,
                    tenant_id,
                    user_id,
                    namespace,
                    key,
                    value,
                    value_type,
                    *now,
                );
                self.record_revision(revision);
                let mut rows: Vec<UserPreference> = Vec::new();
                rows.push(row);
                assert(rows@ =~= seq![row]);
                StatementOutcome::UserPreferences(rows)
            },
            SettingsStatement::DeleteUserPreference {
                id,
                tenant_id,
                user_id,
                namespace,
                key,
                now,
                operator_id,
            } => {
                let found = self.select_user_preference(tenant_id, user_id, namespace, key);
                let n = self.delete_user_preference(tenant_id, user_id, namespace, key);
                if found.len() > 0 {
                    let r = &found[0];
                    self.record_revision(
                        ConfigRevision {
                            id: *id,
                            level: ConfigLevel::UserPreference,
                            tenant_id: Some(r.tenant_id.clone()),
                            user_id: Some(r.user_id.clone()),
                            namespace: r.namespace.clone(),
                            config_key: r.preference_key.clone(),
                            config_value: None,
                            value_type: None,
                            scope: None,
                            scope_value: None,
                            changed_by: operator_id.clone(),
                            changed_at: *now,
                        },
                    );
                }
                StatementOutcome::RowsAffected(n)
            },
            SettingsStatement::SelectTenantConfig { tenant_id, namespace, key } => {
                StatementOutcome::TenantConfigs(
                    self.select_tenant_config(tenant_id, namespace, key),
                )
            },
            SettingsStatement::ListTenantConfigs { tenant_id, namespace } => {
                StatementOutcome::TenantConfigs(
                    list_tenant_configs(&self.tenant_configs, tenant_id, namespace),
                )
            },
            SettingsStatement::UpsertTenantConfig {
                id,
                tenant_id,
                namespace,
                key,
                value,
                value_type,
                now,
                operator_id,
            } => {
                let revision = ConfigRevision {
                    id: *id,
                    level: ConfigLevel::TenantConfig,
                    tenant_id: Some(tenant_id.clone()),
                    user_id: None,
                    namespace: namespace.clone(),
                    config_key: key.clone(),
                    config_value: Some(value.clone()),
                    value_type: Some(value_type.clone()),
                    scope: None,
                    scope_value: None,
                    changed_by: operator_id.clone(),
                    changed_at: *now,
                };
                let row = self.upsert_tenant_config(
                    *id,
                    tenant_id,
                    namespace,
                    key,
                    value,
                    value_type,
                    *now,
                    operator_id,
                );
                self.record_revision(revision);
                let mut rows: Vec<TenantConfig> = Vec::new();
                rows.push(row);
                assert(rows@ =~= seq![row]);
                StatementOutcome::TenantConfigs(rows)
            },
            SettingsStatement::DeleteTenantConfig { id, tenant_id, namespace, key, now, operator_id } => {
                let found = self.select_tenant_config(tenant_id, namespace, key);
                let n = self.delete_tenant_config(tenant_id, namespace, key);
                if found.len() > 0 {
                    let r = &found[0];
                    self.record_revision(
                        ConfigRevision {
                            id: *id,
                            level: ConfigLevel::TenantConfig,
                            tenant_id: Some(r.tenant_id.clone()),
                            user_id: None,
                            namespace: r.namespace.clone(),
                            config_key: r.config_key.clone(),
                            config_value: None,
                            value_type: None,
                            scope: None,
                            scope_value: None,
                            changed_by: operator_id.clone(),
                            changed_at: *now,
                        },
                    );
                }
                StatementOutcome::RowsAffected(n)
            },
            SettingsStatement::SelectSystemSetting { namespace, key } => {
                StatementOutcome::SystemSettings(self.select_system_setting(namespace, key))
            },
            SettingsStatement::ListSystemSettings { namespace } => {
                StatementOutcome::SystemSettings(
                    list_system_settings(&self.system_settings, namespace),
                )
            },
            SettingsStatement::UpsertSystemSetting {
                id,
                namespace,
                key,
                value,
                value_type,
                scope,
                scope_value,
                now,
                operator_id,
            } => {
                let revision = ConfigRevision {
                    id: *id,
                    level: ConfigLevel::SystemSetting,
                    tenant_id: None,
                    user_id: None,
                    namespace: namespace.clone(),
                    config_key: key.clone(),
                    config_value: Some(value.clone()),
                    value_type: Some(value_type.clone()),
                    scope: Some(scope.clone()),
                    scope_value: clone_opt_string(scope_value),
                    changed_by: operator_id.clone(),
                    changed_at: *now,
                };
                let row = self.upsert_system_setting(
                    *id,
                    namespace,
                    key,
                    value,
                    value_type,
                    scope,
                    scope_value,
                    *now,
                    operator_id,
                );
                self.record_revision(revision);
                let mut rows: Vec<SystemSetting> = Vec::new();
                rows.push(row);
                assert(rows@ =~= seq![row]);
                StatementOutcome::SystemSettings(rows)
            },
            SettingsStatement::DeleteSystemSetting { id, namespace, key, now, operator_id } => {
                let found = self.select_system_setting(namespace, key);
                let n = self.delete_system_setting(namespace, key);
                if found.len() > 0 {
                    let r = &found[0];
                    self.record_revision(
                        ConfigRevision {
                            id: *id,
                            level: ConfigLevel::SystemSetting,
                            tenant_id: None,
                            user_id: None,
                            namespace: r.namespace.clone(),
                            config_key: r.setting_key.clone(),
                            config_value: None,
                            value_type: None,
                            scope: Some(r.scope.clone()),
                            scope_value: clone_opt_string(&r.scope_value),
                            changed_by: operator_id.clone(),
                            changed_at: *now,
                        },
                    );
                }
                StatementOutcome::RowsAffected(n)
            },
        };
        proof {
            use_type_invariant(&*self);
            lemma_apply_statement_answers(old(self)@, *st);
        }
        out
    }
}
} // verus!
