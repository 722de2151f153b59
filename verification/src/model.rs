//! The domain records of the three settings tables. Values are JSON text;
//! instants are microseconds since the Unix epoch (UTC).

use vstd::prelude::*;

verus! {

/// A copy of an optional string that equals it.
pub fn clone_opt_string(s: &Option<String>) -> (r: Option<String>)
    ensures
        r == *s,
{
    match s {
        Some(v) => Some(v.clone()),
        None => None,
    }
}

/// A user's preference, scoped by tenant, user, namespace and key.
#[derive(Debug, PartialEq, Eq)]
pub struct UserPreference {
    pub id: i64,
    pub tenant_id: String,
    pub user_id: String,
    pub namespace: String,
    pub preference_key: String,
    pub preference_value: String,
    pub value_type: String,
    pub created_at: i64,
    pub updated_at: i64,
    pub created_by: Option<String>,
    pub updated_by: Option<String>,
}

/// A tenant's configuration entry, scoped by tenant, namespace and key.
#[derive(Debug, PartialEq, Eq)]
pub struct TenantConfig {
    pub id: i64,
    pub tenant_id: String,
    pub namespace: String,
    pub config_key: String,
    pub config_value: String,
    pub value_type: String,
    pub created_at: i64,
    pub updated_at: i64,
    pub created_by: String,
    pub updated_by: String,
}

/// A system-wide setting, scoped by namespace and key, with an optional
/// region or other scope.
#[derive(Debug, PartialEq, Eq)]
pub struct SystemSetting {
    pub id: i64,
    pub namespace: String,
    pub setting_key: String,
    pub setting_value: String,
    pub value_type: String,
    pub scope: String,
    pub scope_value: Option<String>,
    pub created_at: i64,
    pub updated_at: i64,
    pub created_by: String,
    pub updated_by: String,
}

impl Clone for UserPreference {
    fn clone(&self) -> (r: Self)
        ensures
            r == *self,
    {
        UserPreference {
            id: self.id,
            tenant_id: self.tenant_id.clone(),
            user_id: self.user_id.clone(),
            namespace: self.namespace.clone(),
            preference_key: self.preference_key.clone(),
            preference_value: self.preference_value.clone(),
            value_type: self.value_type.clone(),
            created_at: self.created_at,
            updated_at: self.updated_at,
            created_by: clone_opt_string(&self.created_by),
            updated_by: clone_opt_string(&self.updated_by),
        }
    }
}

impl Clone for TenantConfig {
    fn clone(&self) -> (r: Self)
        ensures
            r == *self,
    {
        TenantConfig {
            id: self.id,
            tenant_id: self.tenant_id.clone(),
            namespace: self.namespace.clone(),
            config_key: self.config_key.clone(),
            config_value: self.config_value.clone(),
            value_type: self.value_type.clone(),
            created_at: self.created_at,
            updated_at: self.updated_at,
            created_by: self.created_by.clone(),
            updated_by: self.updated_by.clone(),
        }
    }
}

impl Clone for SystemSetting {
    fn clone(&self) -> (r: Self)
        ensures
            r == *self,
    {
        SystemSetting {
            id: self.id,
            namespace: self.namespace.clone(),
            setting_key: self.setting_key.clone(),
            setting_value: self.setting_value.clone(),
            value_type: self.value_type.clone(),
            scope: self.scope.clone(),
            scope_value: clone_opt_string(&self.scope_value),
            created_at: self.created_at,
            updated_at: self.updated_at,
            created_by: self.created_by.clone(),
            updated_by: self.updated_by.clone(),
        }
    }
}

/// The level of configuration that a revision belongs to.
#[derive(PartialEq, Eq, Structural, Clone, Copy, Debug)]
pub enum ConfigLevel {
    UserPreference,
    TenantConfig,
    SystemSetting,
}

/// One entry of the configuration change history: which entry was written
/// or removed, with which value (none for a removal), by whom and when.
#[derive(Debug, PartialEq, Eq)]
pub struct ConfigRevision {
    pub id: i64,
    pub level: ConfigLevel,
    pub tenant_id: Option<String>,
    pub user_id: Option<String>,
    pub namespace: String,
    pub config_key: String,
    pub config_value: Option<String>,
    pub value_type: Option<String>,
    pub scope: Option<String>,
    pub scope_value: Option<String>,
    pub changed_by: String,
    pub changed_at: i64,
}

impl Clone for ConfigRevision {
    fn clone(&self) -> (r: Self)
        ensures
            r == *self,
    {
        ConfigRevision {
            id: self.id,
            level: self.level,
            tenant_id: clone_opt_string(&self.tenant_id),
            user_id: clone_opt_string(&self.user_id),
            namespace: self.namespace.clone(),
            config_key: self.config_key.clone(),
            config_value: clone_opt_string(&self.config_value),
            value_type: clone_opt_string(&self.value_type),
            scope: clone_opt_string(&self.scope),
            scope_value: clone_opt_string(&self.scope_value),
            changed_by: self.changed_by.clone(),
            changed_at: self.changed_at,
        }
    }
}

/// Key of a user preference: tenant, user, namespace, key.
pub type PreferenceKey = (Seq<char>, Seq<char>, Seq<char>, Seq<char>);

/// Key of a tenant configuration entry: tenant, namespace, key.
pub type TenantConfigKey = (Seq<char>, Seq<char>, Seq<char>);

/// Key of a system setting: namespace, key.
pub type SystemSettingKey = (Seq<char>, Seq<char>);

pub open spec fn preference_key(r: UserPreference) -> PreferenceKey {
    (r.tenant_id@, r.user_id@, r.namespace@, r.preference_key@)
}

pub open spec fn tenant_config_key(r: TenantConfig) -> TenantConfigKey {
    (r.tenant_id@, r.namespace@, r.config_key@)
}

pub open spec fn system_setting_key(r: SystemSetting) -> SystemSettingKey {
    (r.namespace@, r.setting_key@)
}

} // verus!
