//! The service host: what it checks before a statement is issued, which
//! statement it issues, and how it reads the answer.

use vstd::prelude::*;
use crate::clock::utc_now_micros;
use crate::error::{ServiceError, ServiceErrorView};
use crate::statement::SettingsStatement;
use crate::text::{parse_trimmed_u16, parse_u16, trim};

verus! {

/// The database engine behind the pool that the host was given.
#[derive(PartialEq, Eq, Structural, Clone, Copy, Debug)]
pub enum PoolKind {
    Postgres,
    Sqlite,
}

/// Why a non-PostgreSQL pool is refused.
pub const POSTGRES_ONLY_MESSAGE: &'static str =
    "settings service requires a PostgreSQL pool (DATABASE_SPEC: authoritative-server persistence is PostgreSQL only)";

/// Prefix of the message when no id could be generated.
pub const ID_FAILURE_PREFIX: &'static str = "雪花 ID 生成失败: ";

/// Why an update fails when the system clock cannot be read.
pub const CLOCK_FAILURE_MESSAGE: &'static str =
    "system clock reads before the Unix epoch or beyond the supported dates";

/// The instant of a write: read from the clock only where `needed`, else 0.
fn read_clock(needed: bool) -> (r: Result<i64, ServiceError>)
    ensures
        !needed ==> r == Ok::<i64, ServiceError>(0),
        r matches Ok(now) ==> now >= 0,
        r matches Err(e) ==> needed && e@ == ServiceErrorView::Internal(CLOCK_FAILURE_MESSAGE@),
{
    if !needed {
        return Ok(0);
    }
    match utc_now_micros() {
        Some(now) => Ok(now),
        None => Err(ServiceError::Internal(String::from_str(CLOCK_FAILURE_MESSAGE))),
    }
}

/// Verdicts of the namespace, key and value-size validators on a request:
/// `Err` carries the validator's message.
#[derive(Debug, PartialEq, Eq)]
pub struct InputChecks {
    pub namespace: Result<(), String>,
    pub key: Result<(), String>,
    pub value: Result<(), String>,
}

impl InputChecks {
    pub open spec fn all_pass_spec(&self) -> bool {
        self.namespace is Ok && self.key is Ok && self.value is Ok
    }

    /// Whether the namespace, key and value-size checks all passed.
    pub fn all_pass(&self) -> (r: bool)
        ensures
            r == self.all_pass_spec(),
    {
        self.namespace.is_ok() && self.key.is_ok() && self.value.is_ok()
    }
}

/// The message of the first check that failed, if any.
pub open spec fn first_rejection(checks: Seq<Result<(), String>>) -> Option<Seq<char>>
    decreases checks.len(),
{
    if checks.len() == 0 {
        None
    } else {
        match checks[0] {
            Err(m) => Some(m@),
            Ok(_) => first_rejection(checks.drop_first()),
        }
    }
}

pub open spec fn rejection_of(c: Result<(), String>) -> Option<Seq<char>> {
    match c {
        Err(m) => Some(m@),
        Ok(_) => None,
    }
}

/// The first failing check of one, two or three checks.
pub proof fn lemma_first_rejection(a: Result<(), String>, b: Result<(), String>, c: Result<(), String>)
    ensures
        first_rejection(seq![a]) == rejection_of(a),
        first_rejection(seq![a, b]) == if a is Err {
            rejection_of(a)
        } else {
            rejection_of(b)
        },
        first_rejection(seq![a, b, c]) == if a is Err {
            rejection_of(a)
        } else if b is Err {
            rejection_of(b)
        } else {
            rejection_of(c)
        },
{
    reveal_with_fuel(first_rejection, 4);
    assert(seq![a].drop_first() =~= Seq::<Result<(), String>>::empty());
    assert(seq![a, b].drop_first() =~= seq![b]);
    assert(seq![a, b, c].drop_first() =~= seq![b, c]);
    assert(seq![b].drop_first() =~= Seq::<Result<(), String>>::empty());
    assert(seq![b, c].drop_first() =~= seq![c]);
    assert(seq![c].drop_first() =~= Seq::<Result<(), String>>::empty());
}

/// The statement if the checks pass and the pool is PostgreSQL; otherwise
/// the first failure.
pub open spec fn gate(checks: Seq<Result<(), String>>, pool: PoolKind, st: SettingsStatement) -> Result<
    SettingsStatement,
    ServiceErrorView,
> {
    match first_rejection(checks) {
        Some(m) => Err(ServiceErrorView::Validation(m)),
        None => if pool == PoolKind::Postgres {
            Ok(st)
        } else {
            Err(ServiceErrorView::Database(POSTGRES_ONLY_MESSAGE@))
        },
    }
}

/// As [`gate`], for a write: between the checks and the engine check, a new
/// row id must have been generated.
pub open spec fn gate_write(
    checks: Seq<Result<(), String>>,
    generated_id: Result<i64, String>,
    pool: PoolKind,
    st: spec_fn(i64) -> SettingsStatement,
) -> Result<SettingsStatement, ServiceErrorView> {
    match first_rejection(checks) {
        Some(m) => Err(ServiceErrorView::Validation(m)),
        None => match generated_id {
            Err(g) => Err(ServiceErrorView::Internal(ID_FAILURE_PREFIX@ + g@)),
            Ok(id) => if pool == PoolKind::Postgres {
                Ok(st(id))
            } else {
                Err(ServiceErrorView::Database(POSTGRES_ONLY_MESSAGE@))
            },
        },
    }
}

pub open spec fn plan_view(r: Result<SettingsStatement, ServiceError>) -> Result<
    SettingsStatement,
    ServiceErrorView,
> {
    match r {
        Ok(st) => Ok(st),
        Err(e) => Err(e@),
    }
}

/// The node number configured for id generation: the setting read as a
/// `u16` around its white space, or 0 where it is missing or unreadable.
pub open spec fn configured_node_id(setting: Option<Seq<char>>) -> u16 {
    match setting {
        Some(s) => match parse_u16(trim(s)) {
            Some(n) => n,
            None => 0,
        },
        None => 0,
    }
}

/// The node that ids are generated on: the configured one if the id
/// generator accepts it, else node 0.
pub open spec fn generator_node(setting: Option<Seq<char>>, requested_node_accepted: bool) -> u16 {
    if requested_node_accepted {
        configured_node_id(setting)
    } else {
        0
    }
}

/// The node number that the configuration asks for: the setting read as a
/// `u16` around its white space, or 0 where it is missing or unreadable.
pub fn requested_node_id(node_id_setting: Option<&str>) -> (n: u16)
    ensures
        n == configured_node_id(opt_str_view(node_id_setting)),
{
    match node_id_setting {
        Some(s) => match parse_trimmed_u16(s) {
            Some(n) => n,
            None => 0,
        },
        None => 0,
    }
}

pub open spec fn opt_str_view(s: Option<&str>) -> Option<Seq<char>> {
    match s {
        Some(v) => Some(v@),
        None => None,
    }
}

/// The answer to a delete: removing no row means the entry was not there.
pub open spec fn spec_delete_result(rows_affected: nat) -> Result<(), ServiceErrorView> {
    if rows_affected == 0 {
        Err(ServiceErrorView::NotFound)
    } else {
        Ok(())
    }
}

/// Reads the answer to a delete statement.
pub fn delete_result(rows_affected: u64) -> (r: Result<(), ServiceError>)
    ensures
        match r {
            Ok(()) => spec_delete_result(rows_affected as nat) == Ok::<(), ServiceErrorView>(()),
            Err(e) => spec_delete_result(rows_affected as nat) == Err::<(), ServiceErrorView>(e@),
        },
{
    if rows_affected == 0 {
        Err(ServiceError::NotFound)
    } else {
        Ok(())
    }
}

/// What [`SettingsServiceHost::get_user_preference`] answers.
pub open spec fn get_user_preference_plan(
    pool: PoolKind,
    tenant_id: String,
    user_id: String,
    namespace: String,
    key: String,
    checks: InputChecks,
) -> Result<SettingsStatement, ServiceErrorView> {
    gate(seq![checks.namespace, checks.key], pool, SettingsStatement::SelectUserPreference { tenant_id, user_id, namespace, key })
}

/// What [`SettingsServiceHost::list_user_preferences`] answers.
pub open spec fn list_user_preferences_plan(
    pool: PoolKind,
    tenant_id: String,
    user_id: String,
    namespace: String,
    checks: InputChecks,
) -> Result<SettingsStatement, ServiceErrorView> {
    gate(seq![checks.namespace], pool, SettingsStatement::ListUserPreferences { tenant_id, user_id, namespace })
}

/// What [`SettingsServiceHost::get_tenant_config`] answers.
pub open spec fn get_tenant_config_plan(
    pool: PoolKind,
    tenant_id: String,
    namespace: String,
    key: String,
    checks: InputChecks,
) -> Result<SettingsStatement, ServiceErrorView> {
    gate(seq![checks.namespace, checks.key], pool, SettingsStatement::SelectTenantConfig { tenant_id, namespace, key })
}

/// What [`SettingsServiceHost::list_tenant_configs`] answers.
pub open spec fn list_tenant_configs_plan(
    pool: PoolKind,
    tenant_id: String,
    namespace: String,
    checks: InputChecks,
) -> Result<SettingsStatement, ServiceErrorView> {
    gate(seq![checks.namespace], pool, SettingsStatement::ListTenantConfigs { tenant_id, namespace })
}

/// What [`SettingsServiceHost::get_system_setting`] answers.
pub open spec fn get_system_setting_plan(
    pool: PoolKind,
    namespace: String,
    key: String,
    checks: InputChecks,
) -> Result<SettingsStatement, ServiceErrorView> {
    gate(seq![checks.namespace, checks.key], pool, SettingsStatement::SelectSystemSetting { namespace, key })
}

/// What [`SettingsServiceHost::list_system_settings`] answers.
pub open spec fn list_system_settings_plan(
    pool: PoolKind,
    namespace: String,
    checks: InputChecks,
) -> Result<SettingsStatement, ServiceErrorView> {
    gate(seq![checks.namespace], pool, SettingsStatement::ListSystemSettings { namespace })
}

/// What [`SettingsServiceHost::update_user_preference_at`] answers.
pub open spec fn update_user_preference_plan(
    pool: PoolKind,
    generated_id: Result<i64, String>,
    tenant_id: String,
    user_id: String,
    namespace: String,
    key: String,
    value: String,
    value_type: String,
    operator_id: String,
    checks: InputChecks,
    now: i64,
) -> Result<SettingsStatement, ServiceErrorView> {
    gate_write(seq![checks.namespace, checks.key, checks.value], generated_id, pool, |id: i64| SettingsStatement::UpsertUserPreference { id, tenant_id, user_id, namespace, key, value, value_type, now, operator_id })
}

/// What [`SettingsServiceHost::update_tenant_config_at`] answers.
pub open spec fn update_tenant_config_plan(
    pool: PoolKind,
    generated_id: Result<i64, String>,
    tenant_id: String,
    namespace: String,
    key: String,
    value: String,
    value_type: String,
    operator_id: String,
    checks: InputChecks,
    now: i64,
) -> Result<SettingsStatement, ServiceErrorView> {
    gate_write(seq![checks.namespace, checks.key, checks.value], generated_id, pool, |id: i64| SettingsStatement::UpsertTenantConfig { id, tenant_id, namespace, key, value, value_type, operator_id, now })
}

/// What [`SettingsServiceHost::update_system_setting_at`] answers.
pub open spec fn update_system_setting_plan(
    pool: PoolKind,
    generated_id: Result<i64, String>,
    namespace: String,
    key: String,
    value: String,
    value_type: String,
    scope: String,
    scope_value: Option<String>,
    operator_id: String,
    checks: InputChecks,
    now: i64,
) -> Result<SettingsStatement, ServiceErrorView> {
    gate_write(seq![checks.namespace, checks.key, checks.value], generated_id, pool, |id: i64| SettingsStatement::UpsertSystemSetting { id, namespace, key, value, value_type, scope, scope_value, operator_id, now })
}

/// What [`SettingsServiceHost::delete_user_preference_at`] answers.
pub open spec fn delete_user_preference_plan(
    pool: PoolKind,
    generated_id: Result<i64, String>,
    tenant_id: String,
    user_id: String,
    namespace: String,
    key: String,
    operator_id: String,
    checks: InputChecks,
    now: i64,
) -> Result<SettingsStatement, ServiceErrorView> {
    gate_write(seq![checks.namespace, checks.key], generated_id, pool, |id: i64| SettingsStatement::DeleteUserPreference { id, tenant_id, user_id, namespace, key, now, operator_id })
}

/// What [`SettingsServiceHost::delete_tenant_config_at`] answers.
pub open spec fn delete_tenant_config_plan(
    pool: PoolKind,
    generated_id: Result<i64, String>,
    tenant_id: String,
    namespace: String,
    key: String,
    operator_id: String,
    checks: InputChecks,
    now: i64,
) -> Result<SettingsStatement, ServiceErrorView> {
    gate_write(seq![checks.namespace, checks.key], generated_id, pool, |id: i64| SettingsStatement::DeleteTenantConfig { id, tenant_id, namespace, key, now, operator_id })
}

/// What [`SettingsServiceHost::delete_system_setting_at`] answers.
pub open spec fn delete_system_setting_plan(
    pool: PoolKind,
    generated_id: Result<i64, String>,
    namespace: String,
    key: String,
    operator_id: String,
    checks: InputChecks,
    now: i64,
) -> Result<SettingsStatement, ServiceErrorView> {
    gate_write(seq![checks.namespace, checks.key], generated_id, pool, |id: i64| SettingsStatement::DeleteSystemSetting { id, namespace, key, now, operator_id })
}

/// The in-process service container of the Settings domain.
#[derive(Debug, PartialEq, Eq)]
pub struct SettingsServiceHost {
    pool: PoolKind,
    node_id: u16,
}

impl SettingsServiceHost {
    /// A host over a pool of the given engine. `node_id_setting` is the
    /// configured node number for id generation, if any, and
    /// `requested_node_accepted` tells whether the id generator accepted the
    /// node that [`requested_node_id`] reads out of it. The host generates ids
    /// on that node, or on node 0 when the generator refused it.
    pub fn new(pool: PoolKind, node_id_setting: Option<&str>, requested_node_accepted: bool) -> (h:
        SettingsServiceHost)
        ensures
            h.pool_kind() == pool,
            h.node() == generator_node(opt_str_view(node_id_setting), requested_node_accepted),
    {
        let node_id = if requested_node_accepted {
            requested_node_id(node_id_setting)
        } else {
            0
        };
        SettingsServiceHost { pool, node_id }
    }

    pub closed spec fn pool_kind(&self) -> PoolKind {
        self.pool
    }

    pub closed spec fn node(&self) -> u16 {
        self.node_id
    }

    /// The engine of the host's pool.
    pub fn pool(&self) -> (p: PoolKind)
        ensures
            p == self.pool_kind(),
    {
        self.pool
    }

    /// The node number for id generation.
    pub fn node_id(&self) -> (n: u16)
        ensures
            n == self.node(),
    {
        self.node_id
    }

    fn require_postgres(&self) -> (r: Result<(), ServiceError>)
        ensures
            r matches Ok(_) <==> self.pool_kind() == PoolKind::Postgres,
            r matches Err(e) ==> e@ == ServiceErrorView::Database(POSTGRES_ONLY_MESSAGE@),
    {
        match self.pool {
            PoolKind::Postgres => Ok(()),
            PoolKind::Sqlite => Err(ServiceError::Database(String::from_str(POSTGRES_ONLY_MESSAGE))),
        }
    }

    /// The id of a new row, from what the id generator returned.
    pub fn next_id(&self, generated_id: Result<i64, String>) -> (r: Result<i64, ServiceError>)
        ensures
            match generated_id {
                Ok(id) => r == Ok::<i64, ServiceError>(id),
                Err(g) => r matches Err(e) && e@ == ServiceErrorView::Internal(ID_FAILURE_PREFIX@ + g@),
            },
    {
        match generated_id {
            Ok(id) => Ok(id),
            Err(g) => {
                let mut m = String::from_str(ID_FAILURE_PREFIX);
                m.append(g.as_str());
                Err(ServiceError::Internal(m))
            },
        }
    }

    /// Looks up one preference of a user. The statement to issue, after the namespace and
    /// key checks, in that order, and the engine check.
    pub fn get_user_preference(
        &self,
        tenant_id: String,
        user_id: String,
        namespace: String,
        key: String,
        checks: InputChecks,
    ) -> (r: Result<SettingsStatement, ServiceError>)
        ensures
            plan_view(r) == get_user_preference_plan(self.pool_kind(), tenant_id, user_id, namespace, key, checks),
    {
        proof {
            lemma_first_rejection(checks.namespace, checks.key, checks.value);
        }
        if let Err(m) = checks.namespace {
            return Err(ServiceError::Validation(m));
        }
        if let Err(m) = checks.key {
            return Err(ServiceError::Validation(m));
        }
        self.require_postgres()?;
        Ok(SettingsStatement::SelectUserPreference { tenant_id, user_id, namespace, key })
    }

    /// Lists a user's preferences in one namespace. The statement to issue, after the
    /// namespace check and the engine check.
    pub fn list_user_preferences(
        &self,
        tenant_id: String,
        user_id: String,
        namespace: String,
        checks: InputChecks,
    ) -> (r: Result<SettingsStatement, ServiceError>)
        ensures
            plan_view(r) == list_user_preferences_plan(self.pool_kind(), tenant_id, user_id, namespace, checks),
    {
        proof {
            lemma_first_rejection(checks.namespace, checks.key, checks.value);
        }
        if let Err(m) = checks.namespace {
            return Err(ServiceError::Validation(m));
        }
        self.require_postgres()?;
        Ok(SettingsStatement::ListUserPreferences { tenant_id, user_id, namespace })
    }

    /// Creates or updates a user's preference. The statement to issue at instant `now`,
    /// after the namespace, key and value-size checks, in that order, the id generation and
    /// the engine check.
    pub fn update_user_preference_at(
        &self,
        now: i64,
        generated_id: Result<i64, String>,
        tenant_id: String,
        user_id: String,
        namespace: String,
        key: String,
        value: String,
        value_type: String,
        operator_id: String,
        checks: InputChecks,
    ) -> (r: Result<SettingsStatement, ServiceError>)
        ensures
            plan_view(r) == update_user_preference_plan(self.pool_kind(), generated_id, tenant_id, user_id, namespace, key, value, value_type, operator_id, checks, now),
    {
        proof {
            lemma_first_rejection(checks.namespace, checks.key, checks.value);
        }
        if let Err(m) = checks.namespace {
            return Err(ServiceError::Validation(m));
        }
        if let Err(m) = checks.key {
            return Err(ServiceError::Validation(m));
        }
        if let Err(m) = checks.value {
            return Err(ServiceError::Validation(m));
        }
        let id = self.next_id(generated_id)?;
        self.require_postgres()?;
        Ok(SettingsStatement::UpsertUserPreference { id, tenant_id, user_id, namespace, key, value, value_type, now, operator_id })
    }

    /// Creates or updates a user's preference. As [`Self::update_user_preference_at`], at
    /// the current instant.
    /// The clock is read only once the checks and the id have passed; where
    /// it cannot be read, the update fails with an internal error.
    pub fn update_user_preference(
        &self,
        generated_id: Result<i64, String>,
        tenant_id: String,
        user_id: String,
        namespace: String,
        key: String,
        value: String,
        value_type: String,
        operator_id: String,
        checks: InputChecks,
    ) -> (r: Result<SettingsStatement, ServiceError>)
        ensures
            (exists|now: i64| now >= 0 && plan_view(r) == #[trigger] update_user_preference_plan(self.pool_kind(), generated_id, tenant_id, user_id, namespace, key, value, value_type, operator_id, checks, now))
                || (checks.all_pass_spec() && generated_id is Ok && plan_view(r) == Err::<
                SettingsStatement,
                ServiceErrorView,
            >(ServiceErrorView::Internal(CLOCK_FAILURE_MESSAGE@))),
    {
        let now = match read_clock(checks.all_pass() && generated_id.is_ok()) {
            Ok(now) => now,
            Err(e) => return Err(e),
        };
        self.update_user_preference_at(now, generated_id, tenant_id, user_id, namespace, key, value, value_type, operator_id, checks)
    }

    /// Removes a user's preference. The statement to issue at instant `now`, after the namespace
    /// and key checks, in that order, the generation of the change history
    /// entry's id and the engine check.
    pub fn delete_user_preference_at(
        &self,
        now: i64,
        generated_id: Result<i64, String>,
        tenant_id: String,
        user_id: String,
        namespace: String,
        key: String,
        operator_id: String,
        checks: InputChecks,
    ) -> (r: Result<SettingsStatement, ServiceError>)
        ensures
            plan_view(r) == delete_user_preference_plan(self.pool_kind(), generated_id, tenant_id, user_id, namespace, key, operator_id, checks, now),
    {
        proof {
            lemma_first_rejection(checks.namespace, checks.key, checks.value);
        }
        if let Err(m) = checks.namespace {
            return Err(ServiceError::Validation(m));
        }
        if let Err(m) = checks.key {
            return Err(ServiceError::Validation(m));
        }
        let id = self.next_id(generated_id)?;
        self.require_postgres()?;
        Ok(SettingsStatement::DeleteUserPreference { id, tenant_id, user_id, namespace, key, now, operator_id })
    }

    /// Removes a user's preference. As [`Self::delete_user_preference_at`], at the current instant. The clock is
    /// read only once the checks and the id have passed; where it cannot be
    /// read, the removal fails with an internal error.
    pub fn delete_user_preference(
        &self,
        generated_id: Result<i64, String>,
        tenant_id: String,
        user_id: String,
        namespace: String,
        key: String,
        operator_id: String,
        checks: InputChecks,
    ) -> (r: Result<SettingsStatement, ServiceError>)
        ensures
            (exists|now: i64| now >= 0 && plan_view(r) == #[trigger] delete_user_preference_plan(self.pool_kind(), generated_id, tenant_id, user_id, namespace, key, operator_id, checks, now))
                || (checks.namespace is Ok && checks.key is Ok && generated_id is Ok && plan_view(r)
                == Err::<SettingsStatement, ServiceErrorView>(
                ServiceErrorView::Internal(CLOCK_FAILURE_MESSAGE@),
            )),
    {
        let now = match read_clock(checks.namespace.is_ok() && checks.key.is_ok() && generated_id.is_ok()) {
            Ok(now) => now,
            Err(e) => return Err(e),
        };
        self.delete_user_preference_at(now, generated_id, tenant_id, user_id, namespace, key, operator_id, checks)
    }

    /// Looks up one configuration entry of a tenant. The statement to issue, after the
    /// namespace and key checks, in that order, and the engine check.
    pub fn get_tenant_config(
        &self,
        tenant_id: String,
        namespace: String,
        key: String,
        checks: InputChecks,
    ) -> (r: Result<SettingsStatement, ServiceError>)
        ensures
            plan_view(r) == get_tenant_config_plan(self.pool_kind(), tenant_id, namespace, key, checks),
    {
        proof {
            lemma_first_rejection(checks.namespace, checks.key, checks.value);
        }
        if let Err(m) = checks.namespace {
            return Err(ServiceError::Validation(m));
        }
        if let Err(m) = checks.key {
            return Err(ServiceError::Validation(m));
        }
        self.require_postgres()?;
        Ok(SettingsStatement::SelectTenantConfig { tenant_id, namespace, key })
    }

    /// Lists a tenant's configuration entries in one namespace. The statement to issue,
    /// after the namespace check and the engine check.
    pub fn list_tenant_configs(
        &self,
        tenant_id: String,
        namespace: String,
        checks: InputChecks,
    ) -> (r: Result<SettingsStatement, ServiceError>)
        ensures
            plan_view(r) == list_tenant_configs_plan(self.pool_kind(), tenant_id, namespace, checks),
    {
        proof {
            lemma_first_rejection(checks.namespace, checks.key, checks.value);
        }
        if let Err(m) = checks.namespace {
            return Err(ServiceError::Validation(m));
        }
        self.require_postgres()?;
        Ok(SettingsStatement::ListTenantConfigs { tenant_id, namespace })
    }

    /// Creates or updates a tenant's configuration entry. The statement to issue at instant
    /// `now`, after the namespace, key and value-size checks, in that order, the id
    /// generation and the engine check.
    pub fn update_tenant_config_at(
        &self,
        now: i64,
        generated_id: Result<i64, String>,
        tenant_id: String,
        namespace: String,
        key: String,
        value: String,
        value_type: String,
        operator_id: String,
        checks: InputChecks,
    ) -> (r: Result<SettingsStatement, ServiceError>)
        ensures
            plan_view(r) == update_tenant_config_plan(self.pool_kind(), generated_id, tenant_id, namespace, key, value, value_type, operator_id, checks, now),
    {
        proof {
            lemma_first_rejection(checks.namespace, checks.key, checks.value);
        }
        if let Err(m) = checks.namespace {
            return Err(ServiceError::Validation(m));
        }
        if let Err(m) = checks.key {
            return Err(ServiceError::Validation(m));
        }
        if let Err(m) = checks.value {
            return Err(ServiceError::Validation(m));
        }
        let id = self.next_id(generated_id)?;
        self.require_postgres()?;
        Ok(SettingsStatement::UpsertTenantConfig { id, tenant_id, namespace, key, value, value_type, operator_id, now })
    }

    /// Creates or updates a tenant's configuration entry. As
    /// [`Self::update_tenant_config_at`], at the current instant.
    /// The clock is read only once the checks and the id have passed; where
    /// it cannot be read, the update fails with an internal error.
    pub fn update_tenant_config(
        &self,
        generated_id: Result<i64, String>,
        tenant_id: String,
        namespace: String,
        key: String,
        value: String,
        value_type: String,
        operator_id: String,
        checks: InputChecks,
    ) -> (r: Result<SettingsStatement, ServiceError>)
        ensures
            (exists|now: i64| now >= 0 && plan_view(r) == #[trigger] update_tenant_config_plan(self.pool_kind(), generated_id, tenant_id, namespace, key, value, value_type, operator_id, checks, now))
                || (checks.all_pass_spec() && generated_id is Ok && plan_view(r) == Err::<
                SettingsStatement,
                ServiceErrorView,
            >(ServiceErrorView::Internal(CLOCK_FAILURE_MESSAGE@))),
    {
        let now = match read_clock(checks.all_pass() && generated_id.is_ok()) {
            Ok(now) => now,
            Err(e) => return Err(e),
        };
        self.update_tenant_config_at(now, generated_id, tenant_id, namespace, key, value, value_type, operator_id, checks)
    }

    /// Removes a tenant's configuration entry. The statement to issue at instant `now`, after the namespace
    /// and key checks, in that order, the generation of the change history
    /// entry's id and the engine check.
    pub fn delete_tenant_config_at(
        &self,
        now: i64,
        generated_id: Result<i64, String>,
        tenant_id: String,
        namespace: String,
        key: String,
        operator_id: String,
        checks: InputChecks,
    ) -> (r: Result<SettingsStatement, ServiceError>)
        ensures
            plan_view(r) == delete_tenant_config_plan(self.pool_kind(), generated_id, tenant_id, namespace, key, operator_id, checks, now),
    {
        proof {
            lemma_first_rejection(checks.namespace, checks.key, checks.value);
        }
        if let Err(m) = checks.namespace {
            return Err(ServiceError::Validation(m));
        }
        if let Err(m) = checks.key {
            return Err(ServiceError::Validation(m));
        }
        let id = self.next_id(generated_id)?;
        self.require_postgres()?;
        Ok(SettingsStatement::DeleteTenantConfig { id, tenant_id, namespace, key, now, operator_id })
    }

    /// Removes a tenant's configuration entry. As [`Self::delete_tenant_config_at`], at the current instant. The clock is
    /// read only once the checks and the id have passed; where it cannot be
    /// read, the removal fails with an internal error.
    pub fn delete_tenant_config(
        &self,
        generated_id: Result<i64, String>,
        tenant_id: String,
        namespace: String,
        key: String,
        operator_id: String,
        checks: InputChecks,
    ) -> (r: Result<SettingsStatement, ServiceError>)
        ensures
            (exists|now: i64| now >= 0 && plan_view(r) == #[trigger] delete_tenant_config_plan(self.pool_kind(), generated_id, tenant_id, namespace, key, operator_id, checks, now))
                || (checks.namespace is Ok && checks.key is Ok && generated_id is Ok && plan_view(r)
                == Err::<SettingsStatement, ServiceErrorView>(
                ServiceErrorView::Internal(CLOCK_FAILURE_MESSAGE@),
            )),
    {
        let now = match read_clock(checks.namespace.is_ok() && checks.key.is_ok() && generated_id.is_ok()) {
            Ok(now) => now,
            Err(e) => return Err(e),
        };
        self.delete_tenant_config_at(now, generated_id, tenant_id, namespace, key, operator_id, checks)
    }

    /// Looks up one system setting. The statement to issue, after the namespace and key
    /// checks, in that order, and the engine check.
    pub fn get_system_setting(
        &self,
        namespace: String,
        key: String,
        checks: InputChecks,
    ) -> (r: Result<SettingsStatement, ServiceError>)
        ensures
            plan_view(r) == get_system_setting_plan(self.pool_kind(), namespace, key, checks),
    {
        proof {
            lemma_first_rejection(checks.namespace, checks.key, checks.value);
        }
        if let Err(m) = checks.namespace {
            return Err(ServiceError::Validation(m));
        }
        if let Err(m) = checks.key {
            return Err(ServiceError::Validation(m));
        }
        self.require_postgres()?;
        Ok(SettingsStatement::SelectSystemSetting { namespace, key })
    }

    /// Lists the system settings in one namespace. The statement to issue, after the
    /// namespace check and the engine check.
    pub fn list_system_settings(
        &self,
        namespace: String,
        checks: InputChecks,
    ) -> (r: Result<SettingsStatement, ServiceError>)
        ensures
            plan_view(r) == list_system_settings_plan(self.pool_kind(), namespace, checks),
    {
        proof {
            lemma_first_rejection(checks.namespace, checks.key, checks.value);
        }
        if let Err(m) = checks.namespace {
            return Err(ServiceError::Validation(m));
        }
        self.require_postgres()?;
        Ok(SettingsStatement::ListSystemSettings { namespace })
    }

    /// Creates or updates a system setting. The statement to issue at instant `now`, after
    /// the namespace, key and value-size checks, in that order, the id generation and the
    /// engine check.
    pub fn update_system_setting_at(
        &self,
        now: i64,
        generated_id: Result<i64, String>,
        namespace: String,
        key: String,
        value: String,
        value_type: String,
        scope: String,
        scope_value: Option<String>,
        operator_id: String,
        checks: InputChecks,
    ) -> (r: Result<SettingsStatement, ServiceError>)
        ensures
            plan_view(r) == update_system_setting_plan(self.pool_kind(), generated_id, namespace, key, value, value_type, scope, scope_value, operator_id, checks, now),
    {
        proof {
            lemma_first_rejection(checks.namespace, checks.key, checks.value);
        }
        if let Err(m) = checks.namespace {
            return Err(ServiceError::Validation(m));
        }
        if let Err(m) = checks.key {
            return Err(ServiceError::Validation(m));
        }
        if let Err(m) = checks.value {
            return Err(ServiceError::Validation(m));
        }
        let id = self.next_id(generated_id)?;
        self.require_postgres()?;
        Ok(SettingsStatement::UpsertSystemSetting { id, namespace, key, value, value_type, scope, scope_value, operator_id, now })
    }

    /// Creates or updates a system setting. As [`Self::update_system_setting_at`], at the
    /// current instant.
    /// The clock is read only once the checks and the id have passed; where
    /// it cannot be read, the update fails with an internal error.
    pub fn update_system_setting(
        &self,
        generated_id: Result<i64, String>,
        namespace: String,
        key: String,
        value: String,
        value_type: String,
        scope: String,
        scope_value: Option<String>,
        operator_id: String,
        checks: InputChecks,
    ) -> (r: Result<SettingsStatement, ServiceError>)
        ensures
            (exists|now: i64| now >= 0 && plan_view(r) == #[trigger] update_system_setting_plan(self.pool_kind(), generated_id, namespace, key, value, value_type, scope, scope_value, operator_id, checks, now))
                || (checks.all_pass_spec() && generated_id is Ok && plan_view(r) == Err::<
                SettingsStatement,
                ServiceErrorView,
            >(ServiceErrorView::Internal(CLOCK_FAILURE_MESSAGE@))),
    {
        let now = match read_clock(checks.all_pass() && generated_id.is_ok()) {
            Ok(now) => now,
            Err(e) => return Err(e),
        };
        self.update_system_setting_at(now, generated_id, namespace, key, value, value_type, scope, scope_value, operator_id, checks)
    }

    /// Removes a system setting. The statement to issue at instant `now`, after the namespace
    /// and key checks, in that order, the generation of the change history
    /// entry's id and the engine check.
    pub fn delete_system_setting_at(
        &self,
        now: i64,
        generated_id: Result<i64, String>,
        namespace: String,
        key: String,
        operator_id: String,
        checks: InputChecks,
    ) -> (r: Result<SettingsStatement, ServiceError>)
        ensures
            plan_view(r) == delete_system_setting_plan(self.pool_kind(), generated_id, namespace, key, operator_id, checks, now),
    {
        proof {
            lemma_first_rejection(checks.namespace, checks.key, checks.value);
        }
        if let Err(m) = checks.namespace {
            return Err(ServiceError::Validation(m));
        }
        if let Err(m) = checks.key {
            return Err(ServiceError::Validation(m));
        }
        let id = self.next_id(generated_id)?;
        self.require_postgres()?;
        Ok(SettingsStatement::DeleteSystemSetting { id, namespace, key, now, operator_id })
    }

    /// Removes a system setting. As [`Self::delete_system_setting_at`], at the current instant. The clock is
    /// read only once the checks and the id have passed; where it cannot be
    /// read, the removal fails with an internal error.
    pub fn delete_system_setting(
        &self,
        generated_id: Result<i64, String>,
        namespace: String,
        key: String,
        operator_id: String,
        checks: InputChecks,
    ) -> (r: Result<SettingsStatement, ServiceError>)
        ensures
            (exists|now: i64| now >= 0 && plan_view(r) == #[trigger] delete_system_setting_plan(self.pool_kind(), generated_id, namespace, key, operator_id, checks, now))
                || (checks.namespace is Ok && checks.key is Ok && generated_id is Ok && plan_view(r)
                == Err::<SettingsStatement, ServiceErrorView>(
                ServiceErrorView::Internal(CLOCK_FAILURE_MESSAGE@),
            )),
    {
        let now = match read_clock(checks.namespace.is_ok() && checks.key.is_ok() && generated_id.is_ok()) {
            Ok(now) => now,
            Err(e) => return Err(e),
        };
        self.delete_system_setting_at(now, generated_id, namespace, key, operator_id, checks)
    }

}

} // verus!
