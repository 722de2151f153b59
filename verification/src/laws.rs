//! Laws of the settings statements and of the service host: every statement
//! keeps keys unique; an upsert writes exactly the addressed entry; a select
//! reads it back; a delete removes it, and deleting a missing entry is
//! answered with `NotFound`; a list gives exactly the entries in scope.

use vstd::prelude::*;
use crate::error::ServiceErrorView;
use crate::host::{
    get_user_preference_plan, get_tenant_config_plan, get_system_setting_plan,
    list_user_preferences_plan, list_tenant_configs_plan, list_system_settings_plan,
    delete_user_preference_plan, delete_tenant_config_plan, delete_system_setting_plan,
    lemma_first_rejection, spec_delete_result, update_system_setting_plan, update_tenant_config_plan,
    update_user_preference_plan, InputChecks, PoolKind,
};
use crate::keyed::{
    has_key, index_of_key, keyed_map, unique_keys, lemma_keyed_map_at, lemma_keyed_map_push,
    lemma_keyed_map_remove, lemma_keyed_map_update,
};
use crate::model::{ConfigRevision, SystemSetting, TenantConfig, UserPreference};
use crate::statement::{
    apply_statement, delete_count, delete_row, history_after_delete, removed_system_setting_revision,
    removed_tenant_config_revision, removed_user_preference_revision, select_by_key, write_row,
    statement_answers, in_system_namespace, in_tenant_namespace, in_user_namespace,
    preference_key_fn, system_setting_key_fn, tenant_config_key_fn, upserted_system_setting,
    upserted_tenant_config, upserted_user_preference, user_preference_revision,
    tenant_config_revision, system_setting_revision, OutcomeData, SettingsData,
    SettingsStatement,
};
use crate::tables::tables_well_formed;

verus! {

/// The row that [`index_of_key`] picks has the key asked for.
pub proof fn lemma_index_of_key<R, K>(rows: Seq<R>, key: spec_fn(R) -> K, k: K)
    ensures
        has_key(rows, key, k) ==> 0 <= index_of_key(rows, key, k) < rows.len() && key(
            rows[index_of_key(rows, key, k)],
        ) == k,
{
}

/// On a key-unique sequence, a key is present exactly when the map has it,
/// and the row that [`index_of_key`] picks is the map's entry.
pub proof fn lemma_lookup_keyed<R, K>(rows: Seq<R>, key: spec_fn(R) -> K, k: K)
    requires
        unique_keys(rows, key),
    ensures
        has_key(rows, key, k) <==> keyed_map(rows, key).contains_key(k),
        has_key(rows, key, k) ==> rows[index_of_key(rows, key, k)] == keyed_map(rows, key)[k],
        select_by_key(rows, key, k) == if keyed_map(rows, key).contains_key(k) {
            seq![keyed_map(rows, key)[k]]
        } else {
            Seq::<R>::empty()
        },
{
    if has_key(rows, key, k) {
        lemma_keyed_map_at(rows, key, index_of_key(rows, key, k));
    }
}

/// Writing a row replaces or adds the map entry under its key and keeps keys
/// unique.
pub proof fn lemma_write_keyed<R, K>(rows: Seq<R>, key: spec_fn(R) -> K, r: R)
    requires
        unique_keys(rows, key),
    ensures
        unique_keys(write_row(rows, key, r), key),
        keyed_map(write_row(rows, key, r), key) == keyed_map(rows, key).insert(key(r), r),
{
    if has_key(rows, key, key(r)) {
        lemma_keyed_map_update(rows, key, index_of_key(rows, key, key(r)), r);
    } else {
        lemma_keyed_map_push(rows, key, r);
    }
}

/// Deleting a key removes its map entry, keeps keys unique, and counts one
/// row exactly when the entry was there.
pub proof fn lemma_delete_keyed<R, K>(rows: Seq<R>, key: spec_fn(R) -> K, k: K)
    requires
        unique_keys(rows, key),
    ensures
        unique_keys(delete_row(rows, key, k), key),
        keyed_map(delete_row(rows, key, k), key) == keyed_map(rows, key).remove(k),
        delete_count(rows, key, k) == if keyed_map(rows, key).contains_key(k) { 1nat } else { 0nat },
{
    lemma_lookup_keyed(rows, key, k);
    if has_key(rows, key, k) {
        lemma_keyed_map_remove(rows, key, index_of_key(rows, key, k));
    } else {
        assert(keyed_map(rows, key).remove(k) =~= keyed_map(rows, key));
    }
}

/// The change history after a delete: one entry more, made from the removed
/// row, exactly when the key was there.
pub proof fn lemma_history_after_delete<R, K>(
    history: Seq<ConfigRevision>,
    rows: Seq<R>,
    key: spec_fn(R) -> K,
    k: K,
    entry: spec_fn(R) -> ConfigRevision,
)
    requires
        unique_keys(rows, key),
    ensures
        history_after_delete(history, rows, key, k, entry) == if keyed_map(rows, key).contains_key(k) {
            history.push(entry(keyed_map(rows, key)[k]))
        } else {
            history
        },
{
    lemma_lookup_keyed(rows, key, k);
}

/// An answer that holds, in some order, the rows that pass `p` holds exactly
/// the map entries that pass `p`.
pub proof fn lemma_listed_keyed<R, K>(rows: Seq<R>, key: spec_fn(R) -> K, p: spec_fn(R) -> bool, answer: Seq<R>)
    requires
        unique_keys(rows, key),
        answer.to_multiset() == rows.filter(p).to_multiset(),
    ensures
        forall|r: R|
            #![trigger answer.contains(r)]
            answer.contains(r) <==> {
                &&& keyed_map(rows, key).contains_key(key(r))
                &&& keyed_map(rows, key)[key(r)] == r
                &&& p(r)
            },
{
    let m = keyed_map(rows, key);
    let listed = rows.filter(p);
    answer.to_multiset_ensures();
    listed.to_multiset_ensures();
    assert forall|r: R| #![trigger answer.contains(r)]
        answer.contains(r) <==> (m.contains_key(key(r)) && m[key(r)] == r && p(r)) by {
        assert(answer.to_multiset().count(r) == listed.to_multiset().count(r));
        if listed.contains(r) {
            rows.lemma_filter_contains_rev(p, r);
            let i = choose|i: int| 0 <= i < rows.len() && rows[i] == r;
            lemma_keyed_map_at(rows, key, i);
        }
        if m.contains_key(key(r)) && m[key(r)] == r && p(r) {
            let i = index_of_key(rows, key, key(r));
            lemma_keyed_map_at(rows, key, i);
            rows.lemma_filter_contains(p, i);
        }
    }
}

/// An upsert of a user preference writes the entry under its key and nothing else but one
/// new entry at the end of the change history, which records the key, the new value and
/// value type, the operator and the instant. The entry takes the new value, value type and
/// update instant; an entry that existed keeps its id, creation instant and authors, a new
/// one gets the new id, is created at `now` and has no authors. The statement answers with
/// the written row, and keys stay unique.
pub proof fn law_upsert_user_preference(
    db: SettingsData,
    id: i64,
    tenant_id: String,
    user_id: String,
    namespace: String,
    key: String,
    value: String,
    value_type: String,
    now: i64,
    operator_id: String,
)
    requires
        tables_well_formed(db),
    ensures
        ({
            let st = SettingsStatement::UpsertUserPreference {
                id,
                tenant_id,
                user_id,
                namespace,
                key,
                value,
                value_type,
                now,
                operator_id,
            };
            let (after, out) = apply_statement(db, st);
            let k = (tenant_id@, user_id@, namespace@, key@);
            let before = keyed_map(db.user_preferences, preference_key_fn());
            let r = upserted_user_preference(
                db.user_preferences,
                id,
                tenant_id,
                user_id,
                namespace,
                key,
                value,
                value_type,
                now,
            );
            &&& tables_well_formed(after)
            &&& keyed_map(after.user_preferences, preference_key_fn()) == before.insert(k, r)
            &&& after.tenant_configs == db.tenant_configs
            &&& after.system_settings == db.system_settings
            &&& after.config_revisions == db.config_revisions.push(
                user_preference_revision(
                    id,
                    tenant_id,
                    user_id,
                    namespace,
                    key,
                    value,
                    value_type,
                    now,
                    operator_id,
                ),
            )
            &&& out == OutcomeData::UserPreferences(seq![r])
            &&& r.preference_value == value
            &&& r.value_type == value_type
            &&& r.updated_at == now
            &&& before.contains_key(k) ==> {
                &&& r.id == before[k].id
                &&& r.created_at == before[k].created_at
                &&& r.created_by == before[k].created_by
                &&& r.updated_by == before[k].updated_by
            }
            &&& !before.contains_key(k) ==> {
                &&& r.id == id
                &&& r.created_at == now
                &&& r.created_by is None
                &&& r.updated_by is None
            }
        }),
{
    let rows = db.user_preferences;
    let k = (tenant_id@, user_id@, namespace@, key@);
    lemma_index_of_key(rows, preference_key_fn(), k);
    lemma_lookup_keyed(rows, preference_key_fn(), k);
    let r = upserted_user_preference(rows, id, tenant_id, user_id, namespace, key, value, value_type, now);
    assert(preference_key_fn()(r) == k);
    lemma_write_keyed(rows, preference_key_fn(), r);

}

/// A select of a user preference changes nothing and answers with the entry
/// under the key, if there is one.
pub proof fn law_select_user_preference(
    db: SettingsData,
    tenant_id: String,
    user_id: String,
    namespace: String,
    key: String,
)
    requires
        tables_well_formed(db),
    ensures
        ({
            let st = SettingsStatement::SelectUserPreference { tenant_id, user_id, namespace, key };
            let (after, out) = apply_statement(db, st);
            let k = (tenant_id@, user_id@, namespace@, key@);
            let m = keyed_map(db.user_preferences, preference_key_fn());
            &&& after == db
            &&& out == OutcomeData::UserPreferences(
                if m.contains_key(k) {
                    seq![m[k]]
                } else {
                    Seq::<UserPreference>::empty()
                },
            )
        }),
{
    lemma_lookup_keyed(db.user_preferences, preference_key_fn(), (tenant_id@, user_id@, namespace@, key@));

}

/// A delete of a user preference removes the entry under the key and
/// nothing else; where the entry was there, one new entry at the end of the
/// change history records its removal, by the operator at `now`. It reports
/// one removed row if the entry was there, and none otherwise, which the host
/// answers with `NotFound`.
pub proof fn law_delete_user_preference(
    db: SettingsData,
    id: i64,
    tenant_id: String,
    user_id: String,
    namespace: String,
    key: String,
    now: i64,
    operator_id: String,
)
    requires
        tables_well_formed(db),
    ensures
        ({
            let st = SettingsStatement::DeleteUserPreference { id, tenant_id, user_id, namespace, key, now, operator_id };
            let (after, out) = apply_statement(db, st);
            let k = (tenant_id@, user_id@, namespace@, key@);
            let m = keyed_map(db.user_preferences, preference_key_fn());
            &&& tables_well_formed(after)
            &&& keyed_map(after.user_preferences, preference_key_fn()) == m.remove(k)
            &&& after.tenant_configs == db.tenant_configs
            &&& after.system_settings == db.system_settings
            &&& after.config_revisions == if m.contains_key(k) {
                db.config_revisions.push(removed_user_preference_revision(id, m[k], now, operator_id))
            } else {
                db.config_revisions
            }
            &&& out == OutcomeData::RowsAffected(if m.contains_key(k) { 1 } else { 0 })
            &&& spec_delete_result(if m.contains_key(k) { 1 } else { 0 }) == if m.contains_key(k) {
                Ok::<(), ServiceErrorView>(())
            } else {
                Err::<(), ServiceErrorView>(ServiceErrorView::NotFound)
            }
        }),
{
    let rows = db.user_preferences;
    let k = (tenant_id@, user_id@, namespace@, key@);
    lemma_delete_keyed(rows, preference_key_fn(), k);
    lemma_history_after_delete(
        db.config_revisions,
        rows,
        preference_key_fn(),
        k,
        |r: UserPreference| removed_user_preference_revision(id, r, now, operator_id),
    );
}

/// Whatever the database answers to a list of user preferences, it changes
/// nothing and the answer holds exactly the entries of the given user and
/// namespace, in some order.
pub proof fn law_list_user_preferences(
    db: SettingsData,
    tenant_id: String,
    user_id: String,
    namespace: String,
    after: SettingsData,
    out: OutcomeData,
)
    requires
        tables_well_formed(db),
        statement_answers(db, SettingsStatement::ListUserPreferences { tenant_id, user_id, namespace }, after, out),
    ensures
        ({
            let m = keyed_map(db.user_preferences, preference_key_fn());
            let in_scope = in_user_namespace(tenant_id@, user_id@, namespace@);
            &&& after == db
            &&& out matches OutcomeData::UserPreferences(answer) && forall|r: UserPreference|
                #![trigger answer.contains(r)]
                answer.contains(r) <==> {
                    &&& m.contains_key(preference_key_fn()(r))
                    &&& m[preference_key_fn()(r)] == r
                    &&& in_scope(r)
                }
        }),
{
    if let OutcomeData::UserPreferences(answer) = out {
        lemma_listed_keyed(db.user_preferences, preference_key_fn(), in_user_namespace(tenant_id@, user_id@, namespace@), answer);
    }

}

/// A user preference read back after an upsert carries the written value
/// and value type.
pub proof fn law_read_after_write_user_preference(
    db: SettingsData,
    id: i64,
    tenant_id: String,
    user_id: String,
    namespace: String,
    key: String,
    value: String,
    value_type: String,
    now: i64,
    operator_id: String,
    read_tenant_id: String,
    read_user_id: String,
    read_namespace: String,
    read_key: String,
)
    requires
        tables_well_formed(db),
        read_tenant_id@ == tenant_id@,
        read_user_id@ == user_id@,
        read_namespace@ == namespace@,
        read_key@ == key@,
    ensures
        ({
            let write = SettingsStatement::UpsertUserPreference {
                id,
                tenant_id,
                user_id,
                namespace,
                key,
                value,
                value_type,
                now,
                operator_id,
            };
            let read = SettingsStatement::SelectUserPreference {
                tenant_id: read_tenant_id,
                user_id: read_user_id,
                namespace: read_namespace,
                key: read_key,
            };
            let (after_write, written) = apply_statement(db, write);
            let (_, answer) = apply_statement(after_write, read);
            &&& written matches OutcomeData::UserPreferences(w) && answer == OutcomeData::UserPreferences(w)
            &&& answer matches OutcomeData::UserPreferences(rows) && rows.len() == 1
                && rows[0].preference_value == value && rows[0].value_type == value_type
        }),
{
    law_upsert_user_preference(db, id, tenant_id, user_id, namespace, key, value, value_type, now, operator_id);
    let (after_write, _) = apply_statement(
        db,
        SettingsStatement::UpsertUserPreference {
            id,
            tenant_id,
            user_id,
            namespace,
            key,
            value,
            value_type,
            now,
            operator_id,
        },
    );
    law_select_user_preference(after_write, read_tenant_id, read_user_id, read_namespace, read_key);
}

/// After a delete, a user preference reads back as absent, and deleting it
/// again removes nothing, leaves the change history as it is and is answered
/// with `NotFound`.
pub proof fn law_read_after_delete_user_preference(
    db: SettingsData,
    id: i64,
    again_id: i64,
    tenant_id: String,
    user_id: String,
    namespace: String,
    key: String,
    now: i64,
    operator_id: String,
)
    requires
        tables_well_formed(db),
    ensures
        ({
            let delete = SettingsStatement::DeleteUserPreference { id, tenant_id, user_id, namespace, key, now, operator_id };
            let again = SettingsStatement::DeleteUserPreference { id: again_id, tenant_id, user_id, namespace, key, now, operator_id };
            let read = SettingsStatement::SelectUserPreference { tenant_id, user_id, namespace, key };
            let (after, _) = apply_statement(db, delete);
            &&& apply_statement(after, read).1 == OutcomeData::UserPreferences(Seq::empty())
            &&& apply_statement(after, again).1 == OutcomeData::RowsAffected(0)
            &&& apply_statement(after, again).0.config_revisions == after.config_revisions
            &&& spec_delete_result(0) == Err::<(), ServiceErrorView>(ServiceErrorView::NotFound)
        }),
{
    law_delete_user_preference(db, id, tenant_id, user_id, namespace, key, now, operator_id);
    let (after, _) = apply_statement(db, SettingsStatement::DeleteUserPreference { id, tenant_id, user_id, namespace, key, now, operator_id });
    law_select_user_preference(after, tenant_id, user_id, namespace, key);
    law_delete_user_preference(after, again_id, tenant_id, user_id, namespace, key, now, operator_id);
}

/// An upsert of a tenant configuration entry writes the entry under its key
/// and nothing else but one new entry at the end of the change history, which
/// records the key, the new value and value type, the operator and the
/// instant. The entry takes the new value, value type, update instant
/// and the operator as updater; an entry that existed keeps its id, creation
/// instant and creator, a new one gets the new id, is created at `now` and by
/// the operator. The statement answers with the written row, and keys stay
/// unique.
pub proof fn law_upsert_tenant_config(
    db: SettingsData,
    id: i64,
    tenant_id: String,
    namespace: String,
    key: String,
    value: String,
    value_type: String,
    now: i64,
    operator_id: String,
)
    requires
        tables_well_formed(db),
    ensures
        ({
            let st = SettingsStatement::UpsertTenantConfig {
                id,
                tenant_id,
                namespace,
                key,
                value,
                value_type,
                now,
                operator_id,
            };
            let (after, out) = apply_statement(db, st);
            let k = (tenant_id@, namespace@, key@);
            let before = keyed_map(db.tenant_configs, tenant_config_key_fn());
            let r = upserted_tenant_config(
                db.tenant_configs,
                id,
                tenant_id,
                namespace,
                key,
                value,
                value_type,
                now,
                operator_id,
            );
            &&& tables_well_formed(after)
            &&& keyed_map(after.tenant_configs, tenant_config_key_fn()) == before.insert(k, r)
            &&& after.user_preferences == db.user_preferences
            &&& after.system_settings == db.system_settings
            &&& after.config_revisions == db.config_revisions.push(
                tenant_config_revision(id, tenant_id, namespace, key, value, value_type, now, operator_id),
            )
            &&& out == OutcomeData::TenantConfigs(seq![r])
            &&& r.config_value == value
            &&& r.value_type == value_type
            &&& r.updated_at == now
            &&& r.updated_by == operator_id
            &&& before.contains_key(k) ==> {
                &&& r.id == before[k].id
                &&& r.created_at == before[k].created_at
                &&& r.created_by == before[k].created_by
            }
            &&& !before.contains_key(k) ==> {
                &&& r.id == id
                &&& r.created_at == now
                &&& r.created_by == operator_id
            }
        }),
{
    let rows = db.tenant_configs;
    let k = (tenant_id@, namespace@, key@);
    lemma_index_of_key(rows, tenant_config_key_fn(), k);
    lemma_lookup_keyed(rows, tenant_config_key_fn(), k);
    let r = upserted_tenant_config(rows, id, tenant_id, namespace, key, value, value_type, now, operator_id);
    assert(tenant_config_key_fn()(r) == k);
    lemma_write_keyed(rows, tenant_config_key_fn(), r);

}

/// A select of a tenant configuration entry changes nothing and answers with the entry
/// under the key, if there is one.
pub proof fn law_select_tenant_config(
    db: SettingsData,
    tenant_id: String,
    namespace: String,
    key: String,
)
    requires
        tables_well_formed(db),
    ensures
        ({
            let st = SettingsStatement::SelectTenantConfig { tenant_id, namespace, key };
            let (after, out) = apply_statement(db, st);
            let k = (tenant_id@, namespace@, key@);
            let m = keyed_map(db.tenant_configs, tenant_config_key_fn());
            &&& after == db
            &&& out == OutcomeData::TenantConfigs(
                if m.contains_key(k) {
                    seq![m[k]]
                } else {
                    Seq::<TenantConfig>::empty()
                },
            )
        }),
{
    lemma_lookup_keyed(db.tenant_configs, tenant_config_key_fn(), (tenant_id@, namespace@, key@));

}

/// A delete of a tenant config removes the entry under the key and
/// nothing else; where the entry was there, one new entry at the end of the
/// change history records its removal, by the operator at `now`. It reports
/// one removed row if the entry was there, and none otherwise, which the host
/// answers with `NotFound`.
pub proof fn law_delete_tenant_config(
    db: SettingsData,
    id: i64,
    tenant_id: String,
    namespace: String,
    key: String,
    now: i64,
    operator_id: String,
)
    requires
        tables_well_formed(db),
    ensures
        ({
            let st = SettingsStatement::DeleteTenantConfig { id, tenant_id, namespace, key, now, operator_id };
            let (after, out) = apply_statement(db, st);
            let k = (tenant_id@, namespace@, key@);
            let m = keyed_map(db.tenant_configs, tenant_config_key_fn());
            &&& tables_well_formed(after)
            &&& keyed_map(after.tenant_configs, tenant_config_key_fn()) == m.remove(k)
            &&& after.user_preferences == db.user_preferences
            &&& after.system_settings == db.system_settings
            &&& after.config_revisions == if m.contains_key(k) {
                db.config_revisions.push(removed_tenant_config_revision(id, m[k], now, operator_id))
            } else {
                db.config_revisions
            }
            &&& out == OutcomeData::RowsAffected(if m.contains_key(k) { 1 } else { 0 })
            &&& spec_delete_result(if m.contains_key(k) { 1 } else { 0 }) == if m.contains_key(k) {
                Ok::<(), ServiceErrorView>(())
            } else {
                Err::<(), ServiceErrorView>(ServiceErrorView::NotFound)
            }
        }),
{
    let rows = db.tenant_configs;
    let k = (tenant_id@, namespace@, key@);
    lemma_delete_keyed(rows, tenant_config_key_fn(), k);
    lemma_history_after_delete(
        db.config_revisions,
        rows,
        tenant_config_key_fn(),
        k,
        |r: TenantConfig| removed_tenant_config_revision(id, r, now, operator_id),
    );
}

/// Whatever the database answers to a list of tenant configuration entries,
/// it changes nothing and the answer holds exactly the entries of the given
/// tenant and namespace, in some order.
pub proof fn law_list_tenant_configs(
    db: SettingsData,
    tenant_id: String,
    namespace: String,
    after: SettingsData,
    out: OutcomeData,
)
    requires
        tables_well_formed(db),
        statement_answers(db, SettingsStatement::ListTenantConfigs { tenant_id, namespace }, after, out),
    ensures
        ({
            let m = keyed_map(db.tenant_configs, tenant_config_key_fn());
            let in_scope = in_tenant_namespace(tenant_id@, namespace@);
            &&& after == db
            &&& out matches OutcomeData::TenantConfigs(answer) && forall|r: TenantConfig|
                #![trigger answer.contains(r)]
                answer.contains(r) <==> {
                    &&& m.contains_key(tenant_config_key_fn()(r))
                    &&& m[tenant_config_key_fn()(r)] == r
                    &&& in_scope(r)
                }
        }),
{
    if let OutcomeData::TenantConfigs(answer) = out {
        lemma_listed_keyed(db.tenant_configs, tenant_config_key_fn(), in_tenant_namespace(tenant_id@, namespace@), answer);
    }

}

/// A tenant configuration entry read back after an upsert carries the written value
/// and value type.
pub proof fn law_read_after_write_tenant_config(
    db: SettingsData,
    id: i64,
    tenant_id: String,
    namespace: String,
    key: String,
    value: String,
    value_type: String,
    now: i64,
    operator_id: String,
    read_tenant_id: String,
    read_namespace: String,
    read_key: String,
)
    requires
        tables_well_formed(db),
        read_tenant_id@ == tenant_id@,
        read_namespace@ == namespace@,
        read_key@ == key@,
    ensures
        ({
            let write = SettingsStatement::UpsertTenantConfig {
                id,
                tenant_id,
                namespace,
                key,
                value,
                value_type,
                now,
                operator_id,
            };
            let read = SettingsStatement::SelectTenantConfig {
                tenant_id: read_tenant_id,
                namespace: read_namespace,
                key: read_key,
            };
            let (after_write, written) = apply_statement(db, write);
            let (_, answer) = apply_statement(after_write, read);
            &&& written matches OutcomeData::TenantConfigs(w) && answer == OutcomeData::TenantConfigs(w)
            &&& answer matches OutcomeData::TenantConfigs(rows) && rows.len() == 1
                && rows[0].config_value == value && rows[0].value_type == value_type
        }),
{
    law_upsert_tenant_config(db, id, tenant_id, namespace, key, value, value_type, now, operator_id);
    let (after_write, _) = apply_statement(
        db,
        SettingsStatement::UpsertTenantConfig {
            id,
            tenant_id,
            namespace,
            key,
            value,
            value_type,
            now,
            operator_id,
        },
    );
    law_select_tenant_config(after_write, read_tenant_id, read_namespace, read_key);
}

/// After a delete, a tenant config reads back as absent, and deleting it
/// again removes nothing, leaves the change history as it is and is answered
/// with `NotFound`.
pub proof fn law_read_after_delete_tenant_config(
    db: SettingsData,
    id: i64,
    again_id: i64,
    tenant_id: String,
    namespace: String,
    key: String,
    now: i64,
    operator_id: String,
)
    requires
        tables_well_formed(db),
    ensures
        ({
            let delete = SettingsStatement::DeleteTenantConfig { id, tenant_id, namespace, key, now, operator_id };
            let again = SettingsStatement::DeleteTenantConfig { id: again_id, tenant_id, namespace, key, now, operator_id };
            let read = SettingsStatement::SelectTenantConfig { tenant_id, namespace, key };
            let (after, _) = apply_statement(db, delete);
            &&& apply_statement(after, read).1 == OutcomeData::TenantConfigs(Seq::empty())
            &&& apply_statement(after, again).1 == OutcomeData::RowsAffected(0)
            &&& apply_statement(after, again).0.config_revisions == after.config_revisions
            &&& spec_delete_result(0) == Err::<(), ServiceErrorView>(ServiceErrorView::NotFound)
        }),
{
    law_delete_tenant_config(db, id, tenant_id, namespace, key, now, operator_id);
    let (after, _) = apply_statement(db, SettingsStatement::DeleteTenantConfig { id, tenant_id, namespace, key, now, operator_id });
    law_select_tenant_config(after, tenant_id, namespace, key);
    law_delete_tenant_config(after, again_id, tenant_id, namespace, key, now, operator_id);
}

/// An upsert of a system setting writes the entry under its key and nothing
/// else but one new entry at the end of the change history, which records the
/// key, the new value, value type, scope and scope value, the operator and the
/// instant. The entry takes the new value, value type, scope, scope value,
/// update instant and the operator as updater; an entry that existed keeps its
/// id, creation instant and creator, a new one gets the new id, is created at
/// `now` and by the operator. The statement answers with the written row, and
/// keys stay unique.
pub proof fn law_upsert_system_setting(
    db: SettingsData,
    id: i64,
    namespace: String,
    key: String,
    value: String,
    value_type: String,
    scope: String,
    scope_value: Option<String>,
    now: i64,
    operator_id: String,
)
    requires
        tables_well_formed(db),
    ensures
        ({
            let st = SettingsStatement::UpsertSystemSetting {
                id,
                namespace,
                key,
                value,
                value_type,
                scope,
                scope_value,
                now,
                operator_id,
            };
            let (after, out) = apply_statement(db, st);
            let k = (namespace@, key@);
            let before = keyed_map(db.system_settings, system_setting_key_fn());
            let r = upserted_system_setting(
                db.system_settings,
                id,
                namespace,
                key,
                value,
                value_type,
                scope,
                scope_value,
                now,
                operator_id,
            );
            &&& tables_well_formed(after)
            &&& keyed_map(after.system_settings, system_setting_key_fn()) == before.insert(k, r)
            &&& after.user_preferences == db.user_preferences
            &&& after.tenant_configs == db.tenant_configs
            &&& after.config_revisions == db.config_revisions.push(
                system_setting_revision(
                    id,
                    namespace,
                    key,
                    value,
                    value_type,
                    scope,
                    scope_value,
                    now,
                    operator_id,
                ),
            )
            &&& out == OutcomeData::SystemSettings(seq![r])
            &&& r.setting_value == value
            &&& r.value_type == value_type
            &&& r.scope == scope
            &&& r.scope_value == scope_value
            &&& r.updated_at == now
            &&& r.updated_by == operator_id
            &&& before.contains_key(k) ==> {
                &&& r.id == before[k].id
                &&& r.created_at == before[k].created_at
                &&& r.created_by == before[k].created_by
            }
            &&& !before.contains_key(k) ==> {
                &&& r.id == id
                &&& r.created_at == now
                &&& r.created_by == operator_id
            }
        }),
{
    let rows = db.system_settings;
    let k = (namespace@, key@);
    lemma_index_of_key(rows, system_setting_key_fn(), k);
    lemma_lookup_keyed(rows, system_setting_key_fn(), k);
    let r = upserted_system_setting(rows, id, namespace, key, value, value_type, scope, scope_value, now, operator_id);
    assert(system_setting_key_fn()(r) == k);
    lemma_write_keyed(rows, system_setting_key_fn(), r);

}

/// A select of a system setting changes nothing and answers with the entry
/// under the key, if there is one.
pub proof fn law_select_system_setting(
    db: SettingsData,
    namespace: String,
    key: String,
)
    requires
        tables_well_formed(db),
    ensures
        ({
            let st = SettingsStatement::SelectSystemSetting { namespace, key };
            let (after, out) = apply_statement(db, st);
            let k = (namespace@, key@);
            let m = keyed_map(db.system_settings, system_setting_key_fn());
            &&& after == db
            &&& out == OutcomeData::SystemSettings(
                if m.contains_key(k) {
                    seq![m[k]]
                } else {
                    Seq::<SystemSetting>::empty()
                },
            )
        }),
{
    lemma_lookup_keyed(db.system_settings, system_setting_key_fn(), (namespace@, key@));

}

/// A delete of a system setting removes the entry under the key and
/// nothing else; where the entry was there, one new entry at the end of the
/// change history records its removal, by the operator at `now`. It reports
/// one removed row if the entry was there, and none otherwise, which the host
/// answers with `NotFound`.
pub proof fn law_delete_system_setting(
    db: SettingsData,
    id: i64,
    namespace: String,
    key: String,
    now: i64,
    operator_id: String,
)
    requires
        tables_well_formed(db),
    ensures
        ({
            let st = SettingsStatement::DeleteSystemSetting { id, namespace, key, now, operator_id };
            let (after, out) = apply_statement(db, st);
            let k = (namespace@, key@);
            let m = keyed_map(db.system_settings, system_setting_key_fn());
            &&& tables_well_formed(after)
            &&& keyed_map(after.system_settings, system_setting_key_fn()) == m.remove(k)
            &&& after.user_preferences == db.user_preferences
            &&& after.tenant_configs == db.tenant_configs
            &&& after.config_revisions == if m.contains_key(k) {
                db.config_revisions.push(removed_system_setting_revision(id, m[k], now, operator_id))
            } else {
                db.config_revisions
            }
            &&& out == OutcomeData::RowsAffected(if m.contains_key(k) { 1 } else { 0 })
            &&& spec_delete_result(if m.contains_key(k) { 1 } else { 0 }) == if m.contains_key(k) {
                Ok::<(), ServiceErrorView>(())
            } else {
                Err::<(), ServiceErrorView>(ServiceErrorView::NotFound)
            }
        }),
{
    let rows = db.system_settings;
    let k = (namespace@, key@);
    lemma_delete_keyed(rows, system_setting_key_fn(), k);
    lemma_history_after_delete(
        db.config_revisions,
        rows,
        system_setting_key_fn(),
        k,
        |r: SystemSetting| removed_system_setting_revision(id, r, now, operator_id),
    );
}

/// Whatever the database answers to a list of system settings, it changes
/// nothing and the answer holds exactly the entries of the given namespace,
/// in some order.
pub proof fn law_list_system_settings(
    db: SettingsData,
    namespace: String,
    after: SettingsData,
    out: OutcomeData,
)
    requires
        tables_well_formed(db),
        statement_answers(db, SettingsStatement::ListSystemSettings { namespace }, after, out),
    ensures
        ({
            let m = keyed_map(db.system_settings, system_setting_key_fn());
            let in_scope = in_system_namespace(namespace@);
            &&& after == db
            &&& out matches OutcomeData::SystemSettings(answer) && forall|r: SystemSetting|
                #![trigger answer.contains(r)]
                answer.contains(r) <==> {
                    &&& m.contains_key(system_setting_key_fn()(r))
                    &&& m[system_setting_key_fn()(r)] == r
                    &&& in_scope(r)
                }
        }),
{
    if let OutcomeData::SystemSettings(answer) = out {
        lemma_listed_keyed(db.system_settings, system_setting_key_fn(), in_system_namespace(namespace@), answer);
    }

}

/// A system setting read back after an upsert carries the written value
/// and value type.
pub proof fn law_read_after_write_system_setting(
    db: SettingsData,
    id: i64,
    namespace: String,
    key: String,
    value: String,
    value_type: String,
    scope: String,
    scope_value: Option<String>,
    now: i64,
    operator_id: String,
    read_namespace: String,
    read_key: String,
)
    requires
        tables_well_formed(db),
        read_namespace@ == namespace@,
        read_key@ == key@,
    ensures
        ({
            let write = SettingsStatement::UpsertSystemSetting {
                id,
                namespace,
                key,
                value,
                value_type,
                scope,
                scope_value,
                now,
                operator_id,
            };
            let read = SettingsStatement::SelectSystemSetting {
                namespace: read_namespace,
                key: read_key,
            };
            let (after_write, written) = apply_statement(db, write);
            let (_, answer) = apply_statement(after_write, read);
            &&& written matches OutcomeData::SystemSettings(w) && answer == OutcomeData::SystemSettings(w)
            &&& answer matches OutcomeData::SystemSettings(rows) && rows.len() == 1
                && rows[0].setting_value == value && rows[0].value_type == value_type
        }),
{
    law_upsert_system_setting(db, id, namespace, key, value, value_type, scope, scope_value, now, operator_id);
    let (after_write, _) = apply_statement(
        db,
        SettingsStatement::UpsertSystemSetting {
            id,
            namespace,
            key,
            value,
            value_type,
            scope,
            scope_value,
            now,
            operator_id,
        },
    );
    law_select_system_setting(after_write, read_namespace, read_key);
}

/// After a delete, a system setting reads back as absent, and deleting it
/// again removes nothing, leaves the change history as it is and is answered
/// with `NotFound`.
pub proof fn law_read_after_delete_system_setting(
    db: SettingsData,
    id: i64,
    again_id: i64,
    namespace: String,
    key: String,
    now: i64,
    operator_id: String,
)
    requires
        tables_well_formed(db),
    ensures
        ({
            let delete = SettingsStatement::DeleteSystemSetting { id, namespace, key, now, operator_id };
            let again = SettingsStatement::DeleteSystemSetting { id: again_id, namespace, key, now, operator_id };
            let read = SettingsStatement::SelectSystemSetting { namespace, key };
            let (after, _) = apply_statement(db, delete);
            &&& apply_statement(after, read).1 == OutcomeData::SystemSettings(Seq::empty())
            &&& apply_statement(after, again).1 == OutcomeData::RowsAffected(0)
            &&& apply_statement(after, again).0.config_revisions == after.config_revisions
            &&& spec_delete_result(0) == Err::<(), ServiceErrorView>(ServiceErrorView::NotFound)
        }),
{
    law_delete_system_setting(db, id, namespace, key, now, operator_id);
    let (after, _) = apply_statement(db, SettingsStatement::DeleteSystemSetting { id, namespace, key, now, operator_id });
    law_select_system_setting(after, namespace, key);
    law_delete_system_setting(after, again_id, namespace, key, now, operator_id);
}


/// Every statement keeps the tables free of two rows with one key.
pub proof fn law_statements_keep_keys_unique(db: SettingsData, st: SettingsStatement)
    requires
        tables_well_formed(db),
    ensures
        tables_well_formed(apply_statement(db, st).0),
{
    match st {
        SettingsStatement::UpsertUserPreference {
            id,
            tenant_id,
            user_id,
            namespace,
            key,
            value,
            value_type,
            now,
            operator_id,
        } => law_upsert_user_preference(
            db,
            id,
            tenant_id,
            user_id,
            namespace,
            key,
            value,
            value_type,
            now,
            operator_id,
        ),
        SettingsStatement::DeleteUserPreference { id, tenant_id, user_id, namespace, key, now, operator_id } => {
            law_delete_user_preference(db, id, tenant_id, user_id, namespace, key, now, operator_id)
        },
        SettingsStatement::UpsertTenantConfig {
            id,
            tenant_id,
            namespace,
            key,
            value,
            value_type,
            now,
            operator_id,
        } => law_upsert_tenant_config(
            db,
            id,
            tenant_id,
            namespace,
            key,
            value,
            value_type,
            now,
            operator_id,
        ),
        SettingsStatement::DeleteTenantConfig { id, tenant_id, namespace, key, now, operator_id } => {
            law_delete_tenant_config(db, id, tenant_id, namespace, key, now, operator_id)
        },
        SettingsStatement::UpsertSystemSetting {
            id,
            namespace,
            key,
            value,
            value_type,
            scope,
            scope_value,
            now,
            operator_id,
        } => law_upsert_system_setting(
            db,
            id,
            namespace,
            key,
            value,
            value_type,
            scope,
            scope_value,
            now,
            operator_id,
        ),
        SettingsStatement::DeleteSystemSetting { id, namespace, key, now, operator_id } => {
            law_delete_system_setting(db, id, namespace, key, now, operator_id)
        },
        _ => {},
    }
}

/// A user preference update that the host admits needs a PostgreSQL pool,
/// passing checks and a generated id; running its statement writes the new
/// value, which reads back, and adds one entry to the change history that
/// records the key, the new value and value type, the operator and the
/// instant.
pub proof fn law_admitted_user_preference_update(
    db: SettingsData,
    pool: PoolKind,
    generated_id: Result<i64, String>,
    tenant_id: String,
    user_id: String,
    namespace: String,
    key: String,
    value: String,
    value_type: String,
    operator_id: String,
    checks: InputChecks,
    now: i64,
    after: SettingsData,
    out: OutcomeData,
)
    requires
        tables_well_formed(db),
        update_user_preference_plan(pool, generated_id, tenant_id, user_id, namespace, key, value, value_type, operator_id, checks, now) is Ok,
        statement_answers(
            db,
            update_user_preference_plan(pool, generated_id, tenant_id, user_id, namespace, key, value, value_type, operator_id, checks, now)->Ok_0,
            after,
            out,
        ),
    ensures
        pool == PoolKind::Postgres,
        checks.all_pass_spec(),
        generated_id is Ok,
        after.config_revisions == db.config_revisions.push(
            user_preference_revision(generated_id->Ok_0, tenant_id, user_id, namespace, key, value, value_type, now, operator_id),
        ),
        keyed_map(after.user_preferences, preference_key_fn()).contains_key((tenant_id@, user_id@, namespace@, key@)),
        keyed_map(after.user_preferences, preference_key_fn())[(tenant_id@, user_id@, namespace@, key@)].preference_value == value,
        out matches OutcomeData::UserPreferences(rows) && rows.len() == 1 && rows[0].preference_value == value,
{
    lemma_first_rejection(checks.namespace, checks.key, checks.value);
    let id = generated_id->Ok_0;
    law_upsert_user_preference(db, id, tenant_id, user_id, namespace, key, value, value_type, now, operator_id);
}

/// A tenant configuration update that the host admits needs a PostgreSQL
/// pool, passing checks and a generated id; running its statement writes the
/// new value, which reads back, and adds one entry to the change history
/// that records the key, the new value and value type, the operator and the
/// instant.
pub proof fn law_admitted_tenant_config_update(
    db: SettingsData,
    pool: PoolKind,
    generated_id: Result<i64, String>,
    tenant_id: String,
    namespace: String,
    key: String,
    value: String,
    value_type: String,
    operator_id: String,
    checks: InputChecks,
    now: i64,
    after: SettingsData,
    out: OutcomeData,
)
    requires
        tables_well_formed(db),
        update_tenant_config_plan(pool, generated_id, tenant_id, namespace, key, value, value_type, operator_id, checks, now) is Ok,
        statement_answers(
            db,
            update_tenant_config_plan(pool, generated_id, tenant_id, namespace, key, value, value_type, operator_id, checks, now)->Ok_0,
            after,
            out,
        ),
    ensures
        pool == PoolKind::Postgres,
        checks.all_pass_spec(),
        generated_id is Ok,
        after.config_revisions == db.config_revisions.push(
            tenant_config_revision(generated_id->Ok_0, tenant_id, namespace, key, value, value_type, now, operator_id),
        ),
        keyed_map(after.tenant_configs, tenant_config_key_fn()).contains_key((tenant_id@, namespace@, key@)),
        keyed_map(after.tenant_configs, tenant_config_key_fn())[(tenant_id@, namespace@, key@)].config_value == value,
        out matches OutcomeData::TenantConfigs(rows) && rows.len() == 1 && rows[0].config_value == value,
{
    lemma_first_rejection(checks.namespace, checks.key, checks.value);
    let id = generated_id->Ok_0;
    law_upsert_tenant_config(db, id, tenant_id, namespace, key, value, value_type, now, operator_id);
}

/// A system setting update that the host admits needs a PostgreSQL pool,
/// passing checks and a generated id; running its statement writes the new
/// value, which reads back, and adds one entry to the change history that
/// records the key, the new value, value type, scope and scope value, the
/// operator and the instant.
pub proof fn law_admitted_system_setting_update(
    db: SettingsData,
    pool: PoolKind,
    generated_id: Result<i64, String>,
    namespace: String,
    key: String,
    value: String,
    value_type: String,
    scope: String,
    scope_value: Option<String>,
    operator_id: String,
    checks: InputChecks,
    now: i64,
    after: SettingsData,
    out: OutcomeData,
)
    requires
        tables_well_formed(db),
        update_system_setting_plan(pool, generated_id, namespace, key, value, value_type, scope, scope_value, operator_id, checks, now) is Ok,
        statement_answers(
            db,
            update_system_setting_plan(pool, generated_id, namespace, key, value, value_type, scope, scope_value, operator_id, checks, now)->Ok_0,
            after,
            out,
        ),
    ensures
        pool == PoolKind::Postgres,
        checks.all_pass_spec(),
        generated_id is Ok,
        after.config_revisions == db.config_revisions.push(
            system_setting_revision(generated_id->Ok_0, namespace, key, value, value_type, scope, scope_value, now, operator_id),
        ),
        keyed_map(after.system_settings, system_setting_key_fn()).contains_key((namespace@, key@)),
        keyed_map(after.system_settings, system_setting_key_fn())[(namespace@, key@)].setting_value == value,
        out matches OutcomeData::SystemSettings(rows) && rows.len() == 1 && rows[0].setting_value == value,
{
    lemma_first_rejection(checks.namespace, checks.key, checks.value);
    let id = generated_id->Ok_0;
    law_upsert_system_setting(db, id, namespace, key, value, value_type, scope, scope_value, now, operator_id);
}

/// A user preference lookup that the host admits needs a PostgreSQL pool and
/// passing namespace and key checks; whatever the database answers, nothing
/// changes, and the answer is the entry stored under the requested key, if
/// there is one.
pub proof fn law_admitted_user_preference_get(
    db: SettingsData,
    pool: PoolKind,
    tenant_id: String,
    user_id: String,
    namespace: String,
    key: String,
    checks: InputChecks,
    after: SettingsData,
    out: OutcomeData,
)
    requires
        tables_well_formed(db),
        get_user_preference_plan(pool, tenant_id, user_id, namespace, key, checks) is Ok,
        statement_answers(db, get_user_preference_plan(pool, tenant_id, user_id, namespace, key, checks)->Ok_0, after, out),
    ensures
        pool == PoolKind::Postgres,
        checks.namespace is Ok && checks.key is Ok,
        after == db,
        out == OutcomeData::UserPreferences(
            if keyed_map(db.user_preferences, preference_key_fn()).contains_key((tenant_id@, user_id@, namespace@, key@)) {
                seq![keyed_map(db.user_preferences, preference_key_fn())[(tenant_id@, user_id@, namespace@, key@)]]
            } else {
                Seq::<UserPreference>::empty()
            },
        ),
{
    lemma_first_rejection(checks.namespace, checks.key, checks.value);
    law_select_user_preference(db, tenant_id, user_id, namespace, key);
}

/// A user preferences listing that the host admits needs a PostgreSQL pool and a
/// passing namespace check; whatever the database answers, nothing changes,
/// and the answer holds, in some order, exactly the stored entries of the
/// requested scope.
pub proof fn law_admitted_user_preferences_list(
    db: SettingsData,
    pool: PoolKind,
    tenant_id: String,
    user_id: String,
    namespace: String,
    checks: InputChecks,
    after: SettingsData,
    out: OutcomeData,
)
    requires
        tables_well_formed(db),
        list_user_preferences_plan(pool, tenant_id, user_id, namespace, checks) is Ok,
        statement_answers(db, list_user_preferences_plan(pool, tenant_id, user_id, namespace, checks)->Ok_0, after, out),
    ensures
        pool == PoolKind::Postgres,
        checks.namespace is Ok,
        after == db,
        out matches OutcomeData::UserPreferences(answer) && forall|r: UserPreference|
            #![trigger answer.contains(r)]
            answer.contains(r) <==> {
                &&& keyed_map(db.user_preferences, preference_key_fn()).contains_key(preference_key_fn()(r))
                &&& keyed_map(db.user_preferences, preference_key_fn())[preference_key_fn()(r)] == r
                &&& r.tenant_id@ == tenant_id@ && r.user_id@ == user_id@ && r.namespace@ == namespace@
            },
{
    lemma_first_rejection(checks.namespace, checks.key, checks.value);
    law_list_user_preferences(db, tenant_id, user_id, namespace, after, out);
}

/// A user preference removal that the host admits needs a PostgreSQL pool,
/// passing namespace and key checks and a generated id; running its
/// statement removes exactly the entry under the requested key, and the
/// host answers `Ok` exactly when that entry was there, `NotFound` otherwise.
pub proof fn law_admitted_user_preference_delete(
    db: SettingsData,
    pool: PoolKind,
    generated_id: Result<i64, String>,
    tenant_id: String,
    user_id: String,
    namespace: String,
    key: String,
    operator_id: String,
    checks: InputChecks,
    now: i64,
    after: SettingsData,
    out: OutcomeData,
)
    requires
        tables_well_formed(db),
        delete_user_preference_plan(pool, generated_id, tenant_id, user_id, namespace, key, operator_id, checks, now) is Ok,
        statement_answers(db, delete_user_preference_plan(pool, generated_id, tenant_id, user_id, namespace, key, operator_id, checks, now)->Ok_0, after, out),
    ensures
        pool == PoolKind::Postgres,
        checks.namespace is Ok && checks.key is Ok,
        generated_id is Ok,
        keyed_map(after.user_preferences, preference_key_fn()) == keyed_map(db.user_preferences, preference_key_fn()).remove((tenant_id@, user_id@, namespace@, key@)),
        !keyed_map(after.user_preferences, preference_key_fn()).contains_key((tenant_id@, user_id@, namespace@, key@)),
        out matches OutcomeData::RowsAffected(n) && spec_delete_result(n) == if keyed_map(
            db.user_preferences,
            preference_key_fn(),
        ).contains_key((tenant_id@, user_id@, namespace@, key@)) {
            Ok::<(), ServiceErrorView>(())
        } else {
            Err::<(), ServiceErrorView>(ServiceErrorView::NotFound)
        },
{
    lemma_first_rejection(checks.namespace, checks.key, checks.value);
    law_delete_user_preference(db, generated_id->Ok_0, tenant_id, user_id, namespace, key, now, operator_id);
}

/// A tenant configuration entry lookup that the host admits needs a PostgreSQL pool and
/// passing namespace and key checks; whatever the database answers, nothing
/// changes, and the answer is the entry stored under the requested key, if
/// there is one.
pub proof fn law_admitted_tenant_config_get(
    db: SettingsData,
    pool: PoolKind,
    tenant_id: String,
    namespace: String,
    key: String,
    checks: InputChecks,
    after: SettingsData,
    out: OutcomeData,
)
    requires
        tables_well_formed(db),
        get_tenant_config_plan(pool, tenant_id, namespace, key, checks) is Ok,
        statement_answers(db, get_tenant_config_plan(pool, tenant_id, namespace, key, checks)->Ok_0, after, out),
    ensures
        pool == PoolKind::Postgres,
        checks.namespace is Ok && checks.key is Ok,
        after == db,
        out == OutcomeData::TenantConfigs(
            if keyed_map(db.tenant_configs, tenant_config_key_fn()).contains_key((tenant_id@, namespace@, key@)) {
                seq![keyed_map(db.tenant_configs, tenant_config_key_fn())[(tenant_id@, namespace@, key@)]]
            } else {
                Seq::<TenantConfig>::empty()
            },
        ),
{
    lemma_first_rejection(checks.namespace, checks.key, checks.value);
    law_select_tenant_config(db, tenant_id, namespace, key);
}

/// A tenant configuration entries listing that the host admits needs a PostgreSQL pool and a
/// passing namespace check; whatever the database answers, nothing changes,
/// and the answer holds, in some order, exactly the stored entries of the
/// requested scope.
pub proof fn law_admitted_tenant_configs_list(
    db: SettingsData,
    pool: PoolKind,
    tenant_id: String,
    namespace: String,
    checks: InputChecks,
    after: SettingsData,
    out: OutcomeData,
)
    requires
        tables_well_formed(db),
        list_tenant_configs_plan(pool, tenant_id, namespace, checks) is Ok,
        statement_answers(db, list_tenant_configs_plan(pool, tenant_id, namespace, checks)->Ok_0, after, out),
    ensures
        pool == PoolKind::Postgres,
        checks.namespace is Ok,
        after == db,
        out matches OutcomeData::TenantConfigs(answer) && forall|r: TenantConfig|
            #![trigger answer.contains(r)]
            answer.contains(r) <==> {
                &&& keyed_map(db.tenant_configs, tenant_config_key_fn()).contains_key(tenant_config_key_fn()(r))
                &&& keyed_map(db.tenant_configs, tenant_config_key_fn())[tenant_config_key_fn()(r)] == r
                &&& r.tenant_id@ == tenant_id@ && r.namespace@ == namespace@
            },
{
    lemma_first_rejection(checks.namespace, checks.key, checks.value);
    law_list_tenant_configs(db, tenant_id, namespace, after, out);
}

/// A tenant configuration entry removal that the host admits needs a PostgreSQL pool,
/// passing namespace and key checks and a generated id; running its
/// statement removes exactly the entry under the requested key, and the
/// host answers `Ok` exactly when that entry was there, `NotFound` otherwise.
pub proof fn law_admitted_tenant_config_delete(
    db: SettingsData,
    pool: PoolKind,
    generated_id: Result<i64, String>,
    tenant_id: String,
    namespace: String,
    key: String,
    operator_id: String,
    checks: InputChecks,
    now: i64,
    after: SettingsData,
    out: OutcomeData,
)
    requires
        tables_well_formed(db),
        delete_tenant_config_plan(pool, generated_id, tenant_id, namespace, key, operator_id, checks, now) is Ok,
        statement_answers(db, delete_tenant_config_plan(pool, generated_id, tenant_id, namespace, key, operator_id, checks, now)->Ok_0, after, out),
    ensures
        pool == PoolKind::Postgres,
        checks.namespace is Ok && checks.key is Ok,
        generated_id is Ok,
        keyed_map(after.tenant_configs, tenant_config_key_fn()) == keyed_map(db.tenant_configs, tenant_config_key_fn()).remove((tenant_id@, namespace@, key@)),
        !keyed_map(after.tenant_configs, tenant_config_key_fn()).contains_key((tenant_id@, namespace@, key@)),
        out matches OutcomeData::RowsAffected(n) && spec_delete_result(n) == if keyed_map(
            db.tenant_configs,
            tenant_config_key_fn(),
        ).contains_key((tenant_id@, namespace@, key@)) {
            Ok::<(), ServiceErrorView>(())
        } else {
            Err::<(), ServiceErrorView>(ServiceErrorView::NotFound)
        },
{
    lemma_first_rejection(checks.namespace, checks.key, checks.value);
    law_delete_tenant_config(db, generated_id->Ok_0, tenant_id, namespace, key, now, operator_id);
}

/// A system setting lookup that the host admits needs a PostgreSQL pool and
/// passing namespace and key checks; whatever the database answers, nothing
/// changes, and the answer is the entry stored under the requested key, if
/// there is one.
pub proof fn law_admitted_system_setting_get(
    db: SettingsData,
    pool: PoolKind,
    namespace: String,
    key: String,
    checks: InputChecks,
    after: SettingsData,
    out: OutcomeData,
)
    requires
        tables_well_formed(db),
        get_system_setting_plan(pool, namespace, key, checks) is Ok,
        statement_answers(db, get_system_setting_plan(pool, namespace, key, checks)->Ok_0, after, out),
    ensures
        pool == PoolKind::Postgres,
        checks.namespace is Ok && checks.key is Ok,
        after == db,
        out == OutcomeData::SystemSettings(
            if keyed_map(db.system_settings, system_setting_key_fn()).contains_key((namespace@, key@)) {
                seq![keyed_map(db.system_settings, system_setting_key_fn())[(namespace@, key@)]]
            } else {
                Seq::<SystemSetting>::empty()
            },
        ),
{
    lemma_first_rejection(checks.namespace, checks.key, checks.value);
    law_select_system_setting(db, namespace, key);
}

/// A system settings listing that the host admits needs a PostgreSQL pool and a
/// passing namespace check; whatever the database answers, nothing changes,
/// and the answer holds, in some order, exactly the stored entries of the
/// requested scope.
pub proof fn law_admitted_system_settings_list(
    db: SettingsData,
    pool: PoolKind,
    namespace: String,
    checks: InputChecks,
    after: SettingsData,
    out: OutcomeData,
)
    requires
        tables_well_formed(db),
        list_system_settings_plan(pool, namespace, checks) is Ok,
        statement_answers(db, list_system_settings_plan(pool, namespace, checks)->Ok_0, after, out),
    ensures
        pool == PoolKind::Postgres,
        checks.namespace is Ok,
        after == db,
        out matches OutcomeData::SystemSettings(answer) && forall|r: SystemSetting|
            #![trigger answer.contains(r)]
            answer.contains(r) <==> {
                &&& keyed_map(db.system_settings, system_setting_key_fn()).contains_key(system_setting_key_fn()(r))
                &&& keyed_map(db.system_settings, system_setting_key_fn())[system_setting_key_fn()(r)] == r
                &&& r.namespace@ == namespace@
            },
{
    lemma_first_rejection(checks.namespace, checks.key, checks.value);
    law_list_system_settings(db, namespace, after, out);
}

/// A system setting removal that the host admits needs a PostgreSQL pool,
/// passing namespace and key checks and a generated id; running its
/// statement removes exactly the entry under the requested key, and the
/// host answers `Ok` exactly when that entry was there, `NotFound` otherwise.
pub proof fn law_admitted_system_setting_delete(
    db: SettingsData,
    pool: PoolKind,
    generated_id: Result<i64, String>,
    namespace: String,
    key: String,
    operator_id: String,
    checks: InputChecks,
    now: i64,
    after: SettingsData,
    out: OutcomeData,
)
    requires
        tables_well_formed(db),
        delete_system_setting_plan(pool, generated_id, namespace, key, operator_id, checks, now) is Ok,
        statement_answers(db, delete_system_setting_plan(pool, generated_id, namespace, key, operator_id, checks, now)->Ok_0, after, out),
    ensures
        pool == PoolKind::Postgres,
        checks.namespace is Ok && checks.key is Ok,
        generated_id is Ok,
        keyed_map(after.system_settings, system_setting_key_fn()) == keyed_map(db.system_settings, system_setting_key_fn()).remove((namespace@, key@)),
        !keyed_map(after.system_settings, system_setting_key_fn()).contains_key((namespace@, key@)),
        out matches OutcomeData::RowsAffected(n) && spec_delete_result(n) == if keyed_map(
            db.system_settings,
            system_setting_key_fn(),
        ).contains_key((namespace@, key@)) {
            Ok::<(), ServiceErrorView>(())
        } else {
            Err::<(), ServiceErrorView>(ServiceErrorView::NotFound)
        },
{
    lemma_first_rejection(checks.namespace, checks.key, checks.value);
    law_delete_system_setting(db, generated_id->Ok_0, namespace, key, now, operator_id);
}

} // verus!
