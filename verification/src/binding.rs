//! How the SQL text of a statement names its placeholders: each `$n` is either
//! compared with a column (`column = $n`) or written into one (the n-th value
//! of an `INSERT` list goes into the n-th column of its column list). The
//! value bound to `$n` must be the statement's own value for that column.

use vstd::prelude::*;
use crate::statement::{spec_binds, spec_sql, SettingsStatement, SqlParam};

verus! {

/// `text` stands in `sql` from position `at` on.
pub open spec fn text_at(sql: Seq<char>, at: int, text: Seq<char>) -> bool {
    &&& 0 <= at
    &&& at + text.len() <= sql.len()
    &&& sql.subrange(at, at + text.len()) == text
}

/// The digit of `n`, for `n` in `1..=9`.
pub open spec fn digit(n: int) -> char {
    if n == 1 {
        '1'
    } else if n == 2 {
        '2'
    } else if n == 3 {
        '3'
    } else if n == 4 {
        '4'
    } else if n == 5 {
        '5'
    } else if n == 6 {
        '6'
    } else if n == 7 {
        '7'
    } else if n == 8 {
        '8'
    } else {
        '9'
    }
}

/// The placeholder `$n`, for `n` in `1..=9`.
pub open spec fn placeholder(n: int) -> Seq<char> {
    seq!['$', digit(n)]
}

/// A placeholder `$1` to `$9`.
pub open spec fn is_placeholder(v: Seq<char>) -> bool {
    v.len() == 2 && v[0] == '$' && '1' <= v[1] && v[1] <= '9'
}

/// The columns of the settings tables and of the change history.
pub open spec fn column_name(c: Seq<char>) -> bool {
    ||| c == "id"@
    ||| c == "tenant_id"@
    ||| c == "user_id"@
    ||| c == "namespace"@
    ||| c == "preference_key"@
    ||| c == "config_key"@
    ||| c == "setting_key"@
    ||| c == "preference_value"@
    ||| c == "config_value"@
    ||| c == "setting_value"@
    ||| c == "value_type"@
    ||| c == "scope"@
    ||| c == "scope_value"@
    ||| c == "config_level"@
    ||| c == "created_at"@
    ||| c == "updated_at"@
    ||| c == "changed_at"@
    ||| c == "created_by"@
    ||| c == "updated_by"@
    ||| c == "changed_by"@
}

/// An item of a value list: a placeholder, `NULL`, a level literal or a
/// column of the row being read.
pub open spec fn value_item(v: Seq<char>) -> bool {
    ||| is_placeholder(v)
    ||| v == "NULL"@
    ||| v == "'user_preference'"@
    ||| v == "'tenant_config'"@
    ||| v == "'system_setting'"@
    ||| column_name(v)
}

/// `$n` is compared with `col` at `at`: the text there is ` col = $n`.
pub open spec fn compares_at(sql: Seq<char>, col: Seq<char>, n: int, at: int) -> bool {
    text_at(sql, at, " "@ + col + " = "@ + placeholder(n))
}

/// `items` stand in `sql` one after the other, each from its start on,
/// separated by `, `.
pub open spec fn listed_at(sql: Seq<char>, starts: Seq<int>, items: Seq<Seq<char>>) -> bool {
    &&& starts.len() == items.len()
    &&& forall|k: int| 0 <= k < items.len() ==> #[trigger] item_at(sql, starts, items, k)
}

/// Item `k` of a list stands at its start, followed by `, ` and the next
/// item where one follows.
pub open spec fn item_at(sql: Seq<char>, starts: Seq<int>, items: Seq<Seq<char>>, k: int) -> bool {
    if k + 1 < items.len() {
        &&& text_at(sql, starts[k], items[k] + ", "@)
        &&& starts[k + 1] == starts[k] + items[k].len() + 2
    } else {
        text_at(sql, starts[k], items[k])
    }
}

/// An `INSERT` in `sql`: the column list `cols` opens with `(` and is
/// followed by ` VALUES (` or ` SELECT ` and the value list `vals`, of the
/// same length.
pub open spec fn insert_at(
    sql: Seq<char>,
    col_starts: Seq<int>,
    cols: Seq<Seq<char>>,
    val_starts: Seq<int>,
    vals: Seq<Seq<char>>,
) -> bool {
    let end = col_starts.last() + cols.last().len();
    &&& 0 < cols.len()
    &&& cols.len() == vals.len()
    &&& forall|k: int| 0 <= k < cols.len() ==> column_name(#[trigger] cols[k])
    &&& forall|k: int| 0 <= k < vals.len() ==> value_item(#[trigger] vals[k])
    &&& text_at(sql, col_starts[0] - 1, "("@)
    &&& listed_at(sql, col_starts, cols)
    &&& listed_at(sql, val_starts, vals)
    &&& {
        ||| text_at(sql, end, ") VALUES ("@) && val_starts[0] == end + 10
        ||| text_at(sql, end, ") SELECT "@) && val_starts[0] == end + 9
    }
}

/// In the `INSERT` at the given lists, `$n` is written into `col`.
pub open spec fn inserts_at(
    sql: Seq<char>,
    col_starts: Seq<int>,
    cols: Seq<Seq<char>>,
    val_starts: Seq<int>,
    vals: Seq<Seq<char>>,
    k: int,
    col: Seq<char>,
    n: int,
) -> bool {
    &&& insert_at(sql, col_starts, cols, val_starts, vals)
    &&& 0 <= k < cols.len()
    &&& cols[k] == col
    &&& vals[k] == placeholder(n)
}

/// The SQL text `sql` names `$n` with column `col`: it compares the column
/// with it, or writes it into the column.
pub open spec fn names_placeholder(sql: Seq<char>, n: int, col: Seq<char>) -> bool {
    ||| exists|at: int| #[trigger] compares_at(sql, col, n, at)
    ||| exists|cs: Seq<int>, cols: Seq<Seq<char>>, vs: Seq<int>, vals: Seq<Seq<char>>, k: int|
        #[trigger] inserts_at(sql, cs, cols, vs, vals, k, col, n)
}

/// `p` is what statement `st` holds for column `col`: its id for `id`, its
/// key for the key columns, its JSON value for the value columns, the instant
/// of the change for the time columns, the operator for the author columns,
/// and the field of the same name for the others.
pub open spec fn column_value(st: SettingsStatement, col: Seq<char>, p: SqlParam) -> bool {
    match st {
        SettingsStatement::SelectUserPreference { tenant_id, user_id, namespace, key } => {
            ||| col == "tenant_id"@ && p == SqlParam::Text(tenant_id)
            ||| col == "user_id"@ && p == SqlParam::Text(user_id)
            ||| col == "namespace"@ && p == SqlParam::Text(namespace)
            ||| key_column(col) && p == SqlParam::Text(key)
        },
        SettingsStatement::ListUserPreferences { tenant_id, user_id, namespace } => {
            ||| col == "tenant_id"@ && p == SqlParam::Text(tenant_id)
            ||| col == "user_id"@ && p == SqlParam::Text(user_id)
            ||| col == "namespace"@ && p == SqlParam::Text(namespace)
        },
        SettingsStatement::UpsertUserPreference {
            id,
            tenant_id,
            user_id,
            namespace,
            key,
            value,
            value_type,
            now,
            operator_id,
        } => {
            ||| col == "id"@ && p == SqlParam::BigInt(id)
            ||| col == "tenant_id"@ && p == SqlParam::Text(tenant_id)
            ||| col == "user_id"@ && p == SqlParam::Text(user_id)
            ||| col == "namespace"@ && p == SqlParam::Text(namespace)
            ||| key_column(col) && p == SqlParam::Text(key)
            ||| value_column(col) && p == SqlParam::Json(value)
            ||| col == "value_type"@ && p == SqlParam::Text(value_type)
            ||| time_column(col) && p == SqlParam::Timestamp(now)
            ||| author_column(col) && p == SqlParam::Text(operator_id)
        },
        SettingsStatement::DeleteUserPreference { id, tenant_id, user_id, namespace, key, now, operator_id } => {
            ||| col == "id"@ && p == SqlParam::BigInt(id)
            ||| col == "tenant_id"@ && p == SqlParam::Text(tenant_id)
            ||| col == "user_id"@ && p == SqlParam::Text(user_id)
            ||| col == "namespace"@ && p == SqlParam::Text(namespace)
            ||| key_column(col) && p == SqlParam::Text(key)
            ||| time_column(col) && p == SqlParam::Timestamp(now)
            ||| author_column(col) && p == SqlParam::Text(operator_id)
        },
        SettingsStatement::SelectTenantConfig { tenant_id, namespace, key } => {
            ||| col == "tenant_id"@ && p == SqlParam::Text(tenant_id)
            ||| col == "namespace"@ && p == SqlParam::Text(namespace)
            ||| key_column(col) && p == SqlParam::Text(key)
        },
        SettingsStatement::ListTenantConfigs { tenant_id, namespace } => {
            ||| col == "tenant_id"@ && p == SqlParam::Text(tenant_id)
            ||| col == "namespace"@ && p == SqlParam::Text(namespace)
        },
        SettingsStatement::UpsertTenantConfig { id, tenant_id, namespace, key, value, value_type, now, operator_id } => {
            ||| col == "id"@ && p == SqlParam::BigInt(id)
            ||| col == "tenant_id"@ && p == SqlParam::Text(tenant_id)
            ||| col == "namespace"@ && p == SqlParam::Text(namespace)
            ||| key_column(col) && p == SqlParam::Text(key)
            ||| value_column(col) && p == SqlParam::Json(value)
            ||| col == "value_type"@ && p == SqlParam::Text(value_type)
            ||| time_column(col) && p == SqlParam::Timestamp(now)
            ||| author_column(col) && p == SqlParam::Text(operator_id)
        },
        SettingsStatement::DeleteTenantConfig { id, tenant_id, namespace, key, now, operator_id } => {
            ||| col == "id"@ && p == SqlParam::BigInt(id)
            ||| col == "tenant_id"@ && p == SqlParam::Text(tenant_id)
            ||| col == "namespace"@ && p == SqlParam::Text(namespace)
            ||| key_column(col) && p == SqlParam::Text(key)
            ||| time_column(col) && p == SqlParam::Timestamp(now)
            ||| author_column(col) && p == SqlParam::Text(operator_id)
        },
        SettingsStatement::SelectSystemSetting { namespace, key } => {
            ||| col == "namespace"@ && p == SqlParam::Text(namespace)
            ||| key_column(col) && p == SqlParam::Text(key)
        },
        SettingsStatement::ListSystemSettings { namespace } => {
            col == "namespace"@ && p == SqlParam::Text(namespace)
        },
        SettingsStatement::UpsertSystemSetting {
            id,
            namespace,
            key,
            value,
            value_type,
            scope,
            scope_value,
            now,
            operator_id,
        } => {
            ||| col == "id"@ && p == SqlParam::BigInt(id)
            ||| col == "namespace"@ && p == SqlParam::Text(namespace)
            ||| key_column(col) && p == SqlParam::Text(key)
            ||| value_column(col) && p == SqlParam::Json(value)
            ||| col == "value_type"@ && p == SqlParam::Text(value_type)
            ||| col == "scope"@ && p == SqlParam::Text(scope)
            ||| col == "scope_value"@ && p == SqlParam::NullableText(scope_value)
            ||| time_column(col) && p == SqlParam::Timestamp(now)
            ||| author_column(col) && p == SqlParam::Text(operator_id)
        },
        SettingsStatement::DeleteSystemSetting { id, namespace, key, now, operator_id } => {
            ||| col == "id"@ && p == SqlParam::BigInt(id)
            ||| col == "namespace"@ && p == SqlParam::Text(namespace)
            ||| key_column(col) && p == SqlParam::Text(key)
            ||| time_column(col) && p == SqlParam::Timestamp(now)
            ||| author_column(col) && p == SqlParam::Text(operator_id)
        },
    }
}

/// The columns that hold an entry's key.
pub open spec fn key_column(col: Seq<char>) -> bool {
    col == "preference_key"@ || col == "config_key"@ || col == "setting_key"@
}

/// The columns that hold an entry's JSON value.
pub open spec fn value_column(col: Seq<char>) -> bool {
    col == "preference_value"@ || col == "config_value"@ || col == "setting_value"@
}

/// The columns that hold the instant of a change.
pub open spec fn time_column(col: Seq<char>) -> bool {
    col == "created_at"@ || col == "updated_at"@ || col == "changed_at"@
}

/// The columns that hold who made a change.
pub open spec fn author_column(col: Seq<char>) -> bool {
    col == "created_by"@ || col == "updated_by"@ || col == "changed_by"@
}

/// The value bound to `$n` is what the statement holds for a column that
/// its SQL text names with `$n`.
pub open spec fn bound_as_named(st: SettingsStatement, n: int) -> bool {
    exists|col: Seq<char>| #[trigger] names_placeholder(spec_sql(st), n, col) && column_value(st, col, spec_binds(st)[n - 1])
}

/// Every value that the statement binds goes where its SQL text puts it.
pub open spec fn binds_follow_sql(st: SettingsStatement) -> bool {
    &&& 0 < spec_binds(st).len() <= 9
    &&& forall|n: int| 1 <= n <= spec_binds(st).len() ==> #[trigger] bound_as_named(st, n)
}

/// Each value that a SelectUserPreference statement binds goes where its SQL text puts it.
#[verifier::rlimit(100)]
#[verifier::spinoff_prover]
proof fn lemma_select_user_preference_binds(st: SettingsStatement)
    requires
        st is SelectUserPreference,
    ensures
        binds_follow_sql(st),
{
    let sql = spec_sql(st);
    reveal_strlit("SELECT * FROM settings_user_preference WHERE tenant_id = $1 AND user_id = $2 AND namespace = $3 AND preference_key = $4");
    reveal_strlit(" ");
    reveal_strlit(" = ");
    reveal_strlit("namespace");
    reveal_strlit("preference_key");
    reveal_strlit("tenant_id");
    reveal_strlit("user_id");
    assert(sql.subrange(44, 59) =~= " "@ + "tenant_id"@ + " = "@ + placeholder(1));
    assert(compares_at(sql, "tenant_id"@, 1, 44));
    assert(names_placeholder(sql, 1, "tenant_id"@));
    assert(bound_as_named(st, 1));
    assert(sql.subrange(63, 76) =~= " "@ + "user_id"@ + " = "@ + placeholder(2));
    assert(compares_at(sql, "user_id"@, 2, 63));
    assert(names_placeholder(sql, 2, "user_id"@));
    assert(bound_as_named(st, 2));
    assert(sql.subrange(80, 95) =~= " "@ + "namespace"@ + " = "@ + placeholder(3));
    assert(compares_at(sql, "namespace"@, 3, 80));
    assert(names_placeholder(sql, 3, "namespace"@));
    assert(bound_as_named(st, 3));
    assert(sql.subrange(99, 119) =~= " "@ + "preference_key"@ + " = "@ + placeholder(4));
    assert(compares_at(sql, "preference_key"@, 4, 99));
    assert(names_placeholder(sql, 4, "preference_key"@));
    assert(bound_as_named(st, 4));
    assert forall|n: int| 1 <= n <= 4 implies #[trigger] bound_as_named(st, n) by { assert(n == 1 || n == 2 || n == 3 || n == 4); }
}

/// Each value that a ListUserPreferences statement binds goes where its SQL text puts it.
#[verifier::rlimit(100)]
#[verifier::spinoff_prover]
proof fn lemma_list_user_preferences_binds(st: SettingsStatement)
    requires
        st is ListUserPreferences,
    ensures
        binds_follow_sql(st),
{
    let sql = spec_sql(st);
    reveal_strlit("SELECT * FROM settings_user_preference WHERE tenant_id = $1 AND user_id = $2 AND namespace = $3");
    reveal_strlit(" ");
    reveal_strlit(" = ");
    reveal_strlit("namespace");
    reveal_strlit("tenant_id");
    reveal_strlit("user_id");
    assert(sql.subrange(44, 59) =~= " "@ + "tenant_id"@ + " = "@ + placeholder(1));
    assert(compares_at(sql, "tenant_id"@, 1, 44));
    assert(names_placeholder(sql, 1, "tenant_id"@));
    assert(bound_as_named(st, 1));
    assert(sql.subrange(63, 76) =~= " "@ + "user_id"@ + " = "@ + placeholder(2));
    assert(compares_at(sql, "user_id"@, 2, 63));
    assert(names_placeholder(sql, 2, "user_id"@));
    assert(bound_as_named(st, 2));
    assert(sql.subrange(80, 95) =~= " "@ + "namespace"@ + " = "@ + placeholder(3));
    assert(compares_at(sql, "namespace"@, 3, 80));
    assert(names_placeholder(sql, 3, "namespace"@));
    assert(bound_as_named(st, 3));
    assert forall|n: int| 1 <= n <= 3 implies #[trigger] bound_as_named(st, n) by { assert(n == 1 || n == 2 || n == 3); }
}

/// Each value that an UpsertUserPreference statement binds goes where its SQL text puts it.
#[verifier::rlimit(100)]
#[verifier::spinoff_prover]
proof fn lemma_upsert_user_preference_binds(st: SettingsStatement)
    requires
        st is UpsertUserPreference,
    ensures
        binds_follow_sql(st),
{
    let sql = spec_sql(st);
    reveal_strlit("WITH written AS (INSERT INTO settings_user_preference (id, tenant_id, user_id, namespace, preference_key, preference_value, value_type, created_at, updated_at) VALUES ($1, $2, $3, $4, $5, $6, $7, $8, $8) ON CONFLICT (tenant_id, user_id, namespace, preference_key) DO UPDATE SET preference_value = EXCLUDED.preference_value, value_type = EXCLUDED.value_type, updated_at = EXCLUDED.updated_at RETURNING *), revision AS (INSERT INTO settings_config_revision (id, config_level, tenant_id, user_id, namespace, config_key, config_value, value_type, scope, scope_value, changed_by, changed_at) VALUES ($1, 'user_preference', $2, $3, $4, $5, $6, $7, NULL, NULL, $9, $8)) SELECT * FROM written");
    reveal_strlit(" ");
    reveal_strlit(" = ");
    reveal_strlit("'user_preference'");
    reveal_strlit("(");
    reveal_strlit(") SELECT ");
    reveal_strlit(") VALUES (");
    reveal_strlit(", ");
    reveal_strlit("NULL");
    reveal_strlit("changed_at");
    reveal_strlit("changed_by");
    reveal_strlit("config_key");
    reveal_strlit("config_level");
    reveal_strlit("config_value");
    reveal_strlit("id");
    reveal_strlit("namespace");
    reveal_strlit("scope");
    reveal_strlit("scope_value");
    reveal_strlit("tenant_id");
    reveal_strlit("user_id");
    reveal_strlit("value_type");
    let cs: Seq<int> = seq![456, 460, 474, 485, 494, 505, 517, 531, 543, 550, 563, 575];
    let cols: Seq<Seq<char>> = seq!["id"@, "config_level"@, "tenant_id"@, "user_id"@, "namespace"@, "config_key"@, "config_value"@, "value_type"@, "scope"@, "scope_value"@, "changed_by"@, "changed_at"@];
    let vs: Seq<int> = seq![595, 599, 618, 622, 626, 630, 634, 638, 642, 648, 654, 658];
    let vals: Seq<Seq<char>> = seq![placeholder(1), "'user_preference'"@, placeholder(2), placeholder(3), placeholder(4), placeholder(5), placeholder(6), placeholder(7), "NULL"@, "NULL"@, placeholder(9), placeholder(8)];
    assert(column_name(cols[0]));
    assert(value_item(vals[0]));
    assert(column_name(cols[1]));
    assert(value_item(vals[1]));
    assert(column_name(cols[2]));
    assert(value_item(vals[2]));
    assert(column_name(cols[3]));
    assert(value_item(vals[3]));
    assert(column_name(cols[4]));
    assert(value_item(vals[4]));
    assert(column_name(cols[5]));
    assert(value_item(vals[5]));
    assert(column_name(cols[6]));
    assert(value_item(vals[6]));
    assert(column_name(cols[7]));
    assert(value_item(vals[7]));
    assert(column_name(cols[8]));
    assert(value_item(vals[8]));
    assert(column_name(cols[9]));
    assert(value_item(vals[9]));
    assert(column_name(cols[10]));
    assert(value_item(vals[10]));
    assert(column_name(cols[11]));
    assert(value_item(vals[11]));
    assert(sql.subrange(456, 460) =~= "id"@ + ", "@);
    assert(sql.subrange(460, 474) =~= "config_level"@ + ", "@);
    assert(sql.subrange(474, 485) =~= "tenant_id"@ + ", "@);
    assert(sql.subrange(485, 494) =~= "user_id"@ + ", "@);
    assert(sql.subrange(494, 505) =~= "namespace"@ + ", "@);
    assert(sql.subrange(505, 517) =~= "config_key"@ + ", "@);
    assert(sql.subrange(517, 531) =~= "config_value"@ + ", "@);
    assert(sql.subrange(531, 543) =~= "value_type"@ + ", "@);
    assert(sql.subrange(543, 550) =~= "scope"@ + ", "@);
    assert(sql.subrange(550, 563) =~= "scope_value"@ + ", "@);
    assert(sql.subrange(563, 575) =~= "changed_by"@ + ", "@);
    assert(sql.subrange(575, 585) =~= "changed_at"@);
    assert(sql.subrange(595, 599) =~= placeholder(1) + ", "@);
    assert(sql.subrange(599, 618) =~= "'user_preference'"@ + ", "@);
    assert(sql.subrange(618, 622) =~= placeholder(2) + ", "@);
    assert(sql.subrange(622, 626) =~= placeholder(3) + ", "@);
    assert(sql.subrange(626, 630) =~= placeholder(4) + ", "@);
    assert(sql.subrange(630, 634) =~= placeholder(5) + ", "@);
    assert(sql.subrange(634, 638) =~= placeholder(6) + ", "@);
    assert(sql.subrange(638, 642) =~= placeholder(7) + ", "@);
    assert(sql.subrange(642, 648) =~= "NULL"@ + ", "@);
    assert(sql.subrange(648, 654) =~= "NULL"@ + ", "@);
    assert(sql.subrange(654, 658) =~= placeholder(9) + ", "@);
    assert(sql.subrange(658, 660) =~= placeholder(8));
    assert(sql.subrange(455, 456) =~= "("@);
    assert(sql.subrange(585, 595) =~= ") VALUES ("@);
    assert forall|k: int| 0 <= k < 12 implies column_name(#[trigger] cols[k]) by { assert(k == 0 || k == 1 || k == 2 || k == 3 || k == 4 || k == 5 || k == 6 || k == 7 || k == 8 || k == 9 || k == 10 || k == 11); }
    assert forall|k: int| 0 <= k < 12 implies value_item(#[trigger] vals[k]) by { assert(k == 0 || k == 1 || k == 2 || k == 3 || k == 4 || k == 5 || k == 6 || k == 7 || k == 8 || k == 9 || k == 10 || k == 11); }
    assert(item_at(sql, cs, cols, 0));
    assert(item_at(sql, cs, cols, 1));
    assert(item_at(sql, cs, cols, 2));
    assert(item_at(sql, cs, cols, 3));
    assert(item_at(sql, cs, cols, 4));
    assert(item_at(sql, cs, cols, 5));
    assert(item_at(sql, cs, cols, 6));
    assert(item_at(sql, cs, cols, 7));
    assert(item_at(sql, cs, cols, 8));
    assert(item_at(sql, cs, cols, 9));
    assert(item_at(sql, cs, cols, 10));
    assert(item_at(sql, cs, cols, 11));
    assert forall|k: int| 0 <= k < 12 implies #[trigger] item_at(sql, cs, cols, k) by { assert(k == 0 || k == 1 || k == 2 || k == 3 || k == 4 || k == 5 || k == 6 || k == 7 || k == 8 || k == 9 || k == 10 || k == 11); }
    assert(listed_at(sql, cs, cols));
    assert(item_at(sql, vs, vals, 0));
    assert(item_at(sql, vs, vals, 1));
    assert(item_at(sql, vs, vals, 2));
    assert(item_at(sql, vs, vals, 3));
    assert(item_at(sql, vs, vals, 4));
    assert(item_at(sql, vs, vals, 5));
    assert(item_at(sql, vs, vals, 6));
    assert(item_at(sql, vs, vals, 7));
    assert(item_at(sql, vs, vals, 8));
    assert(item_at(sql, vs, vals, 9));
    assert(item_at(sql, vs, vals, 10));
    assert(item_at(sql, vs, vals, 11));
    assert forall|k: int| 0 <= k < 12 implies #[trigger] item_at(sql, vs, vals, k) by { assert(k == 0 || k == 1 || k == 2 || k == 3 || k == 4 || k == 5 || k == 6 || k == 7 || k == 8 || k == 9 || k == 10 || k == 11); }
    assert(listed_at(sql, vs, vals));
    assert(insert_at(sql, cs, cols, vs, vals));
    assert(inserts_at(sql, cs, cols, vs, vals, 0, "id"@, 1));
    assert(names_placeholder(sql, 1, "id"@));
    assert(bound_as_named(st, 1));
    assert(inserts_at(sql, cs, cols, vs, vals, 2, "tenant_id"@, 2));
    assert(names_placeholder(sql, 2, "tenant_id"@));
    assert(bound_as_named(st, 2));
    assert(inserts_at(sql, cs, cols, vs, vals, 3, "user_id"@, 3));
    assert(names_placeholder(sql, 3, "user_id"@));
    assert(bound_as_named(st, 3));
    assert(inserts_at(sql, cs, cols, vs, vals, 4, "namespace"@, 4));
    assert(names_placeholder(sql, 4, "namespace"@));
    assert(bound_as_named(st, 4));
    assert(inserts_at(sql, cs, cols, vs, vals, 5, "config_key"@, 5));
    assert(names_placeholder(sql, 5, "config_key"@));
    assert(bound_as_named(st, 5));
    assert(inserts_at(sql, cs, cols, vs, vals, 6, "config_value"@, 6));
    assert(names_placeholder(sql, 6, "config_value"@));
    assert(bound_as_named(st, 6));
    assert(inserts_at(sql, cs, cols, vs, vals, 7, "value_type"@, 7));
    assert(names_placeholder(sql, 7, "value_type"@));
    assert(bound_as_named(st, 7));
    assert(inserts_at(sql, cs, cols, vs, vals, 11, "changed_at"@, 8));
    assert(names_placeholder(sql, 8, "changed_at"@));
    assert(bound_as_named(st, 8));
    assert(inserts_at(sql, cs, cols, vs, vals, 10, "changed_by"@, 9));
    assert(names_placeholder(sql, 9, "changed_by"@));
    assert(bound_as_named(st, 9));
    assert forall|n: int| 1 <= n <= 9 implies #[trigger] bound_as_named(st, n) by { assert(n == 1 || n == 2 || n == 3 || n == 4 || n == 5 || n == 6 || n == 7 || n == 8 || n == 9); }
}

/// Each value that a DeleteUserPreference statement binds goes where its SQL text puts it.
#[verifier::rlimit(100)]
#[verifier::spinoff_prover]
proof fn lemma_delete_user_preference_binds(st: SettingsStatement)
    requires
        st is DeleteUserPreference,
    ensures
        binds_follow_sql(st),
{
    let sql = spec_sql(st);
    reveal_strlit("WITH removed AS (DELETE FROM settings_user_preference WHERE tenant_id = $1 AND user_id = $2 AND namespace = $3 AND preference_key = $4 RETURNING *), revision AS (INSERT INTO settings_config_revision (id, config_level, tenant_id, user_id, namespace, config_key, config_value, value_type, scope, scope_value, changed_by, changed_at) SELECT $5, 'user_preference', tenant_id, user_id, namespace, preference_key, NULL, NULL, NULL, NULL, $6, $7 FROM removed) SELECT COUNT(*) AS rows_affected FROM removed");
    reveal_strlit(" ");
    reveal_strlit(" = ");
    reveal_strlit("'user_preference'");
    reveal_strlit("(");
    reveal_strlit(") SELECT ");
    reveal_strlit(") VALUES (");
    reveal_strlit(", ");
    reveal_strlit("NULL");
    reveal_strlit("changed_at");
    reveal_strlit("changed_by");
    reveal_strlit("config_key");
    reveal_strlit("config_level");
    reveal_strlit("config_value");
    reveal_strlit("id");
    reveal_strlit("namespace");
    reveal_strlit("preference_key");
    reveal_strlit("scope");
    reveal_strlit("scope_value");
    reveal_strlit("tenant_id");
    reveal_strlit("user_id");
    reveal_strlit("value_type");
    let cs: Seq<int> = seq![200, 204, 218, 229, 238, 249, 261, 275, 287, 294, 307, 319];
    let cols: Seq<Seq<char>> = seq!["id"@, "config_level"@, "tenant_id"@, "user_id"@, "namespace"@, "config_key"@, "config_value"@, "value_type"@, "scope"@, "scope_value"@, "changed_by"@, "changed_at"@];
    let vs: Seq<int> = seq![338, 342, 361, 372, 381, 392, 408, 414, 420, 426, 432, 436];
    let vals: Seq<Seq<char>> = seq![placeholder(5), "'user_preference'"@, "tenant_id"@, "user_id"@, "namespace"@, "preference_key"@, "NULL"@, "NULL"@, "NULL"@, "NULL"@, placeholder(6), placeholder(7)];
    assert(column_name(cols[0]));
    assert(value_item(vals[0]));
    assert(column_name(cols[1]));
    assert(value_item(vals[1]));
    assert(column_name(cols[2]));
    assert(value_item(vals[2]));
    assert(column_name(cols[3]));
    assert(value_item(vals[3]));
    assert(column_name(cols[4]));
    assert(value_item(vals[4]));
    assert(column_name(cols[5]));
    assert(value_item(vals[5]));
    assert(column_name(cols[6]));
    assert(value_item(vals[6]));
    assert(column_name(cols[7]));
    assert(value_item(vals[7]));
    assert(column_name(cols[8]));
    assert(value_item(vals[8]));
    assert(column_name(cols[9]));
    assert(value_item(vals[9]));
    assert(column_name(cols[10]));
    assert(value_item(vals[10]));
    assert(column_name(cols[11]));
    assert(value_item(vals[11]));
    assert(sql.subrange(200, 204) =~= "id"@ + ", "@);
    assert(sql.subrange(204, 218) =~= "config_level"@ + ", "@);
    assert(sql.subrange(218, 229) =~= "tenant_id"@ + ", "@);
    assert(sql.subrange(229, 238) =~= "user_id"@ + ", "@);
    assert(sql.subrange(238, 249) =~= "namespace"@ + ", "@);
    assert(sql.subrange(249, 261) =~= "config_key"@ + ", "@);
    assert(sql.subrange(261, 275) =~= "config_value"@ + ", "@);
    assert(sql.subrange(275, 287) =~= "value_type"@ + ", "@);
    assert(sql.subrange(287, 294) =~= "scope"@ + ", "@);
    assert(sql.subrange(294, 307) =~= "scope_value"@ + ", "@);
    assert(sql.subrange(307, 319) =~= "changed_by"@ + ", "@);
    assert(sql.subrange(319, 329) =~= "changed_at"@);
    assert(sql.subrange(338, 342) =~= placeholder(5) + ", "@);
    assert(sql.subrange(342, 361) =~= "'user_preference'"@ + ", "@);
    assert(sql.subrange(361, 372) =~= "tenant_id"@ + ", "@);
    assert(sql.subrange(372, 381) =~= "user_id"@ + ", "@);
    assert(sql.subrange(381, 392) =~= "namespace"@ + ", "@);
    assert(sql.subrange(392, 408) =~= "preference_key"@ + ", "@);
    assert(sql.subrange(408, 414) =~= "NULL"@ + ", "@);
    assert(sql.subrange(414, 420) =~= "NULL"@ + ", "@);
    assert(sql.subrange(420, 426) =~= "NULL"@ + ", "@);
    assert(sql.subrange(426, 432) =~= "NULL"@ + ", "@);
    assert(sql.subrange(432, 436) =~= placeholder(6) + ", "@);
    assert(sql.subrange(436, 438) =~= placeholder(7));
    assert(sql.subrange(199, 200) =~= "("@);
    assert(sql.subrange(329, 338) =~= ") SELECT "@);
    assert forall|k: int| 0 <= k < 12 implies column_name(#[trigger] cols[k]) by { assert(k == 0 || k == 1 || k == 2 || k == 3 || k == 4 || k == 5 || k == 6 || k == 7 || k == 8 || k == 9 || k == 10 || k == 11); }
    assert forall|k: int| 0 <= k < 12 implies value_item(#[trigger] vals[k]) by { assert(k == 0 || k == 1 || k == 2 || k == 3 || k == 4 || k == 5 || k == 6 || k == 7 || k == 8 || k == 9 || k == 10 || k == 11); }
    assert(item_at(sql, cs, cols, 0));
    assert(item_at(sql, cs, cols, 1));
    assert(item_at(sql, cs, cols, 2));
    assert(item_at(sql, cs, cols, 3));
    assert(item_at(sql, cs, cols, 4));
    assert(item_at(sql, cs, cols, 5));
    assert(item_at(sql, cs, cols, 6));
    assert(item_at(sql, cs, cols, 7));
    assert(item_at(sql, cs, cols, 8));
    assert(item_at(sql, cs, cols, 9));
    assert(item_at(sql, cs, cols, 10));
    assert(item_at(sql, cs, cols, 11));
    assert forall|k: int| 0 <= k < 12 implies #[trigger] item_at(sql, cs, cols, k) by { assert(k == 0 || k == 1 || k == 2 || k == 3 || k == 4 || k == 5 || k == 6 || k == 7 || k == 8 || k == 9 || k == 10 || k == 11); }
    assert(listed_at(sql, cs, cols));
    assert(item_at(sql, vs, vals, 0));
    assert(item_at(sql, vs, vals, 1));
    assert(item_at(sql, vs, vals, 2));
    assert(item_at(sql, vs, vals, 3));
    assert(item_at(sql, vs, vals, 4));
    assert(item_at(sql, vs, vals, 5));
    assert(item_at(sql, vs, vals, 6));
    assert(item_at(sql, vs, vals, 7));
    assert(item_at(sql, vs, vals, 8));
    assert(item_at(sql, vs, vals, 9));
    assert(item_at(sql, vs, vals, 10));
    assert(item_at(sql, vs, vals, 11));
    assert forall|k: int| 0 <= k < 12 implies #[trigger] item_at(sql, vs, vals, k) by { assert(k == 0 || k == 1 || k == 2 || k == 3 || k == 4 || k == 5 || k == 6 || k == 7 || k == 8 || k == 9 || k == 10 || k == 11); }
    assert(listed_at(sql, vs, vals));
    assert(insert_at(sql, cs, cols, vs, vals));
    assert(sql.subrange(59, 74) =~= " "@ + "tenant_id"@ + " = "@ + placeholder(1));
    assert(compares_at(sql, "tenant_id"@, 1, 59));
    assert(names_placeholder(sql, 1, "tenant_id"@));
    assert(bound_as_named(st, 1));
    assert(sql.subrange(78, 91) =~= " "@ + "user_id"@ + " = "@ + placeholder(2));
    assert(compares_at(sql, "user_id"@, 2, 78));
    assert(names_placeholder(sql, 2, "user_id"@));
    assert(bound_as_named(st, 2));
    assert(sql.subrange(95, 110) =~= " "@ + "namespace"@ + " = "@ + placeholder(3));
    assert(compares_at(sql, "namespace"@, 3, 95));
    assert(names_placeholder(sql, 3, "namespace"@));
    assert(bound_as_named(st, 3));
    assert(sql.subrange(114, 134) =~= " "@ + "preference_key"@ + " = "@ + placeholder(4));
    assert(compares_at(sql, "preference_key"@, 4, 114));
    assert(names_placeholder(sql, 4, "preference_key"@));
    assert(bound_as_named(st, 4));
    assert(inserts_at(sql, cs, cols, vs, vals, 0, "id"@, 5));
    assert(names_placeholder(sql, 5, "id"@));
    assert(bound_as_named(st, 5));
    assert(inserts_at(sql, cs, cols, vs, vals, 10, "changed_by"@, 6));
    assert(names_placeholder(sql, 6, "changed_by"@));
    assert(bound_as_named(st, 6));
    assert(inserts_at(sql, cs, cols, vs, vals, 11, "changed_at"@, 7));
    assert(names_placeholder(sql, 7, "changed_at"@));
    assert(bound_as_named(st, 7));
    assert forall|n: int| 1 <= n <= 7 implies #[trigger] bound_as_named(st, n) by { assert(n == 1 || n == 2 || n == 3 || n == 4 || n == 5 || n == 6 || n == 7); }
}

/// Each value that a SelectTenantConfig statement binds goes where its SQL text puts it.
#[verifier::rlimit(100)]
#[verifier::spinoff_prover]
proof fn lemma_select_tenant_config_binds(st: SettingsStatement)
    requires
        st is SelectTenantConfig,
    ensures
        binds_follow_sql(st),
{
    let sql = spec_sql(st);
    reveal_strlit("SELECT * FROM settings_tenant_config WHERE tenant_id = $1 AND namespace = $2 AND config_key = $3");
    reveal_strlit(" ");
    reveal_strlit(" = ");
    reveal_strlit("config_key");
    reveal_strlit("namespace");
    reveal_strlit("tenant_id");
    assert(sql.subrange(42, 57) =~= " "@ + "tenant_id"@ + " = "@ + placeholder(1));
    assert(compares_at(sql, "tenant_id"@, 1, 42));
    assert(names_placeholder(sql, 1, "tenant_id"@));
    assert(bound_as_named(st, 1));
    assert(sql.subrange(61, 76) =~= " "@ + "namespace"@ + " = "@ + placeholder(2));
    assert(compares_at(sql, "namespace"@, 2, 61));
    assert(names_placeholder(sql, 2, "namespace"@));
    assert(bound_as_named(st, 2));
    assert(sql.subrange(80, 96) =~= " "@ + "config_key"@ + " = "@ + placeholder(3));
    assert(compares_at(sql, "config_key"@, 3, 80));
    assert(names_placeholder(sql, 3, "config_key"@));
    assert(bound_as_named(st, 3));
    assert forall|n: int| 1 <= n <= 3 implies #[trigger] bound_as_named(st, n) by { assert(n == 1 || n == 2 || n == 3); }
}

/// Each value that a ListTenantConfigs statement binds goes where its SQL text puts it.
#[verifier::rlimit(100)]
#[verifier::spinoff_prover]
proof fn lemma_list_tenant_configs_binds(st: SettingsStatement)
    requires
        st is ListTenantConfigs,
    ensures
        binds_follow_sql(st),
{
    let sql = spec_sql(st);
    reveal_strlit("SELECT * FROM settings_tenant_config WHERE tenant_id = $1 AND namespace = $2");
    reveal_strlit(" ");
    reveal_strlit(" = ");
    reveal_strlit("namespace");
    reveal_strlit("tenant_id");
    assert(sql.subrange(42, 57) =~= " "@ + "tenant_id"@ + " = "@ + placeholder(1));
    assert(compares_at(sql, "tenant_id"@, 1, 42));
    assert(names_placeholder(sql, 1, "tenant_id"@));
    assert(bound_as_named(st, 1));
    assert(sql.subrange(61, 76) =~= " "@ + "namespace"@ + " = "@ + placeholder(2));
    assert(compares_at(sql, "namespace"@, 2, 61));
    assert(names_placeholder(sql, 2, "namespace"@));
    assert(bound_as_named(st, 2));
    assert forall|n: int| 1 <= n <= 2 implies #[trigger] bound_as_named(st, n) by { assert(n == 1 || n == 2); }
}

/// Each value that an UpsertTenantConfig statement binds goes where its SQL text puts it.
#[verifier::rlimit(100)]
#[verifier::spinoff_prover]
proof fn lemma_upsert_tenant_config_binds(st: SettingsStatement)
    requires
        st is UpsertTenantConfig,
    ensures
        binds_follow_sql(st),
{
    let sql = spec_sql(st);
    reveal_strlit("WITH written AS (INSERT INTO settings_tenant_config (id, tenant_id, namespace, config_key, config_value, value_type, created_at, updated_at, created_by, updated_by) VALUES ($1, $2, $3, $4, $5, $6, $7, $7, $8, $8) ON CONFLICT (tenant_id, namespace, config_key) DO UPDATE SET config_value = EXCLUDED.config_value, value_type = EXCLUDED.value_type, updated_at = EXCLUDED.updated_at, updated_by = EXCLUDED.updated_by RETURNING *), revision AS (INSERT INTO settings_config_revision (id, config_level, tenant_id, user_id, namespace, config_key, config_value, value_type, scope, scope_value, changed_by, changed_at) VALUES ($1, 'tenant_config', $2, NULL, $3, $4, $5, $6, NULL, NULL, $8, $7)) SELECT * FROM written");
    reveal_strlit(" ");
    reveal_strlit(" = ");
    reveal_strlit("'tenant_config'");
    reveal_strlit("(");
    reveal_strlit(") SELECT ");
    reveal_strlit(") VALUES (");
    reveal_strlit(", ");
    reveal_strlit("NULL");
    reveal_strlit("changed_at");
    reveal_strlit("changed_by");
    reveal_strlit("config_key");
    reveal_strlit("config_level");
    reveal_strlit("config_value");
    reveal_strlit("id");
    reveal_strlit("namespace");
    reveal_strlit("scope");
    reveal_strlit("scope_value");
    reveal_strlit("tenant_id");
    reveal_strlit("user_id");
    reveal_strlit("value_type");
    let cs: Seq<int> = seq![478, 482, 496, 507, 516, 527, 539, 553, 565, 572, 585, 597];
    let cols: Seq<Seq<char>> = seq!["id"@, "config_level"@, "tenant_id"@, "user_id"@, "namespace"@, "config_key"@, "config_value"@, "value_type"@, "scope"@, "scope_value"@, "changed_by"@, "changed_at"@];
    let vs: Seq<int> = seq![617, 621, 638, 642, 648, 652, 656, 660, 664, 670, 676, 680];
    let vals: Seq<Seq<char>> = seq![placeholder(1), "'tenant_config'"@, placeholder(2), "NULL"@, placeholder(3), placeholder(4), placeholder(5), placeholder(6), "NULL"@, "NULL"@, placeholder(8), placeholder(7)];
    assert(column_name(cols[0]));
    assert(value_item(vals[0]));
    assert(column_name(cols[1]));
    assert(value_item(vals[1]));
    assert(column_name(cols[2]));
    assert(value_item(vals[2]));
    assert(column_name(cols[3]));
    assert(value_item(vals[3]));
    assert(column_name(cols[4]));
    assert(value_item(vals[4]));
    assert(column_name(cols[5]));
    assert(value_item(vals[5]));
    assert(column_name(cols[6]));
    assert(value_item(vals[6]));
    assert(column_name(cols[7]));
    assert(value_item(vals[7]));
    assert(column_name(cols[8]));
    assert(value_item(vals[8]));
    assert(column_name(cols[9]));
    assert(value_item(vals[9]));
    assert(column_name(cols[10]));
    assert(value_item(vals[10]));
    assert(column_name(cols[11]));
    assert(value_item(vals[11]));
    assert(sql.subrange(478, 482) =~= "id"@ + ", "@);
    assert(sql.subrange(482, 496) =~= "config_level"@ + ", "@);
    assert(sql.subrange(496, 507) =~= "tenant_id"@ + ", "@);
    assert(sql.subrange(507, 516) =~= "user_id"@ + ", "@);
    assert(sql.subrange(516, 527) =~= "namespace"@ + ", "@);
    assert(sql.subrange(527, 539) =~= "config_key"@ + ", "@);
    assert(sql.subrange(539, 553) =~= "config_value"@ + ", "@);
    assert(sql.subrange(553, 565) =~= "value_type"@ + ", "@);
    assert(sql.subrange(565, 572) =~= "scope"@ + ", "@);
    assert(sql.subrange(572, 585) =~= "scope_value"@ + ", "@);
    assert(sql.subrange(585, 597) =~= "changed_by"@ + ", "@);
    assert(sql.subrange(597, 607) =~= "changed_at"@);
    assert(sql.subrange(617, 621) =~= placeholder(1) + ", "@);
    assert(sql.subrange(621, 638) =~= "'tenant_config'"@ + ", "@);
    assert(sql.subrange(638, 642) =~= placeholder(2) + ", "@);
    assert(sql.subrange(642, 648) =~= "NULL"@ + ", "@);
    assert(sql.subrange(648, 652) =~= placeholder(3) + ", "@);
    assert(sql.subrange(652, 656) =~= placeholder(4) + ", "@);
    assert(sql.subrange(656, 660) =~= placeholder(5) + ", "@);
    assert(sql.subrange(660, 664) =~= placeholder(6) + ", "@);
    assert(sql.subrange(664, 670) =~= "NULL"@ + ", "@);
    assert(sql.subrange(670, 676) =~= "NULL"@ + ", "@);
    assert(sql.subrange(676, 680) =~= placeholder(8) + ", "@);
    assert(sql.subrange(680, 682) =~= placeholder(7));
    assert(sql.subrange(477, 478) =~= "("@);
    assert(sql.subrange(607, 617) =~= ") VALUES ("@);
    assert forall|k: int| 0 <= k < 12 implies column_name(#[trigger] cols[k]) by { assert(k == 0 || k == 1 || k == 2 || k == 3 || k == 4 || k == 5 || k == 6 || k == 7 || k == 8 || k == 9 || k == 10 || k == 11); }
    assert forall|k: int| 0 <= k < 12 implies value_item(#[trigger] vals[k]) by { assert(k == 0 || k == 1 || k == 2 || k == 3 || k == 4 || k == 5 || k == 6 || k == 7 || k == 8 || k == 9 || k == 10 || k == 11); }
    assert(item_at(sql, cs, cols, 0));
    assert(item_at(sql, cs, cols, 1));
    assert(item_at(sql, cs, cols, 2));
    assert(item_at(sql, cs, cols, 3));
    assert(item_at(sql, cs, cols, 4));
    assert(item_at(sql, cs, cols, 5));
    assert(item_at(sql, cs, cols, 6));
    assert(item_at(sql, cs, cols, 7));
    assert(item_at(sql, cs, cols, 8));
    assert(item_at(sql, cs, cols, 9));
    assert(item_at(sql, cs, cols, 10));
    assert(item_at(sql, cs, cols, 11));
    assert forall|k: int| 0 <= k < 12 implies #[trigger] item_at(sql, cs, cols, k) by { assert(k == 0 || k == 1 || k == 2 || k == 3 || k == 4 || k == 5 || k == 6 || k == 7 || k == 8 || k == 9 || k == 10 || k == 11); }
    assert(listed_at(sql, cs, cols));
    assert(item_at(sql, vs, vals, 0));
    assert(item_at(sql, vs, vals, 1));
    assert(item_at(sql, vs, vals, 2));
    assert(item_at(sql, vs, vals, 3));
    assert(item_at(sql, vs, vals, 4));
    assert(item_at(sql, vs, vals, 5));
    assert(item_at(sql, vs, vals, 6));
    assert(item_at(sql, vs, vals, 7));
    assert(item_at(sql, vs, vals, 8));
    assert(item_at(sql, vs, vals, 9));
    assert(item_at(sql, vs, vals, 10));
    assert(item_at(sql, vs, vals, 11));
    assert forall|k: int| 0 <= k < 12 implies #[trigger] item_at(sql, vs, vals, k) by { assert(k == 0 || k == 1 || k == 2 || k == 3 || k == 4 || k == 5 || k == 6 || k == 7 || k == 8 || k == 9 || k == 10 || k == 11); }
    assert(listed_at(sql, vs, vals));
    assert(insert_at(sql, cs, cols, vs, vals));
    assert(inserts_at(sql, cs, cols, vs, vals, 0, "id"@, 1));
    assert(names_placeholder(sql, 1, "id"@));
    assert(bound_as_named(st, 1));
    assert(inserts_at(sql, cs, cols, vs, vals, 2, "tenant_id"@, 2));
    assert(names_placeholder(sql, 2, "tenant_id"@));
    assert(bound_as_named(st, 2));
    assert(inserts_at(sql, cs, cols, vs, vals, 4, "namespace"@, 3));
    assert(names_placeholder(sql, 3, "namespace"@));
    assert(bound_as_named(st, 3));
    assert(inserts_at(sql, cs, cols, vs, vals, 5, "config_key"@, 4));
    assert(names_placeholder(sql, 4, "config_key"@));
    assert(bound_as_named(st, 4));
    assert(inserts_at(sql, cs, cols, vs, vals, 6, "config_value"@, 5));
    assert(names_placeholder(sql, 5, "config_value"@));
    assert(bound_as_named(st, 5));
    assert(inserts_at(sql, cs, cols, vs, vals, 7, "value_type"@, 6));
    assert(names_placeholder(sql, 6, "value_type"@));
    assert(bound_as_named(st, 6));
    assert(inserts_at(sql, cs, cols, vs, vals, 11, "changed_at"@, 7));
    assert(names_placeholder(sql, 7, "changed_at"@));
    assert(bound_as_named(st, 7));
    assert(inserts_at(sql, cs, cols, vs, vals, 10, "changed_by"@, 8));
    assert(names_placeholder(sql, 8, "changed_by"@));
    assert(bound_as_named(st, 8));
    assert forall|n: int| 1 <= n <= 8 implies #[trigger] bound_as_named(st, n) by { assert(n == 1 || n == 2 || n == 3 || n == 4 || n == 5 || n == 6 || n == 7 || n == 8); }
}

/// Each value that a DeleteTenantConfig statement binds goes where its SQL text puts it.
#[verifier::rlimit(100)]
#[verifier::spinoff_prover]
proof fn lemma_delete_tenant_config_binds(st: SettingsStatement)
    requires
        st is DeleteTenantConfig,
    ensures
        binds_follow_sql(st),
{
    let sql = spec_sql(st);
    reveal_strlit("WITH removed AS (DELETE FROM settings_tenant_config WHERE tenant_id = $1 AND namespace = $2 AND config_key = $3 RETURNING *), revision AS (INSERT INTO settings_config_revision (id, config_level, tenant_id, user_id, namespace, config_key, config_value, value_type, scope, scope_value, changed_by, changed_at) SELECT $4, 'tenant_config', tenant_id, NULL, namespace, config_key, NULL, NULL, NULL, NULL, $5, $6 FROM removed) SELECT COUNT(*) AS rows_affected FROM removed");
    reveal_strlit(" ");
    reveal_strlit(" = ");
    reveal_strlit("'tenant_config'");
    reveal_strlit("(");
    reveal_strlit(") SELECT ");
    reveal_strlit(") VALUES (");
    reveal_strlit(", ");
    reveal_strlit("NULL");
    reveal_strlit("changed_at");
    reveal_strlit("changed_by");
    reveal_strlit("config_key");
    reveal_strlit("config_level");
    reveal_strlit("config_value");
    reveal_strlit("id");
    reveal_strlit("namespace");
    reveal_strlit("scope");
    reveal_strlit("scope_value");
    reveal_strlit("tenant_id");
    reveal_strlit("user_id");
    reveal_strlit("value_type");
    let cs: Seq<int> = seq![177, 181, 195, 206, 215, 226, 238, 252, 264, 271, 284, 296];
    let cols: Seq<Seq<char>> = seq!["id"@, "config_level"@, "tenant_id"@, "user_id"@, "namespace"@, "config_key"@, "config_value"@, "value_type"@, "scope"@, "scope_value"@, "changed_by"@, "changed_at"@];
    let vs: Seq<int> = seq![315, 319, 336, 347, 353, 364, 376, 382, 388, 394, 400, 404];
    let vals: Seq<Seq<char>> = seq![placeholder(4), "'tenant_config'"@, "tenant_id"@, "NULL"@, "namespace"@, "config_key"@, "NULL"@, "NULL"@, "NULL"@, "NULL"@, placeholder(5), placeholder(6)];
    assert(column_name(cols[0]));
    assert(value_item(vals[0]));
    assert(column_name(cols[1]));
    assert(value_item(vals[1]));
    assert(column_name(cols[2]));
    assert(value_item(vals[2]));
    assert(column_name(cols[3]));
    assert(value_item(vals[3]));
    assert(column_name(cols[4]));
    assert(value_item(vals[4]));
    assert(column_name(cols[5]));
    assert(value_item(vals[5]));
    assert(column_name(cols[6]));
    assert(value_item(vals[6]));
    assert(column_name(cols[7]));
    assert(value_item(vals[7]));
    assert(column_name(cols[8]));
    assert(value_item(vals[8]));
    assert(column_name(cols[9]));
    assert(value_item(vals[9]));
    assert(column_name(cols[10]));
    assert(value_item(vals[10]));
    assert(column_name(cols[11]));
    assert(value_item(vals[11]));
    assert(sql.subrange(177, 181) =~= "id"@ + ", "@);
    assert(sql.subrange(181, 195) =~= "config_level"@ + ", "@);
    assert(sql.subrange(195, 206) =~= "tenant_id"@ + ", "@);
    assert(sql.subrange(206, 215) =~= "user_id"@ + ", "@);
    assert(sql.subrange(215, 226) =~= "namespace"@ + ", "@);
    assert(sql.subrange(226, 238) =~= "config_key"@ + ", "@);
    assert(sql.subrange(238, 252) =~= "config_value"@ + ", "@);
    assert(sql.subrange(252, 264) =~= "value_type"@ + ", "@);
    assert(sql.subrange(264, 271) =~= "scope"@ + ", "@);
    assert(sql.subrange(271, 284) =~= "scope_value"@ + ", "@);
    assert(sql.subrange(284, 296) =~= "changed_by"@ + ", "@);
    assert(sql.subrange(296, 306) =~= "changed_at"@);
    assert(sql.subrange(315, 319) =~= placeholder(4) + ", "@);
    assert(sql.subrange(319, 336) =~= "'tenant_config'"@ + ", "@);
    assert(sql.subrange(336, 347) =~= "tenant_id"@ + ", "@);
    assert(sql.subrange(347, 353) =~= "NULL"@ + ", "@);
    assert(sql.subrange(353, 364) =~= "namespace"@ + ", "@);
    assert(sql.subrange(364, 376) =~= "config_key"@ + ", "@);
    assert(sql.subrange(376, 382) =~= "NULL"@ + ", "@);
    assert(sql.subrange(382, 388) =~= "NULL"@ + ", "@);
    assert(sql.subrange(388, 394) =~= "NULL"@ + ", "@);
    assert(sql.subrange(394, 400) =~= "NULL"@ + ", "@);
    assert(sql.subrange(400, 404) =~= placeholder(5) + ", "@);
    assert(sql.subrange(404, 406) =~= placeholder(6));
    assert(sql.subrange(176, 177) =~= "("@);
    assert(sql.subrange(306, 315) =~= ") SELECT "@);
    assert forall|k: int| 0 <= k < 12 implies column_name(#[trigger] cols[k]) by { assert(k == 0 || k == 1 || k == 2 || k == 3 || k == 4 || k == 5 || k == 6 || k == 7 || k == 8 || k == 9 || k == 10 || k == 11); }
    assert forall|k: int| 0 <= k < 12 implies value_item(#[trigger] vals[k]) by { assert(k == 0 || k == 1 || k == 2 || k == 3 || k == 4 || k == 5 || k == 6 || k == 7 || k == 8 || k == 9 || k == 10 || k == 11); }
    assert(item_at(sql, cs, cols, 0));
    assert(item_at(sql, cs, cols, 1));
    assert(item_at(sql, cs, cols, 2));
    assert(item_at(sql, cs, cols, 3));
    assert(item_at(sql, cs, cols, 4));
    assert(item_at(sql, cs, cols, 5));
    assert(item_at(sql, cs, cols, 6));
    assert(item_at(sql, cs, cols, 7));
    assert(item_at(sql, cs, cols, 8));
    assert(item_at(sql, cs, cols, 9));
    assert(item_at(sql, cs, cols, 10));
    assert(item_at(sql, cs, cols, 11));
    assert forall|k: int| 0 <= k < 12 implies #[trigger] item_at(sql, cs, cols, k) by { assert(k == 0 || k == 1 || k == 2 || k == 3 || k == 4 || k == 5 || k == 6 || k == 7 || k == 8 || k == 9 || k == 10 || k == 11); }
    assert(listed_at(sql, cs, cols));
    assert(item_at(sql, vs, vals, 0));
    assert(item_at(sql, vs, vals, 1));
    assert(item_at(sql, vs, vals, 2));
    assert(item_at(sql, vs, vals, 3));
    assert(item_at(sql, vs, vals, 4));
    assert(item_at(sql, vs, vals, 5));
    assert(item_at(sql, vs, vals, 6));
    assert(item_at(sql, vs, vals, 7));
    assert(item_at(sql, vs, vals, 8));
    assert(item_at(sql, vs, vals, 9));
    assert(item_at(sql, vs, vals, 10));
    assert(item_at(sql, vs, vals, 11));
    assert forall|k: int| 0 <= k < 12 implies #[trigger] item_at(sql, vs, vals, k) by { assert(k == 0 || k == 1 || k == 2 || k == 3 || k == 4 || k == 5 || k == 6 || k == 7 || k == 8 || k == 9 || k == 10 || k == 11); }
    assert(listed_at(sql, vs, vals));
    assert(insert_at(sql, cs, cols, vs, vals));
    assert(sql.subrange(57, 72) =~= " "@ + "tenant_id"@ + " = "@ + placeholder(1));
    assert(compares_at(sql, "tenant_id"@, 1, 57));
    assert(names_placeholder(sql, 1, "tenant_id"@));
    assert(bound_as_named(st, 1));
    assert(sql.subrange(76, 91) =~= " "@ + "namespace"@ + " = "@ + placeholder(2));
    assert(compares_at(sql, "namespace"@, 2, 76));
    assert(names_placeholder(sql, 2, "namespace"@));
    assert(bound_as_named(st, 2));
    assert(sql.subrange(95, 111) =~= " "@ + "config_key"@ + " = "@ + placeholder(3));
    assert(compares_at(sql, "config_key"@, 3, 95));
    assert(names_placeholder(sql, 3, "config_key"@));
    assert(bound_as_named(st, 3));
    assert(inserts_at(sql, cs, cols, vs, vals, 0, "id"@, 4));
    assert(names_placeholder(sql, 4, "id"@));
    assert(bound_as_named(st, 4));
    assert(inserts_at(sql, cs, cols, vs, vals, 10, "changed_by"@, 5));
    assert(names_placeholder(sql, 5, "changed_by"@));
    assert(bound_as_named(st, 5));
    assert(inserts_at(sql, cs, cols, vs, vals, 11, "changed_at"@, 6));
    assert(names_placeholder(sql, 6, "changed_at"@));
    assert(bound_as_named(st, 6));
    assert forall|n: int| 1 <= n <= 6 implies #[trigger] bound_as_named(st, n) by { assert(n == 1 || n == 2 || n == 3 || n == 4 || n == 5 || n == 6); }
}

/// Each value that a SelectSystemSetting statement binds goes where its SQL text puts it.
#[verifier::rlimit(100)]
#[verifier::spinoff_prover]
proof fn lemma_select_system_setting_binds(st: SettingsStatement)
    requires
        st is SelectSystemSetting,
    ensures
        binds_follow_sql(st),
{
    let sql = spec_sql(st);
    reveal_strlit("SELECT * FROM settings_system_setting WHERE namespace = $1 AND setting_key = $2");
    reveal_strlit(" ");
    reveal_strlit(" = ");
    reveal_strlit("namespace");
    reveal_strlit("setting_key");
    assert(sql.subrange(43, 58) =~= " "@ + "namespace"@ + " = "@ + placeholder(1));
    assert(compares_at(sql, "namespace"@, 1, 43));
    assert(names_placeholder(sql, 1, "namespace"@));
    assert(bound_as_named(st, 1));
    assert(sql.subrange(62, 79) =~= " "@ + "setting_key"@ + " = "@ + placeholder(2));
    assert(compares_at(sql, "setting_key"@, 2, 62));
    assert(names_placeholder(sql, 2, "setting_key"@));
    assert(bound_as_named(st, 2));
    assert forall|n: int| 1 <= n <= 2 implies #[trigger] bound_as_named(st, n) by { assert(n == 1 || n == 2); }
}

/// Each value that a ListSystemSettings statement binds goes where its SQL text puts it.
#[verifier::rlimit(100)]
#[verifier::spinoff_prover]
proof fn lemma_list_system_settings_binds(st: SettingsStatement)
    requires
        st is ListSystemSettings,
    ensures
        binds_follow_sql(st),
{
    let sql = spec_sql(st);
    reveal_strlit("SELECT * FROM settings_system_setting WHERE namespace = $1");
    reveal_strlit(" ");
    reveal_strlit(" = ");
    reveal_strlit("namespace");
    assert(sql.subrange(43, 58) =~= " "@ + "namespace"@ + " = "@ + placeholder(1));
    assert(compares_at(sql, "namespace"@, 1, 43));
    assert(names_placeholder(sql, 1, "namespace"@));
    assert(bound_as_named(st, 1));
    assert forall|n: int| 1 <= n <= 1 implies #[trigger] bound_as_named(st, n) by { assert(n == 1); }
}

/// Each value that an UpsertSystemSetting statement binds goes where its SQL text puts it.
#[verifier::rlimit(100)]
#[verifier::spinoff_prover]
proof fn lemma_upsert_system_setting_binds(st: SettingsStatement)
    requires
        st is UpsertSystemSetting,
    ensures
        binds_follow_sql(st),
{
    let sql = spec_sql(st);
    reveal_strlit("WITH written AS (INSERT INTO settings_system_setting (id, namespace, setting_key, setting_value, value_type, scope, scope_value, created_at, updated_at, created_by, updated_by) VALUES ($1, $2, $3, $4, $5, $6, $7, $8, $8, $9, $9) ON CONFLICT (namespace, setting_key) DO UPDATE SET setting_value = EXCLUDED.setting_value, value_type = EXCLUDED.value_type, scope = EXCLUDED.scope, scope_value = EXCLUDED.scope_value, updated_at = EXCLUDED.updated_at, updated_by = EXCLUDED.updated_by RETURNING *), revision AS (INSERT INTO settings_config_revision (id, config_level, tenant_id, user_id, namespace, config_key, config_value, value_type, scope, scope_value, changed_by, changed_at) VALUES ($1, 'system_setting', NULL, NULL, $2, $3, $4, $5, $6, $7, $9, $8)) SELECT * FROM written");
    reveal_strlit(" ");
    reveal_strlit(" = ");
    reveal_strlit("'system_setting'");
    reveal_strlit("(");
    reveal_strlit(") SELECT ");
    reveal_strlit(") VALUES (");
    reveal_strlit(", ");
    reveal_strlit("NULL");
    reveal_strlit("changed_at");
    reveal_strlit("changed_by");
    reveal_strlit("config_key");
    reveal_strlit("config_level");
    reveal_strlit("config_value");
    reveal_strlit("id");
    reveal_strlit("namespace");
    reveal_strlit("scope");
    reveal_strlit("scope_value");
    reveal_strlit("tenant_id");
    reveal_strlit("user_id");
    reveal_strlit("value_type");
    let cs: Seq<int> = seq![546, 550, 564, 575, 584, 595, 607, 621, 633, 640, 653, 665];
    let cols: Seq<Seq<char>> = seq!["id"@, "config_level"@, "tenant_id"@, "user_id"@, "namespace"@, "config_key"@, "config_value"@, "value_type"@, "scope"@, "scope_value"@, "changed_by"@, "changed_at"@];
    let vs: Seq<int> = seq![685, 689, 707, 713, 719, 723, 727, 731, 735, 739, 743, 747];
    let vals: Seq<Seq<char>> = seq![placeholder(1), "'system_setting'"@, "NULL"@, "NULL"@, placeholder(2), placeholder(3), placeholder(4), placeholder(5), placeholder(6), placeholder(7), placeholder(9), placeholder(8)];
    assert(column_name(cols[0]));
    assert(value_item(vals[0]));
    assert(column_name(cols[1]));
    assert(value_item(vals[1]));
    assert(column_name(cols[2]));
    assert(value_item(vals[2]));
    assert(column_name(cols[3]));
    assert(value_item(vals[3]));
    assert(column_name(cols[4]));
    assert(value_item(vals[4]));
    assert(column_name(cols[5]));
    assert(value_item(vals[5]));
    assert(column_name(cols[6]));
    assert(value_item(vals[6]));
    assert(column_name(cols[7]));
    assert(value_item(vals[7]));
    assert(column_name(cols[8]));
    assert(value_item(vals[8]));
    assert(column_name(cols[9]));
    assert(value_item(vals[9]));
    assert(column_name(cols[10]));
    assert(value_item(vals[10]));
    assert(column_name(cols[11]));
    assert(value_item(vals[11]));
    assert(sql.subrange(546, 550) =~= "id"@ + ", "@);
    assert(sql.subrange(550, 564) =~= "config_level"@ + ", "@);
    assert(sql.subrange(564, 575) =~= "tenant_id"@ + ", "@);
    assert(sql.subrange(575, 584) =~= "user_id"@ + ", "@);
    assert(sql.subrange(584, 595) =~= "namespace"@ + ", "@);
    assert(sql.subrange(595, 607) =~= "config_key"@ + ", "@);
    assert(sql.subrange(607, 621) =~= "config_value"@ + ", "@);
    assert(sql.subrange(621, 633) =~= "value_type"@ + ", "@);
    assert(sql.subrange(633, 640) =~= "scope"@ + ", "@);
    assert(sql.subrange(640, 653) =~= "scope_value"@ + ", "@);
    assert(sql.subrange(653, 665) =~= "changed_by"@ + ", "@);
    assert(sql.subrange(665, 675) =~= "changed_at"@);
    assert(sql.subrange(685, 689) =~= placeholder(1) + ", "@);
    assert(sql.subrange(689, 707) =~= "'system_setting'"@ + ", "@);
    assert(sql.subrange(707, 713) =~= "NULL"@ + ", "@);
    assert(sql.subrange(713, 719) =~= "NULL"@ + ", "@);
    assert(sql.subrange(719, 723) =~= placeholder(2) + ", "@);
    assert(sql.subrange(723, 727) =~= placeholder(3) + ", "@);
    assert(sql.subrange(727, 731) =~= placeholder(4) + ", "@);
    assert(sql.subrange(731, 735) =~= placeholder(5) + ", "@);
    assert(sql.subrange(735, 739) =~= placeholder(6) + ", "@);
    assert(sql.subrange(739, 743) =~= placeholder(7) + ", "@);
    assert(sql.subrange(743, 747) =~= placeholder(9) + ", "@);
    assert(sql.subrange(747, 749) =~= placeholder(8));
    assert(sql.subrange(545, 546) =~= "("@);
    assert(sql.subrange(675, 685) =~= ") VALUES ("@);
    assert forall|k: int| 0 <= k < 12 implies column_name(#[trigger] cols[k]) by { assert(k == 0 || k == 1 || k == 2 || k == 3 || k == 4 || k == 5 || k == 6 || k == 7 || k == 8 || k == 9 || k == 10 || k == 11); }
    assert forall|k: int| 0 <= k < 12 implies value_item(#[trigger] vals[k]) by { assert(k == 0 || k == 1 || k == 2 || k == 3 || k == 4 || k == 5 || k == 6 || k == 7 || k == 8 || k == 9 || k == 10 || k == 11); }
    assert(item_at(sql, cs, cols, 0));
    assert(item_at(sql, cs, cols, 1));
    assert(item_at(sql, cs, cols, 2));
    assert(item_at(sql, cs, cols, 3));
    assert(item_at(sql, cs, cols, 4));
    assert(item_at(sql, cs, cols, 5));
    assert(item_at(sql, cs, cols, 6));
    assert(item_at(sql, cs, cols, 7));
    assert(item_at(sql, cs, cols, 8));
    assert(item_at(sql, cs, cols, 9));
    assert(item_at(sql, cs, cols, 10));
    assert(item_at(sql, cs, cols, 11));
    assert forall|k: int| 0 <= k < 12 implies #[trigger] item_at(sql, cs, cols, k) by { assert(k == 0 || k == 1 || k == 2 || k == 3 || k == 4 || k == 5 || k == 6 || k == 7 || k == 8 || k == 9 || k == 10 || k == 11); }
    assert(listed_at(sql, cs, cols));
    assert(item_at(sql, vs, vals, 0));
    assert(item_at(sql, vs, vals, 1));
    assert(item_at(sql, vs, vals, 2));
    assert(item_at(sql, vs, vals, 3));
    assert(item_at(sql, vs, vals, 4));
    assert(item_at(sql, vs, vals, 5));
    assert(item_at(sql, vs, vals, 6));
    assert(item_at(sql, vs, vals, 7));
    assert(item_at(sql, vs, vals, 8));
    assert(item_at(sql, vs, vals, 9));
    assert(item_at(sql, vs, vals, 10));
    assert(item_at(sql, vs, vals, 11));
    assert forall|k: int| 0 <= k < 12 implies #[trigger] item_at(sql, vs, vals, k) by { assert(k == 0 || k == 1 || k == 2 || k == 3 || k == 4 || k == 5 || k == 6 || k == 7 || k == 8 || k == 9 || k == 10 || k == 11); }
    assert(listed_at(sql, vs, vals));
    assert(insert_at(sql, cs, cols, vs, vals));
    assert(inserts_at(sql, cs, cols, vs, vals, 0, "id"@, 1));
    assert(names_placeholder(sql, 1, "id"@));
    assert(bound_as_named(st, 1));
    assert(inserts_at(sql, cs, cols, vs, vals, 4, "namespace"@, 2));
    assert(names_placeholder(sql, 2, "namespace"@));
    assert(bound_as_named(st, 2));
    assert(inserts_at(sql, cs, cols, vs, vals, 5, "config_key"@, 3));
    assert(names_placeholder(sql, 3, "config_key"@));
    assert(bound_as_named(st, 3));
    assert(inserts_at(sql, cs, cols, vs, vals, 6, "config_value"@, 4));
    assert(names_placeholder(sql, 4, "config_value"@));
    assert(bound_as_named(st, 4));
    assert(inserts_at(sql, cs, cols, vs, vals, 7, "value_type"@, 5));
    assert(names_placeholder(sql, 5, "value_type"@));
    assert(bound_as_named(st, 5));
    assert(inserts_at(sql, cs, cols, vs, vals, 8, "scope"@, 6));
    assert(names_placeholder(sql, 6, "scope"@));
    assert(bound_as_named(st, 6));
    assert(inserts_at(sql, cs, cols, vs, vals, 9, "scope_value"@, 7));
    assert(names_placeholder(sql, 7, "scope_value"@));
    assert(bound_as_named(st, 7));
    assert(inserts_at(sql, cs, cols, vs, vals, 11, "changed_at"@, 8));
    assert(names_placeholder(sql, 8, "changed_at"@));
    assert(bound_as_named(st, 8));
    assert(inserts_at(sql, cs, cols, vs, vals, 10, "changed_by"@, 9));
    assert(names_placeholder(sql, 9, "changed_by"@));
    assert(bound_as_named(st, 9));
    assert forall|n: int| 1 <= n <= 9 implies #[trigger] bound_as_named(st, n) by { assert(n == 1 || n == 2 || n == 3 || n == 4 || n == 5 || n == 6 || n == 7 || n == 8 || n == 9); }
}

/// Each value that a DeleteSystemSetting statement binds goes where its SQL text puts it.
#[verifier::rlimit(100)]
#[verifier::spinoff_prover]
proof fn lemma_delete_system_setting_binds(st: SettingsStatement)
    requires
        st is DeleteSystemSetting,
    ensures
        binds_follow_sql(st),
{
    let sql = spec_sql(st);
    reveal_strlit("WITH removed AS (DELETE FROM settings_system_setting WHERE namespace = $1 AND setting_key = $2 RETURNING *), revision AS (INSERT INTO settings_config_revision (id, config_level, tenant_id, user_id, namespace, config_key, config_value, value_type, scope, scope_value, changed_by, changed_at) SELECT $3, 'system_setting', NULL, NULL, namespace, setting_key, NULL, NULL, scope, scope_value, $4, $5 FROM removed) SELECT COUNT(*) AS rows_affected FROM removed");
    reveal_strlit(" ");
    reveal_strlit(" = ");
    reveal_strlit("'system_setting'");
    reveal_strlit("(");
    reveal_strlit(") SELECT ");
    reveal_strlit(") VALUES (");
    reveal_strlit(", ");
    reveal_strlit("NULL");
    reveal_strlit("changed_at");
    reveal_strlit("changed_by");
    reveal_strlit("config_key");
    reveal_strlit("config_level");
    reveal_strlit("config_value");
    reveal_strlit("id");
    reveal_strlit("namespace");
    reveal_strlit("scope");
    reveal_strlit("scope_value");
    reveal_strlit("setting_key");
    reveal_strlit("tenant_id");
    reveal_strlit("user_id");
    reveal_strlit("value_type");
    let cs: Seq<int> = seq![160, 164, 178, 189, 198, 209, 221, 235, 247, 254, 267, 279];
    let cols: Seq<Seq<char>> = seq!["id"@, "config_level"@, "tenant_id"@, "user_id"@, "namespace"@, "config_key"@, "config_value"@, "value_type"@, "scope"@, "scope_value"@, "changed_by"@, "changed_at"@];
    let vs: Seq<int> = seq![298, 302, 320, 326, 332, 343, 356, 362, 368, 375, 388, 392];
    let vals: Seq<Seq<char>> = seq![placeholder(3), "'system_setting'"@, "NULL"@, "NULL"@, "namespace"@, "setting_key"@, "NULL"@, "NULL"@, "scope"@, "scope_value"@, placeholder(4), placeholder(5)];
    assert(column_name(cols[0]));
    assert(value_item(vals[0]));
    assert(column_name(cols[1]));
    assert(value_item(vals[1]));
    assert(column_name(cols[2]));
    assert(value_item(vals[2]));
    assert(column_name(cols[3]));
    assert(value_item(vals[3]));
    assert(column_name(cols[4]));
    assert(value_item(vals[4]));
    assert(column_name(cols[5]));
    assert(value_item(vals[5]));
    assert(column_name(cols[6]));
    assert(value_item(vals[6]));
    assert(column_name(cols[7]));
    assert(value_item(vals[7]));
    assert(column_name(cols[8]));
    assert(value_item(vals[8]));
    assert(column_name(cols[9]));
    assert(value_item(vals[9]));
    assert(column_name(cols[10]));
    assert(value_item(vals[10]));
    assert(column_name(cols[11]));
    assert(value_item(vals[11]));
    assert(sql.subrange(160, 164) =~= "id"@ + ", "@);
    assert(sql.subrange(164, 178) =~= "config_level"@ + ", "@);
    assert(sql.subrange(178, 189) =~= "tenant_id"@ + ", "@);
    assert(sql.subrange(189, 198) =~= "user_id"@ + ", "@);
    assert(sql.subrange(198, 209) =~= "namespace"@ + ", "@);
    assert(sql.subrange(209, 221) =~= "config_key"@ + ", "@);
    assert(sql.subrange(221, 235) =~= "config_value"@ + ", "@);
    assert(sql.subrange(235, 247) =~= "value_type"@ + ", "@);
    assert(sql.subrange(247, 254) =~= "scope"@ + ", "@);
    assert(sql.subrange(254, 267) =~= "scope_value"@ + ", "@);
    assert(sql.subrange(267, 279) =~= "changed_by"@ + ", "@);
    assert(sql.subrange(279, 289) =~= "changed_at"@);
    assert(sql.subrange(298, 302) =~= placeholder(3) + ", "@);
    assert(sql.subrange(302, 320) =~= "'system_setting'"@ + ", "@);
    assert(sql.subrange(320, 326) =~= "NULL"@ + ", "@);
    assert(sql.subrange(326, 332) =~= "NULL"@ + ", "@);
    assert(sql.subrange(332, 343) =~= "namespace"@ + ", "@);
    assert(sql.subrange(343, 356) =~= "setting_key"@ + ", "@);
    assert(sql.subrange(356, 362) =~= "NULL"@ + ", "@);
    assert(sql.subrange(362, 368) =~= "NULL"@ + ", "@);
    assert(sql.subrange(368, 375) =~= "scope"@ + ", "@);
    assert(sql.subrange(375, 388) =~= "scope_value"@ + ", "@);
    assert(sql.subrange(388, 392) =~= placeholder(4) + ", "@);
    assert(sql.subrange(392, 394) =~= placeholder(5));
    assert(sql.subrange(159, 160) =~= "("@);
    assert(sql.subrange(289, 298) =~= ") SELECT "@);
    assert forall|k: int| 0 <= k < 12 implies column_name(#[trigger] cols[k]) by { assert(k == 0 || k == 1 || k == 2 || k == 3 || k == 4 || k == 5 || k == 6 || k == 7 || k == 8 || k == 9 || k == 10 || k == 11); }
    assert forall|k: int| 0 <= k < 12 implies value_item(#[trigger] vals[k]) by { assert(k == 0 || k == 1 || k == 2 || k == 3 || k == 4 || k == 5 || k == 6 || k == 7 || k == 8 || k == 9 || k == 10 || k == 11); }
    assert(item_at(sql, cs, cols, 0));
    assert(item_at(sql, cs, cols, 1));
    assert(item_at(sql, cs, cols, 2));
    assert(item_at(sql, cs, cols, 3));
    assert(item_at(sql, cs, cols, 4));
    assert(item_at(sql, cs, cols, 5));
    assert(item_at(sql, cs, cols, 6));
    assert(item_at(sql, cs, cols, 7));
    assert(item_at(sql, cs, cols, 8));
    assert(item_at(sql, cs, cols, 9));
    assert(item_at(sql, cs, cols, 10));
    assert(item_at(sql, cs, cols, 11));
    assert forall|k: int| 0 <= k < 12 implies #[trigger] item_at(sql, cs, cols, k) by { assert(k == 0 || k == 1 || k == 2 || k == 3 || k == 4 || k == 5 || k == 6 || k == 7 || k == 8 || k == 9 || k == 10 || k == 11); }
    assert(listed_at(sql, cs, cols));
    assert(item_at(sql, vs, vals, 0));
    assert(item_at(sql, vs, vals, 1));
    assert(item_at(sql, vs, vals, 2));
    assert(item_at(sql, vs, vals, 3));
    assert(item_at(sql, vs, vals, 4));
    assert(item_at(sql, vs, vals, 5));
    assert(item_at(sql, vs, vals, 6));
    assert(item_at(sql, vs, vals, 7));
    assert(item_at(sql, vs, vals, 8));
    assert(item_at(sql, vs, vals, 9));
    assert(item_at(sql, vs, vals, 10));
    assert(item_at(sql, vs, vals, 11));
    assert forall|k: int| 0 <= k < 12 implies #[trigger] item_at(sql, vs, vals, k) by { assert(k == 0 || k == 1 || k == 2 || k == 3 || k == 4 || k == 5 || k == 6 || k == 7 || k == 8 || k == 9 || k == 10 || k == 11); }
    assert(listed_at(sql, vs, vals));
    assert(insert_at(sql, cs, cols, vs, vals));
    assert(sql.subrange(58, 73) =~= " "@ + "namespace"@ + " = "@ + placeholder(1));
    assert(compares_at(sql, "namespace"@, 1, 58));
    assert(names_placeholder(sql, 1, "namespace"@));
    assert(bound_as_named(st, 1));
    assert(sql.subrange(77, 94) =~= " "@ + "setting_key"@ + " = "@ + placeholder(2));
    assert(compares_at(sql, "setting_key"@, 2, 77));
    assert(names_placeholder(sql, 2, "setting_key"@));
    assert(bound_as_named(st, 2));
    assert(inserts_at(sql, cs, cols, vs, vals, 0, "id"@, 3));
    assert(names_placeholder(sql, 3, "id"@));
    assert(bound_as_named(st, 3));
    assert(inserts_at(sql, cs, cols, vs, vals, 10, "changed_by"@, 4));
    assert(names_placeholder(sql, 4, "changed_by"@));
    assert(bound_as_named(st, 4));
    assert(inserts_at(sql, cs, cols, vs, vals, 11, "changed_at"@, 5));
    assert(names_placeholder(sql, 5, "changed_at"@));
    assert(bound_as_named(st, 5));
    assert forall|n: int| 1 <= n <= 5 implies #[trigger] bound_as_named(st, n) by { assert(n == 1 || n == 2 || n == 3 || n == 4 || n == 5); }
}

/// Each value that a statement binds is what the statement holds for a
/// column that its SQL text names with that placeholder: `$n` is compared
/// with that column or written into it.
pub proof fn law_binds_follow_sql(st: SettingsStatement)
    ensures
        binds_follow_sql(st),
{
    match st {
        SettingsStatement::SelectUserPreference { .. } => lemma_select_user_preference_binds(st),
        SettingsStatement::ListUserPreferences { .. } => lemma_list_user_preferences_binds(st),
        SettingsStatement::UpsertUserPreference { .. } => lemma_upsert_user_preference_binds(st),
        SettingsStatement::DeleteUserPreference { .. } => lemma_delete_user_preference_binds(st),
        SettingsStatement::SelectTenantConfig { .. } => lemma_select_tenant_config_binds(st),
        SettingsStatement::ListTenantConfigs { .. } => lemma_list_tenant_configs_binds(st),
        SettingsStatement::UpsertTenantConfig { .. } => lemma_upsert_tenant_config_binds(st),
        SettingsStatement::DeleteTenantConfig { .. } => lemma_delete_tenant_config_binds(st),
        SettingsStatement::SelectSystemSetting { .. } => lemma_select_system_setting_binds(st),
        SettingsStatement::ListSystemSettings { .. } => lemma_list_system_settings_binds(st),
        SettingsStatement::UpsertSystemSetting { .. } => lemma_upsert_system_setting_binds(st),
        SettingsStatement::DeleteSystemSetting { .. } => lemma_delete_system_setting_binds(st),
    }
}

} // verus!
