//! What the statements on the log tables say, name by name.

use vstd::prelude::*;
use vstd::string::*;

use crate::database::migration::{Migration, MigrationAction};
use crate::database::run::Store;
use crate::database::tables::{
    dropped_tables, law_recognised_tables_are_migrated, migrated_tables, probed_tables,
    table_columns, table_name, LogTable,
};

verus! {

/// Names in a list, with a comma and a space between them.
pub open spec fn listed(names: Seq<Seq<char>>) -> Seq<char>
    decreases names.len(),
{
    if names.len() == 0 {
        Seq::empty()
    } else if names.len() == 1 {
        names[0]
    } else {
        listed(names.drop_last()) + ", "@ + names.last()
    }
}

/// A statement that copies these columns of the table of this name, each into the column of the
/// same name.
pub open spec fn copies(sql: Seq<char>, name: Seq<char>, columns: Seq<Seq<char>>) -> bool {
    sql == "INSERT OR REPLACE INTO "@ + name + " ("@ + listed(columns) + ") SELECT "@ + listed(
        columns,
    ) + " FROM legacy."@ + name
}

/// Every column of a log table is copied into the column of the same name, whichever table it
/// is, so that a copied row agrees with its source in all that the table holds.
pub proof fn law_every_column_is_copied(table: LogTable, sql: String)
    requires
        call_ensures(LogTable::copy_sql, (table,), sql),
    ensures
        match table {
            LogTable::ProviderHealth => copies(
                sql@,
                "provider_health"@,
                seq![
                    "provider_id"@, "app_type"@, "is_healthy"@, "consecutive_failures"@,
                    "last_success_at"@, "last_failure_at"@, "last_error"@, "updated_at"@,
                ],
            ),
            LogTable::ProxyRequestLogs => copies(
                sql@,
                "proxy_request_logs"@,
                seq![
                    "request_id"@, "provider_id"@, "app_type"@, "model"@, "request_model"@,
                    "pricing_model"@, "input_tokens"@, "output_tokens"@, "cache_read_tokens"@,
                    "cache_creation_tokens"@, "input_token_semantics"@, "input_cost_usd"@,
                    "output_cost_usd"@, "cache_read_cost_usd"@, "cache_creation_cost_usd"@,
                    "total_cost_usd"@, "latency_ms"@, "first_token_ms"@, "duration_ms"@,
                    "status_code"@, "error_message"@, "session_id"@, "provider_type"@,
                    "is_streaming"@, "cost_multiplier"@, "created_at"@, "data_source"@,
                ],
            ),
            LogTable::StreamCheckLogs => copies(
                sql@,
                "stream_check_logs"@,
                seq![
                    "id"@, "provider_id"@, "provider_name"@, "app_type"@, "status"@, "success"@,
                    "message"@, "response_time_ms"@, "http_status"@, "model_used"@,
                    "retry_count"@, "tested_at"@,
                ],
            ),
            LogTable::UsageDailyRollups => copies(
                sql@,
                "usage_daily_rollups"@,
                seq![
                    "date"@, "app_type"@, "provider_id"@, "model"@, "request_model"@,
                    "pricing_model"@, "request_count"@, "success_count"@, "input_tokens"@,
                    "output_tokens"@, "cache_read_tokens"@, "cache_creation_tokens"@,
                    "input_token_semantics"@, "total_cost_usd"@, "avg_latency_ms"@,
                ],
            ),
            LogTable::SessionLogSync => copies(
                sql@,
                "session_log_sync"@,
                seq![
                    "file_path"@, "last_modified"@, "last_line_offset"@, "last_synced_at"@,
                    "last_byte_offset"@, "last_tail_fingerprint"@,
                ],
            ),
            LogTable::SessionUsageDedup => copies(
                sql@,
                "session_usage_dedup"@,
                seq![
                    "data_source"@, "request_id"@, "semantic_id"@, "has_entry_id"@,
                ],
            ),
            LogTable::ProviderCatalogCache => copies(
                sql@,
                "provider_catalog_cache"@,
                seq![
                    "provider_id"@, "app_type"@, "name"@,
                ],
            ),
        },
{
    match table {
        LogTable::ProviderHealth => lemma_provider_health_columns(),
        LogTable::ProxyRequestLogs => lemma_proxy_request_logs_columns(),
        LogTable::StreamCheckLogs => lemma_stream_check_logs_columns(),
        LogTable::UsageDailyRollups => lemma_usage_daily_rollups_columns(),
        LogTable::SessionLogSync => lemma_session_log_sync_columns(),
        LogTable::SessionUsageDedup => lemma_session_usage_dedup_columns(),
        LogTable::ProviderCatalogCache => lemma_provider_catalog_cache_columns(),
    }
}

/// The columns of a log table are those, in that order.
pub proof fn law_columns_are_listed(table: LogTable, columns: &'static str)
    requires
        call_ensures(LogTable::columns, (table,), columns),
    ensures
        match table {
            LogTable::ProviderHealth => columns@ == listed(
                seq![
                    "provider_id"@, "app_type"@, "is_healthy"@, "consecutive_failures"@,
                    "last_success_at"@, "last_failure_at"@, "last_error"@, "updated_at"@,
                ],
            ),
            LogTable::ProxyRequestLogs => columns@ == listed(
                seq![
                    "request_id"@, "provider_id"@, "app_type"@, "model"@, "request_model"@,
                    "pricing_model"@, "input_tokens"@, "output_tokens"@, "cache_read_tokens"@,
                    "cache_creation_tokens"@, "input_token_semantics"@, "input_cost_usd"@,
                    "output_cost_usd"@, "cache_read_cost_usd"@, "cache_creation_cost_usd"@,
                    "total_cost_usd"@, "latency_ms"@, "first_token_ms"@, "duration_ms"@,
                    "status_code"@, "error_message"@, "session_id"@, "provider_type"@,
                    "is_streaming"@, "cost_multiplier"@, "created_at"@, "data_source"@,
                ],
            ),
            LogTable::StreamCheckLogs => columns@ == listed(
                seq![
                    "id"@, "provider_id"@, "provider_name"@, "app_type"@, "status"@, "success"@,
                    "message"@, "response_time_ms"@, "http_status"@, "model_used"@,
                    "retry_count"@, "tested_at"@,
                ],
            ),
            LogTable::UsageDailyRollups => columns@ == listed(
                seq![
                    "date"@, "app_type"@, "provider_id"@, "model"@, "request_model"@,
                    "pricing_model"@, "request_count"@, "success_count"@, "input_tokens"@,
                    "output_tokens"@, "cache_read_tokens"@, "cache_creation_tokens"@,
                    "input_token_semantics"@, "total_cost_usd"@, "avg_latency_ms"@,
                ],
            ),
            LogTable::SessionLogSync => columns@ == listed(
                seq![
                    "file_path"@, "last_modified"@, "last_line_offset"@, "last_synced_at"@,
                    "last_byte_offset"@, "last_tail_fingerprint"@,
                ],
            ),
            LogTable::SessionUsageDedup => columns@ == listed(
                seq![
                    "data_source"@, "request_id"@, "semantic_id"@, "has_entry_id"@,
                ],
            ),
            LogTable::ProviderCatalogCache => columns@ == listed(
                seq![
                    "provider_id"@, "app_type"@, "name"@,
                ],
            ),
        },
{
    match table {
        LogTable::ProviderHealth => lemma_provider_health_columns(),
        LogTable::ProxyRequestLogs => lemma_proxy_request_logs_columns(),
        LogTable::StreamCheckLogs => lemma_stream_check_logs_columns(),
        LogTable::UsageDailyRollups => lemma_usage_daily_rollups_columns(),
        LogTable::SessionLogSync => lemma_session_log_sync_columns(),
        LogTable::SessionUsageDedup => lemma_session_usage_dedup_columns(),
        LogTable::ProviderCatalogCache => lemma_provider_catalog_cache_columns(),
    }
}

/// The other statements on a log table name the table, and nothing else.
pub proof fn law_statements_name_their_table(
    table: LogTable,
    name: &'static str,
    count: String,
    removal: String,
)
    requires
        call_ensures(LogTable::name, (table,), name),
        call_ensures(LogTable::count_sql, (table,), count),
        call_ensures(LogTable::drop_sql, (table,), removal),
    ensures
        count@ == "SELECT COUNT(*) FROM "@ + name@,
        removal@ == "DROP TABLE IF EXISTS "@ + name@,
        match table {
            LogTable::ProviderHealth => name@ == "provider_health"@,
            LogTable::ProxyRequestLogs => name@ == "proxy_request_logs"@,
            LogTable::StreamCheckLogs => name@ == "stream_check_logs"@,
            LogTable::UsageDailyRollups => name@ == "usage_daily_rollups"@,
            LogTable::SessionLogSync => name@ == "session_log_sync"@,
            LogTable::SessionUsageDedup => name@ == "session_usage_dedup"@,
            LogTable::ProviderCatalogCache => name@ == "provider_catalog_cache"@,
        },
{
}

/// Every table that holds logs is moved, and the catalog cache, which is made anew, is not. All of
/// them are dropped.
pub proof fn law_every_log_table_is_moved(table: LogTable)
    ensures
        migrated_tables().contains(table) <==> table != LogTable::ProviderCatalogCache,
        probed_tables().contains(table) <==> table != LogTable::ProviderCatalogCache,
        dropped_tables().contains(table),
        migrated_tables().no_duplicates(),
        probed_tables().no_duplicates(),
        dropped_tables().no_duplicates(),
{
    law_recognised_tables_are_migrated(table);
    let migrated = migrated_tables();
    let dropped = dropped_tables();
    assert(migrated[0] == LogTable::ProviderHealth);
    assert(migrated[1] == LogTable::ProxyRequestLogs);
    assert(migrated[2] == LogTable::StreamCheckLogs);
    assert(migrated[3] == LogTable::UsageDailyRollups);
    assert(migrated[4] == LogTable::SessionLogSync);
    assert(migrated[5] == LogTable::SessionUsageDedup);
    assert(dropped[6] == LogTable::ProviderCatalogCache);
    assert(migrated.contains(table) <==> table != LogTable::ProviderCatalogCache);
}

/// What a migration executes: each table that is copied is copied by its own statement, and is
/// counted on both sides by one and the same query. The configuration database is read, has its
/// log tables dropped and its space given back; all else is done on the log database.
pub proof fn law_migration_statements(run: Migration, sql: Option<String>, store: Store)
    requires
        run.wf(),
        call_ensures(MigrationAction::sql, (run.action,), sql),
        call_ensures(MigrationAction::store, (run.action,), store),
    ensures
        match run.action {
            MigrationAction::Attach => (sql matches Some(sql) && sql@
                == "ATTACH DATABASE ?1 AS legacy"@) && store == Store::Logs,
            MigrationAction::Probe(_) => sql is None && store == Store::Config,
            MigrationAction::CopyRows(i) => (sql matches Some(sql) && forall|copy: String|
                call_ensures(LogTable::copy_sql, (migrated_tables()[i as int],), copy) ==> sql@
                    == #[trigger] copy@) && store == Store::Logs,
            MigrationAction::CountSource(i) => (sql matches Some(sql) && sql@
                == "SELECT COUNT(*) FROM "@ + table_name(migrated_tables()[i as int])) && store
                == Store::Config,
            MigrationAction::CountTarget(i) => (sql matches Some(sql) && sql@
                == "SELECT COUNT(*) FROM "@ + table_name(migrated_tables()[i as int])) && store
                == Store::Logs,
            MigrationAction::CheckIntegrity => (sql matches Some(sql) && sql@
                == "PRAGMA integrity_check"@) && store == Store::Logs,
            MigrationAction::Detach => (sql matches Some(sql) && sql@ == "DETACH DATABASE legacy;"@)
                && store == Store::Logs,
            MigrationAction::DropLegacyTables => sql is None && store == Store::Config,
            MigrationAction::Vacuum => (sql matches Some(sql) && sql@ == "VACUUM;"@) && store
                == Store::Config,
        },
{
}

proof fn lemma_listed()
    ensures
        forall|names: Seq<Seq<char>>, name: Seq<char>| #[trigger]
            listed(names.push(name)) == if names.len() == 0 {
                name
            } else {
                listed(names) + ", "@ + name
            },
{
    assert forall|names: Seq<Seq<char>>, name: Seq<char>| #[trigger]
        listed(names.push(name)) == if names.len() == 0 {
            name
        } else {
            listed(names) + ", "@ + name
        } by {
        assert(names.push(name).drop_last() =~= names);
    }
}

proof fn lemma_provider_health_columns()
    ensures
        table_columns(LogTable::ProviderHealth) == listed(
            seq![
                "provider_id"@, "app_type"@, "is_healthy"@, "consecutive_failures"@,
                "last_success_at"@, "last_failure_at"@, "last_error"@, "updated_at"@,
            ],
        ),
{
    let names = seq![
        "provider_id"@, "app_type"@, "is_healthy"@, "consecutive_failures"@, "last_success_at"@,
        "last_failure_at"@, "last_error"@, "updated_at"@,
    ];
    let pushed = Seq::<Seq<char>>::empty()
        .push("provider_id"@)
        .push("app_type"@)
        .push("is_healthy"@)
        .push("consecutive_failures"@)
        .push("last_success_at"@)
        .push("last_failure_at"@)
        .push("last_error"@)
        .push("updated_at"@);
    let text = "provider_id"@ + ", "@
        + "app_type"@ + ", "@
        + "is_healthy"@ + ", "@
        + "consecutive_failures"@ + ", "@
        + "last_success_at"@ + ", "@
        + "last_failure_at"@ + ", "@
        + "last_error"@ + ", "@
        + "updated_at"@;
    assert(names =~= pushed);
    assert(listed(pushed) == text) by {
        lemma_listed();
    }
    assert(table_columns(LogTable::ProviderHealth) =~= text) by {
        reveal_strlit(", ");
        reveal_strlit("provider_id, app_type, is_healthy, consecutive_failures, last_success_at, last_failure_at, last_error, updated_at");
        reveal_strlit("provider_id");
        reveal_strlit("app_type");
        reveal_strlit("is_healthy");
        reveal_strlit("consecutive_failures");
        reveal_strlit("last_success_at");
        reveal_strlit("last_failure_at");
        reveal_strlit("last_error");
        reveal_strlit("updated_at");
    }
}

proof fn lemma_proxy_request_logs_columns()
    ensures
        table_columns(LogTable::ProxyRequestLogs) == listed(
            seq![
                "request_id"@, "provider_id"@, "app_type"@, "model"@, "request_model"@,
                "pricing_model"@, "input_tokens"@, "output_tokens"@, "cache_read_tokens"@,
                "cache_creation_tokens"@, "input_token_semantics"@, "input_cost_usd"@,
                "output_cost_usd"@, "cache_read_cost_usd"@, "cache_creation_cost_usd"@,
                "total_cost_usd"@, "latency_ms"@, "first_token_ms"@, "duration_ms"@,
                "status_code"@, "error_message"@, "session_id"@, "provider_type"@,
                "is_streaming"@, "cost_multiplier"@, "created_at"@, "data_source"@,
            ],
        ),
{
    let names = seq![
        "request_id"@, "provider_id"@, "app_type"@, "model"@, "request_model"@, "pricing_model"@,
        "input_tokens"@, "output_tokens"@, "cache_read_tokens"@, "cache_creation_tokens"@,
        "input_token_semantics"@, "input_cost_usd"@, "output_cost_usd"@, "cache_read_cost_usd"@,
        "cache_creation_cost_usd"@, "total_cost_usd"@, "latency_ms"@, "first_token_ms"@,
        "duration_ms"@, "status_code"@, "error_message"@, "session_id"@, "provider_type"@,
        "is_streaming"@, "cost_multiplier"@, "created_at"@, "data_source"@,
    ];
    let pushed = Seq::<Seq<char>>::empty()
        .push("request_id"@)
        .push("provider_id"@)
        .push("app_type"@)
        .push("model"@)
        .push("request_model"@)
        .push("pricing_model"@)
        .push("input_tokens"@)
        .push("output_tokens"@)
        .push("cache_read_tokens"@)
        .push("cache_creation_tokens"@)
        .push("input_token_semantics"@)
        .push("input_cost_usd"@)
        .push("output_cost_usd"@)
        .push("cache_read_cost_usd"@)
        .push("cache_creation_cost_usd"@)
        .push("total_cost_usd"@)
        .push("latency_ms"@)
        .push("first_token_ms"@)
        .push("duration_ms"@)
        .push("status_code"@)
        .push("error_message"@)
        .push("session_id"@)
        .push("provider_type"@)
        .push("is_streaming"@)
        .push("cost_multiplier"@)
        .push("created_at"@)
        .push("data_source"@);
    let text = "request_id"@ + ", "@
        + "provider_id"@ + ", "@
        + "app_type"@ + ", "@
        + "model"@ + ", "@
        + "request_model"@ + ", "@
        + "pricing_model"@ + ", "@
        + "input_tokens"@ + ", "@
        + "output_tokens"@ + ", "@
        + "cache_read_tokens"@ + ", "@
        + "cache_creation_tokens"@ + ", "@
        + "input_token_semantics"@ + ", "@
        + "input_cost_usd"@ + ", "@
        + "output_cost_usd"@ + ", "@
        + "cache_read_cost_usd"@ + ", "@
        + "cache_creation_cost_usd"@ + ", "@
        + "total_cost_usd"@ + ", "@
        + "latency_ms"@ + ", "@
        + "first_token_ms"@ + ", "@
        + "duration_ms"@ + ", "@
        + "status_code"@ + ", "@
        + "error_message"@ + ", "@
        + "session_id"@ + ", "@
        + "provider_type"@ + ", "@
        + "is_streaming"@ + ", "@
        + "cost_multiplier"@ + ", "@
        + "created_at"@ + ", "@
        + "data_source"@;
    assert(names =~= pushed);
    assert(listed(pushed) == text) by {
        lemma_listed();
    }
    assert(table_columns(LogTable::ProxyRequestLogs) =~= text) by {
        reveal_strlit(", ");
        reveal_strlit("request_id, provider_id, app_type, model, request_model, pricing_model, input_tokens, output_tokens, cache_read_tokens, cache_creation_tokens, input_token_semantics, input_cost_usd, output_cost_usd, cache_read_cost_usd, cache_creation_cost_usd, total_cost_usd, latency_ms, first_token_ms, duration_ms, status_code, error_message, session_id, provider_type, is_streaming, cost_multiplier, created_at, data_source");
        reveal_strlit("request_id");
        reveal_strlit("provider_id");
        reveal_strlit("app_type");
        reveal_strlit("model");
        reveal_strlit("request_model");
        reveal_strlit("pricing_model");
        reveal_strlit("input_tokens");
        reveal_strlit("output_tokens");
        reveal_strlit("cache_read_tokens");
        reveal_strlit("cache_creation_tokens");
        reveal_strlit("input_token_semantics");
        reveal_strlit("input_cost_usd");
        reveal_strlit("output_cost_usd");
        reveal_strlit("cache_read_cost_usd");
        reveal_strlit("cache_creation_cost_usd");
        reveal_strlit("total_cost_usd");
        reveal_strlit("latency_ms");
        reveal_strlit("first_token_ms");
        reveal_strlit("duration_ms");
        reveal_strlit("status_code");
        reveal_strlit("error_message");
        reveal_strlit("session_id");
        reveal_strlit("provider_type");
        reveal_strlit("is_streaming");
        reveal_strlit("cost_multiplier");
        reveal_strlit("created_at");
        reveal_strlit("data_source");
    }
}

proof fn lemma_stream_check_logs_columns()
    ensures
        table_columns(LogTable::StreamCheckLogs) == listed(
            seq![
                "id"@, "provider_id"@, "provider_name"@, "app_type"@, "status"@, "success"@,
                "message"@, "response_time_ms"@, "http_status"@, "model_used"@, "retry_count"@,
                "tested_at"@,
            ],
        ),
{
    let names = seq![
        "id"@, "provider_id"@, "provider_name"@, "app_type"@, "status"@, "success"@, "message"@,
        "response_time_ms"@, "http_status"@, "model_used"@, "retry_count"@, "tested_at"@,
    ];
    let pushed = Seq::<Seq<char>>::empty()
        .push("id"@)
        .push("provider_id"@)
        .push("provider_name"@)
        .push("app_type"@)
        .push("status"@)
        .push("success"@)
        .push("message"@)
        .push("response_time_ms"@)
        .push("http_status"@)
        .push("model_used"@)
        .push("retry_count"@)
        .push("tested_at"@);
    let text = "id"@ + ", "@
        + "provider_id"@ + ", "@
        + "provider_name"@ + ", "@
        + "app_type"@ + ", "@
        + "status"@ + ", "@
        + "success"@ + ", "@
        + "message"@ + ", "@
        + "response_time_ms"@ + ", "@
        + "http_status"@ + ", "@
        + "model_used"@ + ", "@
        + "retry_count"@ + ", "@
        + "tested_at"@;
    assert(names =~= pushed);
    assert(listed(pushed) == text) by {
        lemma_listed();
    }
    assert(table_columns(LogTable::StreamCheckLogs) =~= text) by {
        reveal_strlit(", ");
        reveal_strlit("id, provider_id, provider_name, app_type, status, success, message, response_time_ms, http_status, model_used, retry_count, tested_at");
        reveal_strlit("id");
        reveal_strlit("provider_id");
        reveal_strlit("provider_name");
        reveal_strlit("app_type");
        reveal_strlit("status");
        reveal_strlit("success");
        reveal_strlit("message");
        reveal_strlit("response_time_ms");
        reveal_strlit("http_status");
        reveal_strlit("model_used");
        reveal_strlit("retry_count");
        reveal_strlit("tested_at");
    }
}

proof fn lemma_usage_daily_rollups_columns()
    ensures
        table_columns(LogTable::UsageDailyRollups) == listed(
            seq![
                "date"@, "app_type"@, "provider_id"@, "model"@, "request_model"@,
                "pricing_model"@, "request_count"@, "success_count"@, "input_tokens"@,
                "output_tokens"@, "cache_read_tokens"@, "cache_creation_tokens"@,
                "input_token_semantics"@, "total_cost_usd"@, "avg_latency_ms"@,
            ],
        ),
{
    let names = seq![
        "date"@, "app_type"@, "provider_id"@, "model"@, "request_model"@, "pricing_model"@,
        "request_count"@, "success_count"@, "input_tokens"@, "output_tokens"@,
        "cache_read_tokens"@, "cache_creation_tokens"@, "input_token_semantics"@,
        "total_cost_usd"@, "avg_latency_ms"@,
    ];
    let pushed = Seq::<Seq<char>>::empty()
        .push("date"@)
        .push("app_type"@)
        .push("provider_id"@)
        .push("model"@)
        .push("request_model"@)
        .push("pricing_model"@)
        .push("request_count"@)
        .push("success_count"@)
        .push("input_tokens"@)
        .push("output_tokens"@)
        .push("cache_read_tokens"@)
        .push("cache_creation_tokens"@)
        .push("input_token_semantics"@)
        .push("total_cost_usd"@)
        .push("avg_latency_ms"@);
    let text = "date"@ + ", "@
        + "app_type"@ + ", "@
        + "provider_id"@ + ", "@
        + "model"@ + ", "@
        + "request_model"@ + ", "@
        + "pricing_model"@ + ", "@
        + "request_count"@ + ", "@
        + "success_count"@ + ", "@
        + "input_tokens"@ + ", "@
        + "output_tokens"@ + ", "@
        + "cache_read_tokens"@ + ", "@
        + "cache_creation_tokens"@ + ", "@
        + "input_token_semantics"@ + ", "@
        + "total_cost_usd"@ + ", "@
        + "avg_latency_ms"@;
    assert(names =~= pushed);
    assert(listed(pushed) == text) by {
        lemma_listed();
    }
    assert(table_columns(LogTable::UsageDailyRollups) =~= text) by {
        reveal_strlit(", ");
        reveal_strlit("date, app_type, provider_id, model, request_model, pricing_model, request_count, success_count, input_tokens, output_tokens, cache_read_tokens, cache_creation_tokens, input_token_semantics, total_cost_usd, avg_latency_ms");
        reveal_strlit("date");
        reveal_strlit("app_type");
        reveal_strlit("provider_id");
        reveal_strlit("model");
        reveal_strlit("request_model");
        reveal_strlit("pricing_model");
        reveal_strlit("request_count");
        reveal_strlit("success_count");
        reveal_strlit("input_tokens");
        reveal_strlit("output_tokens");
        reveal_strlit("cache_read_tokens");
        reveal_strlit("cache_creation_tokens");
        reveal_strlit("input_token_semantics");
        reveal_strlit("total_cost_usd");
        reveal_strlit("avg_latency_ms");
    }
}

proof fn lemma_session_log_sync_columns()
    ensures
        table_columns(LogTable::SessionLogSync) == listed(
            seq![
                "file_path"@, "last_modified"@, "last_line_offset"@, "last_synced_at"@,
                "last_byte_offset"@, "last_tail_fingerprint"@,
            ],
        ),
{
    let names = seq![
        "file_path"@, "last_modified"@, "last_line_offset"@, "last_synced_at"@,
        "last_byte_offset"@, "last_tail_fingerprint"@,
    ];
    let pushed = Seq::<Seq<char>>::empty()
        .push("file_path"@)
        .push("last_modified"@)
        .push("last_line_offset"@)
        .push("last_synced_at"@)
        .push("last_byte_offset"@)
        .push("last_tail_fingerprint"@);
    let text = "file_path"@ + ", "@
        + "last_modified"@ + ", "@
        + "last_line_offset"@ + ", "@
        + "last_synced_at"@ + ", "@
        + "last_byte_offset"@ + ", "@
        + "last_tail_fingerprint"@;
    assert(names =~= pushed);
    assert(listed(pushed) == text) by {
        lemma_listed();
    }
    assert(table_columns(LogTable::SessionLogSync) =~= text) by {
        reveal_strlit(", ");
        reveal_strlit("file_path, last_modified, last_line_offset, last_synced_at, last_byte_offset, last_tail_fingerprint");
        reveal_strlit("file_path");
        reveal_strlit("last_modified");
        reveal_strlit("last_line_offset");
        reveal_strlit("last_synced_at");
        reveal_strlit("last_byte_offset");
        reveal_strlit("last_tail_fingerprint");
    }
}

proof fn lemma_session_usage_dedup_columns()
    ensures
        table_columns(LogTable::SessionUsageDedup) == listed(
            seq![
                "data_source"@, "request_id"@, "semantic_id"@, "has_entry_id"@,
            ],
        ),
{
    let names = seq![
        "data_source"@, "request_id"@, "semantic_id"@, "has_entry_id"@,
    ];
    let pushed = Seq::<Seq<char>>::empty()
        .push("data_source"@)
        .push("request_id"@)
        .push("semantic_id"@)
        .push("has_entry_id"@);
    let text = "data_source"@ + ", "@
        + "request_id"@ + ", "@
        + "semantic_id"@ + ", "@
        + "has_entry_id"@;
    assert(names =~= pushed);
    assert(listed(pushed) == text) by {
        lemma_listed();
    }
    assert(table_columns(LogTable::SessionUsageDedup) =~= text) by {
        reveal_strlit(", ");
        reveal_strlit("data_source, request_id, semantic_id, has_entry_id");
        reveal_strlit("data_source");
        reveal_strlit("request_id");
        reveal_strlit("semantic_id");
        reveal_strlit("has_entry_id");
    }
}

proof fn lemma_provider_catalog_cache_columns()
    ensures
        table_columns(LogTable::ProviderCatalogCache) == listed(
            seq![
                "provider_id"@, "app_type"@, "name"@,
            ],
        ),
{
    let names = seq![
        "provider_id"@, "app_type"@, "name"@,
    ];
    let pushed = Seq::<Seq<char>>::empty()
        .push("provider_id"@)
        .push("app_type"@)
        .push("name"@);
    let text = "provider_id"@ + ", "@
        + "app_type"@ + ", "@
        + "name"@;
    assert(names =~= pushed);
    assert(listed(pushed) == text) by {
        lemma_listed();
    }
    assert(table_columns(LogTable::ProviderCatalogCache) =~= text) by {
        reveal_strlit(", ");
        reveal_strlit("provider_id, app_type, name");
        reveal_strlit("provider_id");
        reveal_strlit("app_type");
        reveal_strlit("name");
    }
}

} // verus!
