//! The tables that hold logs, and the statements on them.

use vstd::prelude::*;
use vstd::string::*;

use crate::error::joined;

verus! {

/// A table that belongs in the log database.
#[derive(Clone, Copy, Debug, PartialEq, Eq, Structural)]
pub enum LogTable {
    ProviderHealth,
    ProxyRequestLogs,
    StreamCheckLogs,
    UsageDailyRollups,
    SessionLogSync,
    SessionUsageDedup,
    ProviderCatalogCache,
}

/// The name of a table.
pub open spec fn table_name(table: LogTable) -> Seq<char> {
    match table {
        LogTable::ProviderHealth => "provider_health"@,
        LogTable::ProxyRequestLogs => "proxy_request_logs"@,
        LogTable::StreamCheckLogs => "stream_check_logs"@,
        LogTable::UsageDailyRollups => "usage_daily_rollups"@,
        LogTable::SessionLogSync => "session_log_sync"@,
        LogTable::SessionUsageDedup => "session_usage_dedup"@,
        LogTable::ProviderCatalogCache => "provider_catalog_cache"@,
    }
}

/// The columns of a table that are filled in, as a list in a statement.
pub open spec fn table_columns(table: LogTable) -> Seq<char> {
    match table {
        LogTable::ProviderHealth => "provider_id, app_type, is_healthy, consecutive_failures, last_success_at, last_failure_at, last_error, updated_at"@,
        LogTable::ProxyRequestLogs => "request_id, provider_id, app_type, model, request_model, pricing_model, input_tokens, output_tokens, cache_read_tokens, cache_creation_tokens, input_token_semantics, input_cost_usd, output_cost_usd, cache_read_cost_usd, cache_creation_cost_usd, total_cost_usd, latency_ms, first_token_ms, duration_ms, status_code, error_message, session_id, provider_type, is_streaming, cost_multiplier, created_at, data_source"@,
        LogTable::StreamCheckLogs => "id, provider_id, provider_name, app_type, status, success, message, response_time_ms, http_status, model_used, retry_count, tested_at"@,
        LogTable::UsageDailyRollups => "date, app_type, provider_id, model, request_model, pricing_model, request_count, success_count, input_tokens, output_tokens, cache_read_tokens, cache_creation_tokens, input_token_semantics, total_cost_usd, avg_latency_ms"@,
        LogTable::SessionLogSync => "file_path, last_modified, last_line_offset, last_synced_at, last_byte_offset, last_tail_fingerprint"@,
        LogTable::SessionUsageDedup => "data_source, request_id, semantic_id, has_entry_id"@,
        LogTable::ProviderCatalogCache => "provider_id, app_type, name"@,
    }
}

/// The tables that are copied from an unsplit configuration database into the log database, in
/// the order in which that is done.
pub open spec fn migrated_tables() -> Seq<LogTable> {
    seq![
        LogTable::ProviderHealth,
        LogTable::ProxyRequestLogs,
        LogTable::StreamCheckLogs,
        LogTable::UsageDailyRollups,
        LogTable::SessionLogSync,
        LogTable::SessionUsageDedup,
    ]
}

/// The tables by which an unsplit configuration database is recognised, in the order in which
/// they are looked for.
pub open spec fn probed_tables() -> Seq<LogTable> {
    seq![
        LogTable::ProxyRequestLogs,
        LogTable::UsageDailyRollups,
        LogTable::StreamCheckLogs,
        LogTable::ProviderHealth,
        LogTable::SessionLogSync,
        LogTable::SessionUsageDedup,
    ]
}

/// The tables that are dropped from the configuration database, in the order in which that is
/// done: those that were copied, and the catalog cache.
pub open spec fn dropped_tables() -> Seq<LogTable> {
    migrated_tables().push(LogTable::ProviderCatalogCache)
}

/// The statement that copies a table out of the attached configuration database.
pub open spec fn copy_statement(table: LogTable) -> Seq<char> {
    "INSERT OR REPLACE INTO "@ + table_name(table) + " ("@ + table_columns(table) + ") SELECT "@
        + table_columns(table) + " FROM legacy."@ + table_name(table)
}

/// The query for the number of rows in a table.
pub open spec fn count_statement(table: LogTable) -> Seq<char> {
    "SELECT COUNT(*) FROM "@ + table_name(table)
}

/// The statement that drops a table, if it is there.
pub open spec fn drop_statement(table: LogTable) -> Seq<char> {
    "DROP TABLE IF EXISTS "@ + table_name(table)
}

impl LogTable {
    /// The name of the table.
    pub fn name(self) -> (name: &'static str)
        ensures
            name@ == table_name(self),
    {
        match self {
            LogTable::ProviderHealth => "provider_health",
            LogTable::ProxyRequestLogs => "proxy_request_logs",
            LogTable::StreamCheckLogs => "stream_check_logs",
            LogTable::UsageDailyRollups => "usage_daily_rollups",
            LogTable::SessionLogSync => "session_log_sync",
            LogTable::SessionUsageDedup => "session_usage_dedup",
            LogTable::ProviderCatalogCache => "provider_catalog_cache",
        }
    }

    /// The columns of the table that are filled in.
    pub fn columns(self) -> (columns: &'static str)
        ensures
            columns@ == table_columns(self),
    {
        match self {
            LogTable::ProviderHealth => "provider_id, app_type, is_healthy, consecutive_failures, last_success_at, last_failure_at, last_error, updated_at",
            LogTable::ProxyRequestLogs => "request_id, provider_id, app_type, model, request_model, pricing_model, input_tokens, output_tokens, cache_read_tokens, cache_creation_tokens, input_token_semantics, input_cost_usd, output_cost_usd, cache_read_cost_usd, cache_creation_cost_usd, total_cost_usd, latency_ms, first_token_ms, duration_ms, status_code, error_message, session_id, provider_type, is_streaming, cost_multiplier, created_at, data_source",
            LogTable::StreamCheckLogs => "id, provider_id, provider_name, app_type, status, success, message, response_time_ms, http_status, model_used, retry_count, tested_at",
            LogTable::UsageDailyRollups => "date, app_type, provider_id, model, request_model, pricing_model, request_count, success_count, input_tokens, output_tokens, cache_read_tokens, cache_creation_tokens, input_token_semantics, total_cost_usd, avg_latency_ms",
            LogTable::SessionLogSync => "file_path, last_modified, last_line_offset, last_synced_at, last_byte_offset, last_tail_fingerprint",
            LogTable::SessionUsageDedup => "data_source, request_id, semantic_id, has_entry_id",
            LogTable::ProviderCatalogCache => "provider_id, app_type, name",
        }
    }

    /// The statement that copies the table out of the attached configuration database.
    pub fn copy_sql(self) -> (sql: String)
        ensures
            sql@ == copy_statement(self),
    {
        let mut sql = joined("INSERT OR REPLACE INTO ", self.name());
        sql.append(" (");
        sql.append(self.columns());
        sql.append(") SELECT ");
        sql.append(self.columns());
        sql.append(" FROM legacy.");
        sql.append(self.name());
        sql
    }

    /// The query for the number of rows in the table.
    pub fn count_sql(self) -> (sql: String)
        ensures
            sql@ == count_statement(self),
    {
        joined("SELECT COUNT(*) FROM ", self.name())
    }

    /// The statement that drops the table, if it is there.
    pub fn drop_sql(self) -> (sql: String)
        ensures
            sql@ == drop_statement(self),
    {
        joined("DROP TABLE IF EXISTS ", self.name())
    }
}

/// The table that is copied at this place.
pub fn migrated_table(index: usize) -> (table: LogTable)
    requires
        index < migrated_tables().len(),
    ensures
        table == migrated_tables()[index as int],
{
    match index {
        0 => LogTable::ProviderHealth,
        1 => LogTable::ProxyRequestLogs,
        2 => LogTable::StreamCheckLogs,
        3 => LogTable::UsageDailyRollups,
        4 => LogTable::SessionLogSync,
        _ => LogTable::SessionUsageDedup,
    }
}

/// The table that is looked for at this place.
pub fn probed_table(index: usize) -> (table: LogTable)
    requires
        index < probed_tables().len(),
    ensures
        table == probed_tables()[index as int],
{
    match index {
        0 => LogTable::ProxyRequestLogs,
        1 => LogTable::UsageDailyRollups,
        2 => LogTable::StreamCheckLogs,
        3 => LogTable::ProviderHealth,
        4 => LogTable::SessionLogSync,
        _ => LogTable::SessionUsageDedup,
    }
}

/// The table that is dropped at this place.
pub fn dropped_table(index: usize) -> (table: LogTable)
    requires
        index < dropped_tables().len(),
    ensures
        table == dropped_tables()[index as int],
{
    if index < 6 {
        migrated_table(index)
    } else {
        LogTable::ProviderCatalogCache
    }
}

/// Some table by which an unsplit database is recognised is among these tables.
pub open spec fn is_unsplit(tables: Set<Seq<char>>) -> bool {
    exists|i: int| 0 <= i < probed_tables().len() && tables.contains(
        table_name(#[trigger] probed_tables()[i]),
    )
}

/// These tables without those that are dropped.
pub open spec fn without_dropped(tables: Set<Seq<char>>) -> Set<Seq<char>> {
    tables.filter(
        |name: Seq<char>|
            forall|i: int|
                0 <= i < dropped_tables().len() ==> table_name(#[trigger] dropped_tables()[i])
                    != name,
    )
}

/// No two tables have the same name.
pub proof fn law_table_names_differ(first: LogTable, second: LogTable)
    ensures
        table_name(first) == table_name(second) ==> first == second,
{
    reveal_strlit("provider_health");
    reveal_strlit("proxy_request_logs");
    reveal_strlit("stream_check_logs");
    reveal_strlit("usage_daily_rollups");
    reveal_strlit("session_log_sync");
    reveal_strlit("session_usage_dedup");
    reveal_strlit("provider_catalog_cache");
    assert("provider_health"@.len() == 15 && "proxy_request_logs"@.len() == 18
        && "stream_check_logs"@.len() == 17 && "usage_daily_rollups"@.len() == 19
        && "session_log_sync"@.len() == 16 && "session_usage_dedup"@.len() == 19
        && "provider_catalog_cache"@.len() == 22);
    assert("usage_daily_rollups"@[0] != "session_usage_dedup"@[0]);
}

/// Every table by which an unsplit database is recognised is copied before it is dropped, and
/// nothing else is copied.
pub proof fn law_recognised_tables_are_migrated(table: LogTable)
    ensures
        probed_tables().contains(table) <==> migrated_tables().contains(table),
        migrated_tables().contains(table) ==> dropped_tables().contains(table),
        dropped_tables().contains(table) ==> migrated_tables().contains(table) || table
            == LogTable::ProviderCatalogCache,
{
    let probed = probed_tables();
    let migrated = migrated_tables();
    let dropped = dropped_tables();
    assert(probed[0] == migrated[1] && probed[1] == migrated[3] && probed[2] == migrated[2]
        && probed[3] == migrated[0] && probed[4] == migrated[4] && probed[5] == migrated[5]);
    assert forall|i: int| 0 <= i < migrated.len() implies dropped[i] == migrated[i] by {}
    if probed.contains(table) {
        let i = probed.index_of(table);
        assert(migrated.contains(table));
    }
    if migrated.contains(table) {
        let i = migrated.index_of(table);
        assert(dropped[i] == table);
        assert(probed.contains(table));
    }
    if dropped.contains(table) {
        let i = dropped.index_of(table);
        assert(i < 6 ==> migrated[i] == table);
    }
}

/// A database from which the log tables were dropped is no longer recognised as unsplit, so a
/// split is done once.
pub proof fn law_split_is_done_once(tables: Set<Seq<char>>)
    ensures
        !is_unsplit(without_dropped(tables)),
{
    if is_unsplit(without_dropped(tables)) {
        let i = choose|i: int|
            0 <= i < probed_tables().len() && without_dropped(tables).contains(
                table_name(#[trigger] probed_tables()[i]),
            );
        let table = probed_tables()[i];
        law_recognised_tables_are_migrated(table);
        assert(probed_tables().contains(table));
        let j = dropped_tables().index_of(table);
        assert(table_name(dropped_tables()[j]) == table_name(table));
    }
}

} // verus!
