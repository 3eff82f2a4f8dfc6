use sql_rewriter::{rewrite_sql, set_rewrite_context};

#[test]
fn leaves_unrelated_queries_untouched() {
    let ctx = set_rewrite_context(None).unwrap();
    let output = rewrite_sql("SELECT 1", None, &ctx).unwrap();
    assert_eq!(output.sql, "SELECT 1");
    assert!(output.cache_hints.is_none());
}

#[test]
fn rewrites_internal_state_vtable_with_schema_filter() {
    let context = "{\"tableCache\":[\"internal_state_cache_mock_schema\"]}";
    let ctx = set_rewrite_context(Some(context)).unwrap();

    let input = "SELECT * FROM internal_state_reader WHERE schema_key = 'mock_schema'";
    let output = rewrite_sql(input, None, &ctx).unwrap();

    assert!(output.sql.contains("internal_state_cache_mock_schema"));
    assert!(output.sql.contains("UNION ALL"));
    let hints = output.cache_hints.expect("expected cache hints");
    let reader = hints
        .internal_state_reader()
        .expect("expected internal_state_reader hints");
    assert_eq!(reader.schema_keys().as_slice(), ["mock_schema"]);
}

#[test]
fn rewrites_internal_state_vtable_when_schema_cache_missing() {
    let context = "{\"tableCache\":[]}";
    let ctx = set_rewrite_context(Some(context)).unwrap();
    let input = "SELECT * FROM internal_state_reader WHERE schema_key = 'missing_schema'";
    let output = rewrite_sql(input, None, &ctx).unwrap();
    assert_ne!(
        output.sql,
        "SELECT * FROM internal_state_reader WHERE schema_key = 'missing_schema'"
    );
    assert!(output.sql.contains("internal_state_all_untracked"));
    assert!(!output.sql.contains("internal_state_cache_missing_schema"));
    let hints = output.cache_hints.expect("expected cache hints");
    let reader = hints
        .internal_state_reader()
        .expect("expected internal_state_reader hints");
    assert_eq!(reader.schema_keys().as_slice(), ["missing_schema"]);
}

#[test]
fn expands_view_definitions_when_provided() {
    let context = "{\"views\":{\"example_view\":\"SELECT 42 AS value\"}}";
    let ctx = set_rewrite_context(Some(context)).unwrap();

    let input = "SELECT * FROM example_view";
    let output = rewrite_sql(input, None, &ctx).unwrap();

    let expanded = output.expanded_sql.expect("expected the expansion view");
    assert!(expanded.contains("42 AS value"));
}

#[test]
fn rewrites_internal_state_vtable_with_parameterised_schema_key() {
    let base_context = "{\"tableCache\":[\"internal_state_cache_mock_schema\"]}";
    let ctx = set_rewrite_context(Some(base_context)).unwrap();

    let contextual_parameters =
        "{\"tableCache\":[\"internal_state_cache_mock_schema\"],\"parameters\":[\"mock_schema\"]}";

    let input = "SELECT * FROM internal_state_reader WHERE schema_key = ?";
    let output = rewrite_sql(input, Some(contextual_parameters), &ctx).unwrap();

    assert!(output.sql.contains("internal_state_cache_mock_schema"));
    let hints = output.cache_hints.expect("expected cache hints");
    let reader = hints
        .internal_state_reader()
        .expect("expected internal_state_reader hints");
    assert_eq!(reader.schema_keys().as_slice(), ["mock_schema"]);
}

#[test]
fn records_expanded_sql_when_view_targets_internal_state_vtable() {
    let context = "{\"views\":{\"state_reader_view\":\"SELECT entity_id FROM internal_state_reader WHERE schema_key = 'mock_schema'\"}}";
    let ctx = set_rewrite_context(Some(context)).unwrap();

    let input = "SELECT entity_id FROM state_reader_view";
    let output = rewrite_sql(input, None, &ctx).unwrap();

    assert!(output.expanded_sql.is_some());
    let expanded = output.expanded_sql.unwrap();
    assert!(expanded.contains("internal_state_reader"));
}

#[test]
fn passthrough_reports_no_expansion() {
    let ctx = set_rewrite_context(None).unwrap();
    let output = rewrite_sql("SELECT 1", None, &ctx).unwrap();
    assert_eq!(output.sql, "SELECT 1");
    assert!(output.expanded_sql.is_none());
    assert!(output.cache_hints.is_none());
}

#[test]
fn routed_sql_parses_again() {
    let context = "{\"tableCache\":[\"internal_state_cache_mock_schema\"]}";
    let ctx = set_rewrite_context(Some(context)).unwrap();
    let input = "SELECT * FROM internal_state_reader WHERE schema_key = 'mock_schema'";
    let first = rewrite_sql(input, None, &ctx).unwrap();
    let second = rewrite_sql(&first.sql, None, &ctx).unwrap();
    assert_eq!(second.sql, first.sql);
    assert!(second.cache_hints.is_none());
}

#[test]
fn repeated_calls_are_byte_identical() {
    let context = "{\"tableCache\":[\"internal_state_cache_mock_schema\",\"internal_state_cache_lix_version_descriptor\"]}";
    let ctx = set_rewrite_context(Some(context)).unwrap();
    let input = "SELECT * FROM internal_state_reader WHERE schema_key = 'mock_schema'";
    let a = rewrite_sql(input, None, &ctx).unwrap();
    let b = rewrite_sql(input, None, &ctx).unwrap();
    assert_eq!(a.sql, b.sql);
    assert_eq!(a.expanded_sql, b.expanded_sql);
}

#[test]
fn schema_keys_are_sorted_and_unique() {
    let context = "{\"tableCache\":[]}";
    let ctx = set_rewrite_context(Some(context)).unwrap();
    let input = "SELECT * FROM internal_state_reader WHERE schema_key = 'zeta'; \
                 SELECT * FROM internal_state_reader WHERE schema_key = 'alpha'; \
                 SELECT * FROM internal_state_reader WHERE schema_key = 'zeta'";
    let output = rewrite_sql(input, None, &ctx).unwrap();
    let hints = output.cache_hints.expect("expected cache hints");
    let reader = hints
        .internal_state_reader()
        .expect("expected internal_state_reader hints");
    assert_eq!(reader.schema_keys().as_slice(), ["alpha", "zeta"]);
}

#[test]
fn declines_on_two_distinct_schema_keys() {
    let context = "{\"tableCache\":[\"internal_state_cache_a\",\"internal_state_cache_b\"]}";
    let ctx = set_rewrite_context(Some(context)).unwrap();
    let input = "SELECT * FROM internal_state_reader WHERE schema_key IN ('a', 'b')";
    let output = rewrite_sql(input, None, &ctx).unwrap();
    assert_eq!(output.sql, input);
    assert!(output.cache_hints.is_none());
}

#[test]
fn any_schema_form_unions_known_shards() {
    let context = "{\"tableCache\":[\"internal_state_cache_b\",\"internal_state_cache_a\",\"internal_state_cache_lix_version_descriptor\"]}";
    let ctx = set_rewrite_context(Some(context)).unwrap();
    let input = "SELECT * FROM internal_state_reader";
    let output = rewrite_sql(input, None, &ctx).unwrap();
    assert!(output.sql.contains("cache_union"));
    assert!(output.sql.contains("internal_state_cache_a"));
    assert!(output.sql.contains("internal_state_cache_b"));
    assert!(output.sql.contains("WITH RECURSIVE"));
    assert!(output.sql.contains("version_inheritance"));
    let hints = output.cache_hints.expect("expected cache hints");
    let reader = hints
        .internal_state_reader()
        .expect("expected internal_state_reader hints");
    assert!(reader.schema_keys().is_empty());
    assert!(reader.include_inheritance());
}

#[test]
fn inheritance_requires_descriptor_shard() {
    let context = "{\"tableCache\":[\"internal_state_cache_mock_schema\"]}";
    let ctx = set_rewrite_context(Some(context)).unwrap();
    let input = "SELECT * FROM internal_state_reader WHERE schema_key = 'mock_schema'";
    let output = rewrite_sql(input, None, &ctx).unwrap();
    assert!(!output.sql.contains("WITH RECURSIVE"));
    let hints = output.cache_hints.expect("expected cache hints");
    let reader = hints
        .internal_state_reader()
        .expect("expected internal_state_reader hints");
    assert!(!reader.include_inheritance());
}

#[test]
fn absent_table_cache_assumes_all_shards() {
    let ctx = set_rewrite_context(None).unwrap();
    let input = "SELECT * FROM internal_state_reader WHERE schema_key = 'mock_schema'";
    let output = rewrite_sql(input, None, &ctx).unwrap();
    assert!(output.sql.contains("internal_state_cache_mock_schema"));
    assert!(output.sql.contains("WITH RECURSIVE"));
    let hints = output.cache_hints.expect("expected cache hints");
    let reader = hints
        .internal_state_reader()
        .expect("expected internal_state_reader hints");
    assert!(reader.include_inheritance());
}

#[test]
fn escapes_single_quotes_in_schema_keys() {
    let context = "{\"tableCache\":[]}";
    let ctx = set_rewrite_context(Some(context)).unwrap();
    let input = "SELECT * FROM internal_state_reader WHERE schema_key = 'o''brien'";
    let output = rewrite_sql(input, None, &ctx).unwrap();
    assert!(output.sql.contains("schema_key = 'o''brien'"));
    let hints = output.cache_hints.expect("expected cache hints");
    let reader = hints
        .internal_state_reader()
        .expect("expected internal_state_reader hints");
    assert_eq!(reader.schema_keys().as_slice(), ["o'brien"]);
}

#[test]
fn sanitises_shard_names() {
    let ctx = set_rewrite_context(None).unwrap();
    let input = "SELECT * FROM internal_state_reader WHERE schema_key = 'my-schema.v1'";
    let output = rewrite_sql(input, None, &ctx).unwrap();
    assert!(output.sql.contains("internal_state_cache_my_schema_v1"));
}

#[test]
fn aliased_reader_matches_qualified_column() {
    let context = "{\"tableCache\":[\"internal_state_cache_mock_schema\"]}";
    let ctx = set_rewrite_context(Some(context)).unwrap();
    let input = "SELECT * FROM internal_state_reader AS r WHERE r.schema_key = 'mock_schema'";
    let output = rewrite_sql(input, None, &ctx).unwrap();
    assert!(output.sql.contains("internal_state_cache_mock_schema"));
    assert!(output.sql.contains("AS r"));
}

#[test]
fn opaque_parameters_yield_no_literal() {
    let context = "{\"tableCache\":[\"internal_state_cache_mock_schema\"],\"parameters\":[[1,2]]}";
    let ctx = set_rewrite_context(Some(context)).unwrap();
    let input = "SELECT * FROM internal_state_reader WHERE schema_key = ?";
    let output = rewrite_sql(input, None, &ctx).unwrap();
    let hints = output.cache_hints.expect("expected cache hints");
    let reader = hints
        .internal_state_reader()
        .expect("expected internal_state_reader hints");
    assert!(reader.schema_keys().is_empty());
}

#[test]
fn numeric_parameter_binds_as_text() {
    let context = "{\"tableCache\":[],\"parameters\":[7]}";
    let ctx = set_rewrite_context(Some(context)).unwrap();
    let input = "SELECT * FROM internal_state_reader WHERE schema_key = ?";
    let output = rewrite_sql(input, None, &ctx).unwrap();
    let hints = output.cache_hints.expect("expected cache hints");
    let reader = hints
        .internal_state_reader()
        .expect("expected internal_state_reader hints");
    assert_eq!(reader.schema_keys().as_slice(), ["7"]);
}

#[test]
fn malformed_context_json_is_rejected() {
    let err = set_rewrite_context(Some("{")).unwrap_err();
    assert!(err.message().starts_with("Failed to parse rewrite context:"));
}

#[test]
fn wrong_kind_table_cache_is_rejected() {
    let err = set_rewrite_context(Some("{\"tableCache\":5}")).unwrap_err();
    assert!(err.message().starts_with("Failed to parse rewrite context:"));
}

#[test]
fn unparseable_sql_is_rejected() {
    let ctx = set_rewrite_context(None).unwrap();
    let err = rewrite_sql("THIS IS NOT SQL", None, &ctx).unwrap_err();
    assert!(err.message().starts_with("SQL parse error:"));
}

#[test]
fn unparseable_view_body_is_rejected() {
    let context = "{\"views\":{\"broken_view\":\"((\"}}";
    let ctx = set_rewrite_context(Some(context)).unwrap();
    let err = rewrite_sql("SELECT * FROM broken_view", None, &ctx).unwrap_err();
    assert!(err.message().starts_with("Failed to parse view query:"));
}

#[test]
fn non_query_view_body_is_rejected() {
    let context = "{\"views\":{\"odd_view\":\"DELETE FROM t\"}}";
    let ctx = set_rewrite_context(Some(context)).unwrap();
    let err = rewrite_sql("SELECT * FROM odd_view", None, &ctx).unwrap_err();
    assert_eq!(err.message(), "View definition is not a SELECT query");
}

#[test]
fn semicolon_only_view_body_is_rejected() {
    let context = "{\"views\":{\"empty_view\":\";\"}}";
    let ctx = set_rewrite_context(Some(context)).unwrap();
    let err = rewrite_sql("SELECT * FROM empty_view", None, &ctx).unwrap_err();
    assert_eq!(err.message(), "View definition produced an empty query");
}

#[test]
fn blank_view_bodies_are_dropped_from_the_catalogue() {
    let context = "{\"views\":{\"blank_view\":\"   \"}}";
    let ctx = set_rewrite_context(Some(context)).unwrap();
    let output = rewrite_sql("SELECT * FROM blank_view", None, &ctx).unwrap();
    assert_eq!(output.sql, "SELECT * FROM blank_view");
    assert!(output.expanded_sql.is_none());
}

#[test]
fn view_names_match_case_insensitively() {
    let context = "{\"views\":{\"Example_View\":\"SELECT 42 AS value\"}}";
    let ctx = set_rewrite_context(Some(context)).unwrap();
    let output = rewrite_sql("SELECT * FROM EXAMPLE_VIEW", None, &ctx).unwrap();
    let expanded = output.expanded_sql.expect("expected the expansion view");
    assert!(expanded.contains("42 AS value"));
}

#[test]
fn transaction_branch_always_present() {
    let context = "{\"tableCache\":[]}";
    let ctx = set_rewrite_context(Some(context)).unwrap();
    let input = "SELECT * FROM internal_state_reader WHERE schema_key = 'k'";
    let output = rewrite_sql(input, None, &ctx).unwrap();
    assert!(output.sql.contains("internal_transaction_state"));
    assert!(output.sql.contains("lix_encode_pk_part"));
    assert!(output.sql.contains("internal_state_writer"));
}

#[test]
fn per_call_context_leaves_cached_context_alone() {
    let cached = set_rewrite_context(Some("{\"tableCache\":[]}")).unwrap();
    let per_call = "{\"tableCache\":[\"internal_state_cache_mock_schema\"]}";
    let input = "SELECT * FROM internal_state_reader WHERE schema_key = 'mock_schema'";
    let with_per_call = rewrite_sql(input, Some(per_call), &cached).unwrap();
    assert!(with_per_call.sql.contains("internal_state_cache_mock_schema"));
    let with_cached = rewrite_sql(input, None, &cached).unwrap();
    assert!(!with_cached.sql.contains("internal_state_cache_mock_schema"));
}

#[test]
fn placeholders_resolve_in_source_order() {
    let context = "{\"tableCache\":[\"internal_state_cache_mock_schema\"],\"parameters\":[\"junk\",\"mock_schema\"]}";
    let ctx = set_rewrite_context(Some(context)).unwrap();
    let input = "SELECT * FROM internal_state_reader WHERE entity_id = ? AND schema_key = ?";
    let output = rewrite_sql(input, None, &ctx).unwrap();
    let hints = output.cache_hints.expect("expected cache hints");
    let reader = hints
        .internal_state_reader()
        .expect("expected internal_state_reader hints");
    assert_eq!(reader.schema_keys().as_slice(), ["mock_schema"]);
}

#[test]
fn rewrites_reader_inside_with_clause() {
    let context = "{\"tableCache\":[]}";
    let ctx = set_rewrite_context(Some(context)).unwrap();
    let input = "WITH c AS (SELECT * FROM internal_state_reader WHERE schema_key = 'k') SELECT * FROM c";
    let output = rewrite_sql(input, None, &ctx).unwrap();
    assert!(output.sql.contains("internal_state_all_untracked"));
    let hints = output.cache_hints.expect("expected cache hints");
    let reader = hints
        .internal_state_reader()
        .expect("expected internal_state_reader hints");
    assert_eq!(reader.schema_keys().as_slice(), ["k"]);
}

#[test]
fn rewrites_reader_inside_union_arm() {
    let context = "{\"tableCache\":[]}";
    let ctx = set_rewrite_context(Some(context)).unwrap();
    let input = "SELECT 1 UNION ALL SELECT entity_id FROM internal_state_reader WHERE schema_key = 'k'";
    let output = rewrite_sql(input, None, &ctx).unwrap();
    assert!(output.sql.contains("internal_state_all_untracked"));
}

#[test]
fn qualified_names_are_not_the_reader() {
    let ctx = set_rewrite_context(None).unwrap();
    let input = "SELECT * FROM other.internal_state_reader WHERE schema_key = 'k'";
    let output = rewrite_sql(input, None, &ctx).unwrap();
    assert_eq!(output.sql, input);
    assert!(output.cache_hints.is_none());
}

#[test]
fn non_query_statements_pass_through() {
    let ctx = set_rewrite_context(None).unwrap();
    let input = "UPDATE t SET x = 1";
    let output = rewrite_sql(input, None, &ctx).unwrap();
    assert_eq!(output.sql, input);
    assert!(output.cache_hints.is_none());
}

#[test]
fn mixed_scripts_keep_untouched_statements() {
    let context = "{\"tableCache\":[]}";
    let ctx = set_rewrite_context(Some(context)).unwrap();
    let input = "SELECT * FROM internal_state_reader WHERE schema_key = 'k'; UPDATE t SET x = 1";
    let output = rewrite_sql(input, None, &ctx).unwrap();
    assert!(output.sql.contains("internal_state_all_untracked"));
    assert!(output.sql.contains("UPDATE t SET x = 1"));
}

#[test]
fn access_control_statements_pass_through() {
    let ctx = set_rewrite_context(None).unwrap();
    let input = "GRANT SELECT ON t TO u";
    let output = rewrite_sql(input, None, &ctx).unwrap();
    assert_eq!(output.sql, input);
    assert!(output.expanded_sql.is_none());
    assert!(output.cache_hints.is_none());
}

#[test]
fn malformed_granted_by_is_a_parse_error() {
    let ctx = set_rewrite_context(None).unwrap();
    let err = rewrite_sql("GRANT ALL ON t TO u GRANTED BY 1", None, &ctx).unwrap_err();
    assert!(err.message().starts_with("SQL parse error:"));
    let err = rewrite_sql("REVOKE ALL ON t FROM u GRANTED BY 1", None, &ctx).unwrap_err();
    assert!(err.message().starts_with("SQL parse error:"));
    let err = rewrite_sql("EXPLAIN GRANT ALL ON t TO u GRANTED BY 1", None, &ctx).unwrap_err();
    assert!(err.message().starts_with("SQL parse error:"));
}

#[test]
fn bare_grant_is_a_parse_error() {
    let ctx = set_rewrite_context(None).unwrap();
    let err = rewrite_sql("GRANT", None, &ctx).unwrap_err();
    assert!(err.message().starts_with("SQL parse error:"));
}

#[test]
fn scripts_mixing_reader_and_grant_still_route() {
    let context = "{\"tableCache\":[]}";
    let ctx = set_rewrite_context(Some(context)).unwrap();
    let input = "SELECT * FROM internal_state_reader WHERE schema_key = 'k'; GRANT SELECT ON t TO u";
    let output = rewrite_sql(input, None, &ctx).unwrap();
    assert!(output.sql.contains("internal_state_all_untracked"));
    assert!(output.sql.contains("GRANT SELECT ON t TO u"));
    let hints = output.cache_hints.expect("expected cache hints");
    let reader = hints
        .internal_state_reader()
        .expect("expected internal_state_reader hints");
    assert_eq!(reader.schema_keys().as_slice(), ["k"]);
}

#[test]
fn oversized_select_top_is_a_parse_error() {
    let ctx = set_rewrite_context(None).unwrap();
    let err = rewrite_sql("SELECT TOP 99999999999999999999 FROM t", None, &ctx).unwrap_err();
    assert!(err.message().starts_with("SQL parse error:"));
    let ok = rewrite_sql("SELECT TOP 5 x FROM t", None, &ctx).unwrap();
    assert_eq!(ok.sql, "SELECT TOP 5 x FROM t");
}

#[test]
fn oversized_auto_increment_is_a_parse_error() {
    let ctx = set_rewrite_context(None).unwrap();
    let input = "CREATE TABLE t (x INT) AUTO_INCREMENT 4294967296";
    let err = rewrite_sql(input, None, &ctx).unwrap_err();
    assert!(err.message().starts_with("SQL parse error:"));
    let eq_form = "CREATE TABLE t (x INT) AUTO_INCREMENT = 99999999999";
    let err = rewrite_sql(eq_form, None, &ctx).unwrap_err();
    assert!(err.message().starts_with("SQL parse error:"));
    let ok = rewrite_sql("CREATE TABLE t (x INT) AUTO_INCREMENT 7", None, &ctx).unwrap();
    assert!(ok.sql.contains("AUTO_INCREMENT"));
}

#[test]
fn grant_inside_literals_does_not_screen() {
    let context = "{\"tableCache\":[]}";
    let ctx = set_rewrite_context(Some(context)).unwrap();
    let input = "SELECT * FROM internal_state_reader WHERE schema_key = 'grant'";
    let output = rewrite_sql(input, None, &ctx).unwrap();
    assert!(output.sql.contains("internal_state_all_untracked"));
    let hints = output.cache_hints.expect("expected cache hints");
    let reader = hints
        .internal_state_reader()
        .expect("expected internal_state_reader hints");
    assert_eq!(reader.schema_keys().as_slice(), ["grant"]);
}

#[test]
fn grant_view_body_is_not_a_select() {
    let context = "{\"views\":{\"grant_view\":\"GRANT SELECT ON t TO u\"}}";
    let ctx = set_rewrite_context(Some(context)).unwrap();
    let err = rewrite_sql("SELECT * FROM grant_view", None, &ctx).unwrap_err();
    assert_eq!(err.message(), "View definition is not a SELECT query");
}

#[test]
fn malformed_granted_by_view_body_is_a_parse_error() {
    let context = "{\"views\":{\"grant_view\":\"GRANT ALL ON t TO u GRANTED BY 1\"}}";
    let ctx = set_rewrite_context(Some(context)).unwrap();
    let err = rewrite_sql("SELECT * FROM grant_view", None, &ctx).unwrap_err();
    assert!(err.message().starts_with("Failed to parse view query:"));
}

#[test]
fn between_bounds_only_drain_placeholders() {
    let context = "{\"tableCache\":[],\"parameters\":[1,2,\"mock_schema\"]}";
    let ctx = set_rewrite_context(Some(context)).unwrap();
    let input = "SELECT * FROM internal_state_reader WHERE entity_id BETWEEN ? AND ? AND schema_key = ?";
    let output = rewrite_sql(input, None, &ctx).unwrap();
    let hints = output.cache_hints.expect("expected cache hints");
    let reader = hints
        .internal_state_reader()
        .expect("expected internal_state_reader hints");
    assert_eq!(reader.schema_keys().as_slice(), ["mock_schema"]);
}

#[test]
fn quoted_shard_names_escape_their_quotes() {
    let context = "{\"tableCache\":[\"odd\\\"shard\"]}";
    let ctx = set_rewrite_context(Some(context)).unwrap();
    let input = "SELECT * FROM internal_state_reader";
    let output = rewrite_sql(input, None, &ctx).unwrap();
    assert!(output.sql.contains("\"odd\"\"shard\""));
    let again = rewrite_sql(&output.sql, None, &ctx).unwrap();
    assert_eq!(again.sql, output.sql);
}
