use gcpx::preprocess::{expand_builtins, expand_vars, handle_incremental_blocks, preprocess, replace_this, restore_raw_regions};
use gcpx::strmap::StrMap;


/// A raw block means "not a template". Previously the markers were shipped
/// to BigQuery and the tags inside them were expanded anyway.
#[test]
fn raw_regions_survive_untouched_and_lose_their_markers() {
    let sql =
        "{% raw %}SELECT {{ ref('x') }} {% if is_incremental() %}W{% endif %}{% endraw %}";
    let out = preprocess(sql, &StrMap::new(), "`p.d.t`", false).unwrap();
    let restored = restore_raw_regions(&out);
    assert_eq!(
        restored, "SELECT {{ ref('x') }} {% if is_incremental() %}W{% endif %}",
        "raw contents must come back exactly as written, without markers"
    );
}

#[test]
fn templates_outside_a_raw_region_are_still_rendered() {
    // The point of protecting regions rather than whole files: the rest of
    // the model still behaves like a model.
    let sql = "SELECT 1 {% if is_incremental() %}WHERE live{% endif %} \
               AND note = '{% raw %}{{ not_a_ref }}{% endraw %}'";
    let rendered =
        restore_raw_regions(&preprocess(sql, &StrMap::new(), "`p.d.t`", true).unwrap());
    assert!(rendered.contains("WHERE live"), "{rendered}");
    assert!(rendered.contains("{{ not_a_ref }}"), "{rendered}");
    assert!(!rendered.contains("{% raw"), "{rendered}");
}

#[test]
fn a_variable_inside_a_raw_region_is_not_substituted() {
    let mut vars: StrMap<String> = StrMap::new();
    vars.insert("d", "'2026-01-01'".to_owned());
    let out = restore_raw_regions(
        &preprocess("{% raw %}{{ var('d') }}{% endraw %}", &vars, "`t`", false).unwrap(),
    );
    assert_eq!(out, "{{ var('d') }}");
}

#[test]
fn an_unknown_variable_inside_a_raw_region_is_not_an_error() {
    // Outside a raw region this is a hard error naming the variable; inside
    // one it is just text.
    let out = preprocess(
        "{% raw %}{{ var('nope') }}{% endraw %}",
        &StrMap::new(),
        "`t`",
        false,
    );
    assert!(
        out.is_ok(),
        "raw contents must not be validated as templates"
    );
}

#[test]
fn multiple_raw_regions_are_each_preserved() {
    let sql = "{% raw %}{{ a }}{% endraw %} middle {% raw %}{{ b }}{% endraw %}";
    let out = restore_raw_regions(&preprocess(sql, &StrMap::new(), "`t`", false).unwrap());
    assert_eq!(out, "{{ a }} middle {{ b }}");
}

#[test]
fn raw_tags_tolerate_whitespace_and_trim_markers() {
    for (open, close) in [
        ("{% raw %}", "{% endraw %}"),
        ("{%raw%}", "{%endraw%}"),
        ("{%- raw -%}", "{%- endraw -%}"),
        ("{%  raw  %}", "{%  endraw  %}"),
    ] {
        let sql = format!("{open}{{{{ x }}}}{close}");
        let out =
            restore_raw_regions(&preprocess(&sql, &StrMap::new(), "`t`", false).unwrap());
        assert_eq!(out, "{{ x }}", "for {open}");
    }
}

#[test]
fn an_unclosed_raw_block_keeps_the_users_sql() {
    let sql = "SELECT 1 {% raw %} trailing";
    let out = preprocess(sql, &StrMap::new(), "`t`", false).unwrap();
    assert!(out.contains("trailing"), "dropped user SQL: {out}");
}

#[test]
fn nul_bytes_are_rejected_rather_than_trusted() {
    // The sentinel is NUL-delimited, so input containing one could otherwise
    // forge a region.
    let err = preprocess("SELECT '\u{0}RAW:aGk\u{0}'", &StrMap::new(), "`t`", false)
        .expect_err("NUL should be rejected");
    assert!(err.to_string().contains("NUL"), "{}", err.to_string());
}

#[test]
fn sql_without_raw_regions_is_unaffected() {
    let sql = "SELECT a FROM `p.d.t` WHERE b = 'x'";
    assert_eq!(
        preprocess(sql, &StrMap::new(), "`t`", false).unwrap(),
        sql
    );
}

/// B6: the matcher accepted exactly one spelling, so every other formatting
/// leaked Jinja into the emitted SQL and BigQuery rejected it with a syntax
/// error that pointed at the wrong thing.
#[test]
fn regression_b6_incremental_tag_tolerates_whitespace_variants() {
    for open_tag in [
        "{% if is_incremental() %}",
        "{%if is_incremental()%}",
        "{%  if   is_incremental()  %}",
        "{%- if is_incremental() -%}",
        "{% if is_incremental( ) %}",
        "{% IF is_incremental() %}",
    ] {
        let sql = format!("SELECT 1 {open_tag} WHERE ts > x {{% endif %}}");
        let dropped = handle_incremental_blocks(&sql, false);
        assert!(
            !dropped.contains("{%") && !dropped.contains("WHERE"),
            "variant {open_tag:?} was not recognised: {dropped}"
        );
        let kept = handle_incremental_blocks(&sql, true);
        assert!(
            !kept.contains("{%") && kept.contains("WHERE"),
            "variant {open_tag:?} did not retain its body: {kept}"
        );
    }
}

#[test]
fn regression_b6_endif_tolerates_whitespace_variants() {
    for close_tag in ["{% endif %}", "{%endif%}", "{%  endif  %}", "{%- endif -%}"] {
        let sql = format!("A {{% if is_incremental() %}}B{close_tag} C");
        let out = handle_incremental_blocks(&sql, false);
        assert!(
            !out.contains("{%"),
            "close {close_tag:?} unrecognised: {out}"
        );
        assert!(out.contains('A') && out.contains('C') && !out.contains('B'));
    }
}

#[test]
fn degenerate_tag_delimiters_do_not_panic() {
    // `{%}` lets a naive search find the closer overlapping the opener,
    // producing an inverted slice range. Found by the never-panics property.
    for sql in ["{%}", "{%", "%}", "{%}{%}", "{% if is_incremental() {%}"] {
        let _ = handle_incremental_blocks(sql, true);
        let _ = handle_incremental_blocks(sql, false);
    }
}

#[test]
fn unrelated_jinja_tags_are_left_alone() {
    // Only the incremental construct is handled here; anything else must
    // survive for a later stage to deal with.
    let sql = "{% set x = 1 %} SELECT {{ x }}";
    assert_eq!(handle_incremental_blocks(sql, false), sql);
}

#[test]
fn unclosed_block_preserves_user_sql() {
    // Discarding the rest of the query would silently change its meaning.
    let sql = "SELECT 1 {% if is_incremental() %} WHERE ts > x";
    let out = handle_incremental_blocks(sql, false);
    assert!(out.contains("WHERE ts > x"), "dropped user SQL: {out}");
}

// ── var expansion ────────────────────────────────────────────────

#[test]
fn expand_vars_simple() {
    let mut vars = StrMap::new();
    vars.insert("days", "90".to_owned());
    let result = expand_vars("INTERVAL var('days') DAY", &vars).unwrap();
    assert_eq!(result, "INTERVAL 90 DAY");
}

#[test]
fn expand_vars_double_quoted() {
    let mut vars = StrMap::new();
    vars.insert("min_orders", "2".to_owned());
    let result = expand_vars("WHERE orders >= var(\"min_orders\")", &vars).unwrap();
    assert_eq!(result, "WHERE orders >= 2");
}

#[test]
fn expand_vars_multiple() {
    let mut vars = StrMap::new();
    vars.insert("a", "10".to_owned());
    vars.insert("b", "20".to_owned());
    let result = expand_vars("var('a') + var('b')", &vars).unwrap();
    assert_eq!(result, "10 + 20");
}

#[test]
fn expand_vars_unknown_error() {
    let vars = StrMap::new();
    let result = expand_vars("var('missing')", &vars);
    assert!(result.is_err());
    let err = result.unwrap_err().to_string();
    assert!(err.contains("unknown variable 'missing'"));
}

#[test]
fn expand_vars_empty_passthrough() {
    let vars = StrMap::new();
    let result = expand_vars("SELECT 1", &vars).unwrap();
    assert_eq!(result, "SELECT 1");
}

// ── is_incremental blocks ────────────────────────────────────────

#[test]
fn handle_incremental_true() {
    let sql = "SELECT * FROM t {% if is_incremental() %}WHERE updated > max{% endif %}";
    let result = handle_incremental_blocks(sql, true);
    assert_eq!(result, "SELECT * FROM t WHERE updated > max");
}

#[test]
fn handle_incremental_false() {
    let sql = "SELECT * FROM t {% if is_incremental() %}WHERE updated > max{% endif %}";
    let result = handle_incremental_blocks(sql, false);
    assert_eq!(result, "SELECT * FROM t ");
}

#[test]
fn handle_incremental_no_block() {
    let sql = "SELECT * FROM t";
    let result = handle_incremental_blocks(sql, true);
    assert_eq!(result, "SELECT * FROM t");
}

#[test]
fn handle_incremental_unclosed() {
    let sql = "SELECT * {% if is_incremental() %}WHERE x";
    let result = handle_incremental_blocks(sql, true);
    assert_eq!(result, "SELECT * {% if is_incremental() %}WHERE x");
}

// ── {{ this }} replacement ───────────────────────────────────────

#[test]
fn this_replacement() {
    let sql = "SELECT MAX(ts) FROM {{ this }}";
    let result = replace_this(sql, "`p.d.t`");
    assert_eq!(result, "SELECT MAX(ts) FROM `p.d.t`");
}

#[test]
fn this_replacement_tight() {
    let sql = "SELECT MAX(ts) FROM {{this}}";
    let result = replace_this(sql, "`p.d.t`");
    assert_eq!(result, "SELECT MAX(ts) FROM `p.d.t`");
}

// ── dbt_utils builtins ──────────────────────────────────────────

#[test]
fn dbt_utils_current_timestamp() {
    let result = expand_builtins("dbt_utils.current_timestamp()");
    assert_eq!(result, "CURRENT_TIMESTAMP()");
}

#[test]
fn dbt_utils_datediff() {
    let result = expand_builtins("dbt_utils.datediff('a', 'b', 'day')");
    assert_eq!(result, "TIMESTAMP_DIFF('b', 'a', DAY)");
}

#[test]
fn dbt_utils_datediff_expressions() {
    let result = expand_builtins(
        "dbt_utils.datediff('c.created_at', dbt_utils.current_timestamp(), 'day')",
    );
    assert_eq!(
        result,
        "TIMESTAMP_DIFF(CURRENT_TIMESTAMP(), 'c.created_at', DAY)"
    );
}

#[test]
fn dbt_utils_dateadd() {
    let result = expand_builtins("dbt_utils.dateadd('day', -90, expr)");
    assert_eq!(result, "TIMESTAMP_ADD(expr, INTERVAL -90 DAY)");
}

#[test]
fn dbt_utils_generate_surrogate_key_single() {
    let result = expand_builtins("dbt_utils.generate_surrogate_key(['c.customer_id'])");
    assert_eq!(
        result,
        "TO_HEX(MD5(COALESCE(CAST(c.customer_id AS STRING), '_dbt_utils_surrogate_key_null_')))"
    );
}

#[test]
fn dbt_utils_generate_surrogate_key_multi() {
    let result = expand_builtins("dbt_utils.generate_surrogate_key(['id', 'email'])");
    assert!(result.starts_with("TO_HEX(MD5(CONCAT("));
    assert!(result.contains("CAST(id AS STRING)"));
    assert!(result.contains("CAST(email AS STRING)"));
}

#[test]
fn dbt_utils_listagg() {
    let result = expand_builtins("dbt_utils.listagg(name, ', ', created_at)");
    assert_eq!(result, "STRING_AGG(name, ', ' ORDER BY created_at)");
}

#[test]
fn dbt_utils_listagg_no_order() {
    let result = expand_builtins("dbt_utils.listagg(name, ', ')");
    assert_eq!(result, "STRING_AGG(name, ', ')");
}

#[test]
fn nested_builtins() {
    let result = expand_builtins(
        "dbt_utils.datediff('c.created_at', dbt_utils.current_timestamp(), 'day')",
    );
    assert!(result.contains("CURRENT_TIMESTAMP()"));
    assert!(result.contains("TIMESTAMP_DIFF"));
}

#[test]
fn builtin_in_larger_sql() {
    let sql = "SELECT id, dbt_utils.current_timestamp() AS ts, dbt_utils.datediff('a', 'b', 'day') AS diff FROM t";
    let result = expand_builtins(sql);
    assert!(result.contains("CURRENT_TIMESTAMP()"));
    assert!(result.contains("TIMESTAMP_DIFF"));
    assert!(result.contains("FROM t"));
}

// ── Full pipeline ────────────────────────────────────────────────

#[test]
fn full_preprocess_pipeline() {
    let mut vars = StrMap::new();
    vars.insert("days", "90".to_owned());

    let sql = "SELECT * FROM t \
                {% if is_incremental() %}WHERE ts > (SELECT MAX(ts) FROM {{ this }}){% endif %}";

    // is_incremental = true
    let result = preprocess(sql, &vars, "`p.d.t`", true).unwrap();
    assert!(result.contains("`p.d.t`"));
    assert!(result.contains("WHERE ts >"));

    // is_incremental = false
    let result = preprocess(sql, &vars, "`p.d.t`", false).unwrap();
    assert!(!result.contains("WHERE ts >"));
}

#[test]
fn raw_regions_are_carried_as_base64() {
    let out = gcpx::preprocess::protect_raw_regions("A{% raw %}hi{% endraw %}B").unwrap();
    assert_eq!(out, "A\u{0}RAW:aGk\u{0}B");
    assert_eq!(restore_raw_regions(&out), "AhiB");
}
