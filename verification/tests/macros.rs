use gcpx::macros::{expand_macros, substitute_args, MacroDef};
use gcpx::strmap::StrMap;


#[test]
fn expand_single_macro() {
    let mut macros = StrMap::new();
    macros.insert("sk",
        MacroDef {
            args: vec!["cols".to_owned()],
            sql: "TO_HEX(MD5(CONCAT({{ cols }})))".to_owned(),
        },
    );

    let sql = "SELECT {{ sk('id, email') }} FROM t";
    let result = expand_macros(sql, &macros).unwrap();
    assert_eq!(result, "SELECT TO_HEX(MD5(CONCAT(id, email))) FROM t");
}

#[test]
fn expand_nested_macros() {
    let mut macros = StrMap::new();
    macros.insert("inner",
        MacroDef {
            args: vec!["x".to_owned()],
            sql: "LOWER({{ x }})".to_owned(),
        },
    );
    macros.insert("outer",
        MacroDef {
            args: vec!["col".to_owned()],
            sql: "{{ inner('{{ col }}') }}".to_owned(),
        },
    );

    // Note: nested macros resolve iteratively.
    let sql = "SELECT {{ outer('name') }}";
    let result = expand_macros(sql, &macros).unwrap();
    assert!(result.contains("LOWER(name)"));
}

#[test]
fn expand_unknown_macro_preserved() {
    let macros = StrMap::new();
    let sql = "SELECT {{ unknown('x') }}";
    let result = expand_macros(sql, &macros).unwrap();
    assert!(result.contains("unknown"));
}

#[test]
fn expand_arg_count_mismatch() {
    let mut macros = StrMap::new();
    macros.insert("sk",
        MacroDef {
            args: vec!["a".to_owned(), "b".to_owned()],
            sql: "{{ a }} {{ b }}".to_owned(),
        },
    );

    let result = expand_macros("{{ sk('x') }}", &macros);
    assert!(result.is_err());
}

#[test]
fn expand_no_macros() {
    let macros = StrMap::new();
    let sql = "SELECT * FROM {{ ref('t') }}";
    let result = expand_macros(sql, &macros).unwrap();
    assert_eq!(result, "SELECT * FROM {{ ref('t') }}");
}

#[test]
fn expand_empty_args() {
    let mut macros = StrMap::new();
    macros.insert("now",
        MacroDef {
            args: vec![],
            sql: "CURRENT_TIMESTAMP()".to_owned(),
        },
    );

    let sql = "SELECT {{ now() }}";
    let result = expand_macros(sql, &macros).unwrap();
    assert_eq!(result, "SELECT CURRENT_TIMESTAMP()");
}

// --- Additional scenarios ---

#[test]
fn expand_multiple_macros_in_one_sql() {
    let mut macros = StrMap::new();
    macros.insert("upper",
        MacroDef {
            args: vec!["x".to_owned()],
            sql: "UPPER({{ x }})".to_owned(),
        },
    );
    macros.insert("lower",
        MacroDef {
            args: vec!["x".to_owned()],
            sql: "LOWER({{ x }})".to_owned(),
        },
    );

    let sql = "SELECT {{ upper('name') }}, {{ lower('email') }}";
    let result = expand_macros(sql, &macros).unwrap();
    assert!(result.contains("UPPER(name)"));
    assert!(result.contains("LOWER(email)"));
}

#[test]
fn expand_macro_with_multiple_args() {
    let mut macros = StrMap::new();
    macros.insert("concat",
        MacroDef {
            args: vec!["a".to_owned(), "b".to_owned()],
            sql: "CONCAT({{ a }}, {{ b }})".to_owned(),
        },
    );

    let sql = "SELECT {{ concat('first', 'last') }}";
    let result = expand_macros(sql, &macros).unwrap();
    assert_eq!(result, "SELECT CONCAT(first, last)");
}

#[test]
fn expand_macro_preserves_config_and_ref() {
    let mut macros = StrMap::new();
    macros.insert("sk",
        MacroDef {
            args: vec!["x".to_owned()],
            sql: "MD5({{ x }})".to_owned(),
        },
    );

    let sql = "{{ config(materialized='table') }} SELECT {{ sk('id') }} FROM {{ ref('t') }} JOIN {{ source('raw', 'orders') }}";
    let result = expand_macros(sql, &macros).unwrap();
    assert!(result.contains("config(materialized='table')"));
    assert!(result.contains("ref('t')"));
    assert!(result.contains("source('raw', 'orders')"));
    assert!(result.contains("MD5(id)"));
}

#[test]
fn expand_recursion_limit() {
    let mut macros = StrMap::new();
    macros.insert("self_ref",
        MacroDef {
            args: vec![],
            sql: "{{ self_ref() }}".to_owned(),
        },
    );

    let sql = "SELECT {{ self_ref() }}";
    let result = expand_macros(sql, &macros);
    assert!(result.is_err());
    let err = result.unwrap_err();
    assert!(err.to_string().contains("recursion"));
}

#[test]
fn substitute_args_both_formats() {
    let result = substitute_args("SELECT {{ x }}, {{x}}", &["x".to_owned()], &["42"]);
    assert_eq!(result, "SELECT 42, 42");
}







#[test]
fn an_unrecognised_template_does_not_form_a_new_call() {
    let mut macros = StrMap::new();
    macros.insert("sk", MacroDef { args: vec![], sql: "X".to_owned() });
    let sql = "{{ { }}{ sk() }}";
    assert_eq!(expand_macros(sql, &macros).unwrap(), sql);
}
