//! Macro expansion: `{{ name(args) }}` calls of user-defined macros are
//! replaced by the macro's SQL with its parameters substituted, repeatedly,
//! until nothing is left to expand or the bound on passes is reached.
use vstd::prelude::*;

use crate::scanner::{segments_of, DbtScanner, DbtSegment, SpecSegment};
use crate::strmap::{lookup, StrMap};
use crate::text::{
    chars_of, find_char, find_from, lemma_find_from_facts, lemma_trim_by_len, replace_all,
    replace_text, trim, trim_bounds, trim_start_by, trim_start_index, trim_ws, u64_to_text, decimal, TrimSet,
};

verus! {

/// A user-defined macro: its parameter names and its SQL body.
#[derive(Clone)]
pub struct MacroDef {
    pub args: Vec<String>,
    pub sql: String,
}

impl MacroDef {
    pub open spec fn params(&self) -> Seq<Seq<char>> {
        self.args@.map_values(|a: String| a@)
    }
}

/// Errors of macro expansion.
#[derive(Debug)]
pub enum MacroError {
    Unknown(String),
    ArgCount { name: String, expected: usize, got: usize },
    RecursionLimit(usize),
    InputTooLarge(usize, usize),
}

/// The largest input, in bytes, that expansion accepts or produces.
pub const MAX_INPUT_SIZE: usize = 1048576;

/// The number of expansion passes before expansion is declared divergent.
pub const MAX_ITERATIONS: usize = 10;

impl MacroError {
    pub open spec fn message(&self) -> Seq<char> {
        match self {
            MacroError::Unknown(n) => "unknown macro '"@ + n@ + "'"@,
            MacroError::ArgCount { name, expected, got } => "macro '"@ + name@ + "' expects "@
                + decimal(*expected as nat) + " args, got "@ + decimal(*got as nat),
            MacroError::RecursionLimit(n) => "macro expansion did not converge after "@ + decimal(
                *n as nat,
            ) + " iterations (possible recursion)"@,
            MacroError::InputTooLarge(a, b) => "input too large ("@ + decimal(*a as nat)
                + " bytes, max "@ + decimal(*b as nat) + ")"@,
        }
    }

    /// The error's message.
    pub fn to_string(&self) -> (r: String)
        ensures
            r@ == self.message(),
    {
        let mut r = String::new();
        match self {
            MacroError::Unknown(n) => {
                r.append("unknown macro '");
                r.append(n.as_str());
                r.append("'");
            },
            MacroError::ArgCount { name, expected, got } => {
                r.append("macro '");
                r.append(name.as_str());
                r.append("' expects ");
                r.append(u64_to_text(*expected as u64).as_str());
                r.append(" args, got ");
                r.append(u64_to_text(*got as u64).as_str());
            },
            MacroError::RecursionLimit(n) => {
                r.append("macro expansion did not converge after ");
                r.append(u64_to_text(*n as u64).as_str());
                r.append(" iterations (possible recursion)");
            },
            MacroError::InputTooLarge(a, b) => {
                r.append("input too large (");
                r.append(u64_to_text(*a as u64).as_str());
                r.append(" bytes, max ");
                r.append(u64_to_text(*b as u64).as_str());
                r.append(")");
            },
        }
        r
    }
}

// ───────────────────────── call arguments ─────────────────────────

/// The arguments of a call, from `r` on: each either single-quoted (taken
/// without its quotes; the commas after it are skipped) or running to the
/// next comma (trimmed). An unclosed quote takes the rest as it is.
pub open spec fn args_from(r: Seq<char>) -> Seq<Seq<char>>
    decreases r.len(),
{
    if r.len() == 0 {
        Seq::empty()
    } else {
        let u = trim(r);
        proof {
            lemma_trim_by_len(r, TrimSet::Whitespace);
        }
        if u.len() > 0 && u[0] == '\'' {
            match find_from(u, seq!['\''], 1) {
                Some(e) => {
                    proof {
                        lemma_find_from_facts(u, seq!['\''], 1);
                        lemma_trim_by_len(u.subrange(e + 1, u.len() as int), TrimSet::Char(','));
                        lemma_trim_by_len(
                            trim_start_by(u.subrange(e + 1, u.len() as int), TrimSet::Char(',')),
                            TrimSet::Whitespace,
                        );
                    }
                    seq![u.subrange(1, e)] + args_from(
                        trim(trim_start_by(u.subrange(e + 1, u.len() as int), TrimSet::Char(','))),
                    )
                },
                None => seq![u],
            }
        } else {
            match find_from(u, seq![','], 0) {
                Some(c) => {
                    proof {
                        lemma_find_from_facts(u, seq![','], 0);
                    }
                    seq![trim(u.subrange(0, c))] + args_from(u.subrange(c + 1, u.len() as int))
                },
                None => seq![trim(u)],
            }
        }
    }
}

/// The arguments of a call `name(raw)`: none when blank, a list when the
/// first argument is quoted, and otherwise the whole text as one argument.
pub open spec fn call_args(raw: Seq<char>) -> Seq<Seq<char>> {
    let t = trim(raw);
    if t.len() == 0 {
        Seq::empty()
    } else if t[0] == '\'' {
        args_from(t)
    } else {
        seq![t]
    }
}

/// Splits the arguments of a call, borrowing from `raw_args`.
pub fn parse_call_args<'a>(raw_args: &'a str) -> (r: Vec<&'a str>)
    ensures
        r@.map_values(|x: &'a str| x@) == call_args(raw_args@),
{
    let s = chars_of(raw_args);
    let (t0, t1) = trim_ws(&s, 0, s.len());
    assert(s@.subrange(0, s@.len() as int) =~= raw_args@);
    let mut args: Vec<&'a str> = Vec::new();
    if t0 == t1 {
        return args;
    }
    let ghost t = s@.subrange(t0 as int, t1 as int);
    assert(t[0] == s@[t0 as int]);
    if s[t0] != '\'' {
        args.push(raw_args.substring_char(t0, t1));
        assert(args@.map_values(|x: &'a str| x@) =~= seq![t]);
        return args;
    }
    let mut lo = t0;
    let mut hi = t1;
    assert(call_args(raw_args@) == args_from(t));
    assert(args@.map_values(|x: &'a str| x@) =~= Seq::<Seq<char>>::empty());
    loop
        invariant
            t0 <= lo <= hi <= s.len(),
            call_args(raw_args@) == args_from(t),
            s@ == raw_args@,
            args@.map_values(|x: &'a str| x@) + args_from(s@.subrange(lo as int, hi as int))
                == args_from(t),
        decreases hi - lo,
    {
        let ghost before = args@.map_values(|x: &'a str| x@);
        let ghost r = s@.subrange(lo as int, hi as int);
        if lo == hi {
            assert(before + args_from(r) =~= before);
            return args;
        }
        let (u0, u1) = trim_ws(&s, lo, hi);
        let ghost u = s@.subrange(u0 as int, u1 as int);
        if u0 < u1 && s[u0] == '\'' {
            assert(u[0] == s@[u0 as int]);
            let uv = copy(&s, u0, u1);
            proof {
                lemma_find_from_facts(uv@, seq!['\''], 1);
            }
            match find_char(&uv, '\'', 1) {
                Some(e) => {
                    args.push(raw_args.substring_char(u0 + 1, u0 + e));
                    assert(u.subrange(1, e as int) =~= s@.subrange(u0 + 1, u0 + e));
                    let c0 = trim_start_index(&s, u0 + e + 1, u1, TrimSet::Char(','));
                    assert(u.subrange(e + 1, u.len() as int) =~= s@.subrange(u0 + e + 1, u1 as int));
                    let (w0, w1) = trim_ws(&s, c0, u1);
                    proof {
                        let rest = args_from(s@.subrange(w0 as int, w1 as int));
                        assert(args_from(r) == seq![u.subrange(1, e as int)] + rest);
                        assert(args@.map_values(|x: &'a str| x@) =~= before.push(u.subrange(1, e as int)));
                        assert(before.push(u.subrange(1, e as int)) + rest =~= before + (seq![
                            u.subrange(1, e as int),
                        ] + rest));
                    }
                    lo = w0;
                    hi = w1;
                },
                None => {
                    args.push(raw_args.substring_char(u0, u1));
                    proof {
                        assert(args_from(r) == seq![u]);
                        assert(args@.map_values(|x: &'a str| x@) =~= before + seq![u]);
                    }
                    return args;
                },
            }
        } else {
            proof {
                if u.len() > 0 {
                    assert(u[0] == s@[u0 as int]);
                }
            }
            let uv = copy(&s, u0, u1);
            proof {
                lemma_find_from_facts(uv@, seq![','], 0);
            }
            match find_char(&uv, ',', 0) {
                Some(c) => {
                    let (a, b) = trim_ws(&s, u0, u0 + c);
                    assert(u.subrange(0, c as int) =~= s@.subrange(u0 as int, u0 + c));
                    args.push(raw_args.substring_char(a, b));
                    proof {
                        let rest = args_from(s@.subrange(u0 + c + 1, u1 as int));
                        assert(u.subrange(c + 1, u.len() as int) =~= s@.subrange(u0 + c + 1, u1 as int));
                        assert(args@.map_values(|x: &'a str| x@) =~= before.push(trim(u.subrange(0, c as int))));
                        assert(before.push(trim(u.subrange(0, c as int))) + rest =~= before + (seq![
                            trim(u.subrange(0, c as int)),
                        ] + rest));
                    }
                    lo = u0 + c + 1;
                    hi = u1;
                },
                None => {
                    let (a, b) = trim_ws(&s, u0, u1);
                    args.push(raw_args.substring_char(a, b));
                    proof {
                        assert(args@.map_values(|x: &'a str| x@) =~= before + seq![trim(u)]);
                    }
                    return args;
                },
            }
        }
    }
}

fn copy(s: &Vec<char>, lo: usize, hi: usize) -> (r: Vec<char>)
    requires
        lo <= hi <= s.len(),
    ensures
        r@ == s@.subrange(lo as int, hi as int),
{
    let mut r: Vec<char> = Vec::new();
    let mut i = lo;
    while i < hi
        invariant
            lo <= i <= hi <= s.len(),
            r@ == s@.subrange(lo as int, i as int),
        decreases hi - i,
    {
        r.push(s[i]);
        assert(s@.subrange(lo as int, i + 1) =~= s@.subrange(lo as int, i as int).push(s@[i as int]));
        i += 1;
    }
    r
}

} // verus!

verus! {

// ───────────────────────── substitution ─────────────────────────

pub open spec fn placeholder_spaced(name: Seq<char>) -> Seq<char> {
    "{{ "@ + name + " }}"@
}

pub open spec fn placeholder_tight(name: Seq<char>) -> Seq<char> {
    "{{"@ + name + "}}"@
}

/// `sql` with, for each of the first `k` parameters in turn, `{{ name }}` and
/// then `{{name}}` replaced by its argument.
pub open spec fn substituted(sql: Seq<char>, names: Seq<Seq<char>>, values: Seq<Seq<char>>, k: nat) -> Seq<
    char,
>
    decreases k,
{
    if k == 0 {
        sql
    } else {
        let r = substituted(sql, names, values, (k - 1) as nat);
        replace_all(
            replace_all(r, placeholder_spaced(names[k - 1]), values[k - 1]),
            placeholder_tight(names[k - 1]),
            values[k - 1],
        )
    }
}

pub open spec fn min_len(a: nat, b: nat) -> nat {
    if a <= b {
        a
    } else {
        b
    }
}

/// Substitutes each argument for its parameter's placeholders, pairing
/// parameters and arguments in order.
pub fn substitute_args(sql: &str, param_names: &[String], arg_values: &[&str]) -> (r: String)
    ensures
        r@ == substituted(
            sql@,
            param_names@.map_values(|n: String| n@),
            arg_values@.map_values(|v: &str| v@),
            min_len(param_names@.len(), arg_values@.len()),
        ),
{
    let ghost names = param_names@.map_values(|n: String| n@);
    let ghost values = arg_values@.map_values(|v: &str| v@);
    let mut result = sql.to_owned();
    let mut k: usize = 0;
    while k < param_names.len() && k < arg_values.len()
        invariant
            k <= param_names@.len(),
            k <= arg_values@.len(),
            names == param_names@.map_values(|n: String| n@),
            values == arg_values@.map_values(|v: &str| v@),
            result@ == substituted(sql@, names, values, k as nat),
        decreases param_names.len() - k,
    {
        let name = param_names[k].as_str();
        let value = arg_values[k];
        let mut spaced = String::new();
        spaced.append("{{ ");
        spaced.append(name);
        spaced.append(" }}");
        let mut tight = String::new();
        tight.append("{{");
        tight.append(name);
        tight.append("}}");
        proof {
            reveal_strlit("{{ ");
            reveal_strlit("{{");
        }
        let sp = chars_of(spaced.as_str());
        let ti = chars_of(tight.as_str());
        let cur = chars_of(result.as_str());
        let step = replace_text(&cur, &sp, value);
        let cur2 = chars_of(step.as_str());
        result = replace_text(&cur2, &ti, value);
        k += 1;
    }
    result
}

// ───────────────────────── expansion ─────────────────────────

/// Why expansion stopped with an error.
pub enum MacroFailure {
    ArgCount { name: Seq<char>, expected: nat, got: nat },
    RecursionLimit,
    TooLarge(nat),
}

/// The text one segment renders to, and whether a macro was expanded in it.
/// Calls of unknown names, configs, refs and sources are written back in a
/// normalised form for a later stage.
pub open spec fn render_segment(seg: SpecSegment, macros: Seq<(Seq<char>, MacroDef)>) -> Result<
    (Seq<char>, bool),
    MacroFailure,
> {
    match seg {
        SpecSegment::Call { name, raw_args } => match lookup(macros, name) {
            Some(def) => {
                let args = call_args(raw_args);
                if args.len() != def.params().len() {
                    Err(MacroFailure::ArgCount { name, expected: def.params().len(), got: args.len() })
                } else {
                    Ok((substituted(def.sql@, def.params(), args, args.len()), true))
                }
            },
            None => Ok(("{{ "@ + name + "("@ + raw_args + ") }}"@, false)),
        },
        SpecSegment::Sql(s) => Ok((s, false)),
        SpecSegment::Config { raw_args } => Ok(("{{ config("@ + raw_args + ") }}"@, false)),
        SpecSegment::Ref { model } => Ok(("{{ ref('"@ + model + "') }}"@, false)),
        SpecSegment::Source { source, table } => Ok(
            ("{{ source('"@ + source + "', '"@ + table + "') }}"@, false),
        ),
    }
}

/// All segments rendered in order; the first error wins.
pub open spec fn render_all(segs: Seq<SpecSegment>, macros: Seq<(Seq<char>, MacroDef)>) -> Result<
    (Seq<char>, bool),
    MacroFailure,
>
    decreases segs.len(),
{
    if segs.len() == 0 {
        Ok((Seq::empty(), false))
    } else {
        match render_all(segs.drop_last(), macros) {
            Err(f) => Err(f),
            Ok((t, h)) => match render_segment(segs.last(), macros) {
                Err(f) => Err(f),
                Ok((u, h2)) => Ok((t + u, h || h2)),
            },
        }
    }
}

/// The size of text in UTF-8 bytes, as `str::len` reports it.
pub open spec fn byte_len(s: Seq<char>) -> usize {
    vstd::utf8::encode_utf8(s).len() as usize
}

/// Passes from number `it` on: a pass that expands nothing ends expansion;
/// output over the size bound, or a tenth pass that still expands, is an error.
pub open spec fn expansion_from(s: Seq<char>, macros: Seq<(Seq<char>, MacroDef)>, it: nat) -> Result<
    Seq<char>,
    MacroFailure,
>
    decreases 10 - it,
{
    if it >= 10 {
        Ok(s)
    } else {
        match render_all(segments_of(s), macros) {
            Err(f) => Err(f),
            Ok((r, had)) => if !had {
                Ok(r)
            } else if byte_len(r) > MAX_INPUT_SIZE {
                Err(MacroFailure::TooLarge(byte_len(r) as nat))
            } else if it == 9 {
                Err(MacroFailure::RecursionLimit)
            } else {
                expansion_from(r, macros, it + 1)
            },
        }
    }
}

/// Macro expansion of `sql`: input over the size bound is refused, no macros
/// leaves it as it is.
pub open spec fn expanded(sql: Seq<char>, macros: Seq<(Seq<char>, MacroDef)>) -> Result<
    Seq<char>,
    MacroFailure,
> {
    if byte_len(sql) > MAX_INPUT_SIZE {
        Err(MacroFailure::TooLarge(byte_len(sql) as nat))
    } else if macros.len() == 0 {
        Ok(sql)
    } else {
        expansion_from(sql, macros, 0)
    }
}

/// The error `expand_macros` reports for a failure.
pub open spec fn reports(e: MacroError, f: MacroFailure) -> bool {
    match f {
        MacroFailure::ArgCount { name, expected, got } => e matches MacroError::ArgCount {
            name: n,
            expected: x,
            got: g,
        } && n@ == name && x == expected && g == got,
        MacroFailure::RecursionLimit => e matches MacroError::RecursionLimit(k) && k == MAX_ITERATIONS,
        MacroFailure::TooLarge(n) => e matches MacroError::InputTooLarge(a, b) && a == n && b
            == MAX_INPUT_SIZE,
    }
}

/// Renders one segment.
fn render_one(seg: &DbtSegment, macros: &StrMap<MacroDef>, out: &mut String) -> (r: Result<bool, MacroError>)
    ensures
        match render_segment(seg@, macros@) {
            Ok((u, h)) => r matches Ok(x) && x == h && final(out)@ == old(out)@ + u,
            Err(f) => r matches Err(e) && reports(e, f),
        },
{
    match *seg {
        DbtSegment::Call { name, raw_args } => {
            match macros.get(name) {
                Some(def) => {
                    let args = parse_call_args(raw_args);
                    if args.len() != def.args.len() {
                        return Err(
                            MacroError::ArgCount {
                                name: name.to_owned(),
                                expected: def.args.len(),
                                got: args.len(),
                            },
                        );
                    }
                    let expanded = substitute_args(def.sql.as_str(), def.args.as_slice(), args.as_slice());
                    out.append(expanded.as_str());
                    Ok(true)
                },
                None => {
                    out.append("{{ ");
                    out.append(name);
                    out.append("(");
                    out.append(raw_args);
                    out.append(") }}");
                    Ok(false)
                },
            }
        },
        DbtSegment::Sql(s) => {
            out.append(s);
            Ok(false)
        },
        DbtSegment::Config { raw_args } => {
            out.append("{{ config(");
            out.append(raw_args);
            out.append(") }}");
            Ok(false)
        },
        DbtSegment::Ref { model } => {
            out.append("{{ ref('");
            out.append(model);
            out.append("') }}");
            Ok(false)
        },
        DbtSegment::Source { source, table } => {
            out.append("{{ source('");
            out.append(source);
            out.append("', '");
            out.append(table);
            out.append("') }}");
            Ok(false)
        },
    }
}

/// One pass over `current`.
fn expand_pass(current: &str, macros: &StrMap<MacroDef>) -> (r: Result<(String, bool), MacroError>)
    ensures
        match render_all(segments_of(current@), macros@) {
            Ok((t, h)) => r matches Ok((x, y)) && x@ == t && y == h,
            Err(f) => r matches Err(e) && reports(e, f),
        },
{
    let segs = DbtScanner::new(current).collect();
    let ghost ss = segs@.map_values(|g: DbtSegment| g@);
    let mut result = String::new();
    let mut had = false;
    let mut i: usize = 0;
    while i < segs.len()
        invariant
            i <= segs@.len(),
            ss == segs@.map_values(|g: DbtSegment| g@),
            ss == segments_of(current@),
            render_all(ss.take(i as int), macros@) == Ok::<(Seq<char>, bool), MacroFailure>(
                (result@, had),
            ),
        decreases segs.len() - i,
    {
        assert(ss.take(i + 1).drop_last() =~= ss.take(i as int));
        assert(ss.take(i + 1).last() == segs@[i as int]@);
        match render_one(&segs[i], macros, &mut result) {
            Ok(h) => {
                had = had || h;
            },
            Err(e) => {
                proof {
                    lemma_render_error_stays(ss, i as int, macros@);
                }
                return Err(e);
            },
        }
        i += 1;
    }
    assert(ss.take(segs@.len() as int) =~= ss);
    Ok((result, had))
}

/// An error in the first `i + 1` segments is the error of all of them.
proof fn lemma_render_error_stays(ss: Seq<SpecSegment>, i: int, macros: Seq<(Seq<char>, MacroDef)>)
    requires
        0 <= i < ss.len(),
        render_all(ss.take(i + 1), macros) is Err,
    ensures
        render_all(ss, macros) == render_all(ss.take(i + 1), macros),
    decreases ss.len() - i,
{
    if i + 1 == ss.len() {
        assert(ss.take(i + 1) =~= ss);
    } else {
        assert(ss.take(i + 2).drop_last() =~= ss.take(i + 1));
        lemma_render_error_stays(ss, i + 1, macros);
    }
}

/// Expand macro calls. Calls of unknown names are left in place; expansion
/// repeats until a pass expands nothing, and a tenth pass that still expands
/// is reported as recursion rather than run forever.
pub fn expand_macros(sql: &str, macros: &StrMap<MacroDef>) -> (r: Result<String, MacroError>)
    ensures
        match expanded(sql@, macros@) {
            Ok(t) => r matches Ok(x) && x@ == t,
            Err(f) => r matches Err(e) && reports(e, f),
        },
{
    if sql.len() > MAX_INPUT_SIZE {
        return Err(MacroError::InputTooLarge(sql.len(), MAX_INPUT_SIZE));
    }
    if macros.is_empty() {
        return Ok(sql.to_owned());
    }
    let mut current = sql.to_owned();
    let mut iteration: usize = 0;
    while iteration < MAX_ITERATIONS
        invariant
            iteration <= 10,
            macros@.len() > 0,
            byte_len(sql@) <= MAX_INPUT_SIZE,
            expansion_from(current@, macros@, iteration as nat) == expanded(sql@, macros@),
        decreases 10 - iteration,
    {
        let (result, had) = match expand_pass(current.as_str(), macros) {
            Ok(p) => p,
            Err(e) => {
                return Err(e);
            },
        };
        if !had {
            return Ok(result);
        }
        let n = result.as_str().len();
        if n > MAX_INPUT_SIZE {
            return Err(MacroError::InputTooLarge(n, MAX_INPUT_SIZE));
        }
        current = result;
        if iteration == MAX_ITERATIONS - 1 {
            return Err(MacroError::RecursionLimit(MAX_ITERATIONS));
        }
        iteration += 1;
    }
    Ok(current)
}

/// Some segment calls a registered macro.
pub open spec fn calls_registered(segs: Seq<SpecSegment>, macros: Seq<(Seq<char>, MacroDef)>) -> bool {
    exists|i: int|
        0 <= i < segs.len() && (#[trigger] segs[i] matches SpecSegment::Call { name, .. } && lookup(
            macros,
            name,
        ) is Some)
}

/// A rendering that expanded nothing had no call of a registered macro.
proof fn lemma_nothing_expanded(segs: Seq<SpecSegment>, macros: Seq<(Seq<char>, MacroDef)>, t: Seq<char>)
    requires
        render_all(segs, macros) == Ok::<(Seq<char>, bool), MacroFailure>((t, false)),
    ensures
        !calls_registered(segs, macros),
    decreases segs.len(),
{
    if segs.len() > 0 {
        let (t0, h0) = render_all(segs.drop_last(), macros)->Ok_0;
        lemma_nothing_expanded(segs.drop_last(), macros, t0);
        if calls_registered(segs, macros) {
            let i = choose|i: int|
                0 <= i < segs.len() && (#[trigger] segs[i] matches SpecSegment::Call { name, .. } && lookup(
                    macros,
                    name,
                ) is Some);
            if i < segs.len() - 1 {
                assert(segs.drop_last()[i] == segs[i]);
            }
        }
    }
}

proof fn lemma_expansion_ends(s: Seq<char>, macros: Seq<(Seq<char>, MacroDef)>, it: nat, r: Seq<char>)
    requires
        it < 10,
        expansion_from(s, macros, it) == Ok::<Seq<char>, MacroFailure>(r),
    ensures
        exists|last: Seq<char>|
            #![trigger segments_of(last)]
            !calls_registered(segments_of(last), macros) && render_all(segments_of(last), macros)
                == Ok::<(Seq<char>, bool), MacroFailure>((r, false)),
    decreases 10 - it,
{
    match render_all(segments_of(s), macros) {
        Ok((t, had)) => {
            if !had {
                lemma_nothing_expanded(segments_of(s), macros, t);
            } else {
                lemma_expansion_ends(t, macros, it + 1, r);
            }
        },
        Err(_) => {},
    }
}

/// Expansion with registered macros ends on a pass that finds no call of a
/// registered macro: what it returns is that pass's rendering of a text in
/// which every call left names an unknown macro.
pub proof fn law_expansion_ends_without_registered_calls(sql: Seq<char>, macros: Seq<(Seq<char>, MacroDef)>)
    requires
        macros.len() > 0,
    ensures
        expanded(sql, macros) matches Ok(r) ==> exists|last: Seq<char>|
            #![trigger segments_of(last)]
            !calls_registered(segments_of(last), macros) && render_all(segments_of(last), macros)
                == Ok::<(Seq<char>, bool), MacroFailure>((r, false)),
{
    if let Ok(r) = expanded(sql, macros) {
        lemma_expansion_ends(sql, macros, 0, r);
    }
}

} // verus!

