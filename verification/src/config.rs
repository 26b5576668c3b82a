//! Reading a model's configuration out of its SQL: every `config(...)` call,
//! after macro expansion, applied in order, later settings winning.
use vstd::prelude::*;

use crate::macros::{expand_macros, expanded, MacroDef};
use crate::model::{ModelConfig, PartitionConfig};
use crate::scanner::{
    config_entries, segments_of, ConfigArgIter, ConfigEntry, ConfigValue, DbtScanner, DbtSegment,
    SpecConfigEntry, SpecConfigValue, SpecSegment,
};
use crate::strmap::StrMap;
use crate::text::{chars_of, contains, eq_ignore_case, find_chars, lower_seq, str_eq, to_ascii_lower, trim};

verus! {

// ───────────────────────── numbers ─────────────────────────

/// The value of a run of ASCII digits.
pub open spec fn digits_value(d: Seq<char>) -> nat
    decreases d.len(),
{
    if d.len() == 0 {
        0
    } else {
        digits_value(d.drop_last()) * 10 + ((d.last() as u32) - 48) as nat
    }
}

pub open spec fn all_digits(d: Seq<char>) -> bool {
    forall|i: int| 0 <= i < d.len() ==> '0' <= #[trigger] d[i] <= '9'
}

/// The text after an optional leading `+`.
pub open spec fn unsigned_digits(s: Seq<char>) -> Seq<char> {
    if s.len() > 0 && s[0] == '+' {
        s.drop_first()
    } else {
        s
    }
}

/// What `str::parse::<u32>` accepts: an optional `+`, then one or more ASCII
/// digits whose value fits in 32 bits.
pub open spec fn parsed_u32(s: Seq<char>) -> Option<u32> {
    let d = unsigned_digits(s);
    if d.len() > 0 && all_digits(d) && digits_value(d) <= u32::MAX {
        Some(digits_value(d) as u32)
    } else {
        None
    }
}

proof fn lemma_digits_value_grows(d: Seq<char>, k: int)
    requires
        0 <= k <= d.len(),
        all_digits(d),
    ensures
        digits_value(d.take(k)) <= digits_value(d),
    decreases d.len() - k,
{
    if k < d.len() {
        lemma_digits_value_grows(d, k + 1);
        assert(d.take(k + 1).drop_last() =~= d.take(k));
    } else {
        assert(d.take(k) =~= d);
    }
}

/// Parses an unsigned 32-bit decimal number as `str::parse::<u32>` does.
pub fn parse_u32(s: &str) -> (r: Option<u32>)
    ensures
        r == parsed_u32(s@),
{
    let c = chars_of(s);
    let start: usize = if c.len() > 0 && c[0] == '+' {
        1
    } else {
        0
    };
    let ghost d = unsigned_digits(s@);
    assert(d =~= c@.subrange(start as int, c@.len() as int));
    if start == c.len() {
        return None;
    }
    let mut value: u64 = 0;
    let mut i: usize = start;
    while i < c.len()
        invariant
            start <= i <= c@.len(),
            d == unsigned_digits(s@),
            d == c@.subrange(start as int, c@.len() as int),
            all_digits(d.take(i - start)),
            value == digits_value(d.take(i - start)),
            value <= u32::MAX,
        decreases c.len() - i,
    {
        let ch = c[i];
        if !('0' <= ch && ch <= '9') {
            assert(d[i - start] == ch);
            assert(!all_digits(d));
            return None;
        }
        let digit: u64 = ((ch as u32) - 48) as u64;
        let ghost t = d.take(i - start + 1);
        assert(t.drop_last() =~= d.take(i - start));
        assert(t.last() == ch);
        let next: u64 = value * 10 + digit;
        if next > 4294967295 {
            proof {
                assert(all_digits(t));
                assert(digits_value(t) == digits_value(t.drop_last()) * 10 + ((t.last() as u32) - 48) as nat);
                assert(digits_value(t) > u32::MAX);
                let k = i - start + 1;
                if all_digits(d) {
                    lemma_digits_value_grows(d, k);
                }
            }
            return None;
        }
        value = next;
        i += 1;
    }
    assert(d.take(c@.len() - start) =~= d);
    Some(value as u32)
}

/// `a` equals `b` ignoring ASCII case.
pub fn eq_ignore_ascii_case(a: &str, b: &str) -> (r: bool)
    ensures
        r == eq_ignore_case(a@, b@),
{
    let x = chars_of(a);
    let y = chars_of(b);
    assert(x@.subrange(0, x@.len() as int) =~= x@);
    crate::text::range_eq_ignore_case(&x, 0, x.len(), &y)
}

// ───────────────────────── the configuration, as text ─────────────────────────

/// A partition setting: column, type, granularity.
pub struct SpecPartition {
    pub field: Seq<char>,
    pub data_type: Seq<char>,
    pub granularity: Option<Seq<char>>,
}

/// A model configuration as text; `materialization` is `None` until set.
pub struct SpecModelConfig {
    pub materialization: Option<Seq<char>>,
    pub unique_key: Option<Seq<char>>,
    pub unique_key_list: Option<Seq<Seq<char>>>,
    pub incremental_strategy: Option<Seq<char>>,
    pub partition_by: Option<SpecPartition>,
    pub cluster_by: Option<Seq<Seq<char>>>,
    pub require_partition_filter: Option<bool>,
    pub partition_expiration_days: Option<u32>,
    pub friendly_name: Option<Seq<char>>,
    pub description: Option<Seq<char>>,
    pub labels: Seq<(Seq<char>, Seq<char>)>,
    pub kms_key_name: Option<Seq<char>>,
    pub default_collation_name: Option<Seq<char>>,
    pub enable_refresh: Option<bool>,
    pub refresh_interval_minutes: Option<u32>,
    pub max_staleness: Option<Seq<char>>,
}

/// Nothing set.
pub open spec fn unset_config() -> SpecModelConfig {
    SpecModelConfig {
        materialization: None,
        unique_key: None,
        unique_key_list: None,
        incremental_strategy: None,
        partition_by: None,
        cluster_by: None,
        require_partition_filter: None,
        partition_expiration_days: None,
        friendly_name: None,
        description: None,
        labels: Seq::empty(),
        kms_key_name: None,
        default_collation_name: None,
        enable_refresh: None,
        refresh_interval_minutes: None,
        max_staleness: None,
    }
}

pub open spec fn opt_view(o: Option<String>) -> Option<Seq<char>> {
    match o {
        Some(s) => Some(s@),
        None => None,
    }
}

pub open spec fn strings_view(v: Seq<String>) -> Seq<Seq<char>> {
    v.map_values(|s: String| s@)
}

pub open spec fn opt_list_view(o: Option<Vec<String>>) -> Option<Seq<Seq<char>>> {
    match o {
        Some(v) => Some(strings_view(v@)),
        None => None,
    }
}

pub open spec fn pairs_view(v: Seq<(String, String)>) -> Seq<(Seq<char>, Seq<char>)> {
    v.map_values(|p: (String, String)| (p.0@, p.1@))
}

pub open spec fn partition_view(o: Option<PartitionConfig>) -> Option<SpecPartition> {
    match o {
        Some(p) => Some(
            SpecPartition { field: p.field@, data_type: p.data_type@, granularity: opt_view(p.granularity) },
        ),
        None => None,
    }
}

impl View for ModelConfig {
    type V = SpecModelConfig;

    open spec fn view(&self) -> SpecModelConfig {
        SpecModelConfig {
            materialization: Some(self.materialization@),
            unique_key: opt_view(self.unique_key),
            unique_key_list: opt_list_view(self.unique_key_list),
            incremental_strategy: opt_view(self.incremental_strategy),
            partition_by: partition_view(self.partition_by),
            cluster_by: opt_list_view(self.cluster_by),
            require_partition_filter: self.require_partition_filter,
            partition_expiration_days: self.partition_expiration_days,
            friendly_name: opt_view(self.friendly_name),
            description: opt_view(self.description),
            labels: pairs_view(self.labels@),
            kms_key_name: opt_view(self.kms_key_name),
            default_collation_name: opt_view(self.default_collation_name),
            enable_refresh: self.enable_refresh,
            refresh_interval_minutes: self.refresh_interval_minutes,
            max_staleness: opt_view(self.max_staleness),
        }
    }
}

/// The value of the first pair whose key is `k`.
pub open spec fn dict_get(pairs: Seq<(Seq<char>, Seq<char>)>, k: Seq<char>) -> Option<Seq<char>>
    decreases pairs.len(),
{
    if pairs.len() == 0 {
        None
    } else if pairs[0].0 == k {
        Some(pairs[0].1)
    } else {
        dict_get(pairs.drop_first(), k)
    }
}

/// A flag given as a boolean, or as a string that reads `true` in any case.
pub open spec fn flag_value(v: SpecConfigValue) -> Option<bool> {
    match v {
        SpecConfigValue::Bool(b) => Some(b),
        SpecConfigValue::Str(s) => Some(eq_ignore_case(s, "true"@)),
        _ => None,
    }
}

/// The partition setting a `partition_by` dict gives: a missing field or type
/// reads as empty.
pub open spec fn partition_of(pairs: Seq<(Seq<char>, Seq<char>)>) -> SpecPartition {
    SpecPartition {
        field: match dict_get(pairs, "field"@) {
            Some(f) => f,
            None => Seq::empty(),
        },
        data_type: match dict_get(pairs, "data_type"@) {
            Some(t) => t,
            None => Seq::empty(),
        },
        granularity: dict_get(pairs, "granularity"@),
    }
}

/// The configuration after one `key=value` argument. An unknown key, or a
/// value of the wrong shape for its key, changes nothing.
pub open spec fn apply_entry(st: SpecModelConfig, e: SpecConfigEntry) -> SpecModelConfig {
    let k = e.key;
    let v = e.value;
    if k == "materialized"@ {
        match v {
            SpecConfigValue::Str(s) => SpecModelConfig { materialization: Some(s), ..st },
            _ => st,
        }
    } else if k == "unique_key"@ {
        match v {
            SpecConfigValue::Str(s) => SpecModelConfig { unique_key: Some(s), ..st },
            SpecConfigValue::List(items) => SpecModelConfig { unique_key_list: Some(items), ..st },
            _ => st,
        }
    } else if k == "incremental_strategy"@ {
        match v {
            SpecConfigValue::Str(s) => SpecModelConfig { incremental_strategy: Some(s), ..st },
            _ => st,
        }
    } else if k == "partition_by"@ {
        match v {
            SpecConfigValue::Dict(pairs) => SpecModelConfig {
                partition_by: Some(partition_of(pairs)),
                ..st
            },
            _ => st,
        }
    } else if k == "cluster_by"@ {
        match v {
            SpecConfigValue::List(items) => SpecModelConfig { cluster_by: Some(items), ..st },
            _ => st,
        }
    } else if k == "require_partition_filter"@ {
        match flag_value(v) {
            Some(b) => SpecModelConfig { require_partition_filter: Some(b), ..st },
            None => st,
        }
    } else if k == "partition_expiration_days"@ {
        match v {
            SpecConfigValue::Str(s) => SpecModelConfig { partition_expiration_days: parsed_u32(s), ..st },
            _ => st,
        }
    } else if k == "friendly_name"@ {
        match v {
            SpecConfigValue::Str(s) => SpecModelConfig { friendly_name: Some(s), ..st },
            _ => st,
        }
    } else if k == "description"@ {
        match v {
            SpecConfigValue::Str(s) => SpecModelConfig { description: Some(s), ..st },
            _ => st,
        }
    } else if k == "labels"@ {
        match v {
            SpecConfigValue::Dict(pairs) => SpecModelConfig { labels: pairs, ..st },
            _ => st,
        }
    } else if k == "kms_key_name"@ {
        match v {
            SpecConfigValue::Str(s) => SpecModelConfig { kms_key_name: Some(s), ..st },
            _ => st,
        }
    } else if k == "default_collation_name"@ {
        match v {
            SpecConfigValue::Str(s) => SpecModelConfig { default_collation_name: Some(s), ..st },
            _ => st,
        }
    } else if k == "enable_refresh"@ {
        match flag_value(v) {
            Some(b) => SpecModelConfig { enable_refresh: Some(b), ..st },
            None => st,
        }
    } else if k == "refresh_interval_minutes"@ {
        match v {
            SpecConfigValue::Str(s) => SpecModelConfig { refresh_interval_minutes: parsed_u32(s), ..st },
            _ => st,
        }
    } else if k == "max_staleness"@ {
        match v {
            SpecConfigValue::Str(s) => SpecModelConfig { max_staleness: Some(s), ..st },
            _ => st,
        }
    } else {
        st
    }
}

/// The configuration after each argument in turn.
pub open spec fn apply_all(st: SpecModelConfig, es: Seq<SpecConfigEntry>) -> SpecModelConfig
    decreases es.len(),
{
    if es.len() == 0 {
        st
    } else {
        apply_entry(apply_all(st, es.drop_last()), es.last())
    }
}

/// The arguments of one segment: those of a `config(...)` call, none for
/// anything else.
pub open spec fn segment_args(seg: SpecSegment) -> Seq<SpecConfigEntry> {
    match seg {
        SpecSegment::Config { raw_args } => config_entries(trim(raw_args)),
        _ => Seq::empty(),
    }
}

/// The arguments of every `config(...)` call, in order.
pub open spec fn config_args(segs: Seq<SpecSegment>) -> Seq<SpecConfigEntry>
    decreases segs.len(),
{
    if segs.len() == 0 {
        Seq::empty()
    } else {
        config_args(segs.drop_last()) + segment_args(segs.last())
    }
}

/// The text whose configuration is read: the macro expansion of `sql`, or
/// `sql` itself when expansion fails.
pub open spec fn config_source(sql: Seq<char>, macros: Seq<(Seq<char>, MacroDef)>) -> Seq<char> {
    match expanded(sql, macros) {
        Ok(t) => t,
        Err(_) => sql,
    }
}

/// A configuration read to the end: materialization defaults to `table`.
pub open spec fn finished(st: SpecModelConfig) -> SpecModelConfig {
    SpecModelConfig {
        materialization: Some(
            match st.materialization {
                Some(m) => m,
                None => "table"@,
            },
        ),
        ..st
    }
}

/// The configuration of the model whose SQL is `sql`.
pub open spec fn model_config(sql: Seq<char>, macros: Seq<(Seq<char>, MacroDef)>) -> SpecModelConfig {
    finished(apply_all(unset_config(), config_args(segments_of(config_source(sql, macros)))))
}

proof fn lemma_apply_all_append(st: SpecModelConfig, a: Seq<SpecConfigEntry>, b: Seq<SpecConfigEntry>)
    ensures
        apply_all(st, a + b) == apply_all(apply_all(st, a), b),
    decreases b.len(),
{
    if b.len() == 0 {
        assert(a + b =~= a);
    } else {
        lemma_apply_all_append(st, a, b.drop_last());
        assert((a + b).drop_last() =~= a + b.drop_last());
        assert((a + b).last() == b.last());
    }
}

// ───────────────────────── reading it ─────────────────────────

/// The configuration being read; `materialization` stays unset until given.
struct ConfigAcc {
    materialization: Option<String>,
    unique_key: Option<String>,
    unique_key_list: Option<Vec<String>>,
    incremental_strategy: Option<String>,
    partition_by: Option<PartitionConfig>,
    cluster_by: Option<Vec<String>>,
    require_partition_filter: Option<bool>,
    partition_expiration_days: Option<u32>,
    friendly_name: Option<String>,
    description: Option<String>,
    labels: Vec<(String, String)>,
    kms_key_name: Option<String>,
    default_collation_name: Option<String>,
    enable_refresh: Option<bool>,
    refresh_interval_minutes: Option<u32>,
    max_staleness: Option<String>,
}

impl View for ConfigAcc {
    type V = SpecModelConfig;

    closed spec fn view(&self) -> SpecModelConfig {
        SpecModelConfig {
            materialization: opt_view(self.materialization),
            unique_key: opt_view(self.unique_key),
            unique_key_list: opt_list_view(self.unique_key_list),
            incremental_strategy: opt_view(self.incremental_strategy),
            partition_by: partition_view(self.partition_by),
            cluster_by: opt_list_view(self.cluster_by),
            require_partition_filter: self.require_partition_filter,
            partition_expiration_days: self.partition_expiration_days,
            friendly_name: opt_view(self.friendly_name),
            description: opt_view(self.description),
            labels: pairs_view(self.labels@),
            kms_key_name: opt_view(self.kms_key_name),
            default_collation_name: opt_view(self.default_collation_name),
            enable_refresh: self.enable_refresh,
            refresh_interval_minutes: self.refresh_interval_minutes,
            max_staleness: opt_view(self.max_staleness),
        }
    }
}

fn owned(s: &str) -> (r: String)
    ensures
        r@ == s@,
{
    let mut r = String::new();
    r.append(s);
    r
}

fn owned_list<'a>(items: &Vec<&'a str>) -> (r: Vec<String>)
    ensures
        strings_view(r@) == items@.map_values(|x: &'a str| x@),
{
    let mut r: Vec<String> = Vec::new();
    let mut i: usize = 0;
    while i < items.len()
        invariant
            i <= items@.len(),
            r@.len() == i,
            strings_view(r@) == items@.map_values(|x: &'a str| x@).take(i as int),
        decreases items.len() - i,
    {
        let ghost prev = r@;
        let o = owned(items[i]);
        r.push(o);
        proof {
            assert(r@ == prev.push(o));
            assert(strings_view(r@)[i as int] == items@[i as int]@);
            assert(strings_view(r@) =~= items@.map_values(|x: &'a str| x@).take(i + 1));
        }
        i += 1;
    }
    assert(items@.map_values(|x: &'a str| x@).take(items@.len() as int) =~= items@.map_values(
        |x: &'a str| x@,
    ));
    r
}

fn owned_pairs<'a>(pairs: &Vec<(&'a str, &'a str)>) -> (r: Vec<(String, String)>)
    ensures
        pairs_view(r@) == pairs@.map_values(|p: (&'a str, &'a str)| (p.0@, p.1@)),
{
    let mut r: Vec<(String, String)> = Vec::new();
    let mut i: usize = 0;
    while i < pairs.len()
        invariant
            i <= pairs@.len(),
            r@.len() == i,
            pairs_view(r@) == pairs@.map_values(|p: (&'a str, &'a str)| (p.0@, p.1@)).take(i as int),
        decreases pairs.len() - i,
    {
        let ghost prev = r@;
        let (k, v) = pairs[i];
        let o = (owned(k), owned(v));
        r.push(o);
        proof {
            assert(r@ == prev.push(o));
            assert(pairs_view(r@)[i as int] == (pairs@[i as int].0@, pairs@[i as int].1@));
            assert(pairs_view(r@) =~= pairs@.map_values(|p: (&'a str, &'a str)| (p.0@, p.1@)).take(
                i + 1,
            ));
        }
        i += 1;
    }
    assert(pairs@.map_values(|p: (&'a str, &'a str)| (p.0@, p.1@)).take(pairs@.len() as int)
        =~= pairs@.map_values(|p: (&'a str, &'a str)| (p.0@, p.1@)));
    r
}

/// The value of the first pair whose key is `k`.
fn dict_lookup<'a>(pairs: &Vec<(&'a str, &'a str)>, k: &str) -> (r: Option<String>)
    ensures
        opt_view(r) == dict_get(pairs@.map_values(|p: (&'a str, &'a str)| (p.0@, p.1@)), k@),
{
    let ghost all = pairs@.map_values(|p: (&'a str, &'a str)| (p.0@, p.1@));
    assert(all.skip(0) =~= all);
    let mut i: usize = 0;
    while i < pairs.len()
        invariant
            i <= pairs@.len(),
            all == pairs@.map_values(|p: (&'a str, &'a str)| (p.0@, p.1@)),
            dict_get(all.skip(i as int), k@) == dict_get(all, k@),
        decreases pairs.len() - i,
    {
        assert(all.skip(i as int)[0] == all[i as int]);
        if str_eq(pairs[i].0, k) {
            return Some(owned(pairs[i].1));
        }
        assert(all.skip(i as int).drop_first() =~= all.skip(i + 1));
        i += 1;
    }
    None
}

fn flag_of(v: &ConfigValue) -> (r: Option<bool>)
    ensures
        r == flag_value(v@),
{
    match v {
        ConfigValue::Bool(b) => Some(*b),
        ConfigValue::Str(s) => {
            let t = eq_ignore_ascii_case(s, "true");
            Some(t)
        },
        _ => None,
    }
}

/// Applies one `key=value` argument.
fn apply_config_entry(acc: &mut ConfigAcc, e: &ConfigEntry)
    ensures
        final(acc)@ == apply_entry(old(acc)@, e@),
{
    let k = e.key;
    if str_eq(k, "materialized") {
        if let ConfigValue::Str(v) = &e.value {
            acc.materialization = Some(owned(v));
        }
    } else if str_eq(k, "unique_key") {
        match &e.value {
            ConfigValue::Str(v) => {
                acc.unique_key = Some(owned(v));
            },
            ConfigValue::List(items) => {
                acc.unique_key_list = Some(owned_list(items));
            },
            _ => {},
        }
    } else if str_eq(k, "incremental_strategy") {
        if let ConfigValue::Str(v) = &e.value {
            acc.incremental_strategy = Some(owned(v));
        }
    } else if str_eq(k, "partition_by") {
        if let ConfigValue::Dict(pairs) = &e.value {
            let field = match dict_lookup(pairs, "field") {
                Some(f) => f,
                None => String::new(),
            };
            let data_type = match dict_lookup(pairs, "data_type") {
                Some(t) => t,
                None => String::new(),
            };
            let granularity = dict_lookup(pairs, "granularity");
            acc.partition_by = Some(PartitionConfig { field, data_type, granularity });
        }
    } else if str_eq(k, "cluster_by") {
        if let ConfigValue::List(items) = &e.value {
            acc.cluster_by = Some(owned_list(items));
        }
    } else if str_eq(k, "require_partition_filter") {
        if let Some(b) = flag_of(&e.value) {
            acc.require_partition_filter = Some(b);
        }
    } else if str_eq(k, "partition_expiration_days") {
        if let ConfigValue::Str(v) = &e.value {
            acc.partition_expiration_days = parse_u32(v);
        }
    } else if str_eq(k, "friendly_name") {
        if let ConfigValue::Str(v) = &e.value {
            acc.friendly_name = Some(owned(v));
        }
    } else if str_eq(k, "description") {
        if let ConfigValue::Str(v) = &e.value {
            acc.description = Some(owned(v));
        }
    } else if str_eq(k, "labels") {
        if let ConfigValue::Dict(pairs) = &e.value {
            acc.labels = owned_pairs(pairs);
        }
    } else if str_eq(k, "kms_key_name") {
        if let ConfigValue::Str(v) = &e.value {
            acc.kms_key_name = Some(owned(v));
        }
    } else if str_eq(k, "default_collation_name") {
        if let ConfigValue::Str(v) = &e.value {
            acc.default_collation_name = Some(owned(v));
        }
    } else if str_eq(k, "enable_refresh") {
        if let Some(b) = flag_of(&e.value) {
            acc.enable_refresh = Some(b);
        }
    } else if str_eq(k, "refresh_interval_minutes") {
        if let ConfigValue::Str(v) = &e.value {
            acc.refresh_interval_minutes = parse_u32(v);
        }
    } else if str_eq(k, "max_staleness") {
        if let ConfigValue::Str(v) = &e.value {
            acc.max_staleness = Some(owned(v));
        }
    }
}

/// Applies every argument of one `config(...)` call.
fn apply_config_call(acc: &mut ConfigAcc, raw_args: &str)
    ensures
        final(acc)@ == apply_all(old(acc)@, config_entries(trim(raw_args@))),
{
    let mut it = ConfigArgIter::new(raw_args);
    let ghost all = config_entries(trim(raw_args@));
    let ghost mut done: Seq<SpecConfigEntry> = Seq::empty();
    let ghost start = acc@;
    loop
        invariant
            done + config_entries(it@) == all,
            acc@ == apply_all(start, done),
        ensures
            acc@ == apply_all(start, all),
        decreases it@.len(),
    {
        let ghost rem = it@;
        proof {
            crate::scanner::lemma_config_step_shrinks(rem);
        }
        match it.next() {
            Some(e) => {
                apply_config_entry(acc, &e);
                proof {
                    let d2 = done.push(e@);
                    assert(d2.drop_last() =~= done);
                    assert(config_entries(rem) == seq![e@] + config_entries(it@));
                    assert(d2 + config_entries(it@) =~= done + config_entries(rem));
                    done = d2;
                }
            },
            None => {
                proof {
                    assert(config_entries(rem).len() == 0);
                    assert(done =~= all);
                }
                break;
            },
        }
    }
}

/// Reads the configuration of a model from its SQL: the SQL is first
/// macro-expanded (left as it is when expansion fails), then the arguments
/// of every `config(...)` call are applied in order. Materialization defaults
/// to `table`.
pub fn extract_model_config(sql: &str, macros: &StrMap<MacroDef>) -> (r: ModelConfig)
    ensures
        r@ == model_config(sql@, macros@),
{
    let text = match expand_macros(sql, macros) {
        Ok(t) => t,
        Err(_) => owned(sql),
    };
    assert(text@ == config_source(sql@, macros@));
    let mut acc = ConfigAcc {
        materialization: None,
        unique_key: None,
        unique_key_list: None,
        incremental_strategy: None,
        partition_by: None,
        cluster_by: None,
        require_partition_filter: None,
        partition_expiration_days: None,
        friendly_name: None,
        description: None,
        labels: Vec::new(),
        kms_key_name: None,
        default_collation_name: None,
        enable_refresh: None,
        refresh_interval_minutes: None,
        max_staleness: None,
    };
    assert(pairs_view(acc.labels@) =~= Seq::<(Seq<char>, Seq<char>)>::empty());
    assert(acc@ == unset_config());
    let ghost segs = segments_of(text@);
    let ghost mut seen: Seq<SpecSegment> = Seq::empty();
    let mut scanner = DbtScanner::new(text.as_str());
    loop
        invariant
            scanner.wf(),
            seen + scanner.remaining() == segs,
            acc@ == apply_all(unset_config(), config_args(seen)),
        ensures
            acc@ == apply_all(unset_config(), config_args(segs)),
        decreases scanner.remaining().len(),
    {
        let ghost rem = scanner.remaining();
        match scanner.next() {
            Some(seg) => {
                let ghost before = acc@;
                if let DbtSegment::Config { raw_args } = seg {
                    apply_config_call(&mut acc, raw_args);
                }
                proof {
                    let s2 = seen.push(seg@);
                    assert(s2.drop_last() =~= seen);
                    assert(config_args(s2) == config_args(seen) + segment_args(seg@));
                    lemma_apply_all_append(unset_config(), config_args(seen), segment_args(seg@));
                    if !(seg@ is Config) {
                        assert(segment_args(seg@) =~= Seq::<SpecConfigEntry>::empty());
                        assert(config_args(seen) + segment_args(seg@) =~= config_args(seen));
                    }
                    assert(s2 + scanner.remaining() =~= seen + rem);
                    seen = s2;
                }
            },
            None => {
                proof {
                    assert(seen =~= segs);
                }
                break;
            },
        }
    }
    let materialization = match acc.materialization {
        Some(m) => m,
        None => owned("table"),
    };
    ModelConfig {
        materialization,
        unique_key: acc.unique_key,
        unique_key_list: acc.unique_key_list,
        incremental_strategy: acc.incremental_strategy,
        partition_by: acc.partition_by,
        cluster_by: acc.cluster_by,
        require_partition_filter: acc.require_partition_filter,
        partition_expiration_days: acc.partition_expiration_days,
        friendly_name: acc.friendly_name,
        description: acc.description,
        labels: acc.labels,
        kms_key_name: acc.kms_key_name,
        default_collation_name: acc.default_collation_name,
        enable_refresh: acc.enable_refresh,
        refresh_interval_minutes: acc.refresh_interval_minutes,
        max_staleness: acc.max_staleness,
    }
}

// ───────────────────────── dry-run messages ─────────────────────────

/// A dry-run rejection that only says some referenced object does not exist
/// yet: its ASCII-lowercased text mentions `not found`, `notfound` or
/// `was not found in location`.
pub open spec fn only_missing_objects(message: Seq<char>) -> bool {
    let m = lower_seq(message);
    contains(m, "not found"@) || contains(m, "notfound"@) || contains(m, "was not found in location"@)
}

/// Whether a dry-run rejection is only "these objects do not exist yet", as
/// happens on the preview of a first deploy whose tables the same stack creates.
pub fn references_missing_objects(message: &str) -> (r: bool)
    ensures
        r == only_missing_objects(message@),
{
    let c = chars_of(message);
    let mut m: Vec<char> = Vec::new();
    let mut i: usize = 0;
    while i < c.len()
        invariant
            i <= c@.len(),
            c@ == message@,
            m@ == lower_seq(c@.take(i as int)),
        decreases c.len() - i,
    {
        m.push(to_ascii_lower(c[i]));
        proof {
            assert(m@ =~= lower_seq(c@.take(i + 1)));
        }
        i += 1;
    }
    assert(c@.take(c@.len() as int) =~= c@);
    let a = chars_of("not found");
    let b = chars_of("notfound");
    let d = chars_of("was not found in location");
    proof {
        crate::text::lemma_find_none_all(m@, a@, 0);
        crate::text::lemma_find_none_all(m@, b@, 0);
        crate::text::lemma_find_none_all(m@, d@, 0);
    }
    find_chars(&m, &a, 0).is_some() || find_chars(&m, &b, 0).is_some() || find_chars(&m, &d, 0).is_some()
}

} // verus!
