//! BigQuery table `OPTIONS(...)`: the option set, its DDL rendering, and
//! merging a base set with overrides.
use vstd::prelude::*;

use crate::preprocess::join;
use crate::strmap::{lookup, merged_lookup, StrMap};
use crate::text::{bool_text, chars_of, decimal, push_bool, replace_all, replace_text, u64_to_text};

verus! {

/// A string as a DDL string literal's body: `\` doubled, `"` escaped.
pub open spec fn ddl_escaped(s: Seq<char>) -> Seq<char> {
    replace_all(replace_all(s, seq!['\\'], seq!['\\', '\\']), seq!['"'], seq!['\\', '"'])
}

/// Escapes `s` for use inside a DDL string literal.
pub fn escape_ddl_string(s: &str) -> (r: String)
    ensures
        r@ == ddl_escaped(s@),
{
    let c = chars_of(s);
    let bs = vec!['\\'];
    let q = vec!['"'];
    let step = replace_text(&c, &bs, "\\\\");
    let c2 = chars_of(step.as_str());
    proof {
        reveal_strlit("\\\\");
        reveal_strlit("\\\"");
        assert("\\\\"@ =~= seq!['\\', '\\']);
        assert("\\\""@ =~= seq!['\\', '"']);
        assert(bs@ =~= seq!['\\']);
        assert(q@ =~= seq!['"']);
    }
    replace_text(&c2, &q, "\\\"")
}

/// Table options that render to an `OPTIONS(...)` clause.
pub struct TableOptions<'a> {
    pub require_partition_filter: Option<bool>,
    pub partition_expiration_days: Option<u32>,
    pub friendly_name: Option<&'a str>,
    pub description: Option<&'a str>,
    pub labels: StrMap<&'a str>,
    pub kms_key_name: Option<&'a str>,
    pub default_collation_name: Option<&'a str>,
    pub enable_refresh: Option<bool>,
    pub refresh_interval_minutes: Option<u32>,
    pub max_staleness: Option<&'a str>,
}

impl<'a> Default for TableOptions<'a> {
    fn default() -> (r: Self)
        ensures
            r.is_empty_spec(),
    {
        TableOptions {
            require_partition_filter: None,
            partition_expiration_days: None,
            friendly_name: None,
            description: None,
            labels: StrMap::new(),
            kms_key_name: None,
            default_collation_name: None,
            enable_refresh: None,
            refresh_interval_minutes: None,
            max_staleness: None,
        }
    }
}

/// `[x]` when present, `[]` when not.
pub open spec fn opt_part(o: Option<Seq<char>>) -> Seq<Seq<char>> {
    match o {
        Some(x) => seq![x],
        None => Seq::empty(),
    }
}

/// `name = "value"` with the value escaped.
pub open spec fn quoted_option(name: Seq<char>, v: Seq<char>) -> Seq<char> {
    name + " = \""@ + ddl_escaped(v) + "\""@
}

/// One label as a DDL pair: `("key", "value")`.
pub open spec fn label_pair(k: Seq<char>, v: Seq<char>) -> Seq<char> {
    "(\""@ + ddl_escaped(k) + "\", \""@ + ddl_escaped(v) + "\")"@
}

/// The label pairs, in key order.
pub open spec fn label_pairs<'a>(labels: Seq<(Seq<char>, &'a str)>) -> Seq<Seq<char>> {
    labels.map_values(|p: (Seq<char>, &'a str)| label_pair(p.0, p.1@))
}

impl<'a> TableOptions<'a> {
    pub open spec fn is_empty_spec(&self) -> bool {
        &&& self.require_partition_filter is None
        &&& self.partition_expiration_days is None
        &&& self.friendly_name is None
        &&& self.description is None
        &&& self.labels@.len() == 0
        &&& self.kms_key_name is None
        &&& self.default_collation_name is None
        &&& self.enable_refresh is None
        &&& self.refresh_interval_minutes is None
        &&& self.max_staleness is None
    }

    /// The option assignments, in the fixed order they are written.
    pub open spec fn ddl_parts(&self) -> Seq<Seq<char>> {
        opt_part(bool_assign("require_partition_filter"@, self.require_partition_filter))
            + opt_part(days_assign(self.partition_expiration_days))
            + opt_part(quoted_assign("friendly_name"@, self.friendly_name))
            + opt_part(quoted_assign("description"@, self.description))
            + opt_part(labels_assign(self.labels@))
            + opt_part(quoted_assign("kms_key_name"@, self.kms_key_name))
            + opt_part(quoted_assign("default_collation_name"@, self.default_collation_name))
            + opt_part(bool_assign("enable_refresh"@, self.enable_refresh))
            + opt_part(minutes_assign(self.refresh_interval_minutes))
            + opt_part(staleness_assign(self.max_staleness))
    }

    /// The `OPTIONS(...)` clause, or nothing when no option is set.
    pub open spec fn ddl(&self) -> Seq<char> {
        if self.ddl_parts().len() == 0 {
            Seq::empty()
        } else {
            "OPTIONS("@ + join(self.ddl_parts(), ", "@) + ")"@
        }
    }

    pub fn is_empty(&self) -> (r: bool)
        ensures
            r == self.is_empty_spec(),
    {
        self.require_partition_filter.is_none() && self.partition_expiration_days.is_none()
            && self.friendly_name.is_none() && self.description.is_none() && self.labels.is_empty()
            && self.kms_key_name.is_none() && self.default_collation_name.is_none()
            && self.enable_refresh.is_none() && self.refresh_interval_minutes.is_none()
            && self.max_staleness.is_none()
    }

    /// Renders the options as an `OPTIONS(...)` clause (empty when none is set).
    pub fn to_ddl(&self) -> (r: String)
        ensures
            r@ == self.ddl(),
    {
        let mut parts = first_part(bool_part("require_partition_filter", self.require_partition_filter));
        push_opt(&mut parts, days_part(self.partition_expiration_days));
        push_opt(&mut parts, quoted_part("friendly_name", self.friendly_name));
        push_opt(&mut parts, quoted_part("description", self.description));
        push_opt(&mut parts, labels_part(&self.labels));
        push_opt(&mut parts, quoted_part("kms_key_name", self.kms_key_name));
        push_opt(&mut parts, quoted_part("default_collation_name", self.default_collation_name));
        push_opt(&mut parts, bool_part("enable_refresh", self.enable_refresh));
        push_opt(&mut parts, minutes_part(self.refresh_interval_minutes));
        push_opt(&mut parts, staleness_part(self.max_staleness));
        if parts.len() == 0 {
            String::new()
        } else {
            let mut r = String::new();
            r.append("OPTIONS(");
            r.append(join_strings(&parts, ", ").as_str());
            r.append(")");
            r
        }
    }
}

/// An `OPTIONS(...)` clause is written exactly when some option is set.
pub proof fn law_options_clause_iff_set<'a>(o: TableOptions<'a>)
    ensures
        o.is_empty_spec() <==> o.ddl().len() == 0,
{
    assert(o.ddl_parts().len() == 0 <==> o.is_empty_spec());
    reveal_strlit("OPTIONS(");
    if !o.is_empty_spec() {
        assert(o.ddl().len() >= "OPTIONS("@.len());
    }
}

/// The text of an optional string.
pub open spec fn opt_text(o: Option<String>) -> Option<Seq<char>> {
    match o {
        Some(s) => Some(s@),
        None => None,
    }
}

/// `name = true|false` when the flag is set.
pub open spec fn bool_assign(name: Seq<char>, o: Option<bool>) -> Option<Seq<char>> {
    match o {
        Some(v) => Some(name + " = "@ + bool_text(v)),
        None => None,
    }
}

/// `partition_expiration_days = <days>`.
pub open spec fn days_assign(o: Option<u32>) -> Option<Seq<char>> {
    match o {
        Some(d) => Some("partition_expiration_days = "@ + decimal(d as nat)),
        None => None,
    }
}

/// `name = "value"` when the value is set.
pub open spec fn quoted_assign<'a>(name: Seq<char>, o: Option<&'a str>) -> Option<Seq<char>> {
    match o {
        Some(n) => Some(quoted_option(name, n@)),
        None => None,
    }
}

/// `labels = [...]` when there is at least one label.
pub open spec fn labels_assign<'a>(labels: Seq<(Seq<char>, &'a str)>) -> Option<Seq<char>> {
    if labels.len() > 0 {
        Some("labels = ["@ + join(label_pairs(labels), ", "@) + "]"@)
    } else {
        None
    }
}

/// `refresh_interval_minutes = <n>` when set.
pub open spec fn minutes_assign(o: Option<u32>) -> Option<Seq<char>> {
    match o {
        Some(m) => Some("refresh_interval_minutes = "@ + decimal(m as nat)),
        None => None,
    }
}

/// `max_staleness = INTERVAL "<value>"` when set.
pub open spec fn staleness_assign<'a>(o: Option<&'a str>) -> Option<Seq<char>> {
    match o {
        Some(n) => Some("max_staleness = INTERVAL \""@ + ddl_escaped(n@) + "\""@),
        None => None,
    }
}

fn first_part(o: Option<String>) -> (r: Vec<String>)
    ensures
        r@.map_values(|s: String| s@) == opt_part(opt_text(o)),
{
    let mut r: Vec<String> = Vec::new();
    match o {
        Some(s) => {
            r.push(s);
        },
        None => {},
    }
    assert(r@.map_values(|s: String| s@) =~= opt_part(opt_text(o)));
    r
}

fn push_opt(parts: &mut Vec<String>, o: Option<String>)
    ensures
        final(parts)@.map_values(|s: String| s@) == old(parts)@.map_values(|s: String| s@) + opt_part(
            opt_text(o),
        ),
{
    match o {
        Some(s) => {
            push_part(parts, s);
        },
        None => {},
    }
    assert(final(parts)@.map_values(|s: String| s@) =~= old(parts)@.map_values(|s: String| s@)
        + opt_part(opt_text(o)));
}

fn bool_part(name: &str, o: Option<bool>) -> (r: Option<String>)
    ensures
        opt_text(r) == bool_assign(name@, o),
{
    match o {
        Some(v) => {
            let mut p = String::new();
            p.append(name);
            p.append(" = ");
            push_bool(&mut p, v);
            proof {
                reveal_strlit(" = ");
            }
            Some(p)
        },
        None => None,
    }
}

fn days_part(o: Option<u32>) -> (r: Option<String>)
    ensures
        opt_text(r) == days_assign(o),
{
    match o {
        Some(days) => {
            let mut p = String::new();
            p.append("partition_expiration_days = ");
            p.append(u64_to_text(days as u64).as_str());
            Some(p)
        },
        None => None,
    }
}

fn quoted_part<'a>(name: &str, o: Option<&'a str>) -> (r: Option<String>)
    ensures
        opt_text(r) == quoted_assign(name@, o),
{
    match o {
        Some(v) => Some(quoted(name, v)),
        None => None,
    }
}

fn labels_part<'a>(labels: &StrMap<&'a str>) -> (r: Option<String>)
    ensures
        opt_text(r) == labels_assign(labels@),
{
    if labels.is_empty() {
        None
    } else {
        let mut p = String::new();
        p.append("labels = [");
        p.append(label_list(labels).as_str());
        p.append("]");
        Some(p)
    }
}

fn minutes_part(o: Option<u32>) -> (r: Option<String>)
    ensures
        opt_text(r) == minutes_assign(o),
{
    match o {
        Some(mins) => {
            let mut p = String::new();
            p.append("refresh_interval_minutes = ");
            p.append(u64_to_text(mins as u64).as_str());
            Some(p)
        },
        None => None,
    }
}

fn staleness_part<'a>(o: Option<&'a str>) -> (r: Option<String>)
    ensures
        opt_text(r) == staleness_assign(o),
{
    match o {
        Some(s) => {
            let mut p = String::new();
            p.append("max_staleness = INTERVAL \"");
            p.append(escape_ddl_string(s).as_str());
            p.append("\"");
            Some(p)
        },
        None => None,
    }
}

/// Appends `p` to `parts`.
fn push_part(parts: &mut Vec<String>, p: String)
    ensures
        final(parts)@.map_values(|s: String| s@) == old(parts)@.map_values(|s: String| s@).push(p@),
{
    parts.push(p);
    assert(final(parts)@.map_values(|s: String| s@) =~= old(parts)@.map_values(|s: String| s@).push(
        p@,
    ));
}

/// `name = "value"` with the value escaped.
fn quoted(name: &str, v: &str) -> (r: String)
    ensures
        r@ == quoted_option(name@, v@),
{
    let mut p = String::new();
    p.append(name);
    p.append(" = \"");
    p.append(escape_ddl_string(v).as_str());
    p.append("\"");
    p
}

/// The items separated by `sep`.
pub fn join_strings(items: &Vec<String>, sep: &str) -> (r: String)
    ensures
        r@ == join(items@.map_values(|s: String| s@), sep@),
{
    let ghost v = items@.map_values(|s: String| s@);
    let mut r = String::new();
    let mut i: usize = 0;
    while i < items.len()
        invariant
            i <= items@.len(),
            v == items@.map_values(|s: String| s@),
            r@ == join(v.take(i as int), sep@),
        decreases items.len() - i,
    {
        if i > 0 {
            r.append(sep);
        }
        r.append(items[i].as_str());
        proof {
            assert(v.take(i + 1).drop_last() =~= v.take(i as int));
            if i == 0 {
                assert(v.take(0) =~= Seq::<Seq<char>>::empty());
            }
        }
        i += 1;
    }
    assert(v.take(items@.len() as int) =~= v);
    r
}

/// The labels as DDL pairs separated by `, `.
fn label_list<'a>(labels: &StrMap<&'a str>) -> (r: String)
    ensures
        r@ == join(label_pairs(labels@), ", "@),
{
    let ghost v = label_pairs(labels@);
    let mut r = String::new();
    let mut i: usize = 0;
    while i < labels.len()
        invariant
            i <= labels@.len(),
            v == label_pairs(labels@),
            r@ == join(v.take(i as int), ", "@),
        decreases labels@.len() - i,
    {
        if i > 0 {
            r.append(", ");
        }
        r.append("(\"");
        r.append(escape_ddl_string(labels.key_at(i)).as_str());
        r.append("\", \"");
        r.append(escape_ddl_string(*labels.value_at(i)).as_str());
        r.append("\")");
        proof {
            assert(v.take(i + 1).drop_last() =~= v.take(i as int));
            if i == 0 {
                assert(v.take(0) =~= Seq::<Seq<char>>::empty());
            }
        }
        i += 1;
    }
    assert(v.take(labels@.len() as int) =~= v);
    r
}

/// `first` when it holds a value, else `second`.
pub open spec fn prefer<T>(first: Option<T>, second: Option<T>) -> Option<T> {
    match first {
        Some(x) => Some(x),
        None => second,
    }
}

fn or_else<T>(first: Option<T>, second: Option<T>) -> (r: Option<T>)
    ensures
        r == prefer(first, second),
{
    match first {
        Some(x) => Some(x),
        None => second,
    }
}

/// Merges two option sets: each option set in `overrides` wins over the one in
/// `base`; labels are the base labels with the override labels written over
/// them.
pub fn merge_options<'a>(base: &TableOptions<'a>, overrides: &TableOptions<'a>) -> (r: TableOptions<
    'a,
>)
    ensures
        r.require_partition_filter == prefer(
            overrides.require_partition_filter,
            base.require_partition_filter,
        ),
        r.partition_expiration_days == prefer(
            overrides.partition_expiration_days,
            base.partition_expiration_days,
        ),
        r.friendly_name == prefer(overrides.friendly_name, base.friendly_name),
        r.description == prefer(overrides.description, base.description),
        forall|q: Seq<char>| #[trigger]
            lookup(r.labels@, q) == merged_lookup(base.labels@, overrides.labels@, q),
        overrides.labels@.len() == 0 ==> r.labels@ == base.labels@,
        r.kms_key_name == prefer(overrides.kms_key_name, base.kms_key_name),
        r.default_collation_name == prefer(
            overrides.default_collation_name,
            base.default_collation_name,
        ),
        r.enable_refresh == prefer(overrides.enable_refresh, base.enable_refresh),
        r.refresh_interval_minutes == prefer(
            overrides.refresh_interval_minutes,
            base.refresh_interval_minutes,
        ),
        r.max_staleness == prefer(overrides.max_staleness, base.max_staleness),
        overrides.is_empty_spec() ==> r.ddl() == base.ddl(),
{
    let labels = if overrides.labels.is_empty() {
        let l = base.labels.copy();
        proof {
            assert forall|q: Seq<char>| #[trigger]
                lookup(l@, q) == merged_lookup(base.labels@, overrides.labels@, q) by {
                assert(lookup(overrides.labels@, q) is None);
            }
        }
        l
    } else {
        base.labels.merged(&overrides.labels)
    };
    let r = TableOptions {
        require_partition_filter: or_else(
            overrides.require_partition_filter,
            base.require_partition_filter,
        ),
        partition_expiration_days: or_else(
            overrides.partition_expiration_days,
            base.partition_expiration_days,
        ),
        friendly_name: or_else(overrides.friendly_name, base.friendly_name),
        description: or_else(overrides.description, base.description),
        labels,
        kms_key_name: or_else(overrides.kms_key_name, base.kms_key_name),
        default_collation_name: or_else(
            overrides.default_collation_name,
            base.default_collation_name,
        ),
        enable_refresh: or_else(overrides.enable_refresh, base.enable_refresh),
        refresh_interval_minutes: or_else(
            overrides.refresh_interval_minutes,
            base.refresh_interval_minutes,
        ),
        max_staleness: or_else(overrides.max_staleness, base.max_staleness),
    };
    proof {
        if overrides.is_empty_spec() {
            assert(r.ddl_parts() == base.ddl_parts());
        }
    }
    r
}

/// An owned option set, as read from resource properties.
pub struct OwnedTableOptions {
    pub require_partition_filter: Option<bool>,
    pub partition_expiration_days: Option<u32>,
    pub friendly_name: Option<String>,
    pub description: Option<String>,
    pub labels: StrMap<String>,
    pub kms_key_name: Option<String>,
    pub default_collation_name: Option<String>,
    pub enable_refresh: Option<bool>,
    pub refresh_interval_minutes: Option<u32>,
    pub max_staleness: Option<String>,
}

impl Default for OwnedTableOptions {
    fn default() -> (r: Self)
        ensures
            r.require_partition_filter is None,
            r.partition_expiration_days is None,
            r.friendly_name is None,
            r.description is None,
            r.labels@.len() == 0,
            r.kms_key_name is None,
            r.default_collation_name is None,
            r.enable_refresh is None,
            r.refresh_interval_minutes is None,
            r.max_staleness is None,
    {
        OwnedTableOptions {
            require_partition_filter: None,
            partition_expiration_days: None,
            friendly_name: None,
            description: None,
            labels: StrMap::new(),
            kms_key_name: None,
            default_collation_name: None,
            enable_refresh: None,
            refresh_interval_minutes: None,
            max_staleness: None,
        }
    }
}

/// The text of an optional borrowed string.
pub open spec fn opt_str<'a>(o: Option<&'a str>) -> Option<Seq<char>> {
    match o {
        Some(s) => Some(s@),
        None => None,
    }
}

fn borrow_opt<'b>(o: &'b Option<String>) -> (r: Option<&'b str>)
    ensures
        opt_str(r) == opt_text(*o),
{
    match o {
        Some(s) => Some(s.as_str()),
        None => None,
    }
}

impl OwnedTableOptions {
    /// The same options, borrowing the strings.
    pub fn to_table_options(&self) -> (r: TableOptions<'_>)
        ensures
            r.require_partition_filter == self.require_partition_filter,
            r.partition_expiration_days == self.partition_expiration_days,
            opt_str(r.friendly_name) == opt_text(self.friendly_name),
            opt_str(r.description) == opt_text(self.description),
            r.labels@.len() == self.labels@.len(),
            forall|i: int|
                0 <= i < self.labels@.len() ==> (#[trigger] r.labels@[i]).0 == self.labels@[i].0
                    && r.labels@[i].1@ == self.labels@[i].1@,
            opt_str(r.kms_key_name) == opt_text(self.kms_key_name),
            opt_str(r.default_collation_name) == opt_text(self.default_collation_name),
            r.enable_refresh == self.enable_refresh,
            r.refresh_interval_minutes == self.refresh_interval_minutes,
            opt_str(r.max_staleness) == opt_text(self.max_staleness),
    {
        TableOptions {
            require_partition_filter: self.require_partition_filter,
            partition_expiration_days: self.partition_expiration_days,
            friendly_name: borrow_opt(&self.friendly_name),
            description: borrow_opt(&self.description),
            labels: self.labels.borrowed(),
            kms_key_name: borrow_opt(&self.kms_key_name),
            default_collation_name: borrow_opt(&self.default_collation_name),
            enable_refresh: self.enable_refresh,
            refresh_interval_minutes: self.refresh_interval_minutes,
            max_staleness: borrow_opt(&self.max_staleness),
        }
    }
}

} // verus!
