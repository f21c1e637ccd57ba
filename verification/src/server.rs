//! The server's decisions: which rule classifies a log, which logs a live subscriber
//! receives, how a query is paged, and what a reclassification reports.

use vstd::prelude::*;
use crate::text::{
    chars_of, contains, copy_str, decimal, decimal_string, find_from, lower, lower_chars,
    push_str,
};
use crate::wildcard::{
    lemma_match_ignores_case, lemma_star_matches_everything, wildcard_match, wildcard_matches,
};

verus! {

// ---------------------------------------------------------------------------
// Classification rules
// ---------------------------------------------------------------------------

/// A rule "logs from this source are in this category". `id` is the rule's UUID as a
/// 128-bit number, most significant byte first.
#[derive(Debug, Clone)]
pub struct LogRule {
    pub id: u128,
    pub source_type: Option<String>,
    pub source_pattern: Option<String>,
    pub category: String,
    pub priority: i32,
    pub enabled: bool,
}

/// A request to create a rule; unset priority and enablement take their defaults.
#[derive(Debug, Clone)]
pub struct RuleRequest {
    pub source_type: Option<String>,
    pub source_pattern: Option<String>,
    pub category: String,
    pub priority: Option<i32>,
    pub enabled: Option<bool>,
}

impl RuleRequest {
    /// The rule the request creates under `id`: priority 0 and enabled unless given.
    pub fn into_rule(self, id: u128) -> (r: LogRule)
        ensures
            r.id == id,
            r.source_type == self.source_type,
            r.source_pattern == self.source_pattern,
            r.category == self.category,
            r.priority == match self.priority {
                Some(p) => p,
                None => 0,
            },
            r.enabled == match self.enabled {
                Some(e) => e,
                None => true,
            },
    {
        let priority = match self.priority {
            Some(p) => p,
            None => 0,
        };
        let enabled = match self.enabled {
            Some(e) => e,
            None => true,
        };
        LogRule {
            id,
            source_type: self.source_type,
            source_pattern: self.source_pattern,
            category: self.category,
            priority,
            enabled,
        }
    }
}

/// The rule is enabled, names this source type or none, and its pattern (if any)
/// matches the source name ignoring ASCII case.
pub open spec fn rule_applies(r: LogRule, source_type: Seq<char>, source_name: Seq<char>) -> bool {
    &&& r.enabled
    &&& match r.source_type {
        Some(t) => t@ == source_type,
        None => true,
    }
    &&& match r.source_pattern {
        Some(p) => wildcard_matches(p@, source_name),
        None => true,
    }
}

/// Rule `a` comes before rule `b`: higher priority first, then the smaller id.
pub open spec fn outranks(a: LogRule, b: LogRule) -> bool {
    a.priority > b.priority || (a.priority == b.priority && a.id < b.id)
}

/// Whether `a` and `b` hold the same text.
fn same_text(a: &str, b: &str) -> (r: bool)
    ensures
        r == (a@ == b@),
{
    let x = chars_of(a);
    let y = chars_of(b);
    if x.len() != y.len() {
        return false;
    }
    let mut k: usize = 0;
    while k < x.len()
        invariant
            x.len() == y.len(),
            x@ == a@,
            y@ == b@,
            k <= x.len(),
            forall|t: int| 0 <= t < k ==> x@[t] == y@[t],
        decreases x.len() - k,
    {
        if x[k] != y[k] {
            return false;
        }
        k = k + 1;
    }
    assert(x@ =~= y@);
    true
}

/// Whether the rule classifies logs of this source.
pub fn rule_matches(rule: &LogRule, source_type: &str, source_name: &str) -> (b: bool)
    ensures
        b == rule_applies(*rule, source_type@, source_name@),
{
    if !rule.enabled {
        return false;
    }
    let type_ok = match &rule.source_type {
        Some(t) => same_text(t.as_str(), source_type),
        None => true,
    };
    let pattern_ok = match &rule.source_pattern {
        Some(p) => wildcard_match(p.as_str(), source_name),
        None => true,
    };
    type_ok && pattern_ok
}

/// The category of the first rule, in order of priority (highest first, then smallest
/// id), that applies to the source; `None` when no rule applies.
pub fn classify(rules: &Vec<LogRule>, source_type: &str, source_name: &str) -> (r: Option<String>)
    ensures
        r is None <==> forall|i: int|
            0 <= i < rules@.len() ==> !rule_applies(#[trigger] rules@[i], source_type@, source_name@),
        r matches Some(c) ==> exists|i: int|
            0 <= i < rules@.len() && rule_applies(#[trigger] rules@[i], source_type@, source_name@)
                && c@ == rules@[i].category@ && forall|j: int|
                0 <= j < rules@.len() && rule_applies(#[trigger] rules@[j], source_type@, source_name@)
                    ==> !outranks(rules@[j], rules@[i]),
{
    let mut best: Option<usize> = None;
    let mut i: usize = 0;
    while i < rules.len()
        invariant
            i <= rules.len(),
            best is None <==> forall|j: int|
                0 <= j < i ==> !rule_applies(#[trigger] rules@[j], source_type@, source_name@),
            best matches Some(b) ==> b < i && rule_applies(rules@[b as int], source_type@, source_name@)
                && forall|j: int|
                0 <= j < i && rule_applies(#[trigger] rules@[j], source_type@, source_name@)
                    ==> !outranks(rules@[j], rules@[b as int]),
        decreases rules.len() - i,
    {
        if rule_matches(&rules[i], source_type, source_name) {
            let better = match best {
                None => true,
                Some(b) => rules[i].priority > rules[b].priority || (rules[i].priority
                    == rules[b].priority && rules[i].id < rules[b].id),
            };
            if better {
                best = Some(i);
            }
        }
        i = i + 1;
    }
    match best {
        Some(b) => Some(copy_str(rules[b].category.as_str())),
        None => None,
    }
}

/// The category a newly received log is stored under: the matching rule's, else the one
/// the agent reported, else `system`.
pub fn resolve_category(reported: Option<String>, matched: Option<String>) -> (c: String)
    ensures
        c@ == match matched {
            Some(m) => m@,
            None => match reported {
                Some(x) => x@,
                None => "system"@,
            },
        },
{
    match matched {
        Some(m) => m,
        None => match reported {
            Some(x) => x,
            None => copy_str("system"),
        },
    }
}

/// An enabled rule with no source type and no pattern, or the pattern `*`, applies to
/// every source, so with it in the list every log gets a category from the rules.
pub proof fn lemma_catch_all_rule_applies(r: LogRule, source_type: Seq<char>, source_name: Seq<char>)
    requires
        r.enabled,
        r.source_type is None,
        r.source_pattern matches Some(p) ==> p@ == seq!['*'],
    ensures
        rule_applies(r, source_type, source_name),
{
    lemma_star_matches_everything(source_name);
}

/// Whether a rule applies does not depend on the ASCII case of the source name.
pub proof fn lemma_rules_ignore_name_case(r: LogRule, source_type: Seq<char>, source_name: Seq<char>)
    ensures
        rule_applies(r, source_type, source_name) == rule_applies(r, source_type, lower(source_name)),
{
    if let Some(p) = r.source_pattern {
        lemma_match_ignores_case(p@, source_name);
        lemma_match_ignores_case(p@, lower(source_name));
        assert(lower(lower(source_name)) =~= lower(source_name));
    }
}

// ---------------------------------------------------------------------------
// Stored logs and live subscriptions
// ---------------------------------------------------------------------------

/// The fields of a stored log that the server decides on. `id` is the log's UUID as a
/// 128-bit number; 0 is the nil UUID of server notices.
#[derive(Debug, Clone)]
pub struct LogEvent {
    pub id: u128,
    pub host: String,
    pub source_type: String,
    pub source_name: String,
    pub category: String,
    pub level: Option<String>,
    pub message: String,
}

/// What a live subscriber asked to see; each field that is set must match.
#[derive(Debug, Clone)]
pub struct WsFilter {
    pub host: Option<String>,
    pub source_type: Option<String>,
    pub source_name: Option<String>,
    pub category: Option<String>,
    pub level: Option<String>,
    pub keyword: Option<String>,
}

impl Default for WsFilter {
    fn default() -> (f: Self)
        ensures
            f.host is None,
            f.source_type is None,
            f.source_name is None,
            f.category is None,
            f.level is None,
            f.keyword is None,
    {
        WsFilter {
            host: None,
            source_type: None,
            source_name: None,
            category: None,
            level: None,
            keyword: None,
        }
    }
}

/// An unset field accepts anything; a set one must equal the value.
pub open spec fn field_accepts(field: Option<String>, value: Seq<char>) -> bool {
    match field {
        Some(x) => x@ == value,
        None => true,
    }
}

/// A log's level as text, empty when it has none.
pub open spec fn level_text(level: Option<String>) -> Seq<char> {
    match level {
        Some(l) => l@,
        None => Seq::empty(),
    }
}

/// The filter accepts the log: every set field equals the log's, and the keyword (if
/// set) occurs in the message, ignoring ASCII case.
pub open spec fn filter_accepts(f: WsFilter, l: LogEvent) -> bool {
    &&& field_accepts(f.host, l.host@)
    &&& field_accepts(f.source_type, l.source_type@)
    &&& field_accepts(f.source_name, l.source_name@)
    &&& field_accepts(f.category, l.category@)
    &&& field_accepts(f.level, level_text(l.level))
    &&& match f.keyword {
        Some(k) => contains(lower(l.message@), lower(k@)),
        None => true,
    }
}

/// Whether an optional filter field accepts a value.
fn field_ok(field: &Option<String>, value: &str) -> (b: bool)
    ensures
        b == field_accepts(*field, value@),
{
    match field {
        Some(x) => same_text(x.as_str(), value),
        None => true,
    }
}

/// Whether `needle` occurs in `hay`, ignoring ASCII case.
pub fn contains_ignore_ascii_case(hay: &str, needle: &str) -> (b: bool)
    ensures
        b == contains(lower(hay@), lower(needle@)),
{
    let h = lower_chars(hay);
    let n = lower_chars(needle);
    match find_from(&h, &n, 0) {
        Some(_) => true,
        None => false,
    }
}

impl WsFilter {
    /// Whether a log passes this filter.
    pub fn matches(&self, l: &LogEvent) -> (b: bool)
        ensures
            b == filter_accepts(*self, *l),
    {
        let level = match &l.level {
            Some(x) => copy_str(x.as_str()),
            None => String::new(),
        };
        field_ok(&self.host, l.host.as_str()) && field_ok(&self.source_type, l.source_type.as_str())
            && field_ok(&self.source_name, l.source_name.as_str()) && field_ok(
            &self.category,
            l.category.as_str(),
        ) && field_ok(&self.level, level.as_str()) && match &self.keyword {
            Some(k) => contains_ignore_ascii_case(l.message.as_str(), k.as_str()),
            None => true,
        }
    }
}

/// A live subscriber receives every log except server notices (nil id) that its filter,
/// if it set one, accepts.
pub open spec fn forwards(log: LogEvent, filter: Option<WsFilter>) -> bool {
    log.id != 0 && match filter {
        Some(f) => filter_accepts(f, log),
        None => true,
    }
}

/// Whether a live subscriber with this filter receives the log.
pub fn should_forward(log: &LogEvent, filter: Option<&WsFilter>) -> (b: bool)
    ensures
        b == forwards(*log, match filter {
            Some(f) => Some(*f),
            None => None,
        }),
{
    if log.id == 0 {
        return false;
    }
    match filter {
        Some(f) => f.matches(log),
        None => true,
    }
}

// ---------------------------------------------------------------------------
// Queries
// ---------------------------------------------------------------------------

/// The page a query asks for: at most `limit` logs (200 when unset, kept within 1..=1000)
/// after skipping `offset` (0 when unset or negative).
pub open spec fn page(limit: Option<i64>, offset: Option<i64>) -> (i64, i64) {
    let l = match limit {
        Some(x) => x,
        None => 200,
    };
    let o = match offset {
        Some(x) => x,
        None => 0,
    };
    (if l < 1 { 1 } else if l > 1000 { 1000 } else { l }, if o < 0 { 0 } else { o })
}

/// The limit and offset that a log query runs with.
pub fn page_window(limit: Option<i64>, offset: Option<i64>) -> (w: (i64, i64))
    ensures
        w == page(limit, offset),
{
    let l = match limit {
        Some(x) => x,
        None => 200,
    };
    let o = match offset {
        Some(x) => x,
        None => 0,
    };
    let l = if l < 1 {
        1
    } else if l > 1000 {
        1000
    } else {
        l
    };
    let o = if o < 0 {
        0
    } else {
        o
    };
    (l, o)
}

// ---------------------------------------------------------------------------
// Reclassification
// ---------------------------------------------------------------------------

/// The new category of a stored log: the rules' category when one applies and differs
/// from the current one.
pub fn reclassify_target(current: &str, classified: Option<String>) -> (r: Option<String>)
    ensures
        match classified {
            Some(c) => if c@ != current@ {
                r matches Some(n) && n@ == c@
            } else {
                r is None
            },
            None => r is None,
        },
{
    match classified {
        Some(c) => {
            if same_text(c.as_str(), current) {
                None
            } else {
                Some(c)
            }
        },
        None => None,
    }
}

/// The notice text of a finished reclassification that changed `updated` logs.
pub open spec fn reclassify_text(updated: nat) -> Seq<char> {
    "历史日志重新分类完成，共更新 "@ + decimal(updated) + " 条"@
}

/// The notice text of a finished reclassification.
pub fn reclassify_message(updated: u64) -> (m: String)
    ensures
        m@ == reclassify_text(updated as nat),
{
    let mut m = String::new();
    push_str(&mut m, "历史日志重新分类完成，共更新 ");
    let d = decimal_string(updated);
    push_str(&mut m, d.as_str());
    push_str(&mut m, " 条");
    assert(m@ =~= reclassify_text(updated as nat));
    m
}

/// The server notice announcing a finished reclassification.
pub fn reclassify_notice(updated: u64) -> (e: LogEvent)
    ensures
        e.id == 0,
        e.host@ == "__system__"@,
        e.source_type@ == "system"@,
        e.source_name@ == "reclassify"@,
        e.category@ == "system"@,
        e.level matches Some(l) && l@ == "info"@,
        e.message@ == reclassify_text(updated as nat),
{
    LogEvent {
        id: 0,
        host: copy_str("__system__"),
        source_type: copy_str("system"),
        source_name: copy_str("reclassify"),
        category: copy_str("system"),
        level: Some(copy_str("info")),
        message: reclassify_message(updated),
    }
}

/// A server notice (nil id), such as the one a reclassification sends, never reaches live
/// subscribers, whatever their filter.
pub proof fn lemma_notice_not_forwarded(e: LogEvent, filter: Option<WsFilter>)
    requires
        e.id == 0,
    ensures
        !forwards(e, filter),
{
}

/// A subscriber without a filter, or with the empty filter, receives every log that is
/// not a server notice.
pub proof fn lemma_empty_filter_forwards_all(e: LogEvent, f: WsFilter)
    requires
        e.id != 0,
        f.host is None,
        f.source_type is None,
        f.source_name is None,
        f.category is None,
        f.level is None,
        f.keyword is None,
    ensures
        forwards(e, None),
        forwards(e, Some(f)),
{
}

} // verus!

verus! {

/// A filter passes a log only if every field it sets equals the log's (a log without a
/// level has the empty level), and its keyword, if set, occurs in the message ignoring
/// ASCII case; a filter that sets nothing passes every log.
pub proof fn lemma_filter_requires_every_set_field(f: WsFilter, l: LogEvent)
    ensures
        filter_accepts(f, l) ==> {
            &&& (f.host matches Some(h) ==> h@ == l.host@)
            &&& (f.source_type matches Some(t) ==> t@ == l.source_type@)
            &&& (f.source_name matches Some(n) ==> n@ == l.source_name@)
            &&& (f.category matches Some(c) ==> c@ == l.category@)
            &&& (f.level matches Some(x) ==> x@ == match l.level {
                Some(y) => y@,
                None => Seq::<char>::empty(),
            })
            &&& (f.keyword matches Some(k) ==> exists|i: int|
                0 <= i && i + k@.len() <= l.message@.len() && #[trigger] lower(
                    l.message@,
                ).subrange(i, i + k@.len()) == lower(k@))
        },
        (f.host is None && f.source_type is None && f.source_name is None && f.category is None
            && f.level is None && f.keyword is None) ==> filter_accepts(f, l),
        (f.host matches Some(h) && h@ == l.host@) && (f.source_type matches Some(t) && t@
            == l.source_type@) && (f.source_name matches Some(n) && n@ == l.source_name@) && (
        f.category matches Some(c) && c@ == l.category@) && f.level is None && f.keyword is None
            ==> filter_accepts(f, l),
{
    if filter_accepts(f, l) {
        if let Some(k) = f.keyword {
            let i = choose|i: int| crate::text::occurs_at(lower(l.message@), lower(k@), i);
            assert(0 <= i && i + k@.len() <= l.message@.len() && lower(l.message@).subrange(
                i,
                i + k@.len(),
            ) == lower(k@));
        }
    }
}

/// Rules rank by signed priority, higher first, and by smaller id among equal
/// priorities; so the rule `classify` picks has the greatest priority of all rules that
/// apply.
pub proof fn lemma_rule_rank_by_priority(a: LogRule, b: LogRule)
    ensures
        a.priority > b.priority ==> outranks(a, b) && !outranks(b, a),
        a.priority == b.priority && a.id < b.id ==> outranks(a, b) && !outranks(b, a),
        !outranks(a, b) ==> a.priority <= b.priority,
        !outranks(a, a),
{
}

/// The offset of a page is the requested offset (0 when unset or negative), whatever
/// the limit; the limit is the requested one kept within 1..=1000 (200 when unset),
/// whatever the offset.
pub proof fn lemma_page_fields_independent(limit: Option<i64>, offset: Option<i64>)
    ensures
        offset matches Some(o) ==> page(limit, offset).1 == if o < 0 { 0 } else { o },
        offset is None ==> page(limit, offset).1 == 0,
        1 <= page(limit, offset).0 <= 1000,
        (limit matches Some(x) && 1 <= x <= 1000) ==> page(limit, offset).0 == limit->0,
        limit is None ==> page(limit, offset).0 == 200,
        page(limit, offset).0 == page(limit, None).0,
        page(limit, offset).1 == page(None, offset).1,
{
}

} // verus!
