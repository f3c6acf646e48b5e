//! Usage metrics: one per passthrough call, unified call or rate-limit
//! hit. Each metric increments six counters in the tenant's metric
//! document; `createdAt` is written only on insert.

use vstd::prelude::*;
use std::sync::Arc;
use crate::connection::Connection;
use crate::destination::Action;
use crate::event_access::EventAccess;
use crate::external::{utc_instant_wf, utc_now, UtcInstant};
use crate::record::Ownership;
use crate::text::{dec_chars, pad2_chars, strings_view, u64_to_string, u64_to_string_pad2};

verus! {

/// What kind of call a metric records.
#[derive(Debug, Clone)]
pub enum MetricType {
    Passthrough(Arc<Connection>),
    Unified(Arc<Connection>),
    RateLimited(Arc<EventAccess>, Option<String>),
}

/// The word a metric kind writes its counters under.
pub open spec fn spec_metric_type_str(t: MetricType) -> Seq<char> {
    match t {
        MetricType::Passthrough(_) => "passthrough"@,
        MetricType::Unified(_) => "unified"@,
        MetricType::RateLimited(_, _) => "ratelimited"@,
    }
}

impl MetricType {
    /// The name under which the analytics tracker sees this kind.
    pub fn event_name(&self) -> (r: &'static str)
        ensures
            r@ == spec_event_name(*self),
    {
        match self {
            MetricType::Passthrough(_) => "Called Passthrough API",
            MetricType::Unified(_) => "Called Unified API",
            MetricType::RateLimited(_, _) => "Reached Rate Limit",
        }
    }
}

/// The tracker-facing name of a metric kind.
pub open spec fn spec_event_name(t: MetricType) -> Seq<char> {
    match t {
        MetricType::Passthrough(_) => "Called Passthrough API"@,
        MetricType::Unified(_) => "Called Unified API"@,
        MetricType::RateLimited(_, _) => "Reached Rate Limit"@,
    }
}

/// One recorded call, stamped with the UTC date its counters are keyed by.
#[derive(Debug, Clone)]
pub struct Metric {
    pub metric_type: MetricType,
    pub date: UtcInstant,
    pub action: Option<Action>,
}

/// The `YYYY-MM-DD` key of a date.
pub open spec fn daily_chars(d: UtcInstant) -> Seq<char> {
    dec_chars(d.year as int) + "-"@ + pad2_chars(d.month as int) + "-"@ + pad2_chars(d.day as int)
}

/// The `YYYY-MM` key of a date.
pub open spec fn monthly_chars(d: UtcInstant) -> Seq<char> {
    dec_chars(d.year as int) + "-"@ + pad2_chars(d.month as int)
}

/// The six counter keys one metric increments: the kind's total, the
/// platform's total, and the daily and monthly forms of both.
pub open spec fn spec_inc_keys(t: Seq<char>, p: Seq<char>, d: UtcInstant) -> Seq<Seq<char>> {
    seq![
        t + ".total"@,
        t + ".platforms."@ + p + ".total"@,
        t + ".daily."@ + daily_chars(d),
        t + ".platforms."@ + p + ".daily."@ + daily_chars(d),
        t + ".monthly."@ + monthly_chars(d),
        t + ".platforms."@ + p + ".monthly."@ + monthly_chars(d),
    ]
}

/// The update one metric makes to a metric document: six counter
/// increments, and the creation stamp written only on insert.
#[derive(Debug)]
pub struct UpdateDoc {
    pub inc_keys: Vec<String>,
    pub created_at: i64,
}

impl Metric {
    /// A metric for one passthrough call, stamped now.
    pub fn passthrough(connection: Arc<Connection>) -> (r: Metric)
        ensures
            r.metric_type matches MetricType::Passthrough(c) && c == connection,
            r.action is None,
            utc_instant_wf(r.date),
    {
        Metric { metric_type: MetricType::Passthrough(connection), date: utc_now(), action: None }
    }

    /// A metric for one unified call, stamped now.
    pub fn unified(connection: Arc<Connection>, action: Action) -> (r: Metric)
        ensures
            r.metric_type matches MetricType::Unified(c) && c == connection,
            r.action matches Some(a) && a == action,
            utc_instant_wf(r.date),
    {
        Metric {
            metric_type: MetricType::Unified(connection),
            date: utc_now(),
            action: Some(action),
        }
    }

    /// A metric for one rate-limited request, stamped now.
    pub fn rate_limited(event_access: Arc<EventAccess>, key: Option<String>) -> (r: Metric)
        ensures
            r.metric_type matches MetricType::RateLimited(ea, k) && ea == event_access && k
                == key,
            r.action is None,
            utc_instant_wf(r.date),
    {
        Metric {
            metric_type: MetricType::RateLimited(event_access, key),
            date: utc_now(),
            action: None,
        }
    }

    /// Whether this metric records a passthrough call.
    pub fn is_passthrough(&self) -> (r: bool)
        ensures
            r == (self.metric_type is Passthrough),
    {
        match self.metric_type {
            MetricType::Passthrough(_) => true,
            _ => false,
        }
    }

    /// The tenant the metric belongs to.
    pub fn ownership<'a>(&'a self) -> (r: &'a Ownership)
        ensures
            *r == spec_ownership(*self),
    {
        match &self.metric_type {
            MetricType::Passthrough(c) => &c.ownership,
            MetricType::Unified(c) => &c.ownership,
            MetricType::RateLimited(e, _) => &e.ownership,
        }
    }

    /// The platform the call addressed.
    pub fn platform<'a>(&'a self) -> (r: &'a String)
        ensures
            r@ == spec_platform(*self),
    {
        match &self.metric_type {
            MetricType::Passthrough(c) => &c.platform,
            MetricType::Unified(c) => &c.platform,
            MetricType::RateLimited(e, _) => &e.platform,
        }
    }

    /// The update this metric makes to a metric document: exactly the six
    /// counter keys, in order, and the date's millisecond stamp for
    /// insertion time.
    pub fn update_doc(&self) -> (r: UpdateDoc)
        requires
            utc_instant_wf(self.date),
        ensures
            strings_view(r.inc_keys@) == spec_inc_keys(
                spec_metric_type_str(self.metric_type),
                spec_platform(*self),
                self.date,
            ),
            r.created_at == self.date.millis,
    {
        let t: &str = match &self.metric_type {
            MetricType::Passthrough(_) => "passthrough",
            MetricType::Unified(_) => "unified",
            MetricType::RateLimited(_, _) => "ratelimited",
        };
        let platform = self.platform();

        let year = u64_to_string(self.date.year as u64);
        let month = u64_to_string_pad2(self.date.month);
        let day = u64_to_string_pad2(self.date.day);

        let mut daily = year.clone();
        daily.append("-");
        daily.append(month.as_str());
        daily.append("-");
        daily.append(day.as_str());

        let mut monthly = year.clone();
        monthly.append("-");
        monthly.append(month.as_str());

        proof {
            assert(daily@ == daily_chars(self.date));
            assert(monthly@ == monthly_chars(self.date));
        }

        let mut keys: Vec<String> = Vec::new();

        let mut k1 = t.to_owned();
        k1.append(".total");
        keys.push(k1);

        let mut k2 = t.to_owned();
        k2.append(".platforms.");
        k2.append(platform.as_str());
        k2.append(".total");
        keys.push(k2);

        let mut k3 = t.to_owned();
        k3.append(".daily.");
        k3.append(daily.as_str());
        keys.push(k3);

        let mut k4 = t.to_owned();
        k4.append(".platforms.");
        k4.append(platform.as_str());
        k4.append(".daily.");
        k4.append(daily.as_str());
        keys.push(k4);

        let mut k5 = t.to_owned();
        k5.append(".monthly.");
        k5.append(monthly.as_str());
        keys.push(k5);

        let mut k6 = t.to_owned();
        k6.append(".platforms.");
        k6.append(platform.as_str());
        k6.append(".monthly.");
        k6.append(monthly.as_str());
        keys.push(k6);

        proof {
            assert(strings_view(keys@) =~= spec_inc_keys(
                spec_metric_type_str(self.metric_type),
                spec_platform(*self),
                self.date,
            ));
        }

        UpdateDoc { inc_keys: keys, created_at: self.date.millis }
    }
}

/// The tenant a metric belongs to.
pub open spec fn spec_ownership(m: Metric) -> Ownership {
    match m.metric_type {
        MetricType::Passthrough(c) => c.ownership,
        MetricType::Unified(c) => c.ownership,
        MetricType::RateLimited(e, _) => e.ownership,
    }
}

/// The platform a metric addressed.
pub open spec fn spec_platform(m: Metric) -> Seq<char> {
    match m.metric_type {
        MetricType::Passthrough(c) => c.platform@,
        MetricType::Unified(c) => c.platform@,
        MetricType::RateLimited(e, _) => e.platform@,
    }
}

/// A metric document as the store holds it: counters by key, and the
/// stamp of the insert that created it.
pub struct MetricDoc {
    pub counters: Map<Seq<char>, int>,
    pub created_at: Option<i64>,
}

/// The value of one counter; an absent counter counts as zero.
pub open spec fn counter_of(doc: MetricDoc, k: Seq<char>) -> int {
    if doc.counters.dom().contains(k) {
        doc.counters[k]
    } else {
        0
    }
}

/// Increment one counter.
pub open spec fn bump(m: Map<Seq<char>, int>, k: Seq<char>) -> Map<Seq<char>, int> {
    m.insert(
        k,
        (if m.dom().contains(k) {
            m[k]
        } else {
            0
        }) + 1,
    )
}

/// Increment a list of counters, one bump per occurrence.
pub open spec fn bump_all(m: Map<Seq<char>, int>, keys: Seq<Seq<char>>) -> Map<Seq<char>, int>
    decreases keys.len(),
{
    if keys.len() == 0 {
        m
    } else {
        bump(bump_all(m, keys.drop_last()), keys.last())
    }
}

/// How often a key occurs in a list of keys.
pub open spec fn key_count(keys: Seq<Seq<char>>, k: Seq<char>) -> int
    decreases keys.len(),
{
    if keys.len() == 0 {
        0
    } else {
        key_count(keys.drop_last(), k) + (if keys.last() == k {
            1int
        } else {
            0int
        })
    }
}

/// Applying one update: every listed counter goes up by one occurrence,
/// and `created_at` is written only where none was set.
pub open spec fn apply_update(doc: MetricDoc, keys: Seq<Seq<char>>, millis: i64) -> MetricDoc {
    MetricDoc {
        counters: bump_all(doc.counters, keys),
        created_at: if doc.created_at is None {
            Some(millis)
        } else {
            doc.created_at
        },
    }
}

/// Applying the same update `n` times over.
pub open spec fn apply_update_n(doc: MetricDoc, keys: Seq<Seq<char>>, millis: i64, n: nat) -> MetricDoc
    decreases n,
{
    if n == 0 {
        doc
    } else {
        apply_update(apply_update_n(doc, keys, millis, (n - 1) as nat), keys, millis)
    }
}

/// One update moves each counter by exactly its occurrence count.
pub proof fn lemma_bump_all_count(m: Map<Seq<char>, int>, keys: Seq<Seq<char>>, k: Seq<char>)
    ensures
        counter_of(MetricDoc { counters: bump_all(m, keys), created_at: None }, k) == counter_of(
            MetricDoc { counters: m, created_at: None },
            k,
        ) + key_count(keys, k),
    decreases keys.len(),
{
    if keys.len() > 0 {
        lemma_bump_all_count(m, keys.drop_last(), k);
    }
}

/// The counter key holding a metric kind's overall total.
pub open spec fn type_total_key(t: Seq<char>) -> Seq<char> {
    t + ".total"@
}

/// The counter key holding a metric kind's total for one platform.
pub open spec fn platform_total_key(t: Seq<char>, p: Seq<char>) -> Seq<char> {
    t + ".platforms."@ + p + ".total"@
}

/// A list of six keys counts a key once per equal member.
proof fn lemma_key_count6(keys: Seq<Seq<char>>, k: Seq<char>)
    requires
        keys.len() == 6,
    ensures
        key_count(keys, k) == (if keys[0] == k {
            1int
        } else {
            0int
        }) + (if keys[1] == k {
            1int
        } else {
            0int
        }) + (if keys[2] == k {
            1int
        } else {
            0int
        }) + (if keys[3] == k {
            1int
        } else {
            0int
        }) + (if keys[4] == k {
            1int
        } else {
            0int
        }) + (if keys[5] == k {
            1int
        } else {
            0int
        }),
{
    let d5 = keys.drop_last();
    let d4 = d5.drop_last();
    let d3 = d4.drop_last();
    let d2 = d3.drop_last();
    let d1 = d2.drop_last();
    let d0 = d1.drop_last();
    assert(keys.last() == keys[5] && d5.last() == keys[4] && d4.last() == keys[3] && d3.last()
        == keys[2] && d2.last() == keys[1] && d1.last() == keys[0]);
    assert(d0.len() == 0);
    assert(key_count(d0, k) == 0);
    assert(key_count(d1, k) == key_count(d0, k) + (if keys[0] == k {
        1int
    } else {
        0int
    }));
    assert(key_count(d2, k) == key_count(d1, k) + (if keys[1] == k {
        1int
    } else {
        0int
    }));
    assert(key_count(d3, k) == key_count(d2, k) + (if keys[2] == k {
        1int
    } else {
        0int
    }));
    assert(key_count(d4, k) == key_count(d3, k) + (if keys[3] == k {
        1int
    } else {
        0int
    }));
    assert(key_count(d5, k) == key_count(d4, k) + (if keys[4] == k {
        1int
    } else {
        0int
    }));
    assert(key_count(keys, k) == key_count(d5, k) + (if keys[5] == k {
        1int
    } else {
        0int
    }));
}

/// Character facts about the fixed parts of the six keys.
proof fn lemma_key_part_chars()
    ensures
        ".total"@.len() == 6,
        ".total"@[1] == 't',
        ".total"@[5] == 'l',
        ".platforms."@.len() == 11,
        ".platforms."@[1] == 'p',
        ".daily."@.len() == 7,
        ".daily."@[1] == 'd',
        ".monthly."@.len() == 9,
        ".monthly."@[1] == 'm',
{
    reveal_strlit(".total");
    reveal_strlit(".platforms.");
    reveal_strlit(".daily.");
    reveal_strlit(".monthly.");
}

/// Every decimal digit character is a digit, not a letter.
proof fn lemma_digit_char_range(d: int)
    ensures
        '0' <= crate::text::digit_char(d) <= '9',
{
}

/// The last character of a date's daily and monthly keys is a digit.
proof fn lemma_date_key_last(d: UtcInstant)
    requires
        utc_instant_wf(d),
    ensures
        daily_chars(d).len() > 0,
        '0' <= daily_chars(d).last() <= '9',
        monthly_chars(d).len() > 0,
        '0' <= monthly_chars(d).last() <= '9',
{
    reveal_strlit("-");
    lemma_digit_char_range(d.day as int % 10);
    lemma_digit_char_range(d.day as int);
    lemma_digit_char_range(d.month as int % 10);
    lemma_digit_char_range(d.month as int);
    assert(daily_chars(d).last() == pad2_chars(d.day as int).last());
    assert(monthly_chars(d).last() == pad2_chars(d.month as int).last());
}

/// One metric's six keys hold its kind's overall total key exactly once.
pub proof fn lemma_inc_keys_total_count(t: Seq<char>, p: Seq<char>, d: UtcInstant)
    ensures
        key_count(spec_inc_keys(t, p, d), type_total_key(t)) == 1,
{
    lemma_key_part_chars();
    let key = type_total_key(t);
    let keys = spec_inc_keys(t, p, d);
    lemma_key_count6(keys, key);
    assert(keys[0] == key);
    assert(key[t.len() as int + 1] == 't');
    assert(keys[1] != key) by {
        assert(keys[1][t.len() as int + 1] == 'p');
    }
    assert(keys[2] != key) by {
        assert(keys[2][t.len() as int + 1] == 'd');
    }
    assert(keys[3] != key) by {
        assert(keys[3][t.len() as int + 1] == 'p');
    }
    assert(keys[4] != key) by {
        assert(keys[4][t.len() as int + 1] == 'm');
    }
    assert(keys[5] != key) by {
        assert(keys[5][t.len() as int + 1] == 'p');
    }
}

/// One metric's six keys hold a platform's total key exactly once for its
/// own platform and never for another.
pub proof fn lemma_inc_keys_platform_count(t: Seq<char>, own: Seq<char>, p: Seq<char>, d: UtcInstant)
    requires
        utc_instant_wf(d),
    ensures
        key_count(spec_inc_keys(t, own, d), platform_total_key(t, p)) == (if own == p {
            1int
        } else {
            0int
        }),
{
    lemma_key_part_chars();
    lemma_date_key_last(d);
    let key = platform_total_key(t, p);
    let keys = spec_inc_keys(t, own, d);
    lemma_key_count6(keys, key);
    assert(key[t.len() as int + 1] == 'p');
    assert(keys[0] != key) by {
        assert(keys[0][t.len() as int + 1] == 't');
    }
    assert(keys[2] != key) by {
        assert(keys[2][t.len() as int + 1] == 'd');
    }
    assert(keys[4] != key) by {
        assert(keys[4][t.len() as int + 1] == 'm');
    }
    if own == p {
        assert(keys[1] == key);
    } else {
        assert(keys[1] != key) by {
            if keys[1] == key {
                assert(keys[1].len() == key.len());
                assert(own.len() == p.len());
                assert(own =~= p) by {
                    assert(forall|j: int|
                        0 <= j < own.len() ==> #[trigger] own[j] == keys[1][t.len() + 11 + j]
                            && p[j] == key[t.len() + 11 + j]);
                }
            }
        }
    }
    assert(keys[3] != key) by {
        if keys[3] == key {
            assert(keys[3].last() == daily_chars(d).last());
            assert(key.last() == 'l');
        }
    }
    assert(keys[5] != key) by {
        if keys[5] == key {
            assert(keys[5].last() == monthly_chars(d).last());
            assert(key.last() == 'l');
        }
    }
}

/// A run of passthrough calls, each on its platform at its instant.
pub open spec fn apply_passthroughs(doc: MetricDoc, ms: Seq<(Seq<char>, UtcInstant)>) -> MetricDoc
    decreases ms.len(),
{
    if ms.len() == 0 {
        doc
    } else {
        apply_update(
            apply_passthroughs(doc, ms.drop_last()),
            spec_inc_keys("passthrough"@, ms.last().0, ms.last().1),
            ms.last().1.millis,
        )
    }
}

/// How many of a run's calls addressed platform `p`.
pub open spec fn count_platform(ms: Seq<(Seq<char>, UtcInstant)>, p: Seq<char>) -> int
    decreases ms.len(),
{
    if ms.len() == 0 {
        0
    } else {
        count_platform(ms.drop_last(), p) + (if ms.last().0 == p {
            1int
        } else {
            0int
        })
    }
}

/// After any run of passthrough calls under one credential, the metric
/// document's overall passthrough total grew by exactly the number of
/// calls, and each platform's passthrough total by exactly the number of
/// calls that addressed it.
pub proof fn lemma_passthrough_document_counts(
    doc: MetricDoc,
    ms: Seq<(Seq<char>, UtcInstant)>,
    p: Seq<char>,
)
    requires
        forall|i: int| 0 <= i < ms.len() ==> utc_instant_wf((#[trigger] ms[i]).1),
    ensures
        counter_of(apply_passthroughs(doc, ms), type_total_key("passthrough"@)) == counter_of(
            doc,
            type_total_key("passthrough"@),
        ) + ms.len(),
        counter_of(apply_passthroughs(doc, ms), platform_total_key("passthrough"@, p))
            == counter_of(doc, platform_total_key("passthrough"@, p)) + count_platform(ms, p),
    decreases ms.len(),
{
    if ms.len() > 0 {
        assert(forall|i: int|
            0 <= i < ms.len() - 1 ==> (#[trigger] ms.drop_last()[i]) == ms[i]);
        lemma_passthrough_document_counts(doc, ms.drop_last(), p);
        let prev = apply_passthroughs(doc, ms.drop_last());
        let keys = spec_inc_keys("passthrough"@, ms.last().0, ms.last().1);
        lemma_bump_all_count(prev.counters, keys, type_total_key("passthrough"@));
        lemma_bump_all_count(prev.counters, keys, platform_total_key("passthrough"@, p));
        lemma_inc_keys_total_count("passthrough"@, ms.last().0, ms.last().1);
        assert(ms[ms.len() - 1] == ms.last());
        lemma_inc_keys_platform_count("passthrough"@, ms.last().0, p, ms.last().1);
    }
}

/// Replaying the same metric update `n` times increments each of its
/// counters by exactly `n` times the key's occurrence count, and never
/// overwrites the creation stamp: after the first replay it stays what
/// the first insert set.
pub proof fn lemma_metric_replay(
    doc: MetricDoc,
    keys: Seq<Seq<char>>,
    millis: i64,
    n: nat,
    k: Seq<char>,
)
    ensures
        counter_of(apply_update_n(doc, keys, millis, n), k) == counter_of(doc, k) + n * key_count(
            keys,
            k,
        ),
        n > 0 ==> apply_update_n(doc, keys, millis, n).created_at == (if doc.created_at is None {
            Some(millis)
        } else {
            doc.created_at
        }),
    decreases n,
{
    if n == 0 {
    } else {
        lemma_metric_replay(doc, keys, millis, (n - 1) as nat, k);
        let prev = apply_update_n(doc, keys, millis, (n - 1) as nat);
        lemma_bump_all_count(prev.counters, keys, k);
        assert(counter_of(apply_update_n(doc, keys, millis, n), k) == counter_of(prev, k)
            + key_count(keys, k));
        assert(n * key_count(keys, k) == (n - 1) * key_count(keys, k) + key_count(keys, k))
            by (nonlinear_arith);
    }
}

} // verus!
