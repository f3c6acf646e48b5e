//! Shaping a caller's query parameters into a store filter: paging
//! values, equality filters, `contains` and `regex` filters, the logical
//! deletion guard, and the tenant and environment scope.

use vstd::prelude::*;
use crate::document::{Document, FieldValue};
use crate::event_access::EventAccess;
use crate::headers::{has_header, header_value, Headers};
use crate::record::spec_environment_str;
use crate::text::{all_digits, dec_value, parse_u64, split_chars, string_to_vec};

verus! {

/// Key of the paging size parameter.
pub open spec fn limit_key() -> Seq<char> {
    "limit"@
}

/// Key of the paging offset parameter.
pub open spec fn skip_key() -> Seq<char> {
    "skip"@
}

/// Key of the membership filter parameter: `field,v1,v2,…`.
pub open spec fn contains_key() -> Seq<char> {
    "contains"@
}

/// Key of the pattern filter parameter: `field,pattern`.
pub open spec fn regex_key() -> Seq<char> {
    "regex"@
}

/// Field that marks logical deletion.
pub open spec fn deleted_key() -> Seq<char> {
    "deleted"@
}

/// Field that scopes a record to its tenant.
pub open spec fn ownership_key() -> Seq<char> {
    "ownership.buildableId"@
}

/// Field that scopes a record to an environment.
pub open spec fn environment_key() -> Seq<char> {
    "environment"@
}

/// Header that widens a list to both environments.
pub open spec fn dual_environment_header() -> Seq<char> {
    "x-pica-show-all-environments"@
}

/// The membership operator of the store's query language.
pub open spec fn in_operator() -> Seq<char> {
    "$in"@
}

/// The pattern operator of the store's query language.
pub open spec fn regex_operator() -> Seq<char> {
    "$regex"@
}

/// The pattern-options operator of the store's query language.
pub open spec fn options_operator() -> Seq<char> {
    "$options"@
}

/// A shaped store query: the filter plus paging.
#[derive(Debug)]
pub struct MongoQuery {
    pub filter: Document,
    pub skip: u64,
    pub limit: u64,
}

/// The number a paging parameter denotes, or `d` where it is not a
/// well-formed number.
pub open spec fn paging_value(v: Seq<char>, d: u64) -> u64 {
    if v.len() > 0 && all_digits(v) && dec_value(v) <= u64::MAX {
        dec_value(v) as u64
    } else {
        d
    }
}

/// The paging number the parameters leave in force: the last entry named
/// `k` decides; none means the default `d`.
pub open spec fn paging_of(q: Seq<(String, String)>, k: Seq<char>, d: u64) -> u64
    decreases q.len(),
{
    if q.len() == 0 {
        d
    } else if q.last().0@ == k {
        paging_value(q.last().1@, d)
    } else {
        paging_of(q.drop_last(), k, d)
    }
}

/// The field one query entry writes in the filter: plain entries write
/// their own key; `contains` and `regex` write the field their value
/// names first (a `regex` without a pattern writes nothing); paging
/// entries write nothing.
pub open spec fn effect_key(e: (String, String)) -> Option<Seq<char>> {
    if e.0@ == limit_key() || e.0@ == skip_key() {
        None
    } else if e.0@ == contains_key() {
        Some(split_chars(e.1@, ',')[0])
    } else if e.0@ == regex_key() {
        if split_chars(e.1@, ',').len() >= 2 {
            Some(split_chars(e.1@, ',')[0])
        } else {
            None
        }
    } else {
        Some(e.0@)
    }
}

/// Whether a filter value is the text `v`.
pub open spec fn text_filter_is(f: FieldValue, v: Seq<char>) -> bool {
    f matches FieldValue::Text(t) && t@ == v
}

/// Whether a filter value is what an equality parameter with text `v`
/// puts there.
pub open spec fn filter_value_matches(f: FieldValue, v: Seq<char>) -> bool {
    if v == "true"@ {
        f == FieldValue::Bool(true)
    } else if v == "false"@ {
        f == FieldValue::Bool(false)
    } else {
        text_filter_is(f, v)
    }
}

/// Whether a filter value is what one query entry writes.
pub open spec fn entry_effect_matches(f: FieldValue, e: (String, String)) -> bool {
    if e.0@ == contains_key() {
        f matches FieldValue::Doc(d) && {
            &&& d.wf()
            &&& d@.dom() =~= set![in_operator()]
            &&& (d@[in_operator()] matches FieldValue::TextList(vs) && crate::text::strings_view(
                vs@,
            ) == split_chars(e.1@, ',').subrange(1, split_chars(e.1@, ',').len() as int))
        }
    } else if e.0@ == regex_key() {
        f matches FieldValue::Doc(d) && {
            &&& d.wf()
            &&& d@.dom() =~= set![regex_operator(), options_operator()]
            &&& text_filter_is(d@[regex_operator()], split_chars(e.1@, ',')[1])
            &&& text_filter_is(d@[options_operator()], "i"@)
        }
    } else {
        filter_value_matches(f, e.1@)
    }
}

/// Whether a later entry of `q` (after `i`, before `end`) writes the
/// same field.
pub open spec fn shadowed_within(q: Seq<(String, String)>, i: int, end: int) -> bool {
    exists|j: int| i < j < end && #[trigger] effect_key(q[j]) == effect_key(q[i])
}

/// Whether a query key is overridden after the loop: the deletion guard
/// always, the tenant and environment scope when a credential is given.
pub open spec fn is_overridden_key(k: Seq<char>, has_access: bool) -> bool {
    k == deleted_key() || (has_access && (k == ownership_key() || k == environment_key()))
}

/// Shape a caller's query parameters into a store query.
///
/// Paging: `limit` (default 20, capped at the largest allowed page) and
/// `skip` (default 0), each falling back to its default when unparseable.
/// `contains` and `regex` become the store's membership and
/// case-insensitive pattern operators on the field their value names
/// first. Every other pair filters its own key for equality.
/// `deleted=false` is always enforced. With a credential, results are
/// scoped to its tenant and environment; the dual-environment header set
/// to `true` lifts the environment scope.
#[verifier::rlimit(100)]
pub fn shape_mongo_filter(
    query: Option<&Vec<(String, String)>>,
    event_access: Option<&EventAccess>,
    headers: Option<&Headers>,
) -> (r: MongoQuery)
    ensures
        r.filter.wf(),
        r.limit == {
            let asked = match query {
                Some(q) => paging_of(q@, limit_key(), 20),
                None => 20u64,
            };
            if asked > crate::MAX_LIMIT {
                crate::MAX_LIMIT as u64
            } else {
                asked
            }
        },
        r.skip == (match query {
            Some(q) => paging_of(q@, skip_key(), 0),
            None => 0,
        }),
        r.filter@.dom().contains(deleted_key()) && r.filter@[deleted_key()]
            == FieldValue::Bool(false),
        event_access matches Some(ea) ==> r.filter@.dom().contains(ownership_key())
            && text_filter_is(r.filter@[ownership_key()], ea.ownership.id@),
        (match (event_access, headers) {
            (Some(ea), Some(hs)) => if has_header(hs@, dual_environment_header()) && header_value(
                hs@,
                dual_environment_header(),
            ) == "true"@ {
                !r.filter@.dom().contains(environment_key())
            } else {
                r.filter@.dom().contains(environment_key()) && text_filter_is(
                    r.filter@[environment_key()],
                    spec_environment_str(ea.environment),
                )
            },
            (Some(ea), None) => r.filter@.dom().contains(environment_key()) && text_filter_is(
                r.filter@[environment_key()],
                spec_environment_str(ea.environment),
            ),
            (None, _) => true,
        }),
        query matches Some(q) ==> forall|i: int|
            0 <= i < q@.len() && (#[trigger] effect_key(q@[i])) is Some && !shadowed_within(
                q@,
                i,
                q@.len() as int,
            ) && !is_overridden_key(effect_key(q@[i])->0, event_access is Some)
                ==> r.filter@.dom().contains(effect_key(q@[i])->0) && entry_effect_matches(
                r.filter@[effect_key(q@[i])->0],
                q@[i],
            ),
{
    let mut filter = Document::new();
    let mut skip: u64 = 0;
    let mut limit: u64 = 20;

    match query {
        Some(q) => {
            let n = q.len();
            let mut idx: usize = 0;
            while idx < n
                invariant
                    0 <= idx <= n,
                    n == q@.len(),
                    filter.wf(),
                    limit == paging_of(q@.subrange(0, idx as int), limit_key(), 20),
                    skip == paging_of(q@.subrange(0, idx as int), skip_key(), 0),
                    forall|i: int|
                        0 <= i < idx && (#[trigger] effect_key(q@[i])) is Some && !shadowed_within(
                            q@,
                            i,
                            idx as int,
                        ) ==> filter@.dom().contains(effect_key(q@[i])->0) && entry_effect_matches(
                            filter@[effect_key(q@[i])->0],
                            q@[i],
                        ),
                decreases n - idx,
            {
                let ghost pre = filter@;
                let entry = &q[idx];
                proof {
                    assert(*entry == q@[idx as int]);
                }
                apply_query_entry(&mut filter, &mut limit, &mut skip, entry);
                proof {
                    assert(*entry == q@[idx as int]);
                    if effect_key(q@[idx as int]) is Some {
                        let k = effect_key(q@[idx as int])->0;
                        assert(filter@.dom().contains(k));
                        assert(entry_effect_matches(filter@[k], q@[idx as int]));
                        assert(forall|k2: Seq<char>|
                            k2 != k ==> ((#[trigger] filter@.dom().contains(k2))
                                <==> pre.dom().contains(k2)) && (pre.dom().contains(k2)
                                ==> filter@[k2] == pre[k2]));
                    } else {
                        assert(filter@ == pre);
                    }
                    lemma_effect_step(q@, idx as int, pre, filter@);
                    assert(q@.subrange(0, idx + 1).drop_last() =~= q@.subrange(0, idx as int));
                    assert(q@.subrange(0, idx + 1).last() == q@[idx as int]);
                }
                idx = idx + 1;
            }
            proof {
                assert(q@.subrange(0, n as int) =~= q@);
            }
        },
        None => {},
    }

    let ghost before_guard = filter@;
    filter.insert("deleted", FieldValue::Bool(false));
    proof {
        assert(filter@ == before_guard.insert("deleted"@, FieldValue::Bool(false)));
        assert("deleted"@ == deleted_key());
    }

    match event_access {
        Some(ea) => {
            filter.insert("ownership.buildableId", FieldValue::Text(ea.ownership.id.clone()));
            filter.insert("environment", FieldValue::Text(ea.environment.as_str().to_owned()));
            proof {
                reveal_strlit("ownership.buildableId");
                reveal_strlit("environment");
                reveal_strlit("deleted");
                assert("ownership.buildableId"@.len() == 21);
                assert("environment"@.len() == 11);
                assert("deleted"@.len() == 7);
            }
            match headers {
                Some(hs) => {
                    match hs.get("x-pica-show-all-environments") {
                        Some(v) => {
                            if crate::text::str_eq(v.as_str(), "true") {
                                filter.remove("environment");
                            }
                        },
                        None => {},
                    }
                },
                None => {},
            }
        },
        None => {},
    }

    let limit = crate::clamp_limit(limit);
    MongoQuery { filter, skip, limit }
}

/// Apply one query entry: update the paging values or write the entry's
/// field into the filter.
fn apply_query_entry(
    filter: &mut Document,
    limit: &mut u64,
    skip: &mut u64,
    entry: &(String, String),
)
    requires
        old(filter).wf(),
    ensures
        final(filter).wf(),
        *final(limit) == (if entry.0@ == limit_key() {
            paging_value(entry.1@, 20)
        } else {
            *old(limit)
        }),
        *final(skip) == (if entry.0@ == skip_key() {
            paging_value(entry.1@, 0)
        } else {
            *old(skip)
        }),
        effect_key(*entry) is None ==> final(filter)@ == old(filter)@,
        effect_key(*entry) is Some ==> final(filter)@.dom().contains(effect_key(*entry)->0)
            && entry_effect_matches(final(filter)@[effect_key(*entry)->0], *entry) && (forall|
            k2: Seq<char>,
        |
            k2 != effect_key(*entry)->0 ==> ((#[trigger] final(filter)@.dom().contains(k2)) <==> old(
                filter,
            )@.dom().contains(k2)) && (old(filter)@.dom().contains(k2) ==> final(filter)@[k2]
                == old(filter)@[k2])),
{
    let key = entry.0.as_str();
    let value = entry.1.as_str();
    proof {
        reveal_strlit("limit");
        reveal_strlit("skip");
        reveal_strlit("contains");
        reveal_strlit("regex");
        reveal_strlit("true");
        reveal_strlit("false");
        assert("limit"@.len() == 5);
        assert("skip"@.len() == 4);
        assert("contains"@.len() == 8);
        assert("regex"@.len() == 5);
        assert("true"@.len() == 4);
        assert("false"@.len() == 5);
        assert("limit"@ != "regex"@) by {
            assert("limit"@[0] == 'l');
            assert("regex"@[0] == 'r');
        }
    }
    if crate::text::str_eq(key, "limit") {
        *limit = match parse_u64(value) {
            Some(v) => v,
            None => 20,
        };
    } else if crate::text::str_eq(key, "skip") {
        *skip = match parse_u64(value) {
            Some(v) => v,
            None => 0,
        };
    } else if crate::text::str_eq(key, "contains") {
        let mut pieces = string_to_vec(value);
        let ghost segs = split_chars(value@, ',');
        let ghost whole = pieces@;
        proof {
            lemma_split_nonempty(value@);
            assert(whole.len() == crate::text::strings_view(whole).len());
        }
        let target = pieces.remove(0);
        proof {
            assert(target@ == segs[0]) by {
                assert(crate::text::strings_view(whole)[0] == whole[0]@);
            }
            assert(crate::text::strings_view(pieces@) =~= segs.subrange(
                1,
                segs.len() as int,
            )) by {
                assert forall|k: int|
                    0 <= k < pieces@.len() implies crate::text::strings_view(pieces@)[k] == segs[k
                    + 1] by {
                    assert(crate::text::strings_view(pieces@)[k] == pieces@[k]@);
                    assert(pieces@[k] == whole[k + 1]);
                    assert(crate::text::strings_view(whole)[k + 1] == whole[k + 1]@);
                }
            }
        }
        let mut inner = Document::new();
        inner.insert("$in", FieldValue::TextList(pieces));
        filter.insert(target.as_str(), FieldValue::Doc(inner));
        proof {
            reveal_strlit("$in");
            assert(effect_key(*entry) == Some(segs[0]));
            assert(entry_effect_matches(filter@[segs[0]], *entry));
        }
    } else if crate::text::str_eq(key, "regex") {
        let mut pieces = string_to_vec(value);
        let ghost segs = split_chars(value@, ',');
        let ghost whole = pieces@;
        proof {
            lemma_split_nonempty(value@);
            assert(whole.len() == crate::text::strings_view(whole).len());
        }
        if pieces.len() >= 2 {
            let target = pieces.remove(0);
            let element = pieces.remove(0);
            proof {
                assert(target@ == segs[0]) by {
                    assert(crate::text::strings_view(whole)[0] == whole[0]@);
                }
                assert(element@ == segs[1]) by {
                    assert(crate::text::strings_view(whole)[1] == whole[1]@);
                }
            }
            let ghost ev = element@;
            let mut inner = Document::new();
            inner.insert("$regex", FieldValue::Text(element));
            proof {
                reveal_strlit("$regex");
                reveal_strlit("$options");
                assert(text_filter_is(inner@[regex_operator()], ev));
            }
            inner.insert("$options", FieldValue::Text("i".to_owned()));
            proof {
                reveal_strlit("i");
                assert(regex_operator() != options_operator()) by {
                    reveal_strlit("$regex");
                    reveal_strlit("$options");
                    assert("$regex"@.len() == 6);
                    assert("$options"@.len() == 8);
                }
                assert(text_filter_is(inner@[options_operator()], "i"@));
                assert(text_filter_is(inner@[regex_operator()], ev));
            }
            filter.insert(target.as_str(), FieldValue::Doc(inner));
            proof {
                assert(inner@.dom() =~= set![regex_operator(), options_operator()]);
                assert(effect_key(*entry) == Some(segs[0]));
                assert(entry_effect_matches(filter@[segs[0]], *entry));
            }
        }
    } else if crate::text::str_eq(value, "true") {
        filter.insert(key, FieldValue::Bool(true));
    } else if crate::text::str_eq(value, "false") {
        filter.insert(key, FieldValue::Bool(false));
    } else {
        filter.insert(key, FieldValue::Text(entry.1.clone()));
    }
}

/// A split has at least one segment.
pub proof fn lemma_split_nonempty(s: Seq<char>)
    ensures
        split_chars(s, ',').len() >= 1,
{
    crate::text::lemma_first_index_of(s, ',');
}

/// One loop step keeps every unshadowed earlier effect in place.
proof fn lemma_effect_step(
    q: Seq<(String, String)>,
    idx: int,
    pre: Map<Seq<char>, FieldValue>,
    post: Map<Seq<char>, FieldValue>,
)
    requires
        0 <= idx < q.len(),
        forall|i: int|
            0 <= i < idx && (#[trigger] effect_key(q[i])) is Some && !shadowed_within(q, i, idx)
                ==> pre.dom().contains(effect_key(q[i])->0) && entry_effect_matches(
                pre[effect_key(q[i])->0],
                q[i],
            ),
        effect_key(q[idx]) is None ==> post == pre,
        effect_key(q[idx]) is Some ==> post.dom().contains(effect_key(q[idx])->0)
            && entry_effect_matches(post[effect_key(q[idx])->0], q[idx]) && (forall|k2: Seq<char>|
            k2 != effect_key(q[idx])->0 ==> (post.dom().contains(k2) <==> pre.dom().contains(k2))
                && (pre.dom().contains(k2) ==> post[k2] == pre[k2])),
    ensures
        forall|i: int|
            0 <= i <= idx && (#[trigger] effect_key(q[i])) is Some && !shadowed_within(
                q,
                i,
                idx + 1,
            ) ==> post.dom().contains(effect_key(q[i])->0) && entry_effect_matches(
                post[effect_key(q[i])->0],
                q[i],
            ),
{
    assert forall|i: int|
        0 <= i <= idx && (#[trigger] effect_key(q[i])) is Some && !shadowed_within(
            q,
            i,
            idx + 1,
        ) implies post.dom().contains(effect_key(q[i])->0) && entry_effect_matches(
        post[effect_key(q[i])->0],
        q[i],
    ) by {
        let k = effect_key(q[i])->0;
        if i == idx {
        } else {
            assert(!shadowed_within(q, i, idx)) by {
                if shadowed_within(q, i, idx) {
                    let j = choose|j: int| i < j < idx && #[trigger] effect_key(q[j]) == effect_key(
                        q[i],
                    );
                    assert(i < j < idx + 1);
                }
            }
            match effect_key(q[idx]) {
                Some(k2) => {
                    assert(k2 != k) by {
                        if k2 == k {
                            assert(effect_key(q[idx]) == effect_key(q[i]));
                            assert(shadowed_within(q, i, idx + 1));
                        }
                    }
                },
                None => {},
            }
        }
    }
}

} // verus!
