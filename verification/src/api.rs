//! Decisions behind the management API: the admin-password gate, the audit
//! page size, and normalisation of submitted allow patterns, plus the request
//! bodies the API accepts.

use vstd::prelude::*;
use crate::policy::{allowlist_valid, is_regex_error, PolicyError, WhitelistPolicy};
use crate::text::{is_blank, lemma_trim_idempotent, str_eq, strip_prefix, trim, trim_str};

verus! {

/// Query of the audit listing.
pub struct AuditQuery {
    pub server: Option<String>,
    pub session: Option<String>,
    pub limit: Option<i64>,
}

/// Body of a policy update.
pub struct PolicyInput {
    pub patterns: Vec<String>,
}

/// Body of a token creation.
pub struct CreateTokenInput {
    pub label: String,
}

/// Whether the `Authorization` header value `header` (absent, or not
/// readable as text: `None`) admits a request, given the admin password: it
/// must read `Bearer ` followed by the password, surrounding whitespace of
/// the password ignored.
pub open spec fn admits_admin(header: Option<Seq<char>>, password: Seq<char>) -> bool {
    match header {
        Some(h) => h.len() >= 7 && h.subrange(0, 7) == "Bearer "@ && trim(h.subrange(7, h.len() as int))
            == password,
        None => false,
    }
}

/// The view of an optional borrowed text.
pub open spec fn opt_str_view(o: Option<&str>) -> Option<Seq<char>> {
    match o {
        Some(s) => Some(s@),
        None => None,
    }
}

/// The admin-password gate of every `/api` request.
pub fn admin_authorized(header: Option<&str>, password: &str) -> (r: bool)
    ensures
        r == admits_admin(opt_str_view(header), password@),
{
    proof {
        reveal_strlit("Bearer ");
    }
    match header {
        Some(h) => match strip_prefix(h, "Bearer ") {
            Some(rest) => {
                let presented = trim_str(rest.as_str());
                proof {
                    assert(rest@ =~= h@.subrange(7, h@.len() as int));
                }
                str_eq(presented.as_str(), password)
            },
            None => false,
        },
        None => false,
    }
}

/// The page size used for the audit listing: the requested limit, 100 by
/// default, clamped into `1..=1000`.
pub open spec fn audit_page_size(limit: Option<i64>) -> i64 {
    let l = match limit {
        Some(l) => l,
        None => 100,
    };
    if l < 1 {
        1
    } else if l > 1000 {
        1000
    } else {
        l
    }
}

/// The page size of an audit query.
pub fn audit_limit(limit: Option<i64>) -> (r: i64)
    ensures
        r == audit_page_size(limit),
        1 <= r <= 1000,
{
    let l = match limit {
        Some(l) => l,
        None => 100,
    };
    if l < 1 {
        1
    } else if l > 1000 {
        1000
    } else {
        l
    }
}

/// Submitted patterns, each trimmed, blank ones dropped, order kept.
pub open spec fn normalized(patterns: Seq<Seq<char>>) -> Seq<Seq<char>>
    decreases patterns.len(),
{
    if patterns.len() == 0 {
        Seq::empty()
    } else {
        let rest = normalized(patterns.drop_last());
        let t = trim(patterns.last());
        if t.len() > 0 {
            rest.push(t)
        } else {
            rest
        }
    }
}

/// Normalise submitted allow patterns before they are validated and stored.
pub fn normalize_patterns(patterns: Vec<String>) -> (r: Vec<String>)
    ensures
        r.deep_view() == normalized(patterns.deep_view()),
{
    let mut out: Vec<String> = Vec::new();
    let n = patterns.len();
    let mut i: usize = 0;
    while i < n
        invariant
            n == patterns@.len(),
            i <= n,
            out.deep_view() == normalized(patterns.deep_view().subrange(0, i as int)),
        decreases n - i,
    {
        let t = trim_str(patterns[i].as_str());
        proof {
            let pre = patterns.deep_view().subrange(0, i + 1);
            assert(pre.drop_last() =~= patterns.deep_view().subrange(0, i as int));
            assert(pre.last() == patterns@[i as int]@);
        }
        if t.as_str().unicode_len() > 0 {
            let ghost before = out.deep_view();
            out.push(t);
            assert(out.deep_view() =~= before.push(t@));
        }
        i = i + 1;
    }
    assert(patterns.deep_view().subrange(0, n as int) =~= patterns.deep_view());
    out
}

/// Apply a policy update: the submitted patterns are normalised, validated
/// and swapped into the live allowlist. On success the normalised list is
/// returned (to be persisted); on error the live list is left untouched.
pub fn set_policy(policy: &mut WhitelistPolicy, input: PolicyInput) -> (r: Result<
    Vec<String>,
    PolicyError,
>)
    ensures
        r is Ok <==> allowlist_valid(normalized(input.patterns.deep_view())),
        r matches Ok(ps) ==> ps.deep_view() == normalized(input.patterns.deep_view())
            && final(policy)@ == ps.deep_view(),
        r is Err ==> final(policy)@ == old(policy)@,
        r matches Err(e) ==> is_regex_error(e, normalized(input.patterns.deep_view())),
{
    let patterns = normalize_patterns(input.patterns);
    let stored = clone_patterns(&patterns);
    policy.reload(patterns)?;
    Ok(stored)
}

fn clone_patterns(ps: &Vec<String>) -> (r: Vec<String>)
    ensures
        r.deep_view() == ps.deep_view(),
{
    let mut out: Vec<String> = Vec::new();
    let mut i: usize = 0;
    while i < ps.len()
        invariant
            i <= ps@.len(),
            out@.len() == i,
            forall|k: int| 0 <= k < i ==> #[trigger] out@[k]@ == ps@[k]@,
        decreases ps@.len() - i,
    {
        out.push(ps[i].clone());
        i = i + 1;
    }
    assert(out.deep_view() =~= ps.deep_view());
    out
}

/// Every normalised pattern is trimmed and non-blank, and normalising again
/// changes nothing.
pub proof fn law_normalized_patterns(patterns: Seq<Seq<char>>)
    ensures
        forall|k: int|
            0 <= k < normalized(patterns).len() ==> #[trigger] normalized(patterns)[k] == trim(
                normalized(patterns)[k],
            ) && !is_blank(normalized(patterns)[k]),
        normalized(normalized(patterns)) == normalized(patterns),
    decreases patterns.len(),
{
    if patterns.len() > 0 {
        let rest = patterns.drop_last();
        law_normalized_patterns(rest);
        let t = trim(patterns.last());
        lemma_trim_idempotent(patterns.last());
        let n = normalized(patterns);
        if t.len() > 0 {
            assert(n.drop_last() =~= normalized(rest));
            assert(normalized(n) == normalized(n.drop_last()).push(trim(n.last())));
        }
    }
}

/// Normalisation keeps every non-blank pattern, trimmed, in order, and
/// nothing else: it is the submitted list filtered to its non-blank patterns,
/// each trimmed. In particular a single non-blank pattern `p` gives
/// `[trim(p)]`.
pub proof fn law_normalized_keeps_non_blank(patterns: Seq<Seq<char>>)
    ensures
        normalized(patterns) == patterns.filter(|p: Seq<char>| !is_blank(p)).map_values(
            |p: Seq<char>| trim(p),
        ),
        normalized(patterns).len() == patterns.filter(|p: Seq<char>| !is_blank(p)).len(),
        patterns.len() == 1 && !is_blank(patterns[0]) ==> normalized(patterns) == seq![
            trim(patterns[0]),
        ],
    decreases patterns.len(),
{
    let keep = |p: Seq<char>| !is_blank(p);
    let tr = |p: Seq<char>| trim(p);
    reveal_with_fuel(Seq::<_>::filter, 1);
    if patterns.len() > 0 {
        let rest = patterns.drop_last();
        law_normalized_keeps_non_blank(rest);
        let f = rest.filter(keep);
        if keep(patterns.last()) {
            assert(f.push(patterns.last()).map_values(tr) =~= f.map_values(tr).push(
                trim(patterns.last()),
            ));
        }
        assert(normalized(patterns) =~= patterns.filter(keep).map_values(tr));
    } else {
        assert(normalized(patterns) =~= patterns.filter(keep).map_values(tr));
    }
}

/// A header passes the admin gate exactly when it reads `Bearer ` and then
/// text whose trim equals the admin password; no condition is put on the
/// password itself, so `Bearer ` followed by any trimmed password passes.
pub proof fn law_admin_gate(header: Seq<char>, password: Seq<char>)
    ensures
        trim(password) == password ==> admits_admin(Some("Bearer "@ + password), password),
        admits_admin(Some(header), password) <==> exists|rest: Seq<char>|
            header == "Bearer "@ + rest && #[trigger] trim(rest) == password,
{
    reveal_strlit("Bearer ");
    let b = "Bearer "@;
    let h = b + password;
    assert(h.subrange(0, 7) =~= b);
    assert(h.subrange(7, h.len() as int) =~= password);
    if admits_admin(Some(header), password) {
        let rest = header.subrange(7, header.len() as int);
        assert(header =~= b + rest);
        assert(trim(rest) == password);
    }
    if exists|rest: Seq<char>| header == b + rest && #[trigger] trim(rest) == password {
        let rest = choose|rest: Seq<char>| header == b + rest && #[trigger] trim(rest) == password;
        assert(header.subrange(0, 7) =~= b);
        assert(header.subrange(7, header.len() as int) =~= rest);
    }
}

/// A requested limit inside `1..=1000` is used as is; without a limit the
/// page holds 100 rows; the page size never decreases as the requested limit
/// grows, and always lies in `1..=1000`.
pub proof fn law_audit_page_size(l: i64, m: i64)
    ensures
        1 <= l <= 1000 ==> audit_page_size(Some(l)) == l,
        audit_page_size(None) == 100,
        l <= m ==> audit_page_size(Some(l)) <= audit_page_size(Some(m)),
        1 <= audit_page_size(Some(l)) <= 1000,
        l < 1 ==> audit_page_size(Some(l)) == 1,
        l > 1000 ==> audit_page_size(Some(l)) == 1000,
{
}

} // verus!
