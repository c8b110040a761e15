//! Registry-wide laws.
//!
//! These proof functions state the properties the registry guarantees across
//! commands, over the same spec model the handlers' contracts use. The
//! handlers also rely on them to maintain the invariant.

use crate::contract::{
    authorized, register_effect, register_ok, set_owner_effect, unregister_effect,
};
use crate::error::ContractError;
use crate::msg::Response;
use crate::state::{
    code_taken, entries_unique, entry_has_code, entry_has_version, entry_matches_pair, latest_reg,
    lemma_code_unique_entry, lemma_version_unique_entry, owner_is, regs_for, version_taken,
    RegEntry, Registration, Registry,
};
use vstd::prelude::*;

verus! {

/// Law: inserting a registration whose code id is free on its chain and whose
/// version is free under its `(name, chain_id)` pair keeps live code ids and
/// versions unique.
pub proof fn lemma_unique_push(s: Seq<RegEntry>, e: RegEntry)
    requires
        entries_unique(s),
        !code_taken(s, e.chain_id@, e.registration.code_id),
        !version_taken(s, e.name@, e.chain_id@, e.registration.version@),
    ensures
        entries_unique(s.push(e)),
{
    let s2 = s.push(e);
    assert forall|i: int, j: int| 0 <= i < j < s2.len() implies !(s2[i].chain_id@
        == s2[j].chain_id@ && s2[i].registration.code_id == s2[j].registration.code_id) && !(
    s2[i].name@ == s2[j].name@ && s2[i].chain_id@ == s2[j].chain_id@
        && s2[i].registration.version@ == s2[j].registration.version@) by {
        if j < s.len() {
            assert(s2[i] == s[i] && s2[j] == s[j]);
            assert(!(s[i].chain_id@ == s[j].chain_id@ && s[i].registration.code_id
                == s[j].registration.code_id));
        } else {
            assert(s2[j] == e && s2[i] == s[i]);
            if s[i].chain_id@ == e.chain_id@ && s[i].registration.code_id
                == e.registration.code_id {
                assert(entry_has_code(s[i], e.chain_id@, e.registration.code_id));
                assert(false);
            }
            if s[i].name@ == e.name@ && s[i].chain_id@ == e.chain_id@
                && s[i].registration.version@ == e.registration.version@ {
                assert(entry_has_version(s[i], e.name@, e.chain_id@, e.registration.version@));
                assert(false);
            }
        }
    }
}

/// Law: removing a registration keeps live code ids and versions unique, and
/// frees both the removed code id and the removed version for immediate
/// re-registration — no stale index entry blocks them.
pub proof fn lemma_remove_frees_entry(s: Seq<RegEntry>, i: int)
    requires
        entries_unique(s),
        0 <= i < s.len(),
    ensures
        entries_unique(s.remove(i)),
        !code_taken(s.remove(i), s[i].chain_id@, s[i].registration.code_id),
        !version_taken(s.remove(i), s[i].name@, s[i].chain_id@, s[i].registration.version@),
{
    let s2 = s.remove(i);
    assert forall|p: int, q: int| 0 <= p < q < s2.len() implies !(s2[p].chain_id@
        == s2[q].chain_id@ && s2[p].registration.code_id == s2[q].registration.code_id) && !(
    s2[p].name@ == s2[q].name@ && s2[p].chain_id@ == s2[q].chain_id@
        && s2[p].registration.version@ == s2[q].registration.version@) by {
        let p0 = if p < i { p } else { p + 1 };
        let q0 = if q < i { q } else { q + 1 };
        assert(s2[p] == s[p0] && s2[q] == s[q0]);
        assert(!(s[p0].chain_id@ == s[q0].chain_id@ && s[p0].registration.code_id
            == s[q0].registration.code_id));
    }
    assert forall|j: int| 0 <= j < s2.len() implies !entry_has_code(
        s2[j],
        s[i].chain_id@,
        s[i].registration.code_id,
    ) by {
        let j0 = if j < i { j } else { j + 1 };
        assert(s2[j] == s[j0]);
        if j0 < i {
            assert(!(s[j0].chain_id@ == s[i].chain_id@ && s[j0].registration.code_id
                == s[i].registration.code_id));
        } else {
            assert(!(s[i].chain_id@ == s[j0].chain_id@ && s[i].registration.code_id
                == s[j0].registration.code_id));
        }
    }
    assert forall|j: int| 0 <= j < s2.len() implies !entry_has_version(
        s2[j],
        s[i].name@,
        s[i].chain_id@,
        s[i].registration.version@,
    ) by {
        let j0 = if j < i { j } else { j + 1 };
        assert(s2[j] == s[j0]);
        if j0 < i {
            assert(!(s[j0].name@ == s[i].name@ && s[j0].chain_id@ == s[i].chain_id@
                && s[j0].registration.version@ == s[i].registration.version@));
        } else {
            assert(!(s[i].name@ == s[j0].name@ && s[i].chain_id@ == s[j0].chain_id@
                && s[i].registration.version@ == s[j0].registration.version@));
        }
    }
}

/// Law: a freshly inserted registration is the latest one for its pair.
pub proof fn lemma_latest_after_push(s: Seq<RegEntry>, e: RegEntry)
    ensures
        latest_reg(s.push(e), e.name@, e.chain_id@) == Some(e.registration),
{
    assert(s.push(e).last() == e);
    assert(entry_matches_pair(e, e.name@, e.chain_id@));
}


/// Law: in a well-formed registry, no two live registrations on one chain
/// share a code id, and no two live registrations under one
/// `(name, chain_id)` pair share a version.
pub proof fn lemma_live_uniqueness(r: Registry, i: int, j: int)
    requires
        r.wf(),
        0 <= i < r.entries@.len(),
        0 <= j < r.entries@.len(),
        i != j,
    ensures
        r.entries@[i].chain_id@ == r.entries@[j].chain_id@ ==> r.entries@[i].registration.code_id
            != r.entries@[j].registration.code_id,
        r.entries@[i].name@ == r.entries@[j].name@ && r.entries@[i].chain_id@
            == r.entries@[j].chain_id@ ==> r.entries@[i].registration.version@
            != r.entries@[j].registration.version@,
{
    let s = r.entries@;
    let p = if i < j { i } else { j };
    let q = if i < j { j } else { i };
    assert(!(s[p].chain_id@ == s[q].chain_id@ && s[p].registration.code_id
        == s[q].registration.code_id));
}

/// Law: the latest registration of a pair ignores any suffix of entries that
/// do not belong to the pair.
proof fn lemma_latest_ignores_unmatched_tail(
    t: Seq<RegEntry>,
    name: Seq<char>,
    chain: Seq<char>,
    k: int,
)
    requires
        0 <= k <= t.len(),
        forall|j: int| k <= j < t.len() ==> !entry_matches_pair(#[trigger] t[j], name, chain),
    ensures
        latest_reg(t, name, chain) == latest_reg(t.subrange(0, k), name, chain),
    decreases t.len() - k,
{
    if k == t.len() {
        assert(t.subrange(0, k) =~= t);
    } else {
        assert(!entry_matches_pair(t[t.len() - 1], name, chain));
        assert(t.drop_last() =~= t.subrange(0, t.len() - 1));
        lemma_latest_ignores_unmatched_tail(t.drop_last(), name, chain, k);
        assert(t.drop_last().subrange(0, k) =~= t.subrange(0, k));
    }
}

/// Law: after unregistering the latest registration of a pair, the latest
/// becomes the most recent remaining registration of that pair — the entries
/// before the removed one, scanned from the back — and after unregistering a
/// non-latest one, the latest is unchanged.
pub proof fn lemma_latest_after_remove(s: Seq<RegEntry>, name: Seq<char>, chain: Seq<char>, i: int)
    requires
        0 <= i < s.len(),
    ensures
        entry_matches_pair(s[i], name, chain) && (forall|j: int|
            i < j < s.len() ==> !entry_matches_pair(#[trigger] s[j], name, chain)) ==> latest_reg(
            s.remove(i),
            name,
            chain,
        ) == latest_reg(s.subrange(0, i), name, chain),
        (forall|j: int| i < j < s.len() ==> !entry_matches_pair(#[trigger] s[j], name, chain))
            && !entry_matches_pair(s[i], name, chain) ==> latest_reg(s.remove(i), name, chain)
            == latest_reg(s, name, chain),
{
    if forall|j: int| i < j < s.len() ==> !entry_matches_pair(#[trigger] s[j], name, chain) {
        let s2 = s.remove(i);
        assert forall|j: int| i <= j < s2.len() implies !entry_matches_pair(
            #[trigger] s2[j],
            name,
            chain,
        ) by {
            assert(s2[j] == s[j + 1]);
        }
        lemma_latest_ignores_unmatched_tail(s2, name, chain, i);
        assert(s2.subrange(0, i) =~= s.subrange(0, i));
        if !entry_matches_pair(s[i], name, chain) {
            lemma_latest_ignores_unmatched_tail(s, name, chain, i);
        }
    }
}

/// Law: a successful unregistration frees the removed code id and the removed
/// version: the same code id and the same version may immediately be
/// registered again under the same pair (here by the admin), with no stale
/// block left behind.
pub proof fn lemma_unregister_frees(
    pre: Registry,
    post: Registry,
    sender: String,
    chain_id: String,
    code_id: u64,
    r: Result<Response, ContractError>,
)
    requires
        pre.wf(),
        unregister_effect(pre, post, sender, chain_id, code_id, r),
        r is Ok,
    ensures
        !code_taken(post.entries@, chain_id@, code_id),
        forall|i: int|
            0 <= i < pre.entries@.len() && #[trigger] entry_has_code(
                pre.entries@[i],
                chain_id@,
                code_id,
            ) ==> register_ok(
                post,
                post.config.admin@,
                pre.entries@[i].name@,
                chain_id@,
                pre.entries@[i].registration.version@,
                code_id,
            ),
{
    let s = pre.entries@;
    let i0 = choose|i: int|
        0 <= i < s.len() && #[trigger] entry_has_code(s[i], chain_id@, code_id) && post.entries@
            == s.remove(i);
    lemma_remove_frees_entry(s, i0);
    lemma_code_unique_entry(s, i0, chain_id@, code_id);
    assert forall|i: int|
        0 <= i < s.len() && #[trigger] entry_has_code(s[i], chain_id@, code_id) implies register_ok(
        post,
        post.config.admin@,
        s[i].name@,
        chain_id@,
        s[i].registration.version@,
        code_id,
    ) by {
        assert(i == i0);
        assert(authorized(post, post.config.admin@, s[i].name@, chain_id@));
    }
}

/// Law: granting ownership of a pair authorizes the new owner to register
/// under it.
pub proof fn lemma_owner_grant_authorizes(
    pre: Registry,
    post: Registry,
    sender: String,
    name: String,
    chain_id: String,
    new_owner: String,
    r: Result<Response, ContractError>,
)
    requires
        set_owner_effect(pre, post, sender, name, chain_id, Some(new_owner), r),
        r is Ok,
    ensures
        authorized(post, new_owner@, name@, chain_id@),
{
    assert(owner_is(post.owners@, name@, chain_id@, new_owner@));
}

/// Law: a successful registration is retrievable by its exact version, is
/// the latest registration of its pair, and is what its code id resolves to —
/// and all three reports carry the same registration.
pub proof fn lemma_register_round_trip(
    pre: Registry,
    post: Registry,
    amount_sent: u128,
    name: String,
    chain_id: String,
    registration: Registration,
    r: Result<Response, ContractError>,
)
    requires
        pre.wf(),
        post.wf(),
        register_effect(pre, post, amount_sent, name, chain_id, registration, r),
        r is Ok,
    ensures
        version_taken(post.entries@, name@, chain_id@, registration.version@),
        forall|i: int|
            0 <= i < post.entries@.len() && #[trigger] entry_has_version(
                post.entries@[i],
                name@,
                chain_id@,
                registration.version@,
            ) ==> post.entries@[i].registration == registration,
        latest_reg(post.entries@, name@, chain_id@) == Some(registration),
        code_taken(post.entries@, chain_id@, registration.code_id),
        forall|i: int|
            0 <= i < post.entries@.len() && #[trigger] entry_has_code(
                post.entries@[i],
                chain_id@,
                registration.code_id,
            ) ==> post.entries@[i].registration == registration && post.entries@[i].name@ == name@,
{
    let entry = RegEntry { name, chain_id, registration };
    let s2 = post.entries@;
    let n = pre.entries@.len() as int;
    assert(s2 == pre.entries@.push(entry));
    assert(s2[n] == entry);
    assert(entry_has_version(s2[n], name@, chain_id@, registration.version@));
    assert(entry_has_code(s2[n], chain_id@, registration.code_id));
    lemma_version_unique_entry(s2, n, name@, chain_id@, registration.version@);
    lemma_code_unique_entry(s2, n, chain_id@, registration.code_id);
    lemma_latest_after_push(pre.entries@, entry);
}


/// Law: a successful unregistration removes exactly the one entry binding
/// the code id, and when that entry was the latest of its pair, the pair's
/// latest registration becomes the most recent remaining one (scanned among
/// the entries inserted before it).
pub proof fn lemma_latest_after_unregister(
    pre: Registry,
    post: Registry,
    sender: String,
    chain_id: String,
    code_id: u64,
    r: Result<Response, ContractError>,
    i: int,
)
    requires
        pre.wf(),
        unregister_effect(pre, post, sender, chain_id, code_id, r),
        r is Ok,
        0 <= i < pre.entries@.len(),
        entry_has_code(pre.entries@[i], chain_id@, code_id),
    ensures
        post.entries@ == pre.entries@.remove(i),
        (forall|j: int|
            i < j < pre.entries@.len() ==> !entry_matches_pair(
                #[trigger] pre.entries@[j],
                pre.entries@[i].name@,
                pre.entries@[i].chain_id@,
            )) ==> latest_reg(post.entries@, pre.entries@[i].name@, pre.entries@[i].chain_id@)
            == latest_reg(
            pre.entries@.subrange(0, i),
            pre.entries@[i].name@,
            pre.entries@[i].chain_id@,
        ),
{
    let s = pre.entries@;
    let i0 = choose|k: int|
        0 <= k < s.len() && #[trigger] entry_has_code(s[k], chain_id@, code_id) && post.entries@
            == s.remove(k);
    lemma_code_unique_entry(s, i0, chain_id@, code_id);
    assert(i == i0);
    lemma_latest_after_remove(s, s[i].name@, s[i].chain_id@, i);
}

/// Law: insertion order is kept — a new registration appends itself to its
/// own pair's listing and leaves every other pair's listing unchanged.
pub proof fn lemma_list_after_push(s: Seq<RegEntry>, e: RegEntry, name: Seq<char>, chain: Seq<char>)
    ensures
        entry_matches_pair(e, name, chain) ==> regs_for(s.push(e), name, chain) == regs_for(
            s,
            name,
            chain,
        ).push(e.registration),
        !entry_matches_pair(e, name, chain) ==> regs_for(s.push(e), name, chain) == regs_for(
            s,
            name,
            chain,
        ),
{
    assert(s.push(e).drop_last() =~= s);
}

} // verus!
