//! The registry's persistent state and its mathematical model.
//!
//! A [`Registry`] holds the singleton [`Config`], the delegated-ownership
//! records, and the live registrations in insertion order. The three lookups
//! a store would index (by code id, by version, and the reverse lookup from
//! a code id to its name) are derived views of the single entry sequence, so
//! their mutual consistency holds by construction; what remains to maintain
//! are the two uniqueness invariants and the uniqueness of ownership keys,
//! captured by [`Registry::wf`].

use crate::addr::valid_addr;
use vstd::prelude::*;

verus! {

/// How registration is paid for.
#[derive(Debug, PartialEq, Eq)]
pub enum PaymentInfo {
    /// Registration is free; attaching funds is rejected.
    NoPayment {},
    /// Exactly `payment_amount` of the native coin `token_denom` must be
    /// attached to a registration.
    NativePayment { token_denom: String, payment_amount: u128 },
    /// Registration arrives through a transfer notification of exactly
    /// `payment_amount` from the fungible-token contract at `token_address`.
    Cw20Payment { token_address: String, payment_amount: u128 },
}

/// The singleton configuration of a registry instance.
#[derive(Debug, PartialEq, Eq)]
pub struct Config {
    /// Receives fees, can register and unregister anything, and can set
    /// owners to allow future registration.
    pub admin: String,
    pub payment_info: PaymentInfo,
}

/// One immutable registration of a code id.
#[derive(Debug, PartialEq, Eq)]
pub struct Registration {
    pub registered_by: String,
    pub version: String,
    pub code_id: u64,
    pub checksum: String,
}

/// A delegated-ownership record: `owner` may register new versions under
/// `(name, chain_id)` without being the global admin.
#[derive(Debug, PartialEq, Eq)]
pub struct OwnerRecord {
    pub name: String,
    pub chain_id: String,
    pub owner: String,
}

/// A live registration together with the `(name, chain_id)` pair that owns
/// it.
#[derive(Debug, PartialEq, Eq)]
pub struct RegEntry {
    pub name: String,
    pub chain_id: String,
    pub registration: Registration,
}

/// The whole state of one registry instance.
#[derive(Debug, PartialEq, Eq)]
pub struct Registry {
    pub config: Config,
    /// At most one record per `(name, chain_id)` pair.
    pub owners: Vec<OwnerRecord>,
    /// Live registrations, oldest first. Unregistering removes the entry.
    pub entries: Vec<RegEntry>,
}

// ---------------------------------------------------------------------------
// Spec model of the entry sequence.
// ---------------------------------------------------------------------------

/// The entry belongs to the `(name, chain)` pair.
pub open spec fn entry_matches_pair(e: RegEntry, name: Seq<char>, chain: Seq<char>) -> bool {
    e.name@ == name && e.chain_id@ == chain
}

/// The entry binds `code` on `chain` (under any name).
pub open spec fn entry_has_code(e: RegEntry, chain: Seq<char>, code: u64) -> bool {
    e.chain_id@ == chain && e.registration.code_id == code
}

/// The entry binds `version` under `(name, chain)`.
pub open spec fn entry_has_version(
    e: RegEntry,
    name: Seq<char>,
    chain: Seq<char>,
    version: Seq<char>,
) -> bool {
    entry_matches_pair(e, name, chain) && e.registration.version@ == version
}

/// Some live entry binds `code` on `chain`.
pub open spec fn code_taken(s: Seq<RegEntry>, chain: Seq<char>, code: u64) -> bool {
    exists|i: int| 0 <= i < s.len() && #[trigger] entry_has_code(s[i], chain, code)
}

/// Some live entry binds `version` under `(name, chain)`.
pub open spec fn version_taken(
    s: Seq<RegEntry>,
    name: Seq<char>,
    chain: Seq<char>,
    version: Seq<char>,
) -> bool {
    exists|i: int| 0 <= i < s.len() && #[trigger] entry_has_version(s[i], name, chain, version)
}

/// No two live entries share a code id on one chain, and no two live entries
/// share a version under one `(name, chain_id)` pair.
pub open spec fn entries_unique(s: Seq<RegEntry>) -> bool {
    forall|i: int, j: int|
        0 <= i < j < s.len() ==> !(#[trigger] s[i].chain_id@ == #[trigger] s[j].chain_id@
            && s[i].registration.code_id == s[j].registration.code_id) && !(s[i].name@
            == s[j].name@ && s[i].chain_id@ == s[j].chain_id@ && s[i].registration.version@
            == s[j].registration.version@)
}

/// The most recently inserted entry for `(name, chain)` that has not been
/// removed, if any.
pub open spec fn latest_reg(s: Seq<RegEntry>, name: Seq<char>, chain: Seq<char>) -> Option<
    Registration,
>
    decreases s.len(),
{
    if s.len() == 0 {
        None
    } else if entry_matches_pair(s.last(), name, chain) {
        Some(s.last().registration)
    } else {
        latest_reg(s.drop_last(), name, chain)
    }
}

/// All live registrations for `(name, chain)`, oldest first.
pub open spec fn regs_for(s: Seq<RegEntry>, name: Seq<char>, chain: Seq<char>) -> Seq<
    Registration,
>
    decreases s.len(),
{
    if s.len() == 0 {
        Seq::empty()
    } else {
        let rest = regs_for(s.drop_last(), name, chain);
        if entry_matches_pair(s.last(), name, chain) {
            rest.push(s.last().registration)
        } else {
            rest
        }
    }
}

// ---------------------------------------------------------------------------
// Spec model of the ownership records.
// ---------------------------------------------------------------------------

/// Record `i` carries the ownership key `(name, chain)`.
pub open spec fn owner_key_at(s: Seq<OwnerRecord>, i: int, name: Seq<char>, chain: Seq<char>) -> bool {
    0 <= i < s.len() && s[i].name@ == name && s[i].chain_id@ == chain
}

/// Some record delegates ownership of `(name, chain)`.
pub open spec fn has_owner(s: Seq<OwnerRecord>, name: Seq<char>, chain: Seq<char>) -> bool {
    exists|i: int| #[trigger] owner_key_at(s, i, name, chain)
}

/// Ownership of `(name, chain)` is delegated to `owner`.
pub open spec fn owner_is(
    s: Seq<OwnerRecord>,
    name: Seq<char>,
    chain: Seq<char>,
    owner: Seq<char>,
) -> bool {
    exists|i: int| #[trigger] owner_key_at(s, i, name, chain) && s[i].owner@ == owner
}

/// No two records share an ownership key.
pub open spec fn owners_unique(s: Seq<OwnerRecord>) -> bool {
    forall|i: int, j: int|
        0 <= i < j < s.len() ==> !(#[trigger] s[i].name@ == #[trigger] s[j].name@
            && s[i].chain_id@ == s[j].chain_id@)
}

/// Every recorded owner is a well-formed address.
pub open spec fn owners_valid(s: Seq<OwnerRecord>) -> bool {
    forall|i: int| 0 <= i < s.len() ==> valid_addr(#[trigger] s[i].owner@)
}

/// Under unique ownership keys, any record for a key carries the one
/// delegated owner.
pub proof fn lemma_owner_unique_value(s: Seq<OwnerRecord>, i: int, name: Seq<char>, chain: Seq<char>)
    requires
        owners_unique(s),
        owner_key_at(s, i, name, chain),
    ensures
        forall|o: Seq<char>| owner_is(s, name, chain, o) ==> o == s[i].owner@,
{
    assert forall|o: Seq<char>| owner_is(s, name, chain, o) implies o == s[i].owner@ by {
        let k = choose|k: int| #[trigger] owner_key_at(s, k, name, chain) && s[k].owner@ == o;
        if k != i {
            assert(s[k].name@ == name && s[i].name@ == name);
            assert(false);
        }
    }
}

/// Ownership records other than the one for `(name, chain)` read the same in
/// `s1` and `s2`.
pub open spec fn owner_frame(
    s1: Seq<OwnerRecord>,
    s2: Seq<OwnerRecord>,
    name: Seq<char>,
    chain: Seq<char>,
) -> bool {
    &&& forall|n2: Seq<char>, c2: Seq<char>, o2: Seq<char>|
        #![trigger owner_is(s1, n2, c2, o2)]
        #![trigger owner_is(s2, n2, c2, o2)]
        !(n2 == name && c2 == chain) ==> (owner_is(s2, n2, c2, o2) <==> owner_is(s1, n2, c2, o2))
    &&& forall|n2: Seq<char>, c2: Seq<char>|
        #![trigger has_owner(s1, n2, c2)]
        #![trigger has_owner(s2, n2, c2)]
        !(n2 == name && c2 == chain) ==> (has_owner(s2, n2, c2) <==> has_owner(s1, n2, c2))
}

/// Appending a record for a fresh key delegates that key to the record's
/// owner and leaves every other key's delegation unchanged.
pub proof fn lemma_owner_push_frame(s: Seq<OwnerRecord>, rec: OwnerRecord)
    requires
        owners_unique(s),
        owners_valid(s),
        !has_owner(s, rec.name@, rec.chain_id@),
        valid_addr(rec.owner@),
    ensures
        owners_unique(s.push(rec)),
        owners_valid(s.push(rec)),
        has_owner(s.push(rec), rec.name@, rec.chain_id@),
        owner_is(s.push(rec), rec.name@, rec.chain_id@, rec.owner@),
        owner_frame(s, s.push(rec), rec.name@, rec.chain_id@),
{
    let s2 = s.push(rec);
    let n = s.len() as int;
    assert(s2[n] == rec);
    assert(owner_key_at(s2, n, rec.name@, rec.chain_id@));
    assert forall|i: int, j: int| 0 <= i < j < s2.len() implies !(#[trigger] s2[i].name@
        == #[trigger] s2[j].name@ && s2[i].chain_id@ == s2[j].chain_id@) by {
        if j < n {
            assert(s2[i] == s[i] && s2[j] == s[j]);
            assert(!(s[i].name@ == s[j].name@ && s[i].chain_id@ == s[j].chain_id@));
        } else {
            assert(s2[i] == s[i]);
            if s[i].name@ == rec.name@ && s[i].chain_id@ == rec.chain_id@ {
                assert(owner_key_at(s, i, rec.name@, rec.chain_id@));
                assert(false);
            }
        }
    }
    assert forall|i: int| 0 <= i < s2.len() implies valid_addr(#[trigger] s2[i].owner@) by {
        if i < n {
            assert(s2[i] == s[i]);
            assert(valid_addr(s[i].owner@));
        }
    }
    assert forall|n2: Seq<char>, c2: Seq<char>, o2: Seq<char>|
        !(n2 == rec.name@ && c2 == rec.chain_id@) && #[trigger] owner_is(
        s2,
        n2,
        c2,
        o2,
    ) implies owner_is(s, n2, c2, o2) by {
        let k = choose|k: int| #[trigger] owner_key_at(s2, k, n2, c2) && s2[k].owner@ == o2;
        assert(k < n);
        assert(s2[k] == s[k]);
        assert(owner_key_at(s, k, n2, c2));
    }
    assert forall|n2: Seq<char>, c2: Seq<char>, o2: Seq<char>|
        !(n2 == rec.name@ && c2 == rec.chain_id@) && #[trigger] owner_is(
        s,
        n2,
        c2,
        o2,
    ) implies owner_is(s2, n2, c2, o2) by {
        let k = choose|k: int| #[trigger] owner_key_at(s, k, n2, c2) && s[k].owner@ == o2;
        assert(s2[k] == s[k]);
        assert(owner_key_at(s2, k, n2, c2));
    }
    assert forall|n2: Seq<char>, c2: Seq<char>|
        !(n2 == rec.name@ && c2 == rec.chain_id@) && #[trigger] has_owner(
        s2,
        n2,
        c2,
    ) implies has_owner(s, n2, c2) by {
        let k = choose|k: int| #[trigger] owner_key_at(s2, k, n2, c2);
        assert(k < n);
        assert(s2[k] == s[k]);
        assert(owner_key_at(s, k, n2, c2));
    }
    assert forall|n2: Seq<char>, c2: Seq<char>|
        !(n2 == rec.name@ && c2 == rec.chain_id@) && #[trigger] has_owner(
        s,
        n2,
        c2,
    ) implies has_owner(s2, n2, c2) by {
        let k = choose|k: int| #[trigger] owner_key_at(s, k, n2, c2);
        assert(s2[k] == s[k]);
        assert(owner_key_at(s2, k, n2, c2));
    }
}

/// Removing the record of a key clears that key's delegation and leaves
/// every other key's delegation unchanged.
pub proof fn lemma_owner_remove_frame(s: Seq<OwnerRecord>, i: int)
    requires
        owners_unique(s),
        owners_valid(s),
        0 <= i < s.len(),
    ensures
        owners_unique(s.remove(i)),
        owners_valid(s.remove(i)),
        !has_owner(s.remove(i), s[i].name@, s[i].chain_id@),
        owner_frame(s, s.remove(i), s[i].name@, s[i].chain_id@),
{
    let s2 = s.remove(i);
    assert forall|p: int, q: int| 0 <= p < q < s2.len() implies !(#[trigger] s2[p].name@
        == #[trigger] s2[q].name@ && s2[p].chain_id@ == s2[q].chain_id@) by {
        let p0 = if p < i { p } else { p + 1 };
        let q0 = if q < i { q } else { q + 1 };
        assert(s2[p] == s[p0] && s2[q] == s[q0]);
        assert(!(s[p0].name@ == s[q0].name@ && s[p0].chain_id@ == s[q0].chain_id@));
    }
    assert forall|j: int| 0 <= j < s2.len() implies valid_addr(#[trigger] s2[j].owner@) by {
        let j0 = if j < i { j } else { j + 1 };
        assert(s2[j] == s[j0]);
        assert(valid_addr(s[j0].owner@));
    }
    assert forall|j: int| 0 <= j < s2.len() implies !(#[trigger] owner_key_at(
        s2,
        j,
        s[i].name@,
        s[i].chain_id@,
    )) by {
        let j0 = if j < i { j } else { j + 1 };
        assert(s2[j] == s[j0]);
        if j0 < i {
            assert(!(s[j0].name@ == s[i].name@ && s[j0].chain_id@ == s[i].chain_id@));
        } else {
            assert(!(s[i].name@ == s[j0].name@ && s[i].chain_id@ == s[j0].chain_id@));
        }
    }
    assert forall|n2: Seq<char>, c2: Seq<char>, o2: Seq<char>|
        !(n2 == s[i].name@ && c2 == s[i].chain_id@) && #[trigger] owner_is(
        s2,
        n2,
        c2,
        o2,
    ) implies owner_is(s, n2, c2, o2) by {
        let k = choose|k: int| #[trigger] owner_key_at(s2, k, n2, c2) && s2[k].owner@ == o2;
        let k0 = if k < i { k } else { k + 1 };
        assert(s2[k] == s[k0]);
        assert(owner_key_at(s, k0, n2, c2));
    }
    assert forall|n2: Seq<char>, c2: Seq<char>, o2: Seq<char>|
        !(n2 == s[i].name@ && c2 == s[i].chain_id@) && #[trigger] owner_is(
        s,
        n2,
        c2,
        o2,
    ) implies owner_is(s2, n2, c2, o2) by {
        let k = choose|k: int| #[trigger] owner_key_at(s, k, n2, c2) && s[k].owner@ == o2;
        assert(k != i);
        let k2 = if k < i { k } else { k - 1 };
        assert(s2[k2] == s[k]);
        assert(owner_key_at(s2, k2, n2, c2));
    }
    assert forall|n2: Seq<char>, c2: Seq<char>|
        !(n2 == s[i].name@ && c2 == s[i].chain_id@) && #[trigger] has_owner(
        s2,
        n2,
        c2,
    ) implies has_owner(s, n2, c2) by {
        let k = choose|k: int| #[trigger] owner_key_at(s2, k, n2, c2);
        let k0 = if k < i { k } else { k + 1 };
        assert(s2[k] == s[k0]);
        assert(owner_key_at(s, k0, n2, c2));
    }
    assert forall|n2: Seq<char>, c2: Seq<char>|
        !(n2 == s[i].name@ && c2 == s[i].chain_id@) && #[trigger] has_owner(
        s,
        n2,
        c2,
    ) implies has_owner(s2, n2, c2) by {
        let k = choose|k: int| #[trigger] owner_key_at(s, k, n2, c2);
        assert(k != i);
        let k2 = if k < i { k } else { k - 1 };
        assert(s2[k2] == s[k]);
        assert(owner_key_at(s2, k2, n2, c2));
    }
}

/// Under unique live code ids, any entry binding a code id on a chain is the
/// one entry doing so.
pub proof fn lemma_code_unique_entry(s: Seq<RegEntry>, i: int, chain: Seq<char>, code: u64)
    requires
        entries_unique(s),
        0 <= i < s.len(),
        entry_has_code(s[i], chain, code),
    ensures
        forall|j: int| 0 <= j < s.len() && #[trigger] entry_has_code(s[j], chain, code) ==> j == i,
{
    assert forall|j: int| 0 <= j < s.len() && #[trigger] entry_has_code(s[j], chain, code) implies j
        == i by {
        if j != i {
            assert(s[j].chain_id@ == chain && s[i].chain_id@ == chain);
            assert(false);
        }
    }
}

/// Under unique live versions, any entry binding a version under a pair is
/// the one entry doing so.
pub proof fn lemma_version_unique_entry(
    s: Seq<RegEntry>,
    i: int,
    name: Seq<char>,
    chain: Seq<char>,
    version: Seq<char>,
)
    requires
        entries_unique(s),
        0 <= i < s.len(),
        entry_has_version(s[i], name, chain, version),
    ensures
        forall|j: int|
            0 <= j < s.len() && #[trigger] entry_has_version(s[j], name, chain, version) ==> j == i,
{
    assert forall|j: int|
        0 <= j < s.len() && #[trigger] entry_has_version(s[j], name, chain, version) implies j
        == i by {
        if j != i {
            assert(s[j].name@ == name && s[i].name@ == name);
            assert(s[j].chain_id@ == chain && s[i].chain_id@ == chain);
            assert(false);
        }
    }
}

// ---------------------------------------------------------------------------
// Config and registry well-formedness.
// ---------------------------------------------------------------------------

/// The stored part of payment-policy validity: paid policies name a nonzero
/// amount, and a fungible policy names a well-formed token address. (The
/// token-info probe is re-run whenever the policy is written, but its outcome
/// is not part of the stored state.)
pub open spec fn payment_info_wf(p: PaymentInfo) -> bool {
    match p {
        PaymentInfo::NoPayment {} => true,
        PaymentInfo::NativePayment { payment_amount, .. } => payment_amount != 0,
        PaymentInfo::Cw20Payment { token_address, payment_amount } => payment_amount != 0
            && valid_addr(token_address@),
    }
}

/// A valid configuration: well-formed admin address and payment policy.
pub open spec fn config_wf(c: Config) -> bool {
    valid_addr(c.admin@) && payment_info_wf(c.payment_info)
}

impl Registry {
    /// The registry invariant, established at instantiation and preserved by
    /// every command: live code ids and versions are unique, ownership keys
    /// are unique, owners and the configuration are well-formed.
    pub open spec fn wf(self) -> bool {
        &&& config_wf(self.config)
        &&& entries_unique(self.entries@)
        &&& owners_unique(self.owners@)
        &&& owners_valid(self.owners@)
    }
}

// ---------------------------------------------------------------------------
// Clones with full meaning.
// ---------------------------------------------------------------------------

impl Clone for PaymentInfo {
    fn clone(&self) -> (r: Self)
        ensures
            r == *self,
    {
        match self {
            PaymentInfo::NoPayment {} => PaymentInfo::NoPayment {},
            PaymentInfo::NativePayment { token_denom, payment_amount } => {
                PaymentInfo::NativePayment {
                    token_denom: token_denom.clone(),
                    payment_amount: *payment_amount,
                }
            },
            PaymentInfo::Cw20Payment { token_address, payment_amount } => {
                PaymentInfo::Cw20Payment {
                    token_address: token_address.clone(),
                    payment_amount: *payment_amount,
                }
            },
        }
    }
}

impl Clone for Config {
    fn clone(&self) -> (r: Self)
        ensures
            r == *self,
    {
        Config { admin: self.admin.clone(), payment_info: self.payment_info.clone() }
    }
}

impl Clone for Registration {
    fn clone(&self) -> (r: Self)
        ensures
            r == *self,
    {
        Registration {
            registered_by: self.registered_by.clone(),
            version: self.version.clone(),
            code_id: self.code_id,
            checksum: self.checksum.clone(),
        }
    }
}

impl Clone for OwnerRecord {
    fn clone(&self) -> (r: Self)
        ensures
            r == *self,
    {
        OwnerRecord {
            name: self.name.clone(),
            chain_id: self.chain_id.clone(),
            owner: self.owner.clone(),
        }
    }
}

impl Clone for RegEntry {
    fn clone(&self) -> (r: Self)
        ensures
            r == *self,
    {
        RegEntry {
            name: self.name.clone(),
            chain_id: self.chain_id.clone(),
            registration: self.registration.clone(),
        }
    }
}

} // verus!
