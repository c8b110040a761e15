//! The registry's command and query handlers.
//!
//! Each handler validates fully before mutating: the first violated rule
//! aborts the command with a specific error and leaves the state untouched.
//! The contracts state, for every input, exactly when a command succeeds,
//! which error it returns otherwise, and how the state and the requested
//! transfers relate to the inputs.
//!
//! Outside work is the host's: it decodes inbound documents, performs the
//! returned transfers, and — where a fungible payment policy is configured —
//! probes the configured token address for token info. The probe's outcome
//! enters validation as the `token_is_cw20` argument.

use crate::addr::{valid_addr, validate_address};
use crate::error::ContractError;
use crate::laws::{lemma_remove_frees_entry, lemma_unique_push};
use crate::msg::{
    Coin, ConfigResponse, ExecuteMsg, GetRegistrationResponse, InfoForCodeIdResponse,
    InstantiateMsg, ListRegistrationsResponse, MessageInfo, QueryAnswer, QueryMsg,
    ReceiveEnvelope, ReceiveMsg, Response, Transfer,
};
use crate::state::{
    code_taken, entry_has_code, entry_has_version, entry_matches_pair, has_owner, latest_reg,
    lemma_owner_push_frame, lemma_owner_remove_frame, lemma_owner_unique_value, owner_frame,
    owner_is, owner_key_at, payment_info_wf, regs_for, version_taken, Config, OwnerRecord,
    PaymentInfo, RegEntry, Registration, Registry,
};
use vstd::prelude::*;
use vstd::string::StringExecFns;

verus! {

// ---------------------------------------------------------------------------
// Payment-policy validation.
// ---------------------------------------------------------------------------

/// A payment policy is accepted when its stored part is well-formed and, for
/// a fungible policy, the configured token answered the token-info probe.
pub open spec fn payment_info_valid(p: PaymentInfo, token_is_cw20: bool) -> bool {
    payment_info_wf(p) && (p is Cw20Payment ==> token_is_cw20)
}

/// The error a rejected payment policy produces.
pub open spec fn payment_info_err(p: PaymentInfo, token_is_cw20: bool, e: ContractError) -> bool {
    match p {
        PaymentInfo::NoPayment {} => false,
        PaymentInfo::NativePayment { payment_amount, .. } => payment_amount == 0
            && e is IncorrectPaymentAmount,
        PaymentInfo::Cw20Payment { token_address, payment_amount } => {
            if payment_amount == 0 {
                e is IncorrectPaymentAmount
            } else if !valid_addr(token_address@) {
                e is InvalidAddress
            } else {
                !token_is_cw20 && e is InvalidCw20
            }
        },
    }
}

/// Validates a payment policy, as done at instantiation and at every config
/// update. `token_is_cw20` is the host-supplied outcome of the token-info
/// probe against the policy's token address; it is ignored unless the policy
/// is `Cw20Payment`.
pub fn validate_payment_info(payment_info: &PaymentInfo, token_is_cw20: bool) -> (r: Result<
    (),
    ContractError,
>)
    ensures
        r is Ok <==> payment_info_valid(*payment_info, token_is_cw20),
        r matches Err(e) ==> payment_info_err(*payment_info, token_is_cw20, e),
{
    match payment_info {
        PaymentInfo::NoPayment {} => Ok(()),
        PaymentInfo::NativePayment { payment_amount, .. } => {
            if *payment_amount == 0 {
                Err(ContractError::IncorrectPaymentAmount {})
            } else {
                Ok(())
            }
        },
        PaymentInfo::Cw20Payment { token_address, payment_amount } => {
            if *payment_amount == 0 {
                Err(ContractError::IncorrectPaymentAmount {})
            } else if !validate_address(token_address.as_str()) {
                Err(ContractError::InvalidAddress {})
            } else if !token_is_cw20 {
                Err(ContractError::InvalidCw20 {})
            } else {
                Ok(())
            }
        },
    }
}

// ---------------------------------------------------------------------------
// Attached native funds.
// ---------------------------------------------------------------------------

/// The total amount of `denom` among the attached coins.
pub open spec fn funds_total(s: Seq<Coin>, denom: Seq<char>) -> int
    decreases s.len(),
{
    if s.len() == 0 {
        0
    } else {
        (if s[0].denom@ == denom {
            s[0].amount as int
        } else {
            0
        }) + funds_total(s.drop_first(), denom)
    }
}

/// Some attached coin carries a positive amount of a different denom.
pub open spec fn funds_has_foreign(s: Seq<Coin>, denom: Seq<char>) -> bool {
    exists|i: int| 0 <= i < s.len() && (#[trigger] s[i]).amount > 0 && s[i].denom@ != denom
}

/// No attached coin carries a positive amount.
pub open spec fn funds_none(s: Seq<Coin>) -> bool {
    forall|i: int| 0 <= i < s.len() ==> (#[trigger] s[i]).amount == 0
}

proof fn lemma_funds_total_nonneg(s: Seq<Coin>, denom: Seq<char>)
    ensures
        funds_total(s, denom) >= 0,
    decreases s.len(),
{
    if s.len() > 0 {
        lemma_funds_total_nonneg(s.drop_first(), denom);
    }
}

/// Sums the attached amount of `denom`, or reports that the sum exceeds the
/// largest representable amount (in which case it cannot equal any required
/// amount).
fn sum_funds(funds: &Vec<Coin>, denom: &String) -> (r: Option<u128>)
    ensures
        r matches Some(t) ==> t as int == funds_total(funds@, denom@),
        r is None ==> funds_total(funds@, denom@) > u128::MAX,
{
    let mut total: u128 = 0;
    let mut i: usize = 0;
    proof {
        assert(funds@.skip(0) =~= funds@);
    }
    while i < funds.len()
        invariant
            0 <= i <= funds@.len(),
            funds_total(funds@, denom@) == total + funds_total(funds@.skip(i as int), denom@),
        decreases funds@.len() - i,
    {
        let c = &funds[i];
        proof {
            assert(funds@.skip(i as int)[0] == funds@[i as int]);
            assert(funds@.skip(i as int).drop_first() =~= funds@.skip(i as int + 1));
        }
        if c.denom == *denom {
            if c.amount > u128::MAX - total {
                proof {
                    lemma_funds_total_nonneg(funds@.skip(i as int + 1), denom@);
                }
                return None;
            }
            total = total + c.amount;
        }
        i = i + 1;
    }
    Some(total)
}

/// Looks for a positive coin of a denom other than `denom`.
fn has_foreign_coin(funds: &Vec<Coin>, denom: &String) -> (r: bool)
    ensures
        r == funds_has_foreign(funds@, denom@),
{
    let mut i: usize = 0;
    while i < funds.len()
        invariant
            0 <= i <= funds@.len(),
            forall|j: int|
                0 <= j < i ==> !((#[trigger] funds@[j]).amount > 0 && funds@[j].denom@ != denom@),
        decreases funds@.len() - i,
    {
        let c = &funds[i];
        if c.amount > 0 && !(c.denom == *denom) {
            assert(funds@[i as int].amount > 0 && funds@[i as int].denom@ != denom@);
            return true;
        }
        i = i + 1;
    }
    false
}

/// Checks that no attached coin carries a positive amount.
fn funds_all_zero(funds: &Vec<Coin>) -> (r: bool)
    ensures
        r == funds_none(funds@),
{
    let mut i: usize = 0;
    while i < funds.len()
        invariant
            0 <= i <= funds@.len(),
            forall|j: int| 0 <= j < i ==> (#[trigger] funds@[j]).amount == 0,
        decreases funds@.len() - i,
    {
        if funds[i].amount > 0 {
            assert(funds@[i as int].amount > 0);
            return false;
        }
        i = i + 1;
    }
    true
}

// ---------------------------------------------------------------------------
// Authorization and the registration core.
// ---------------------------------------------------------------------------

/// `addr` may register or set owners under `(name, chain)`: it is the global
/// admin, or the pair's delegated owner.
pub open spec fn authorized(r: Registry, addr: Seq<char>, name: Seq<char>, chain: Seq<char>) -> bool {
    addr == r.config.admin@ || owner_is(r.owners@, name, chain, addr)
}

/// The condition under which the registration core succeeds: the registrant
/// is authorized, the code id is free on the chain, and the version is free
/// under the pair.
pub open spec fn register_ok(
    r: Registry,
    by: Seq<char>,
    name: Seq<char>,
    chain: Seq<char>,
    version: Seq<char>,
    code: u64,
) -> bool {
    &&& authorized(r, by, name, chain)
    &&& !code_taken(r.entries@, chain, code)
    &&& !version_taken(r.entries@, name, chain, version)
}

/// The error the registration core produces, in check order.
pub open spec fn register_err(
    r: Registry,
    by: Seq<char>,
    name: Seq<char>,
    chain: Seq<char>,
    version: Seq<char>,
    code: u64,
    e: ContractError,
) -> bool {
    if !authorized(r, by, name, chain) {
        e is Unauthorized
    } else if code_taken(r.entries@, chain, code) {
        e matches ContractError::CodeIDAlreadyRegistered(c2, ch2) && c2 == code && ch2@ == chain
    } else if version_taken(r.entries@, name, chain, version) {
        e matches ContractError::VersionAlreadyRegistered(v2, n2, ch2) && v2@ == version && n2@
            == name && ch2@ == chain
    } else {
        false
    }
}

/// The fee transfers a successful registration requests: the paid amount is
/// forwarded to the admin in the configured token, or nothing when nothing
/// was paid.
pub open spec fn expected_transfers(cfg: Config, amount_sent: u128) -> Seq<Transfer> {
    if amount_sent == 0 {
        Seq::empty()
    } else {
        match cfg.payment_info {
            PaymentInfo::NoPayment {} => Seq::empty(),
            PaymentInfo::NativePayment { token_denom, .. } => seq![
                (Transfer::Native { to_address: cfg.admin, denom: token_denom, amount: amount_sent }),
            ],
            PaymentInfo::Cw20Payment { token_address, .. } => seq![
                (Transfer::Cw20 {
                    token_address: token_address,
                    to_address: cfg.admin,
                    amount: amount_sent,
                }),
            ],
        }
    }
}

/// Everything [`register_code_id`] promises, relating the states before and
/// after the call to its inputs and result.
pub open spec fn register_effect(
    pre: Registry,
    post: Registry,
    amount_sent: u128,
    name: String,
    chain_id: String,
    registration: Registration,
    r: Result<Response, ContractError>,
) -> bool {
    &&& post.config == pre.config
    &&& post.owners == pre.owners
    &&& (r is Ok <==> register_ok(
        pre,
        registration.registered_by@,
        name@,
        chain_id@,
        registration.version@,
        registration.code_id,
    ))
    &&& (r matches Ok(resp) ==> post.entries@ == pre.entries@.push(
        (RegEntry { name, chain_id, registration }),
    ) && resp.action@ == "register"@ && resp.transfers@ == expected_transfers(
        pre.config,
        amount_sent,
    ))
    &&& (r matches Err(e) ==> post == pre && register_err(
        pre,
        registration.registered_by@,
        name@,
        chain_id@,
        registration.version@,
        registration.code_id,
        e,
    ))
}

// ---------------------------------------------------------------------------
// Lookup helpers.
// ---------------------------------------------------------------------------

/// Finds the ownership record for `(name, chain_id)`, if any.
fn find_owner_index(owners: &Vec<OwnerRecord>, name: &String, chain_id: &String) -> (r: Option<
    usize,
>)
    ensures
        r matches Some(i) ==> owner_key_at(owners@, i as int, name@, chain_id@),
        r is None ==> !has_owner(owners@, name@, chain_id@),
{
    let mut i: usize = 0;
    while i < owners.len()
        invariant
            0 <= i <= owners@.len(),
            forall|j: int| 0 <= j < i ==> !(#[trigger] owner_key_at(owners@, j, name@, chain_id@)),
        decreases owners@.len() - i,
    {
        let rec = &owners[i];
        if rec.name == *name && rec.chain_id == *chain_id {
            assert(owner_key_at(owners@, i as int, name@, chain_id@));
            return Some(i);
        }
        assert(!owner_key_at(owners@, i as int, name@, chain_id@));
        i = i + 1;
    }
    None
}

/// Finds the entry binding `code_id` on `chain_id`, if any.
fn find_code_index(entries: &Vec<RegEntry>, chain_id: &String, code_id: u64) -> (r: Option<usize>)
    ensures
        r matches Some(i) ==> i < entries@.len() && entry_has_code(
            entries@[i as int],
            chain_id@,
            code_id,
        ),
        r is None ==> !code_taken(entries@, chain_id@, code_id),
{
    let mut i: usize = 0;
    while i < entries.len()
        invariant
            0 <= i <= entries@.len(),
            forall|j: int|
                0 <= j < i ==> !(#[trigger] entry_has_code(entries@[j], chain_id@, code_id)),
        decreases entries@.len() - i,
    {
        let e = &entries[i];
        if e.chain_id == *chain_id && e.registration.code_id == code_id {
            assert(entry_has_code(entries@[i as int], chain_id@, code_id));
            return Some(i);
        }
        assert(!entry_has_code(entries@[i as int], chain_id@, code_id));
        i = i + 1;
    }
    None
}

/// Finds the entry binding `version` under `(name, chain_id)`, if any.
fn find_version_index(
    entries: &Vec<RegEntry>,
    name: &String,
    chain_id: &String,
    version: &String,
) -> (r: Option<usize>)
    ensures
        r matches Some(i) ==> i < entries@.len() && entry_has_version(
            entries@[i as int],
            name@,
            chain_id@,
            version@,
        ),
        r is None ==> !version_taken(entries@, name@, chain_id@, version@),
{
    let mut i: usize = 0;
    while i < entries.len()
        invariant
            0 <= i <= entries@.len(),
            forall|j: int|
                0 <= j < i ==> !(#[trigger] entry_has_version(
                    entries@[j],
                    name@,
                    chain_id@,
                    version@,
                )),
        decreases entries@.len() - i,
    {
        let e = &entries[i];
        if e.name == *name && e.chain_id == *chain_id && e.registration.version == *version {
            assert(entry_has_version(entries@[i as int], name@, chain_id@, version@));
            return Some(i);
        }
        assert(!entry_has_version(entries@[i as int], name@, chain_id@, version@));
        i = i + 1;
    }
    None
}

/// Builds the fee transfers of [`expected_transfers`].
fn build_fee_transfers(config: &Config, amount_sent: u128) -> (v: Vec<Transfer>)
    ensures
        v@ == expected_transfers(*config, amount_sent),
{
    let mut v: Vec<Transfer> = Vec::new();
    if amount_sent > 0 {
        match &config.payment_info {
            PaymentInfo::NoPayment {} => {},
            PaymentInfo::NativePayment { token_denom, .. } => {
                v.push(
                    Transfer::Native {
                        to_address: config.admin.clone(),
                        denom: token_denom.clone(),
                        amount: amount_sent,
                    },
                );
            },
            PaymentInfo::Cw20Payment { token_address, .. } => {
                v.push(
                    Transfer::Cw20 {
                        token_address: token_address.clone(),
                        to_address: config.admin.clone(),
                        amount: amount_sent,
                    },
                );
            },
        }
    }
    proof {
        assert(v@ =~= expected_transfers(*config, amount_sent));
    }
    v
}

// ---------------------------------------------------------------------------
// Commands.
// ---------------------------------------------------------------------------

/// Creates a fresh registry instance: validates the payment policy and the
/// admin address, and persists the configuration over empty ownership and
/// registration state. Runs exactly once per instance.
pub fn instantiate(msg: InstantiateMsg, token_is_cw20: bool) -> (r: Result<Registry, ContractError>)
    ensures
        r is Ok <==> payment_info_valid(msg.payment_info, token_is_cw20) && valid_addr(msg.admin@),
        r matches Ok(reg) ==> reg.wf() && reg.config.admin@ == msg.admin@
            && reg.config.payment_info == msg.payment_info && reg.entries@.len() == 0
            && reg.owners@.len() == 0,
        r matches Err(e) ==> if !payment_info_valid(msg.payment_info, token_is_cw20) {
            payment_info_err(msg.payment_info, token_is_cw20, e)
        } else {
            e is InvalidAddress
        },
{
    match validate_payment_info(&msg.payment_info, token_is_cw20) {
        Err(e) => {
            return Err(e);
        },
        Ok(()) => {},
    }
    if !validate_address(msg.admin.as_str()) {
        return Err(ContractError::InvalidAddress {});
    }
    Ok(
        Registry {
            config: Config { admin: msg.admin, payment_info: msg.payment_info },
            owners: Vec::new(),
            entries: Vec::new(),
        },
    )
}

/// The registration core shared by the native-payment and fungible-payment
/// paths: authorization, the two uniqueness checks, the insertion, and the
/// fee transfer of the already-verified paid amount.
pub fn register_code_id(
    registry: &mut Registry,
    amount_sent: u128,
    name: String,
    chain_id: String,
    registration: Registration,
) -> (r: Result<Response, ContractError>)
    requires
        old(registry).wf(),
    ensures
        final(registry).wf(),
        register_effect(*old(registry), *final(registry), amount_sent, name, chain_id, registration, r),
{
    // Authorization: the admin may always register; otherwise the pair's
    // delegated owner, if one is set.
    let mut is_auth = registration.registered_by == registry.config.admin;
    if !is_auth {
        match find_owner_index(&registry.owners, &name, &chain_id) {
            Some(i) => {
                let rec = &registry.owners[i];
                if registration.registered_by == rec.owner {
                    assert(owner_is(
                        registry.owners@,
                        name@,
                        chain_id@,
                        registration.registered_by@,
                    ));
                    is_auth = true;
                } else {
                    proof {
                        lemma_owner_unique_value(registry.owners@, i as int, name@, chain_id@);
                    }
                }
            },
            None => {},
        }
    }
    if !is_auth {
        assert(!authorized(*registry, registration.registered_by@, name@, chain_id@));
        return Err(ContractError::Unauthorized {});
    }
    assert(authorized(*registry, registration.registered_by@, name@, chain_id@));

    // A code id can be bound at most once per chain.
    match find_code_index(&registry.entries, &chain_id, registration.code_id) {
        Some(i) => {
            assert(entry_has_code(registry.entries@[i as int], chain_id@, registration.code_id));
            return Err(ContractError::CodeIDAlreadyRegistered(registration.code_id, chain_id));
        },
        None => {},
    }

    // A version can be bound at most once per (name, chain_id) pair.
    match find_version_index(&registry.entries, &name, &chain_id, &registration.version) {
        Some(i) => {
            assert(entry_has_version(
                registry.entries@[i as int],
                name@,
                chain_id@,
                registration.version@,
            ));
            return Err(
                ContractError::VersionAlreadyRegistered(
                    registration.version.clone(),
                    name,
                    chain_id,
                ),
            );
        },
        None => {},
    }

    // Insert, and request the fee transfer.
    let transfers = build_fee_transfers(&registry.config, amount_sent);
    let entry = RegEntry { name, chain_id, registration };
    proof {
        lemma_unique_push(registry.entries@, entry);
    }
    registry.entries.push(entry);
    Ok(Response { action: String::from_str("register"), transfers })
}

/// Everything [`execute_register`] promises: under a fungible policy the
/// direct path is rejected; under no policy the command must carry no funds;
/// under a native policy all attached coins must be of the configured denom
/// and total exactly the configured amount. Then the registration core runs
/// for the command's sender.
pub open spec fn execute_register_effect(
    pre: Registry,
    post: Registry,
    info: MessageInfo,
    name: String,
    version: String,
    chain_id: String,
    code_id: u64,
    checksum: String,
    r: Result<Response, ContractError>,
) -> bool {
    match pre.config.payment_info {
        PaymentInfo::Cw20Payment { .. } => post == pre && (r matches Err(e) && e is InvalidPayment),
        PaymentInfo::NoPayment {} => {
            if !funds_none(info.funds@) {
                post == pre && (r matches Err(e) && e is InvalidPayment)
            } else {
                register_effect(
                    pre,
                    post,
                    0,
                    name,
                    chain_id,
                    (Registration { registered_by: info.sender, version, code_id, checksum }),
                    r,
                )
            }
        },
        PaymentInfo::NativePayment { token_denom, payment_amount } => {
            if funds_has_foreign(info.funds@, token_denom@) {
                post == pre && (r matches Err(e) && e is UnrecognizedNativeToken)
            } else if funds_total(info.funds@, token_denom@) != payment_amount {
                post == pre && (r matches Err(e) && e is IncorrectPaymentAmount)
            } else {
                register_effect(
                    pre,
                    post,
                    payment_amount,
                    name,
                    chain_id,
                    (Registration { registered_by: info.sender, version, code_id, checksum }),
                    r,
                )
            }
        },
    }
}

/// Registers a code id paid directly: checks the attached native funds
/// against the configured payment policy, then runs the registration core.
pub fn execute_register(
    registry: &mut Registry,
    info: MessageInfo,
    name: String,
    version: String,
    chain_id: String,
    code_id: u64,
    checksum: String,
) -> (r: Result<Response, ContractError>)
    requires
        old(registry).wf(),
    ensures
        final(registry).wf(),
        execute_register_effect(
            *old(registry),
            *final(registry),
            info,
            name,
            version,
            chain_id,
            code_id,
            checksum,
            r,
        ),
{
    let MessageInfo { sender, funds } = info;
    let payment = registry.config.payment_info.clone();
    match payment {
        PaymentInfo::Cw20Payment { .. } => Err(ContractError::InvalidPayment {}),
        PaymentInfo::NoPayment {} => {
            if !funds_all_zero(&funds) {
                return Err(ContractError::InvalidPayment {});
            }
            register_code_id(
                registry,
                0,
                name,
                chain_id,
                Registration { registered_by: sender, version, code_id, checksum },
            )
        },
        PaymentInfo::NativePayment { token_denom, payment_amount } => {
            if has_foreign_coin(&funds, &token_denom) {
                return Err(ContractError::UnrecognizedNativeToken {});
            }
            let paid = match sum_funds(&funds, &token_denom) {
                Some(t) => t,
                None => {
                    return Err(ContractError::IncorrectPaymentAmount {});
                },
            };
            if paid != payment_amount {
                return Err(ContractError::IncorrectPaymentAmount {});
            }
            register_code_id(
                registry,
                payment_amount,
                name,
                chain_id,
                Registration { registered_by: sender, version, code_id, checksum },
            )
        },
    }
}

/// Everything [`execute_receive`] promises: the notification path is open
/// only under a fungible policy, only to the configured token contract, for
/// a well-formed depositor and exactly the configured amount; the depositor,
/// not the token, becomes the registrant.
pub open spec fn execute_receive_effect(
    pre: Registry,
    post: Registry,
    info: MessageInfo,
    wrapped: ReceiveEnvelope,
    r: Result<Response, ContractError>,
) -> bool {
    match pre.config.payment_info {
        PaymentInfo::Cw20Payment { token_address, payment_amount } => {
            if info.sender@ != token_address@ {
                post == pre && (r matches Err(e) && e is UnrecognizedCw20)
            } else if !valid_addr(wrapped.sender@) {
                post == pre && (r matches Err(e) && e is InvalidAddress)
            } else if wrapped.amount != payment_amount {
                post == pre && (r matches Err(e) && e is IncorrectPaymentAmount)
            } else {
                match wrapped.msg {
                    ReceiveMsg::Register { name, version, chain_id, code_id, checksum } => {
                        register_effect(
                            pre,
                            post,
                            wrapped.amount,
                            name,
                            chain_id,
                            (Registration {
                                registered_by: wrapped.sender,
                                version,
                                code_id,
                                checksum,
                            }),
                            r,
                        )
                    },
                }
            }
        },
        _ => post == pre && (r matches Err(e) && e is InvalidPayment),
    }
}

/// Registers a code id paid by a fungible-token transfer notification.
pub fn execute_receive(
    registry: &mut Registry,
    info: MessageInfo,
    wrapped: ReceiveEnvelope,
) -> (r: Result<Response, ContractError>)
    requires
        old(registry).wf(),
    ensures
        final(registry).wf(),
        execute_receive_effect(*old(registry), *final(registry), info, wrapped, r),
{
    let ReceiveEnvelope { sender: depositor, amount, msg } = wrapped;
    let payment = registry.config.payment_info.clone();
    match payment {
        PaymentInfo::Cw20Payment { token_address, payment_amount } => {
            if !(info.sender == token_address) {
                return Err(ContractError::UnrecognizedCw20 {});
            }
            if !validate_address(depositor.as_str()) {
                return Err(ContractError::InvalidAddress {});
            }
            if amount != payment_amount {
                return Err(ContractError::IncorrectPaymentAmount {});
            }
            match msg {
                ReceiveMsg::Register { name, version, chain_id, code_id, checksum } => {
                    register_code_id(
                        registry,
                        amount,
                        name,
                        chain_id,
                        Registration { registered_by: depositor, version, code_id, checksum },
                    )
                },
            }
        },
        _ => Err(ContractError::InvalidPayment {}),
    }
}

/// Everything [`execute_set_owner`] promises: the admin or the current owner
/// may replace or clear a pair's delegation; a new owner must be a
/// well-formed address; no other pair's delegation changes.
pub open spec fn set_owner_effect(
    pre: Registry,
    post: Registry,
    sender: String,
    name: String,
    chain_id: String,
    owner: Option<String>,
    r: Result<Response, ContractError>,
) -> bool {
    let auth = authorized(pre, sender@, name@, chain_id@);
    &&& (r is Ok <==> auth && (owner matches Some(o) ==> valid_addr(o@)))
    &&& (r matches Err(e) ==> post == pre && (if !auth {
        e is Unauthorized
    } else {
        e is InvalidAddress
    }))
    &&& (r matches Ok(resp) ==> {
        &&& post.config == pre.config
        &&& post.entries == pre.entries
        &&& resp.action@ == "set_owner"@
        &&& resp.transfers@ == Seq::<Transfer>::empty()
        &&& (owner matches Some(o) ==> owner_is(post.owners@, name@, chain_id@, o@))
        &&& (owner is None ==> !has_owner(post.owners@, name@, chain_id@))
        &&& owner_frame(pre.owners@, post.owners@, name@, chain_id@)
    })
}

/// Sets or clears the delegated owner of `(name, chain_id)`.
pub fn execute_set_owner(
    registry: &mut Registry,
    sender: String,
    name: String,
    chain_id: String,
    owner: Option<String>,
) -> (r: Result<Response, ContractError>)
    requires
        old(registry).wf(),
    ensures
        final(registry).wf(),
        set_owner_effect(*old(registry), *final(registry), sender, name, chain_id, owner, r),
{
    // Authorization: the admin, or the pair's current owner.
    let mut is_auth = sender == registry.config.admin;
    if !is_auth {
        match find_owner_index(&registry.owners, &name, &chain_id) {
            Some(i) => {
                let rec = &registry.owners[i];
                if sender == rec.owner {
                    assert(owner_is(registry.owners@, name@, chain_id@, sender@));
                    is_auth = true;
                } else {
                    proof {
                        lemma_owner_unique_value(registry.owners@, i as int, name@, chain_id@);
                    }
                }
            },
            None => {},
        }
    }
    if !is_auth {
        assert(!authorized(*registry, sender@, name@, chain_id@));
        return Err(ContractError::Unauthorized {});
    }
    assert(authorized(*registry, sender@, name@, chain_id@));

    match owner {
        Some(o) => {
            if !validate_address(o.as_str()) {
                return Err(ContractError::InvalidAddress {});
            }
            // Replace: drop the old record (if any), then append the new one.
            match find_owner_index(&registry.owners, &name, &chain_id) {
                Some(i) => {
                    proof {
                        lemma_owner_remove_frame(registry.owners@, i as int);
                    }
                    registry.owners.remove(i);
                },
                None => {},
            }
            let rec = OwnerRecord { name, chain_id, owner: o };
            proof {
                lemma_owner_push_frame(registry.owners@, rec);
            }
            registry.owners.push(rec);
            Ok(Response { action: String::from_str("set_owner"), transfers: Vec::new() })
        },
        None => {
            // Clear: the pair reverts to admin-only registration.
            match find_owner_index(&registry.owners, &name, &chain_id) {
                Some(i) => {
                    proof {
                        lemma_owner_remove_frame(registry.owners@, i as int);
                    }
                    registry.owners.remove(i);
                },
                None => {},
            }
            Ok(Response { action: String::from_str("set_owner"), transfers: Vec::new() })
        },
    }
}

/// Everything [`execute_unregister`] promises: admin-only; the target is
/// found from `(chain_id, code_id)` by the reverse index; on success exactly
/// the one entry binding that code id is removed.
pub open spec fn unregister_effect(
    pre: Registry,
    post: Registry,
    sender: String,
    chain_id: String,
    code_id: u64,
    r: Result<Response, ContractError>,
) -> bool {
    let auth = sender@ == pre.config.admin@;
    &&& (r is Ok <==> auth && code_taken(pre.entries@, chain_id@, code_id))
    &&& (r matches Err(e) ==> post == pre && (if !auth {
        e is Unauthorized
    } else {
        e is NotFound
    }))
    &&& (r matches Ok(resp) ==> post.config == pre.config && post.owners == pre.owners
        && resp.action@ == "unregister"@ && resp.transfers@ == Seq::<Transfer>::empty() && exists|
        i: int,
    |
        0 <= i < pre.entries@.len() && #[trigger] entry_has_code(pre.entries@[i], chain_id@, code_id)
            && post.entries@ == pre.entries@.remove(i))
}

/// Removes the registration binding `code_id` on `chain_id`. Admin only.
/// The freed code id and version may be registered again afterwards.
pub fn execute_unregister(
    registry: &mut Registry,
    sender: String,
    chain_id: String,
    code_id: u64,
) -> (r: Result<Response, ContractError>)
    requires
        old(registry).wf(),
    ensures
        final(registry).wf(),
        unregister_effect(*old(registry), *final(registry), sender, chain_id, code_id, r),
{
    if !(sender == registry.config.admin) {
        return Err(ContractError::Unauthorized {});
    }
    match find_code_index(&registry.entries, &chain_id, code_id) {
        Some(i) => {
            proof {
                lemma_remove_frees_entry(registry.entries@, i as int);
            }
            registry.entries.remove(i);
            assert(entry_has_code(old(registry).entries@[i as int], chain_id@, code_id));
            Ok(Response { action: String::from_str("unregister"), transfers: Vec::new() })
        },
        None => Err(ContractError::NotFound {}),
    }
}

/// Everything [`execute_update_config`] promises: admin-only; each given
/// field replaces the stored one and an absent field is left unchanged; the
/// resulting admin address and payment policy are validated before anything
/// is written, and on failure nothing changes.
pub open spec fn update_config_effect(
    pre: Registry,
    post: Registry,
    sender: String,
    new_admin: Option<String>,
    new_payment_info: Option<PaymentInfo>,
    token_is_cw20: bool,
    r: Result<Response, ContractError>,
) -> bool {
    let auth = sender@ == pre.config.admin@;
    let admin2 = match new_admin {
        Some(a) => a,
        None => pre.config.admin,
    };
    let pay2 = match new_payment_info {
        Some(p) => p,
        None => pre.config.payment_info,
    };
    &&& (r is Ok <==> auth && valid_addr(admin2@) && payment_info_valid(pay2, token_is_cw20))
    &&& (r matches Err(e) ==> post == pre && (if !auth {
        e is Unauthorized
    } else if !valid_addr(admin2@) {
        e is InvalidAddress
    } else {
        payment_info_err(pay2, token_is_cw20, e)
    }))
    &&& (r matches Ok(resp) ==> post.entries == pre.entries && post.owners == pre.owners
        && post.config.admin@ == admin2@ && post.config.payment_info == pay2 && resp.action@
        == "update_config"@ && resp.transfers@ == Seq::<Transfer>::empty())
}

/// Replaces the admin and/or the payment policy. Admin only; both resulting
/// fields are validated exactly as at instantiation before being committed.
pub fn execute_update_config(
    registry: &mut Registry,
    info: MessageInfo,
    new_admin: Option<String>,
    new_payment_info: Option<PaymentInfo>,
    token_is_cw20: bool,
) -> (r: Result<Response, ContractError>)
    requires
        old(registry).wf(),
    ensures
        final(registry).wf(),
        update_config_effect(
            *old(registry),
            *final(registry),
            info.sender,
            new_admin,
            new_payment_info,
            token_is_cw20,
            r,
        ),
{
    if !(info.sender == registry.config.admin) {
        return Err(ContractError::Unauthorized {});
    }
    let admin2 = match new_admin {
        Some(a) => a,
        None => registry.config.admin.clone(),
    };
    if !validate_address(admin2.as_str()) {
        return Err(ContractError::InvalidAddress {});
    }
    let pay2 = match new_payment_info {
        Some(p) => p,
        None => registry.config.payment_info.clone(),
    };
    match validate_payment_info(&pay2, token_is_cw20) {
        Err(e) => {
            return Err(e);
        },
        Ok(()) => {},
    }
    registry.config = Config { admin: admin2, payment_info: pay2 };
    Ok(Response { action: String::from_str("update_config"), transfers: Vec::new() })
}

/// Dispatches a command to its handler. `token_is_cw20` is the host-supplied
/// token-info probe outcome for the token address named in an `UpdateConfig`
/// message; it is ignored for every other message.
pub fn execute(
    registry: &mut Registry,
    info: MessageInfo,
    msg: ExecuteMsg,
    token_is_cw20: bool,
) -> (r: Result<Response, ContractError>)
    requires
        old(registry).wf(),
    ensures
        final(registry).wf(),
        (match msg {
            ExecuteMsg::Receive(wrapped) => execute_receive_effect(
                *old(registry),
                *final(registry),
                info,
                wrapped,
                r,
            ),
            ExecuteMsg::Register { name, version, chain_id, code_id, checksum } => {
                execute_register_effect(
                    *old(registry),
                    *final(registry),
                    info,
                    name,
                    version,
                    chain_id,
                    code_id,
                    checksum,
                    r,
                )
            },
            ExecuteMsg::SetOwner { name, chain_id, owner } => set_owner_effect(
                *old(registry),
                *final(registry),
                info.sender,
                name,
                chain_id,
                owner,
                r,
            ),
            ExecuteMsg::Unregister { chain_id, code_id } => unregister_effect(
                *old(registry),
                *final(registry),
                info.sender,
                chain_id,
                code_id,
                r,
            ),
            ExecuteMsg::UpdateConfig { admin, payment_info } => update_config_effect(
                *old(registry),
                *final(registry),
                info.sender,
                admin,
                payment_info,
                token_is_cw20,
                r,
            ),
        }),
{
    match msg {
        ExecuteMsg::Receive(wrapped) => execute_receive(registry, info, wrapped),
        ExecuteMsg::Register { name, version, chain_id, code_id, checksum } => execute_register(
            registry,
            info,
            name,
            version,
            chain_id,
            code_id,
            checksum,
        ),
        ExecuteMsg::SetOwner { name, chain_id, owner } => execute_set_owner(
            registry,
            info.sender,
            name,
            chain_id,
            owner,
        ),
        ExecuteMsg::Unregister { chain_id, code_id } => execute_unregister(
            registry,
            info.sender,
            chain_id,
            code_id,
        ),
        ExecuteMsg::UpdateConfig { admin, payment_info } => execute_update_config(
            registry,
            info,
            admin,
            payment_info,
            token_is_cw20,
        ),
    }
}


// ---------------------------------------------------------------------------
// Queries.
// ---------------------------------------------------------------------------

/// Finds the most recently inserted entry for `(name, chain_id)`, if any.
fn find_latest_index(entries: &Vec<RegEntry>, name: &String, chain_id: &String) -> (r: Option<
    usize,
>)
    ensures
        r matches Some(i) ==> i < entries@.len() && entry_matches_pair(
            entries@[i as int],
            name@,
            chain_id@,
        ) && latest_reg(entries@, name@, chain_id@) == Some(entries@[i as int].registration),
        r is None ==> latest_reg(entries@, name@, chain_id@) is None,
{
    let mut j: usize = entries.len();
    proof {
        assert(entries@.subrange(0, entries@.len() as int) =~= entries@);
    }
    while j > 0
        invariant
            0 <= j <= entries@.len(),
            latest_reg(entries@, name@, chain_id@) == latest_reg(
                entries@.subrange(0, j as int),
                name@,
                chain_id@,
            ),
        decreases j,
    {
        let e = &entries[j - 1];
        proof {
            assert(entries@.subrange(0, j as int).last() == entries@[j as int - 1]);
            assert(entries@.subrange(0, j as int).drop_last() =~= entries@.subrange(
                0,
                j as int - 1,
            ));
        }
        if e.name == *name && e.chain_id == *chain_id {
            assert(entry_matches_pair(entries@[j as int - 1], name@, chain_id@));
            return Some(j - 1);
        }
        assert(!entry_matches_pair(entries@[j as int - 1], name@, chain_id@));
        j = j - 1;
    }
    None
}

/// Collects the live registrations of `(name, chain_id)`, oldest first.
fn collect_regs(entries: &Vec<RegEntry>, name: &String, chain_id: &String) -> (v: Vec<
    Registration,
>)
    ensures
        v@ == regs_for(entries@, name@, chain_id@),
{
    let mut v: Vec<Registration> = Vec::new();
    let mut i: usize = 0;
    while i < entries.len()
        invariant
            0 <= i <= entries@.len(),
            v@ == regs_for(entries@.subrange(0, i as int), name@, chain_id@),
        decreases entries@.len() - i,
    {
        let e = &entries[i];
        proof {
            assert(entries@.subrange(0, i as int + 1).drop_last() =~= entries@.subrange(
                0,
                i as int,
            ));
            assert(entries@.subrange(0, i as int + 1).last() == entries@[i as int]);
        }
        if e.name == *name && e.chain_id == *chain_id {
            v.push(e.registration.clone());
        }
        i = i + 1;
    }
    proof {
        assert(entries@.subrange(0, entries@.len() as int) =~= entries@);
    }
    v
}

/// Everything [`query_get_registration`] promises: with a version, the one
/// registration at that exact version; without one, the latest live
/// registration for the pair; `NotFound` when there is none.
pub open spec fn get_registration_effect(
    reg: Registry,
    name: String,
    chain_id: String,
    version: Option<String>,
    r: Result<GetRegistrationResponse, ContractError>,
) -> bool {
    match version {
        Some(v) => {
            &&& (r is Ok <==> version_taken(reg.entries@, name@, chain_id@, v@))
            &&& (r matches Ok(resp) ==> exists|i: int|
                0 <= i < reg.entries@.len() && #[trigger] entry_has_version(
                    reg.entries@[i],
                    name@,
                    chain_id@,
                    v@,
                ) && resp.registration == reg.entries@[i].registration)
            &&& (r matches Err(e) ==> e is NotFound)
        },
        None => {
            &&& (r is Ok <==> latest_reg(reg.entries@, name@, chain_id@) is Some)
            &&& (r matches Ok(resp) ==> Some(resp.registration) == latest_reg(
                reg.entries@,
                name@,
                chain_id@,
            ))
            &&& (r matches Err(e) ==> e is NotFound)
        },
    }
}

/// Resolves a registration by exact version, or the latest one when no
/// version is given.
pub fn query_get_registration(
    registry: &Registry,
    name: String,
    chain_id: String,
    version: Option<String>,
) -> (r: Result<GetRegistrationResponse, ContractError>)
    ensures
        get_registration_effect(*registry, name, chain_id, version, r),
{
    match &version {
        Some(v) => {
            match find_version_index(&registry.entries, &name, &chain_id, v) {
                Some(i) => Ok(
                    GetRegistrationResponse {
                        registration: registry.entries[i].registration.clone(),
                    },
                ),
                None => Err(ContractError::NotFound {}),
            }
        },
        None => {
            match find_latest_index(&registry.entries, &name, &chain_id) {
                Some(i) => Ok(
                    GetRegistrationResponse {
                        registration: registry.entries[i].registration.clone(),
                    },
                ),
                None => Err(ContractError::NotFound {}),
            }
        },
    }
}

/// Everything [`query_info_for_code_id`] promises: the name, version,
/// checksum and registrant of the one entry binding the code id on the
/// chain; `NotFound` when the code id is unknown there.
pub open spec fn info_for_code_id_effect(
    reg: Registry,
    chain_id: String,
    code_id: u64,
    r: Result<InfoForCodeIdResponse, ContractError>,
) -> bool {
    &&& (r is Ok <==> code_taken(reg.entries@, chain_id@, code_id))
    &&& (r matches Ok(resp) ==> exists|i: int|
        0 <= i < reg.entries@.len() && #[trigger] entry_has_code(reg.entries@[i], chain_id@, code_id)
            && resp.registered_by@ == reg.entries@[i].registration.registered_by@ && resp.name@
            == reg.entries@[i].name@ && resp.version@ == reg.entries@[i].registration.version@
            && resp.checksum@ == reg.entries@[i].registration.checksum@)
    &&& (r matches Err(e) ==> e is NotFound)
}

/// Resolves what a code id is registered as, by the reverse index.
pub fn query_info_for_code_id(registry: &Registry, chain_id: String, code_id: u64) -> (r: Result<
    InfoForCodeIdResponse,
    ContractError,
>)
    ensures
        info_for_code_id_effect(*registry, chain_id, code_id, r),
{
    match find_code_index(&registry.entries, &chain_id, code_id) {
        Some(i) => {
            let e = &registry.entries[i];
            Ok(
                InfoForCodeIdResponse {
                    registered_by: e.registration.registered_by.clone(),
                    name: e.name.clone(),
                    version: e.registration.version.clone(),
                    checksum: e.registration.checksum.clone(),
                },
            )
        },
        None => Err(ContractError::NotFound {}),
    }
}

/// Everything [`query_list_registrations`] promises: all live registrations
/// for the pair in insertion order; `NotFound` rather than an empty list
/// when none exist, mirroring the latest-version semantics.
pub open spec fn list_registrations_effect(
    reg: Registry,
    name: String,
    chain_id: String,
    r: Result<ListRegistrationsResponse, ContractError>,
) -> bool {
    &&& (r is Ok <==> regs_for(reg.entries@, name@, chain_id@).len() > 0)
    &&& (r matches Ok(resp) ==> resp.registrations@ == regs_for(reg.entries@, name@, chain_id@))
    &&& (r matches Err(e) ==> e is NotFound)
}

/// Lists the live registrations of `(name, chain_id)`, oldest first.
pub fn query_list_registrations(registry: &Registry, name: String, chain_id: String) -> (r: Result<
    ListRegistrationsResponse,
    ContractError,
>)
    ensures
        list_registrations_effect(*registry, name, chain_id, r),
{
    let regs = collect_regs(&registry.entries, &name, &chain_id);
    if regs.len() == 0 {
        Err(ContractError::NotFound {})
    } else {
        Ok(ListRegistrationsResponse { registrations: regs })
    }
}

/// Dispatches a query to its handler.
pub fn query(registry: &Registry, msg: QueryMsg) -> (r: Result<QueryAnswer, ContractError>)
    ensures
        (match msg {
            QueryMsg::Config {} => r matches Ok(a) && a matches QueryAnswer::Config(cr)
                && cr.config == registry.config,
            QueryMsg::GetRegistration { name, chain_id, version } => (match r {
                Ok(a) => a matches QueryAnswer::GetRegistration(resp) && get_registration_effect(
                    *registry,
                    name,
                    chain_id,
                    version,
                    Ok(resp),
                ),
                Err(e) => get_registration_effect(*registry, name, chain_id, version, Err(e)),
            }),
            QueryMsg::InfoForCodeId { chain_id, code_id } => (match r {
                Ok(a) => a matches QueryAnswer::InfoForCodeId(resp) && info_for_code_id_effect(
                    *registry,
                    chain_id,
                    code_id,
                    Ok(resp),
                ),
                Err(e) => info_for_code_id_effect(*registry, chain_id, code_id, Err(e)),
            }),
            QueryMsg::ListRegistrations { name, chain_id } => (match r {
                Ok(a) => a matches QueryAnswer::ListRegistrations(resp)
                    && list_registrations_effect(*registry, name, chain_id, Ok(resp)),
                Err(e) => list_registrations_effect(*registry, name, chain_id, Err(e)),
            }),
        }),
{
    match msg {
        QueryMsg::Config {} => Ok(
            QueryAnswer::Config(ConfigResponse { config: registry.config.clone() }),
        ),
        QueryMsg::GetRegistration { name, chain_id, version } => {
            match query_get_registration(registry, name, chain_id, version) {
                Ok(resp) => Ok(QueryAnswer::GetRegistration(resp)),
                Err(e) => Err(e),
            }
        },
        QueryMsg::InfoForCodeId { chain_id, code_id } => {
            match query_info_for_code_id(registry, chain_id, code_id) {
                Ok(resp) => Ok(QueryAnswer::InfoForCodeId(resp)),
                Err(e) => Err(e),
            }
        },
        QueryMsg::ListRegistrations { name, chain_id } => {
            match query_list_registrations(registry, name, chain_id) {
                Ok(resp) => Ok(QueryAnswer::ListRegistrations(resp)),
                Err(e) => Err(e),
            }
        },
    }
}

} // verus!
