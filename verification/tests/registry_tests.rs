//! The registry's end-to-end command tests, driven through `execute` and
//! `query` with a small in-memory bank standing in for the ledger: attached
//! funds leave the payer and the transfers a command requests are carried
//! out.

use cw_code_id_registry::contract::{execute, instantiate, query};
use cw_code_id_registry::error::ContractError;
use cw_code_id_registry::msg::{
    Coin, ExecuteMsg, GetRegistrationResponse, InfoForCodeIdResponse, InstantiateMsg,
    ListRegistrationsResponse, MessageInfo, QueryAnswer, QueryMsg, ReceiveEnvelope, ReceiveMsg,
    Response, Transfer,
};
use cw_code_id_registry::state::{Config, PaymentInfo, Registration, Registry};

const USER_ADDR: &str = "user";
const OTHER_USER_ADDR: &str = "other_user";
const ADMIN_ADDR: &str = "admin";
const CHAIN_ID: &str = "chain-id";
const CHECKSUM: &str = "checksum";

/// The ledger around the registry: native balances, fungible-token balances,
/// and which addresses host a fungible-token contract.
struct Bank {
    native: Vec<(String, String, u128)>,
    cw20: Vec<(String, String, u128)>,
    tokens: Vec<String>,
}

fn native_balance(bank: &Bank, addr: &str, denom: &str) -> u128 {
    bank.native
        .iter()
        .find(|(a, d, _)| a == addr && d == denom)
        .map(|(_, _, amt)| *amt)
        .unwrap_or(0)
}

fn set_native(bank: &mut Bank, addr: &str, denom: &str, amount: u128) {
    if let Some(entry) = bank
        .native
        .iter_mut()
        .find(|(a, d, _)| a == addr && d == denom)
    {
        entry.2 = amount;
    } else {
        bank.native
            .push((addr.to_string(), denom.to_string(), amount));
    }
}

fn cw20_balance(bank: &Bank, token: &str, holder: &str) -> u128 {
    bank.cw20
        .iter()
        .find(|(t, h, _)| t == token && h == holder)
        .map(|(_, _, amt)| *amt)
        .unwrap_or(0)
}

fn set_cw20(bank: &mut Bank, token: &str, holder: &str, amount: u128) {
    if let Some(entry) = bank
        .cw20
        .iter_mut()
        .find(|(t, h, _)| t == token && h == holder)
    {
        entry.2 = amount;
    } else {
        bank.cw20
            .push((token.to_string(), holder.to_string(), amount));
    }
}

fn apply_transfers(bank: &mut Bank, transfers: &[Transfer]) {
    for t in transfers {
        match t {
            Transfer::Native {
                to_address,
                denom,
                amount,
            } => {
                let have = native_balance(bank, to_address, denom);
                set_native(bank, to_address, denom, have + amount);
            }
            Transfer::Cw20 {
                token_address,
                to_address,
                amount,
            } => {
                let have = cw20_balance(bank, token_address, to_address);
                set_cw20(bank, token_address, to_address, have + amount);
            }
        }
    }
}

/// Whether the token-info probe against `payment_info`'s token address would
/// succeed: true exactly for addresses hosting a token contract.
fn probe(bank: &Bank, payment_info: &PaymentInfo) -> bool {
    match payment_info {
        PaymentInfo::Cw20Payment { token_address, .. } => {
            bank.tokens.iter().any(|t| t == token_address)
        }
        _ => true,
    }
}

fn setup_app() -> Bank {
    let mut bank = Bank {
        native: Vec::new(),
        cw20: Vec::new(),
        tokens: Vec::new(),
    };
    for addr in [USER_ADDR, OTHER_USER_ADDR, ADMIN_ADDR] {
        set_native(&mut bank, addr, "ujuno", 10000);
        set_native(&mut bank, addr, "uatom", 10000);
    }
    bank
}

fn create_token(bank: &mut Bank) -> String {
    let token = format!("token{}", bank.tokens.len());
    bank.tokens.push(token.clone());
    for addr in [USER_ADDR, ADMIN_ADDR, OTHER_USER_ADDR] {
        set_cw20(bank, &token, addr, 1000);
    }
    token
}

fn setup_test_case(bank: &Bank, payment_info: PaymentInfo) -> Registry {
    let ok = probe(bank, &payment_info);
    instantiate(
        InstantiateMsg {
            admin: ADMIN_ADDR.to_string(),
            payment_info,
        },
        ok,
    )
    .unwrap()
}

fn register_cw20(
    registry: &mut Registry,
    bank: &mut Bank,
    token: &str,
    amount: u128,
    name: String,
    version: String,
    code_id: u64,
    sender: &str,
) -> Result<Response, ContractError> {
    assert!(cw20_balance(bank, token, sender) >= amount);
    let env = ReceiveEnvelope {
        sender: sender.to_string(),
        amount,
        msg: ReceiveMsg::Register {
            name,
            version,
            chain_id: CHAIN_ID.to_string(),
            code_id,
            checksum: CHECKSUM.to_string(),
        },
    };
    let info = MessageInfo {
        sender: token.to_string(),
        funds: vec![],
    };
    let res = execute(registry, info, ExecuteMsg::Receive(env), false);
    if let Ok(resp) = &res {
        let have = cw20_balance(bank, token, sender);
        set_cw20(bank, token, sender, have - amount);
        apply_transfers(bank, &resp.transfers);
    }
    res
}

fn register_native(
    registry: &mut Registry,
    bank: &mut Bank,
    funds: &[(u128, &str)],
    name: String,
    version: String,
    code_id: u64,
    sender: &str,
) -> Result<Response, ContractError> {
    let coins: Vec<Coin> = funds
        .iter()
        .map(|(amount, denom)| Coin {
            denom: denom.to_string(),
            amount: *amount,
        })
        .collect();
    let info = MessageInfo {
        sender: sender.to_string(),
        funds: coins,
    };
    let msg = ExecuteMsg::Register {
        name,
        version,
        chain_id: CHAIN_ID.to_string(),
        code_id,
        checksum: CHECKSUM.to_string(),
    };
    let res = execute(registry, info, msg, false);
    if let Ok(resp) = &res {
        for (amount, denom) in funds {
            let have = native_balance(bank, sender, denom);
            assert!(have >= *amount);
            set_native(bank, sender, denom, have - amount);
        }
        apply_transfers(bank, &resp.transfers);
    }
    res
}

fn set_owner(
    registry: &mut Registry,
    name: String,
    owner: Option<String>,
    sender: &str,
) -> Result<Response, ContractError> {
    let info = MessageInfo {
        sender: sender.to_string(),
        funds: vec![],
    };
    let msg = ExecuteMsg::SetOwner {
        name,
        chain_id: CHAIN_ID.to_string(),
        owner,
    };
    execute(registry, info, msg, false)
}

fn unregister(
    registry: &mut Registry,
    code_id: u64,
    sender: &str,
) -> Result<Response, ContractError> {
    let info = MessageInfo {
        sender: sender.to_string(),
        funds: vec![],
    };
    let msg = ExecuteMsg::Unregister {
        chain_id: CHAIN_ID.to_string(),
        code_id,
    };
    execute(registry, info, msg, false)
}

fn update_config(
    registry: &mut Registry,
    bank: &Bank,
    admin: Option<String>,
    payment_info: Option<PaymentInfo>,
    sender: &str,
) -> Result<Response, ContractError> {
    // The host probes the token of the policy that would result: the given
    // one, or the stored one when the message leaves the policy unchanged.
    let ok = match &payment_info {
        Some(p) => probe(bank, p),
        None => probe(bank, &registry.config.payment_info),
    };
    let info = MessageInfo {
        sender: sender.to_string(),
        funds: vec![],
    };
    let msg = ExecuteMsg::UpdateConfig {
        admin,
        payment_info,
    };
    execute(registry, info, msg, ok)
}

fn query_get_registration(
    registry: &Registry,
    name: String,
    version: Option<String>,
) -> Result<GetRegistrationResponse, ContractError> {
    let msg = QueryMsg::GetRegistration {
        name,
        chain_id: CHAIN_ID.to_string(),
        version,
    };
    match query(registry, msg)? {
        QueryAnswer::GetRegistration(resp) => Ok(resp),
        other => panic!("unexpected answer: {:?}", other),
    }
}

fn query_info_for_code_id(
    registry: &Registry,
    code_id: u64,
) -> Result<InfoForCodeIdResponse, ContractError> {
    let msg = QueryMsg::InfoForCodeId {
        chain_id: CHAIN_ID.to_string(),
        code_id,
    };
    match query(registry, msg)? {
        QueryAnswer::InfoForCodeId(resp) => Ok(resp),
        other => panic!("unexpected answer: {:?}", other),
    }
}

fn query_list_registrations(
    registry: &Registry,
    name: String,
) -> Result<ListRegistrationsResponse, ContractError> {
    let msg = QueryMsg::ListRegistrations {
        name,
        chain_id: CHAIN_ID.to_string(),
    };
    match query(registry, msg)? {
        QueryAnswer::ListRegistrations(resp) => Ok(resp),
        other => panic!("unexpected answer: {:?}", other),
    }
}

fn query_config(registry: &Registry) -> Config {
    match query(registry, QueryMsg::Config {}).unwrap() {
        QueryAnswer::Config(resp) => resp.config,
        other => panic!("unexpected answer: {:?}", other),
    }
}

fn registration(registered_by: &str, version: &str, code_id: u64) -> Registration {
    Registration {
        registered_by: registered_by.to_string(),
        version: version.to_string(),
        code_id,
        checksum: CHECKSUM.to_string(),
    }
}

#[test]
fn test_instantiate() {
    let mut bank = setup_app();
    let token_addr = create_token(&mut bank);

    let payment_info = PaymentInfo::Cw20Payment {
        token_address: token_addr,
        payment_amount: 50,
    };
    let ok = probe(&bank, &payment_info);
    instantiate(
        InstantiateMsg {
            admin: ADMIN_ADDR.to_string(),
            payment_info,
        },
        ok,
    )
    .unwrap();
}

#[test]
fn test_register_cw20() {
    let mut bank = setup_app();
    let token = create_token(&mut bank);
    let mut registry = setup_test_case(
        &bank,
        PaymentInfo::Cw20Payment {
            token_address: token.clone(),
            payment_amount: 50,
        },
    );
    let other_token = create_token(&mut bank); // To be used when sending wrong token
    let name: &str = "Name";
    let version: &str = "0.0.1";
    let code_id: u64 = 1;

    // Give user address ownership over name.
    set_owner(
        &mut registry,
        name.to_string(),
        Some(USER_ADDR.to_string()),
        ADMIN_ADDR,
    )
    .unwrap();

    // Registering using native funds should fail.
    let err = register_native(
        &mut registry,
        &mut bank,
        &[(50, "ujuno")],
        name.to_string(),
        version.to_string(),
        code_id,
        USER_ADDR,
    )
    .unwrap_err();
    assert_eq!(err, ContractError::InvalidPayment {});

    // Registering using wrong cw20 should fail.
    let err = register_cw20(
        &mut registry,
        &mut bank,
        &other_token,
        50,
        name.to_string(),
        version.to_string(),
        code_id,
        USER_ADDR,
    )
    .unwrap_err();
    assert_eq!(err, ContractError::UnrecognizedCw20 {});

    // Sending too little should fail.
    let err = register_cw20(
        &mut registry,
        &mut bank,
        &token,
        25,
        name.to_string(),
        version.to_string(),
        code_id,
        USER_ADDR,
    )
    .unwrap_err();
    assert_eq!(err, ContractError::IncorrectPaymentAmount {});

    // Sending too much should fail.
    let err = register_cw20(
        &mut registry,
        &mut bank,
        &token,
        75,
        name.to_string(),
        version.to_string(),
        code_id,
        USER_ADDR,
    )
    .unwrap_err();
    assert_eq!(err, ContractError::IncorrectPaymentAmount {});

    // Sending correct amounts should succeed.
    register_cw20(
        &mut registry,
        &mut bank,
        &token,
        50,
        name.to_string(),
        version.to_string(),
        code_id,
        USER_ADDR,
    )
    .unwrap();

    // Check that admin now has 1050
    // It started with 1000 and now has 50 from the success
    let balance = cw20_balance(&bank, &token, ADMIN_ADDR);
    assert_eq!(balance, 1050);

    // Check registration with and without version.
    let resp_without_version =
        query_get_registration(&registry, name.to_string(), None).unwrap();
    let resp_with_version =
        query_get_registration(&registry, name.to_string(), Some(version.to_string())).unwrap();
    assert_eq!(
        resp_without_version.registration,
        registration(USER_ADDR, version, code_id)
    );
    assert_eq!(
        resp_without_version.registration,
        resp_with_version.registration,
    );

    // Should fail with Code ID already registered.
    let err = register_cw20(
        &mut registry,
        &mut bank,
        &token,
        50,
        name.to_string(),
        version.to_string(),
        code_id,
        USER_ADDR,
    )
    .unwrap_err();
    assert_eq!(
        err,
        ContractError::CodeIDAlreadyRegistered(code_id, CHAIN_ID.to_string())
    );
}

#[test]
fn test_register_native() {
    let mut bank = setup_app();
    let token = create_token(&mut bank);
    let pay_denom = "ujuno";
    let mut registry = setup_test_case(
        &bank,
        PaymentInfo::NativePayment {
            token_denom: pay_denom.to_string(),
            payment_amount: 50,
        },
    );
    let name: &str = "Name";
    let version: &str = "0.0.1";
    let code_id: u64 = 1;

    // Give user address ownership over name.
    set_owner(
        &mut registry,
        name.to_string(),
        Some(USER_ADDR.to_string()),
        ADMIN_ADDR,
    )
    .unwrap();

    // Registering using cw20 should fail.
    let err = register_cw20(
        &mut registry,
        &mut bank,
        &token,
        50,
        name.to_string(),
        version.to_string(),
        code_id,
        USER_ADDR,
    )
    .unwrap_err();
    assert_eq!(err, ContractError::InvalidPayment {});

    // Registering using wrong denom should fail.
    let err = register_native(
        &mut registry,
        &mut bank,
        &[(50, "uatom")],
        name.to_string(),
        version.to_string(),
        code_id,
        USER_ADDR,
    )
    .unwrap_err();
    assert_eq!(err, ContractError::UnrecognizedNativeToken {});

    // Sending too little should fail.
    let err = register_native(
        &mut registry,
        &mut bank,
        &[(25, pay_denom)],
        name.to_string(),
        version.to_string(),
        code_id,
        USER_ADDR,
    )
    .unwrap_err();
    assert_eq!(err, ContractError::IncorrectPaymentAmount {});

    // Sending too much should fail.
    let err = register_native(
        &mut registry,
        &mut bank,
        &[(75, pay_denom)],
        name.to_string(),
        version.to_string(),
        code_id,
        USER_ADDR,
    )
    .unwrap_err();
    assert_eq!(err, ContractError::IncorrectPaymentAmount {});

    // Sending correct amounts should succeed.
    register_native(
        &mut registry,
        &mut bank,
        &[(50, pay_denom)],
        name.to_string(),
        version.to_string(),
        code_id,
        USER_ADDR,
    )
    .unwrap();

    // Check that admin now has 10050
    // It started with 10000 and now has 50 from the success
    let balance = native_balance(&bank, ADMIN_ADDR, pay_denom);
    assert_eq!(balance, 10050);

    // Check registration with and without version.
    let resp_without_version =
        query_get_registration(&registry, name.to_string(), None).unwrap();
    let resp_with_version =
        query_get_registration(&registry, name.to_string(), Some(version.to_string())).unwrap();
    assert_eq!(
        resp_without_version.registration,
        registration(USER_ADDR, version, code_id)
    );
    assert_eq!(
        resp_without_version.registration,
        resp_with_version.registration,
    );

    // Should fail with Code ID already registered.
    let err = register_native(
        &mut registry,
        &mut bank,
        &[(50, pay_denom)],
        name.to_string(),
        version.to_string(),
        code_id,
        USER_ADDR,
    )
    .unwrap_err();
    assert_eq!(
        err,
        ContractError::CodeIDAlreadyRegistered(code_id, CHAIN_ID.to_string())
    );
}

#[test]
fn test_immutability() {
    let mut bank = setup_app();
    let pay_denom = "ujuno";
    let mut registry = setup_test_case(
        &bank,
        PaymentInfo::NativePayment {
            token_denom: pay_denom.to_string(),
            payment_amount: 50,
        },
    );
    let name: &str = "Name";
    let version: &str = "0.0.1";
    let code_id: u64 = 1;

    // Give user address ownership over name.
    set_owner(
        &mut registry,
        name.to_string(),
        Some(USER_ADDR.to_string()),
        ADMIN_ADDR,
    )
    .unwrap();

    // Register.
    register_native(
        &mut registry,
        &mut bank,
        &[(50, pay_denom)],
        name.to_string(),
        version.to_string(),
        code_id,
        USER_ADDR,
    )
    .unwrap();

    // Check registration with and without version.
    let resp_without_version =
        query_get_registration(&registry, name.to_string(), None).unwrap();
    let resp_with_version =
        query_get_registration(&registry, name.to_string(), Some(version.to_string())).unwrap();
    assert_eq!(
        resp_without_version.registration,
        registration(USER_ADDR, version, code_id)
    );
    assert_eq!(
        resp_without_version.registration,
        resp_with_version.registration,
    );

    // Should fail with Code ID already registered.
    let err = register_native(
        &mut registry,
        &mut bank,
        &[(50, pay_denom)],
        name.to_string(),
        version.to_string(),
        code_id,
        USER_ADDR,
    )
    .unwrap_err();
    assert_eq!(
        err,
        ContractError::CodeIDAlreadyRegistered(code_id, CHAIN_ID.to_string())
    );

    // Should fail with version already registered.
    let err = register_native(
        &mut registry,
        &mut bank,
        &[(50, pay_denom)],
        name.to_string(),
        version.to_string(),
        code_id + 1,
        USER_ADDR,
    )
    .unwrap_err();
    assert_eq!(
        err,
        ContractError::VersionAlreadyRegistered(
            version.to_string(),
            name.to_string(),
            CHAIN_ID.to_string()
        )
    );
}

#[test]
fn test_set_owner() {
    let mut bank = setup_app();
    let pay_denom = "ujuno";
    let mut registry = setup_test_case(
        &bank,
        PaymentInfo::NativePayment {
            token_denom: pay_denom.to_string(),
            payment_amount: 50,
        },
    );
    let name: &str = "Name";
    let version: &str = "0.0.1";
    let code_id: u64 = 1;

    // Register fails with unauthorized.
    let err = register_native(
        &mut registry,
        &mut bank,
        &[(50, pay_denom)],
        name.to_string(),
        version.to_string(),
        code_id,
        USER_ADDR,
    )
    .unwrap_err();
    assert_eq!(err, ContractError::Unauthorized {});

    // Give user address ownership over name.
    set_owner(
        &mut registry,
        name.to_string(),
        Some(USER_ADDR.to_string()),
        ADMIN_ADDR,
    )
    .unwrap();

    // Register succeeds.
    register_native(
        &mut registry,
        &mut bank,
        &[(50, pay_denom)],
        name.to_string(),
        version.to_string(),
        code_id,
        USER_ADDR,
    )
    .unwrap();

    // Check registration with and without version.
    let resp_without_version =
        query_get_registration(&registry, name.to_string(), None).unwrap();
    let resp_with_version =
        query_get_registration(&registry, name.to_string(), Some(version.to_string())).unwrap();
    assert_eq!(
        resp_without_version.registration,
        registration(USER_ADDR, version, code_id)
    );
    assert_eq!(
        resp_without_version.registration,
        resp_with_version.registration,
    );

    // OTHER USER
    let new_version: &str = "0.0.2";
    let new_code_id: u64 = 2;

    // Register by other user fails with unauthorized.
    let err = register_native(
        &mut registry,
        &mut bank,
        &[(50, pay_denom)],
        name.to_string(),
        new_version.to_string(),
        new_code_id,
        OTHER_USER_ADDR,
    )
    .unwrap_err();
    assert_eq!(err, ContractError::Unauthorized {});

    // Give other user address ownership over name.
    set_owner(
        &mut registry,
        name.to_string(),
        Some(OTHER_USER_ADDR.to_string()),
        USER_ADDR,
    )
    .unwrap();

    // Register by original user fails with unauthorized.
    let err = register_native(
        &mut registry,
        &mut bank,
        &[(50, pay_denom)],
        name.to_string(),
        new_version.to_string(),
        new_code_id,
        USER_ADDR,
    )
    .unwrap_err();
    assert_eq!(err, ContractError::Unauthorized {});

    // Register by other user succeeds.
    register_native(
        &mut registry,
        &mut bank,
        &[(50, pay_denom)],
        name.to_string(),
        new_version.to_string(),
        new_code_id,
        OTHER_USER_ADDR,
    )
    .unwrap();

    // Check registration with and without version.
    let resp_without_version =
        query_get_registration(&registry, name.to_string(), None).unwrap();
    let resp_with_version =
        query_get_registration(&registry, name.to_string(), Some(new_version.to_string()))
            .unwrap();
    assert_eq!(
        resp_without_version.registration,
        registration(OTHER_USER_ADDR, new_version, new_code_id)
    );
    assert_eq!(
        resp_without_version.registration,
        resp_with_version.registration,
    );

    // Get all registrations and verify both exist.
    let registrations = query_list_registrations(&registry, name.to_string())
        .unwrap()
        .registrations;
    assert_eq!(
        registrations,
        vec![
            registration(USER_ADDR, version, code_id),
            registration(OTHER_USER_ADDR, new_version, new_code_id)
        ]
    );

    // Get info for each code ID.
    let info = query_info_for_code_id(&registry, code_id).unwrap();
    assert_eq!(
        info,
        InfoForCodeIdResponse {
            registered_by: USER_ADDR.to_string(),
            name: name.to_string(),
            version: version.to_string(),
            checksum: CHECKSUM.to_string()
        }
    );
    let new_info = query_info_for_code_id(&registry, new_code_id).unwrap();
    assert_eq!(
        new_info,
        InfoForCodeIdResponse {
            registered_by: OTHER_USER_ADDR.to_string(),
            name: name.to_string(),
            version: new_version.to_string(),
            checksum: CHECKSUM.to_string()
        }
    );
}

#[test]
fn test_unregister() {
    let mut bank = setup_app();
    let pay_denom = "ujuno";
    let mut registry = setup_test_case(
        &bank,
        PaymentInfo::NativePayment {
            token_denom: pay_denom.to_string(),
            payment_amount: 50,
        },
    );
    let name: &str = "Name1";
    let version1: &str = "0.0.1";
    let code_id1: u64 = 1;
    let version2: &str = "0.0.2";
    let code_id2: u64 = 2;
    let version3: &str = "0.0.3";
    let code_id3: u64 = 3;

    let reg1 = registration(USER_ADDR, version1, code_id1);
    let reg2 = registration(USER_ADDR, version2, code_id2);
    let reg3 = registration(USER_ADDR, version3, code_id3);

    // Give user address ownership over name.
    set_owner(
        &mut registry,
        name.to_string(),
        Some(USER_ADDR.to_string()),
        ADMIN_ADDR,
    )
    .unwrap();

    // Register 1 succeeds.
    register_native(
        &mut registry,
        &mut bank,
        &[(50, pay_denom)],
        name.to_string(),
        version1.to_string(),
        code_id1,
        USER_ADDR,
    )
    .unwrap();

    // Register 2 succeeds.
    register_native(
        &mut registry,
        &mut bank,
        &[(50, pay_denom)],
        name.to_string(),
        version2.to_string(),
        code_id2,
        USER_ADDR,
    )
    .unwrap();

    // Register 3 succeeds.
    register_native(
        &mut registry,
        &mut bank,
        &[(50, pay_denom)],
        name.to_string(),
        version3.to_string(),
        code_id3,
        USER_ADDR,
    )
    .unwrap();

    // Get all registrations and verify all exist.
    let registrations = query_list_registrations(&registry, name.to_string())
        .unwrap()
        .registrations;
    assert_eq!(registrations, vec![reg1.clone(), reg2.clone(), reg3.clone()]);

    // Get latest and ensure it is 3.
    let latest_registration = query_get_registration(&registry, name.to_string(), None)
        .unwrap()
        .registration;
    assert_eq!(latest_registration, reg3);

    // Attempt unregister 3 by user but fail because not admin.
    let err = unregister(&mut registry, code_id3, USER_ADDR).unwrap_err();
    assert_eq!(err, ContractError::Unauthorized {});

    // Unregister 3
    unregister(&mut registry, code_id3, ADMIN_ADDR).unwrap();

    // Attempt to get info for 3 and expect not found.
    let err = query_info_for_code_id(&registry, code_id3).unwrap_err();
    assert_eq!(err, ContractError::NotFound {});
    // Attempt to get registration for 3 and expect not found.
    let err =
        query_get_registration(&registry, name.to_string(), Some(version3.to_string()))
            .unwrap_err();
    assert_eq!(err, ContractError::NotFound {});

    // Get latest and ensure it is 2.
    let latest_registration = query_get_registration(&registry, name.to_string(), None)
        .unwrap()
        .registration;
    assert_eq!(latest_registration, reg2);

    // Get all registrations and verify only 1 and 2 exist.
    let registrations = query_list_registrations(&registry, name.to_string())
        .unwrap()
        .registrations;
    assert_eq!(registrations, vec![reg1, reg2]);

    // Unregister 1 and 2
    unregister(&mut registry, code_id1, ADMIN_ADDR).unwrap();
    unregister(&mut registry, code_id2, ADMIN_ADDR).unwrap();

    // Expect not found when attempting to get latest.
    let err = query_get_registration(&registry, name.to_string(), None).unwrap_err();
    assert_eq!(err, ContractError::NotFound {});

    // Get all registrations and expect not found.
    let err = query_list_registrations(&registry, name.to_string()).unwrap_err();
    assert_eq!(err, ContractError::NotFound {});
}

#[test]
fn test_mutable_after_unregister() {
    let mut bank = setup_app();
    let pay_denom = "ujuno";
    let mut registry = setup_test_case(
        &bank,
        PaymentInfo::NativePayment {
            token_denom: pay_denom.to_string(),
            payment_amount: 50,
        },
    );
    let name: &str = "Name";
    let version: &str = "0.0.1";
    let code_id: u64 = 1;

    // Give user address ownership over name.
    set_owner(
        &mut registry,
        name.to_string(),
        Some(USER_ADDR.to_string()),
        ADMIN_ADDR,
    )
    .unwrap();

    // Register.
    register_native(
        &mut registry,
        &mut bank,
        &[(50, pay_denom)],
        name.to_string(),
        version.to_string(),
        code_id,
        USER_ADDR,
    )
    .unwrap();

    // Check registration with and without version.
    let resp_without_version =
        query_get_registration(&registry, name.to_string(), None).unwrap();
    let resp_with_version =
        query_get_registration(&registry, name.to_string(), Some(version.to_string())).unwrap();
    assert_eq!(
        resp_without_version.registration,
        registration(USER_ADDR, version, code_id)
    );
    assert_eq!(
        resp_without_version.registration,
        resp_with_version.registration,
    );

    // Should fail with Code ID already registered.
    let err = register_native(
        &mut registry,
        &mut bank,
        &[(50, pay_denom)],
        name.to_string(),
        version.to_string(),
        code_id,
        USER_ADDR,
    )
    .unwrap_err();
    assert_eq!(
        err,
        ContractError::CodeIDAlreadyRegistered(code_id, CHAIN_ID.to_string())
    );

    // Should fail with version already registered.
    let err = register_native(
        &mut registry,
        &mut bank,
        &[(50, pay_denom)],
        name.to_string(),
        version.to_string(),
        code_id + 1,
        USER_ADDR,
    )
    .unwrap_err();
    assert_eq!(
        err,
        ContractError::VersionAlreadyRegistered(
            version.to_string(),
            name.to_string(),
            CHAIN_ID.to_string()
        )
    );

    // Unregister
    unregister(&mut registry, code_id, ADMIN_ADDR).unwrap();

    // Should NOT fail with Code ID already registered.
    register_native(
        &mut registry,
        &mut bank,
        &[(50, pay_denom)],
        name.to_string(),
        version.to_string(),
        code_id,
        USER_ADDR,
    )
    .unwrap();

    // Unregister
    unregister(&mut registry, code_id, ADMIN_ADDR).unwrap();

    // Should NOT fail with version already registered.
    register_native(
        &mut registry,
        &mut bank,
        &[(50, pay_denom)],
        name.to_string(),
        version.to_string(),
        code_id + 1,
        USER_ADDR,
    )
    .unwrap();

    // Get info for new code ID.
    let info = query_info_for_code_id(&registry, code_id + 1).unwrap();
    assert_eq!(
        info,
        InfoForCodeIdResponse {
            registered_by: USER_ADDR.to_string(),
            name: name.to_string(),
            version: version.to_string(),
            checksum: CHECKSUM.to_string()
        }
    );
}

#[test]
fn test_update_config() {
    let mut bank = setup_app();
    let token = create_token(&mut bank);
    let mut registry = setup_test_case(
        &bank,
        PaymentInfo::Cw20Payment {
            token_address: token.clone(),
            payment_amount: 50,
        },
    );
    let other_token = create_token(&mut bank); // To be used when updating payment token

    let config = query_config(&registry);
    assert_eq!(
        config,
        Config {
            admin: ADMIN_ADDR.to_string(),
            payment_info: PaymentInfo::Cw20Payment {
                token_address: token.clone(),
                payment_amount: 50
            }
        }
    );

    // Update config as non admin fails
    let err = update_config(
        &mut registry,
        &bank,
        Some(other_token.clone()),
        Some(PaymentInfo::NativePayment {
            token_denom: "ujuno".to_string(),
            payment_amount: 50,
        }),
        OTHER_USER_ADDR,
    )
    .unwrap_err();
    assert_eq!(err, ContractError::Unauthorized {});

    // Ensure config stayed the same.
    let config = query_config(&registry);
    assert_eq!(
        config,
        Config {
            admin: ADMIN_ADDR.to_string(),
            payment_info: PaymentInfo::Cw20Payment {
                token_address: token,
                payment_amount: 50
            }
        }
    );

    // Update config as admin
    update_config(
        &mut registry,
        &bank,
        Some(OTHER_USER_ADDR.to_string()),
        Some(PaymentInfo::NativePayment {
            token_denom: "ujuno".to_string(),
            payment_amount: 25,
        }),
        ADMIN_ADDR,
    )
    .unwrap();

    let config = query_config(&registry);
    assert_eq!(
        config,
        Config {
            admin: OTHER_USER_ADDR.to_string(),
            payment_info: PaymentInfo::NativePayment {
                token_denom: "ujuno".to_string(),
                payment_amount: 25
            }
        }
    );

    // Update one config value but not the others

    // Only admin
    update_config(
        &mut registry,
        &bank,
        Some(ADMIN_ADDR.to_string()),
        None,
        OTHER_USER_ADDR,
    )
    .unwrap();

    let config = query_config(&registry);
    assert_eq!(
        config,
        Config {
            admin: ADMIN_ADDR.to_string(), // Only this has changed
            payment_info: PaymentInfo::NativePayment {
                token_denom: "ujuno".to_string(),
                payment_amount: 25
            }
        }
    );

    // Only payment info
    update_config(
        &mut registry,
        &bank,
        None,
        Some(PaymentInfo::NativePayment {
            token_denom: "uatom".to_string(),
            payment_amount: 50,
        }),
        ADMIN_ADDR,
    )
    .unwrap();

    let config = query_config(&registry);
    assert_eq!(
        config,
        Config {
            admin: ADMIN_ADDR.to_string(),
            payment_info: PaymentInfo::NativePayment {
                token_denom: "uatom".to_string(),
                payment_amount: 50
            }
        }
    );
}
