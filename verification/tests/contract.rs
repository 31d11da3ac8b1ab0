use contract_1::contract::{
    execute, instantiate, redirect_funds, reply, take_my_money, withdraw, SPAWN_REPLY_ID,
};
use contract_1::effects::{Coin, Effect};
use contract_1::error::ContractError;
use contract_1::msg::{ExecuteMsg, InstantiateMsg, SpawnReply};
use contract_1::state::State;

#[test]
fn instantiate_without_child_sets_admin_and_no_child() {
    let msg = InstantiateMsg {
        admin: "alice".to_string(),
        create_slave: false,
        slave_contract_id: 3,
    };
    let (state, effects) = instantiate(&msg, true).unwrap();
    assert_eq!(state.admin, "alice".to_string());
    assert_eq!(state.slave_contract_addr, None);
    assert_eq!(effects, vec![]);
}

#[test]
fn instantiate_rejects_malformed_admin() {
    let msg = InstantiateMsg {
        admin: "not an address".to_string(),
        create_slave: false,
        slave_contract_id: 0,
    };
    assert_eq!(instantiate(&msg, false), Err(ContractError::InvalidAddress));
}

#[test]
fn instantiate_with_child_queues_one_spawn() {
    let msg = InstantiateMsg {
        admin: "A".to_string(),
        create_slave: true,
        slave_contract_id: 7,
    };
    let (state, effects) = instantiate(&msg, true).unwrap();
    assert_eq!(state.admin, "A".to_string());
    assert_eq!(state.slave_contract_addr, None);
    assert_eq!(
        effects,
        vec![Effect::Spawn {
            code_id: 7,
            init: InstantiateMsg {
                admin: "A".to_string(),
                create_slave: false,
                slave_contract_id: 0,
            },
            correlation_id: SPAWN_REPLY_ID,
        }]
    );
}

#[test]
fn reply_success_records_child() {
    let state = State {
        slave_contract_addr: None,
        admin: "A".to_string(),
    };
    let msg = SpawnReply {
        id: SPAWN_REPLY_ID,
        outcome: Some("S".to_string()),
    };
    let next = reply(&state, &msg, true).unwrap();
    assert_eq!(next.admin, "A".to_string());
    assert_eq!(next.slave_contract_addr, Some("S".to_string()));
}

#[test]
fn reply_mismatched_id_fails_unauthorized() {
    let state = State {
        slave_contract_addr: None,
        admin: "A".to_string(),
    };
    let msg = SpawnReply {
        id: 1,
        outcome: Some("S".to_string()),
    };
    assert_eq!(reply(&state, &msg, true), Err(ContractError::Unauthorized));
}

#[test]
fn reply_repeated_confirmation_fails_unauthorized() {
    let state = State {
        slave_contract_addr: Some("S".to_string()),
        admin: "A".to_string(),
    };
    let msg = SpawnReply {
        id: SPAWN_REPLY_ID,
        outcome: Some("T".to_string()),
    };
    assert_eq!(reply(&state, &msg, true), Err(ContractError::Unauthorized));
}

#[test]
fn reply_failed_outcome_fails_unauthorized() {
    let state = State {
        slave_contract_addr: None,
        admin: "A".to_string(),
    };
    let msg = SpawnReply {
        id: SPAWN_REPLY_ID,
        outcome: None,
    };
    assert_eq!(reply(&state, &msg, true), Err(ContractError::Unauthorized));
}

#[test]
fn reply_malformed_address_fails_invalid() {
    let state = State {
        slave_contract_addr: None,
        admin: "A".to_string(),
    };
    let msg = SpawnReply {
        id: SPAWN_REPLY_ID,
        outcome: Some("not an address".to_string()),
    };
    assert_eq!(reply(&state, &msg, false), Err(ContractError::InvalidAddress));
}

#[test]
fn redirect_rejects_wrong_sender() {
    let state = State {
        slave_contract_addr: Some("S".to_string()),
        admin: "A".to_string(),
    };
    let r = redirect_funds(&state, &"mallory".to_string(), 100);
    assert_eq!(r, Err(ContractError::Unauthorized));
}

#[test]
fn redirect_rejects_missing_child() {
    let state = State {
        slave_contract_addr: None,
        admin: "A".to_string(),
    };
    let r = redirect_funds(&state, &"A".to_string(), 100);
    assert_eq!(r, Err(ContractError::Unauthorized));
}

#[test]
fn redirect_emits_transfer_then_instruction() {
    let state = State {
        slave_contract_addr: Some("S".to_string()),
        admin: "A".to_string(),
    };
    let effects = redirect_funds(&state, &"A".to_string(), 100).unwrap();
    assert_eq!(
        effects,
        vec![
            Effect::Transfer {
                to: "S".to_string(),
                amount: 100,
            },
            Effect::WithdrawInstruction {
                contract: "S".to_string(),
                admin: "A".to_string(),
            },
        ]
    );
}

#[test]
fn withdraw_rejects_malformed_admin() {
    let state = State {
        slave_contract_addr: None,
        admin: "A".to_string(),
    };
    let r = withdraw(&state, &"###".to_string(), false, 55);
    assert_eq!(r, Err(ContractError::InvalidAddress));
}

#[test]
fn withdraw_rejects_wrong_admin() {
    let state = State {
        slave_contract_addr: None,
        admin: "A".to_string(),
    };
    let r = withdraw(&state, &"B".to_string(), true, 55);
    assert_eq!(r, Err(ContractError::Unauthorized));
}

#[test]
fn withdraw_emits_transfer_to_admin() {
    let state = State {
        slave_contract_addr: Some("S".to_string()),
        admin: "A".to_string(),
    };
    let effects = withdraw(&state, &"A".to_string(), true, 55).unwrap();
    assert_eq!(
        effects,
        vec![Effect::Transfer {
            to: "A".to_string(),
            amount: 55,
        }]
    );
}

#[test]
fn deposit_rejects_no_attachment() {
    let funds: Vec<Coin> = vec![];
    assert_eq!(take_my_money(&funds), Err(ContractError::Unauthorized));
}

#[test]
fn deposit_accepts_one_attachment() {
    let funds = vec![Coin {
        denom: "uJuno".to_string(),
        amount: 5,
    }];
    assert_eq!(take_my_money(&funds), Ok(()));
}

#[test]
fn deposit_rejects_two_attachments() {
    let funds = vec![
        Coin {
            denom: "uJuno".to_string(),
            amount: 5,
        },
        Coin {
            denom: "uAtom".to_string(),
            amount: 9,
        },
    ];
    assert_eq!(take_my_money(&funds), Err(ContractError::Unauthorized));
}

#[test]
fn execute_dispatches_redirect() {
    let state = State {
        slave_contract_addr: Some("S".to_string()),
        admin: "A".to_string(),
    };
    let funds: Vec<Coin> = vec![];
    let r = execute(
        &state,
        &"A".to_string(),
        &funds,
        100,
        &ExecuteMsg::RedirectFunds {},
        true,
    );
    assert_eq!(
        r.unwrap(),
        vec![
            Effect::Transfer {
                to: "S".to_string(),
                amount: 100,
            },
            Effect::WithdrawInstruction {
                contract: "S".to_string(),
                admin: "A".to_string(),
            },
        ]
    );
}

#[test]
fn execute_dispatches_deposit() {
    let state = State {
        slave_contract_addr: None,
        admin: "A".to_string(),
    };
    let funds = vec![Coin {
        denom: "uJuno".to_string(),
        amount: 1,
    }];
    let r = execute(
        &state,
        &"anyone".to_string(),
        &funds,
        0,
        &ExecuteMsg::TakeMyNativeMoney {},
        true,
    );
    assert_eq!(r.unwrap(), vec![]);
}

#[test]
fn execute_dispatches_withdraw() {
    let state = State {
        slave_contract_addr: None,
        admin: "A".to_string(),
    };
    let funds: Vec<Coin> = vec![];
    let r = execute(
        &state,
        &"master".to_string(),
        &funds,
        42,
        &ExecuteMsg::Withdraw {
            admin: "A".to_string(),
        },
        true,
    );
    assert_eq!(
        r.unwrap(),
        vec![Effect::Transfer {
            to: "A".to_string(),
            amount: 42,
        }]
    );
}

#[test]
fn master_slave_scenario() {
    let msg = InstantiateMsg {
        admin: "A".to_string(),
        create_slave: true,
        slave_contract_id: 7,
    };
    let (state, effects) = instantiate(&msg, true).unwrap();
    assert_eq!(effects.len(), 1);
    assert!(matches!(effects[0], Effect::Spawn { code_id: 7, .. }));
    assert_eq!(state.admin, "A".to_string());
    assert_eq!(state.slave_contract_addr, None);

    let spawn_reply = SpawnReply {
        id: 0,
        outcome: Some("S".to_string()),
    };
    let state = reply(&state, &spawn_reply, true).unwrap();
    assert_eq!(state.admin, "A".to_string());
    assert_eq!(state.slave_contract_addr, Some("S".to_string()));

    let effects = redirect_funds(&state, &"A".to_string(), 100).unwrap();
    assert_eq!(
        effects,
        vec![
            Effect::Transfer {
                to: "S".to_string(),
                amount: 100,
            },
            Effect::WithdrawInstruction {
                contract: "S".to_string(),
                admin: "A".to_string(),
            },
        ]
    );
}
