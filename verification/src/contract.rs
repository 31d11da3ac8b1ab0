use vstd::prelude::*;
use crate::effects::{coins_view, effects_view, AbsCoin, AbsEffect, Coin, Effect};
use crate::error::ContractError;
use crate::msg::{
    AbsExecuteMsg, AbsInstantiateMsg, AbsSpawnReply, ExecuteMsg, InstantiateMsg, SpawnReply,
};
use crate::state::{AbsState, State};

verus! {

/// The correlation id put on the one spawn request an actor ever emits,
/// and expected back on the reply that confirms it.
pub const SPAWN_REPLY_ID: u64 = 0;

/// The spawn request emitted when instantiation asks for a child: the
/// actor's own template, instantiated from `code_id` and configured with
/// the same admin but told not to spawn a child of its own, tagged with
/// the fixed correlation id.
pub open spec fn spawn_request(admin: Seq<char>, code_id: u64) -> AbsEffect {
    AbsEffect::Spawn {
        code_id,
        init: AbsInstantiateMsg { admin, create_slave: false, slave_contract_id: 0 },
        correlation_id: SPAWN_REPLY_ID,
    }
}

/// First-invocation behaviour: what state is persisted and what effects
/// are queued for a creation message, given the external validator's
/// verdict on the admin identity.
pub open spec fn spec_instantiate(msg: AbsInstantiateMsg, admin_is_valid: bool) -> Result<
    (AbsState, Seq<AbsEffect>),
    ContractError,
> {
    if !admin_is_valid {
        Err(ContractError::InvalidAddress)
    } else {
        let state = AbsState { slave_contract_addr: None, admin: msg.admin };
        if msg.create_slave {
            Ok((state, seq![spawn_request(msg.admin, msg.slave_contract_id)]))
        } else {
            Ok((state, Seq::empty()))
        }
    }
}

/// The image of an instantiation result.
pub open spec fn instantiate_view(r: Result<(State, Vec<Effect>), ContractError>) -> Result<
    (AbsState, Seq<AbsEffect>),
    ContractError,
> {
    match r {
        Ok((state, effects)) => Ok((state@, effects_view(effects@))),
        Err(e) => Err(e),
    }
}

/// Creates the actor. A malformed admin identity (the validator's verdict
/// is handed in as `admin_is_valid`) is rejected as `InvalidAddress`.
/// Otherwise the returned state records the validated admin and no child
/// address, and the effect queue holds exactly one spawn request when a
/// child was asked for, nothing otherwise.
pub fn instantiate(msg: &InstantiateMsg, admin_is_valid: bool) -> (r: Result<
    (State, Vec<Effect>),
    ContractError,
>)
    ensures
        instantiate_view(r) == spec_instantiate(msg@, admin_is_valid),
{
    if !admin_is_valid {
        return Err(ContractError::InvalidAddress);
    }
    let state = State { slave_contract_addr: None, admin: msg.admin.clone() };
    let mut effects: Vec<Effect> = Vec::new();
    if msg.create_slave {
        let init = InstantiateMsg {
            admin: msg.admin.clone(),
            create_slave: false,
            slave_contract_id: 0,
        };
        effects.push(Effect::Spawn {
            code_id: msg.slave_contract_id,
            init,
            correlation_id: SPAWN_REPLY_ID,
        });
        proof {
            assert(effects_view(effects@) =~= seq![
                spawn_request(msg.admin@, msg.slave_contract_id),
            ]);
        }
    } else {
        proof {
            assert(effects_view(effects@) =~= Seq::<AbsEffect>::empty());
        }
    }
    Ok((state, effects))
}

/// Reply-handling behaviour: how the persisted state reacts to the
/// ledger's spawn report, given the validator's verdict on the reported
/// address. A mismatched correlation id, a reply while a child address is
/// already recorded (the address is written exactly once, never
/// overwritten), and a failed or unparsable outcome are all rejected as
/// `Unauthorized`; a malformed reported address as `InvalidAddress`;
/// otherwise the child address is recorded and the admin kept.
pub open spec fn spec_reply(state: AbsState, msg: AbsSpawnReply, addr_is_valid: bool) -> Result<
    AbsState,
    ContractError,
> {
    if msg.id != SPAWN_REPLY_ID {
        Err(ContractError::Unauthorized)
    } else if state.slave_contract_addr is Some {
        Err(ContractError::Unauthorized)
    } else {
        match msg.outcome {
            None => Err(ContractError::Unauthorized),
            Some(addr) => if !addr_is_valid {
                Err(ContractError::InvalidAddress)
            } else {
                Ok(AbsState { slave_contract_addr: Some(addr), admin: state.admin })
            },
        }
    }
}

/// The image of a reply result.
pub open spec fn state_result_view(r: Result<State, ContractError>) -> Result<
    AbsState,
    ContractError,
> {
    match r {
        Ok(state) => Ok(state@),
        Err(e) => Err(e),
    }
}

/// Processes the spawn confirmation. This is the only mutation path for
/// `slave_contract_addr`, and it takes the field from `None` to `Some`
/// exactly once: a reply that arrives while a child is already recorded
/// is rejected, so the recorded address is never overwritten. The admin
/// is never touched.
pub fn reply(state: &State, msg: &SpawnReply, addr_is_valid: bool) -> (r: Result<
    State,
    ContractError,
>)
    ensures
        state_result_view(r) == spec_reply(state@, msg@, addr_is_valid),
{
    if msg.id != SPAWN_REPLY_ID {
        return Err(ContractError::Unauthorized);
    }
    if state.slave_contract_addr.is_some() {
        return Err(ContractError::Unauthorized);
    }
    let addr = match &msg.outcome {
        None => {
            return Err(ContractError::Unauthorized);
        },
        Some(a) => a.clone(),
    };
    if !addr_is_valid {
        return Err(ContractError::InvalidAddress);
    }
    Ok(State { slave_contract_addr: Some(addr), admin: state.admin.clone() })
}

/// The image of a fund-moving result: the queued effects on success, the
/// error otherwise.
pub open spec fn effects_result_view(r: Result<Vec<Effect>, ContractError>) -> Result<
    Seq<AbsEffect>,
    ContractError,
> {
    match r {
        Ok(effects) => Ok(effects_view(effects@)),
        Err(e) => Err(e),
    }
}

/// Redirection behaviour: a sender other than the stored admin is
/// rejected as `Unauthorized`, as is any call while no child address is
/// recorded; otherwise exactly two effects are queued, in order: the
/// actor's full balance transferred to the child, then a withdraw
/// instruction addressed to the child carrying the stored admin identity.
pub open spec fn spec_redirect_funds(state: AbsState, sender: Seq<char>, balance: u128) -> Result<
    Seq<AbsEffect>,
    ContractError,
> {
    if sender != state.admin {
        Err(ContractError::Unauthorized)
    } else {
        match state.slave_contract_addr {
            None => Err(ContractError::Unauthorized),
            Some(child) => Ok(
                seq![
                    AbsEffect::Transfer { to: child, amount: balance },
                    AbsEffect::WithdrawInstruction { contract: child, admin: state.admin },
                ],
            ),
        }
    }
}

/// Redirects the actor's entire balance to the child. `balance` is the
/// ledger's answer to the balance query in the designated currency unit.
/// The identity check precedes every effect: nothing is queued on a
/// rejected call.
pub fn redirect_funds(state: &State, sender: &String, balance: u128) -> (r: Result<
    Vec<Effect>,
    ContractError,
>)
    ensures
        effects_result_view(r) == spec_redirect_funds(state@, sender@, balance),
{
    if !(state.admin == *sender) {
        return Err(ContractError::Unauthorized);
    }
    let child = match &state.slave_contract_addr {
        None => {
            return Err(ContractError::Unauthorized);
        },
        Some(c) => c.clone(),
    };
    let mut effects: Vec<Effect> = Vec::new();
    effects.push(Effect::Transfer { to: child.clone(), amount: balance });
    effects.push(Effect::WithdrawInstruction { contract: child, admin: state.admin.clone() });
    proof {
        assert(effects_view(effects@) =~= seq![
            AbsEffect::Transfer { to: state@.slave_contract_addr->0, amount: balance },
            AbsEffect::WithdrawInstruction {
                contract: state@.slave_contract_addr->0,
                admin: state@.admin,
            },
        ]);
    }
    Ok(effects)
}

/// Withdrawal behaviour: a malformed payload identity (the validator's
/// verdict is handed in as `admin_is_valid`) is rejected as
/// `InvalidAddress`; a validated identity other than the stored admin as
/// `Unauthorized`; otherwise one effect is queued, the actor's full
/// balance transferred to the stored admin.
pub open spec fn spec_withdraw(
    state: AbsState,
    admin: Seq<char>,
    admin_is_valid: bool,
    balance: u128,
) -> Result<Seq<AbsEffect>, ContractError> {
    if !admin_is_valid {
        Err(ContractError::InvalidAddress)
    } else if admin != state.admin {
        Err(ContractError::Unauthorized)
    } else {
        Ok(seq![AbsEffect::Transfer { to: state.admin, amount: balance }])
    }
}

/// Sends the actor's entire balance back to the stored admin. The
/// operation authorizes by the identity named in the message payload, not
/// by the invocation's sender: the payload value must match the stored
/// admin. `balance` is the ledger's answer to the balance query in the
/// designated currency unit.
pub fn withdraw(state: &State, admin: &String, admin_is_valid: bool, balance: u128) -> (r: Result<
    Vec<Effect>,
    ContractError,
>)
    ensures
        effects_result_view(r) == spec_withdraw(state@, admin@, admin_is_valid, balance),
{
    if !admin_is_valid {
        return Err(ContractError::InvalidAddress);
    }
    if !(*admin == state.admin) {
        return Err(ContractError::Unauthorized);
    }
    let mut effects: Vec<Effect> = Vec::new();
    effects.push(Effect::Transfer { to: state.admin.clone(), amount: balance });
    proof {
        assert(effects_view(effects@) =~= seq![
            AbsEffect::Transfer { to: state@.admin, amount: balance },
        ]);
    }
    Ok(effects)
}

/// Deposit acceptance: an incoming funding call is accepted exactly when
/// it carries one fund attachment, of any denomination and any amount.
pub open spec fn spec_take_my_money(funds: Seq<AbsCoin>) -> Result<(), ContractError> {
    if funds.len() == 1 {
        Ok(())
    } else {
        Err(ContractError::Unauthorized)
    }
}

/// Accepts a deposit carrying exactly one fund attachment; rejects any
/// other attachment count as `Unauthorized`. Reads and writes no state.
pub fn take_my_money(funds: &Vec<Coin>) -> (r: Result<(), ContractError>)
    ensures
        r == spec_take_my_money(coins_view(funds@)),
{
    if funds.len() != 1 {
        return Err(ContractError::Unauthorized);
    }
    Ok(())
}

/// Dispatch behaviour of the execute entry point: each operation decides
/// as its own specification says, a successful deposit queueing no effect.
pub open spec fn spec_execute(
    state: AbsState,
    sender: Seq<char>,
    funds: Seq<AbsCoin>,
    balance: u128,
    msg: AbsExecuteMsg,
    admin_is_valid: bool,
) -> Result<Seq<AbsEffect>, ContractError> {
    match msg {
        AbsExecuteMsg::RedirectFunds => spec_redirect_funds(state, sender, balance),
        AbsExecuteMsg::TakeMyNativeMoney => match spec_take_my_money(funds) {
            Ok(_) => Ok(Seq::empty()),
            Err(e) => Err(e),
        },
        AbsExecuteMsg::Withdraw { admin } => spec_withdraw(state, admin, admin_is_valid, balance),
    }
}

/// Dispatches one on-demand invocation to the operation its message names.
/// `sender` is the invocation's on-chain sender, `funds` its fund
/// attachments, `balance` the ledger's answer to the balance query in the
/// designated currency unit, and `admin_is_valid` the external validator's
/// verdict on the identity named in a `Withdraw` payload (it is ignored by
/// the other operations, which validate no identity).
pub fn execute(
    state: &State,
    sender: &String,
    funds: &Vec<Coin>,
    balance: u128,
    msg: &ExecuteMsg,
    admin_is_valid: bool,
) -> (r: Result<Vec<Effect>, ContractError>)
    ensures
        effects_result_view(r) == spec_execute(
            state@,
            sender@,
            coins_view(funds@),
            balance,
            msg@,
            admin_is_valid,
        ),
{
    match msg {
        ExecuteMsg::RedirectFunds {} => redirect_funds(state, sender, balance),
        ExecuteMsg::TakeMyNativeMoney {} => {
            match take_my_money(funds) {
                Ok(()) => {
                    let effects: Vec<Effect> = Vec::new();
                    proof {
                        assert(effects_view(effects@) =~= Seq::<AbsEffect>::empty());
                    }
                    Ok(effects)
                },
                Err(e) => Err(e),
            }
        },
        ExecuteMsg::Withdraw { admin } => withdraw(state, admin, admin_is_valid, balance),
    }
}

/// Law: spawn confirmation. Instantiating with a child requested yields a
/// state with no recorded child; delivering a success reply that carries
/// the expected correlation id and a validated address `child` records
/// exactly that address and keeps the admin; delivering the same reply
/// under any other correlation id changes nothing and fails
/// `Unauthorized`.
pub proof fn lemma_spawn_confirmation(
    admin: Seq<char>,
    code_id: u64,
    child: Seq<char>,
    wrong_id: u64,
)
    requires
        wrong_id != SPAWN_REPLY_ID,
    ensures
        ({
            let msg = AbsInstantiateMsg { admin, create_slave: true, slave_contract_id: code_id };
            &&& spec_instantiate(msg, true) matches Ok(p)
            &&& p.0 == (AbsState { slave_contract_addr: None, admin })
            &&& spec_reply(p.0, AbsSpawnReply { id: SPAWN_REPLY_ID, outcome: Some(child) }, true)
                == Ok::<AbsState, ContractError>(
                AbsState { slave_contract_addr: Some(child), admin },
            )
            &&& spec_reply(p.0, AbsSpawnReply { id: wrong_id, outcome: Some(child) }, true)
                == Err::<AbsState, ContractError>(ContractError::Unauthorized)
        }),
{
}

/// Law: the admin identity is immutable. The reply handler is the only
/// operation that returns a successor state, and every successor it
/// returns carries the admin of the state it started from; the successor
/// exists only where no child was recorded yet, and its recorded child
/// address can only be the address the reply reported.
pub proof fn lemma_reply_preserves_admin(state: AbsState, msg: AbsSpawnReply, addr_is_valid: bool)
    ensures
        spec_reply(state, msg, addr_is_valid) matches Ok(next) ==> {
            &&& next.admin == state.admin
            &&& state.slave_contract_addr is None
            &&& next.slave_contract_addr == msg.outcome
        },
{
}

/// Law: the child address transitions `None` to `Some` exactly once and
/// is never cleared or overwritten. Once a state records a child, every
/// reply fails, whatever it carries: the transaction aborts and the
/// recorded address stands.
pub proof fn lemma_child_never_overwritten(
    state: AbsState,
    msg: AbsSpawnReply,
    addr_is_valid: bool,
)
    requires
        state.slave_contract_addr is Some,
    ensures
        spec_reply(state, msg, addr_is_valid) == Err::<AbsState, ContractError>(
            ContractError::Unauthorized,
        ),
{
}

} // verus!
