use vstd::prelude::*;
use crate::msg::{AbsInstantiateMsg, InstantiateMsg};

verus! {

/// One fund attachment carried by an invocation: a denomination and an
/// amount of it.
#[derive(Clone, Debug, PartialEq, Eq)]
pub struct Coin {
    pub denom: String,
    pub amount: u128,
}

/// The mathematical image of a [`Coin`].
#[verifier::ext_equal]
pub ghost struct AbsCoin {
    pub denom: Seq<char>,
    pub amount: u128,
}

impl View for Coin {
    type V = AbsCoin;

    open spec fn view(&self) -> AbsCoin {
        AbsCoin { denom: self.denom@, amount: self.amount }
    }
}

/// A deferred ledger action decided by one invocation.
///
/// Effects are not applied inline: the runtime queues them and applies them
/// after the invocation commits, atomically with its state mutation.
///
/// - `Spawn` asks the ledger to instantiate a new actor from the template
///   numbered `code_id`, configured by `init`; its outcome is reported back
///   later through a reply tagged with `correlation_id`.
/// - `Transfer` moves `amount` of the designated currency unit to `to`.
/// - `WithdrawInstruction` tells the actor at `contract` to run its own
///   withdraw operation naming `admin` as the beneficiary.
#[derive(Clone, Debug, PartialEq, Eq)]
pub enum Effect {
    Spawn { code_id: u64, init: InstantiateMsg, correlation_id: u64 },
    Transfer { to: String, amount: u128 },
    WithdrawInstruction { contract: String, admin: String },
}

/// The mathematical image of an [`Effect`].
#[verifier::ext_equal]
pub ghost enum AbsEffect {
    Spawn { code_id: u64, init: AbsInstantiateMsg, correlation_id: u64 },
    Transfer { to: Seq<char>, amount: u128 },
    WithdrawInstruction { contract: Seq<char>, admin: Seq<char> },
}

impl View for Effect {
    type V = AbsEffect;

    open spec fn view(&self) -> AbsEffect {
        match self {
            Effect::Spawn { code_id, init, correlation_id } => AbsEffect::Spawn {
                code_id: *code_id,
                init: init@,
                correlation_id: *correlation_id,
            },
            Effect::Transfer { to, amount } => AbsEffect::Transfer { to: to@, amount: *amount },
            Effect::WithdrawInstruction { contract, admin } => AbsEffect::WithdrawInstruction {
                contract: contract@,
                admin: admin@,
            },
        }
    }
}

/// The image of an effect queue.
pub open spec fn effects_view(v: Seq<Effect>) -> Seq<AbsEffect> {
    v.map_values(|e: Effect| e@)
}

/// The image of a sequence of fund attachments.
pub open spec fn coins_view(s: Seq<Coin>) -> Seq<AbsCoin> {
    s.map_values(|c: Coin| c@)
}

} // verus!
