use vstd::prelude::*;

verus! {

/// What an actor is told at creation.
///
/// `admin` is the identity that will control the new actor; `create_slave`
/// asks the actor to spawn a child of its own kind, instantiated from the
/// ledger template numbered `slave_contract_id`.
#[derive(Clone, Debug, PartialEq, Eq)]
pub struct InstantiateMsg {
    pub admin: String,
    pub create_slave: bool,
    pub slave_contract_id: u64,
}

/// The mathematical image of an [`InstantiateMsg`].
#[verifier::ext_equal]
pub ghost struct AbsInstantiateMsg {
    pub admin: Seq<char>,
    pub create_slave: bool,
    pub slave_contract_id: u64,
}

impl View for InstantiateMsg {
    type V = AbsInstantiateMsg;

    open spec fn view(&self) -> AbsInstantiateMsg {
        AbsInstantiateMsg {
            admin: self.admin@,
            create_slave: self.create_slave,
            slave_contract_id: self.slave_contract_id,
        }
    }
}

/// The on-demand operations of a deployed actor.
///
/// `Withdraw` authorizes by the identity named in its payload, not by the
/// invocation's sender: this is what lets a master actor forward a withdraw
/// instruction to its child on the admin's behalf.
#[derive(Clone, Debug, PartialEq, Eq)]
pub enum ExecuteMsg {
    RedirectFunds {},
    TakeMyNativeMoney {},
    Withdraw { admin: String },
}

/// The mathematical image of an [`ExecuteMsg`].
#[verifier::ext_equal]
pub ghost enum AbsExecuteMsg {
    RedirectFunds,
    TakeMyNativeMoney,
    Withdraw { admin: Seq<char> },
}

impl View for ExecuteMsg {
    type V = AbsExecuteMsg;

    open spec fn view(&self) -> AbsExecuteMsg {
        match self {
            ExecuteMsg::RedirectFunds {} => AbsExecuteMsg::RedirectFunds,
            ExecuteMsg::TakeMyNativeMoney {} => AbsExecuteMsg::TakeMyNativeMoney,
            ExecuteMsg::Withdraw { admin } => AbsExecuteMsg::Withdraw { admin: admin@ },
        }
    }
}

/// The declared query surface. It has no implemented behaviour: any query
/// invocation is rejected by the runtime shell as unsupported.
#[derive(Clone, Debug, PartialEq, Eq)]
pub enum QueryMsg {
    GetMasterBalance {},
}

/// The declared response shape of the (unimplemented) balance query.
#[derive(Clone, Copy, Debug, PartialEq, Eq, Structural)]
pub struct GetMasterBalance {
    pub count: u128,
}

/// The ledger's follow-up report on a spawn request, reduced to plain
/// values: the correlation id it carries, and `Some(address)` when the
/// spawn succeeded and the new actor's address could be parsed from the
/// outcome payload, `None` on a failed or unparsable outcome.
#[derive(Clone, Debug, PartialEq, Eq)]
pub struct SpawnReply {
    pub id: u64,
    pub outcome: Option<String>,
}

/// The mathematical image of a [`SpawnReply`].
#[verifier::ext_equal]
pub ghost struct AbsSpawnReply {
    pub id: u64,
    pub outcome: Option<Seq<char>>,
}

impl View for SpawnReply {
    type V = AbsSpawnReply;

    open spec fn view(&self) -> AbsSpawnReply {
        AbsSpawnReply {
            id: self.id,
            outcome: match self.outcome {
                Some(a) => Some(a@),
                None => None,
            },
        }
    }
}

} // verus!
