use vstd::prelude::*;

verus! {

/// The two failure kinds of the actor.
///
/// `Unauthorized` covers every protocol-level rejection: a sender or a
/// payload identity that does not match the stored admin, a fund-moving
/// request while no child address is recorded, a spawn reply whose
/// correlation id is not the expected one or whose outcome carries no
/// parsable address, and a deposit with the wrong number of attachments.
///
/// `InvalidAddress` is the verdict of the external identity validator on a
/// malformed identity string, propagated unchanged.
///
/// Any failure aborts the whole enclosing transaction: the runtime discards
/// every state mutation and every queued effect of that invocation.
#[derive(Clone, Copy, Debug, PartialEq, Eq, Structural)]
pub enum ContractError {
    Unauthorized,
    InvalidAddress,
}

} // verus!
