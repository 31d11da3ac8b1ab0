use vstd::prelude::*;

verus! {

/// The single persisted record of an actor instance.
///
/// `admin` is set once at creation and never mutated afterwards.
/// `slave_contract_addr` is `None` until the spawn confirmation is
/// processed; the reply handler is the only mutation path for it, takes
/// it from `None` to `Some` exactly once, and never clears or overwrites
/// a recorded address.
///
/// An address is an opaque validated identity string: a lookup key into the
/// external ledger's address space, never a live handle.
#[derive(Clone, Debug, PartialEq, Eq)]
pub struct State {
    pub slave_contract_addr: Option<String>,
    pub admin: String,
}

/// The mathematical image of a [`State`]: both addresses as plain
/// character sequences.
#[verifier::ext_equal]
pub ghost struct AbsState {
    pub slave_contract_addr: Option<Seq<char>>,
    pub admin: Seq<char>,
}

impl View for State {
    type V = AbsState;

    open spec fn view(&self) -> AbsState {
        AbsState {
            slave_contract_addr: match self.slave_contract_addr {
                Some(a) => Some(a@),
                None => None,
            },
            admin: self.admin@,
        }
    }
}

} // verus!
