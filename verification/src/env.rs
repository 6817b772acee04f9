//! What a call sees of the ledger, and what it asks of it.
use crate::action::{Action, ActionView};
use crate::shared::Address;
use crate::storage::{Storage, StorageView};
use vstd::prelude::*;

verus! {

/// The surroundings of a call: when it happens, the address the contract
/// itself goes by, the contract's entries, and what the call has asked for so
/// far.
#[derive(Debug, PartialEq, Eq)]
pub struct Env {
    /// Close time of the ledger (unix seconds).
    pub timestamp: u64,
    /// The contract's own address.
    pub contract: Address,
    pub storage: Storage,
    /// What is to be carried out, in order.
    pub actions: Vec<Action>,
}

#[verifier::ext_equal]
pub struct EnvView {
    pub timestamp: int,
    pub contract: Seq<char>,
    pub storage: StorageView,
    pub actions: Seq<ActionView>,
}

impl View for Env {
    type V = EnvView;

    open spec fn view(&self) -> EnvView {
        EnvView {
            timestamp: self.timestamp as int,
            contract: self.contract@,
            storage: self.storage@,
            actions: self.actions@.map_values(|a: Action| a@),
        }
    }
}

impl EnvView {
    /// The surroundings once the call has asked for `more`.
    pub open spec fn asking(self, more: Seq<ActionView>) -> EnvView {
        EnvView { actions: self.actions + more, ..self }
    }
}

impl Env {
    /// The contract's entries are valid and stand under distinct keys.
    pub open spec fn well_formed(self) -> bool {
        &&& self.storage.well_formed()
        &&& self.storage@.valid()
    }

    /// The surroundings of a call that has asked for nothing yet.
    pub fn new(timestamp: u64, contract: Address, storage: Storage) -> (env: Env)
        ensures
            env.storage == storage,
            env@ == (EnvView {
                timestamp: timestamp as int,
                contract: contract@,
                storage: storage@,
                actions: Seq::empty(),
            }),
    {
        let env = Env { timestamp, contract, storage, actions: Vec::new() };
        proof {
            assert(env@.actions =~= Seq::empty());
        }
        env
    }

    /// Asks for one more thing.
    pub(crate) fn ask(&mut self, action: Action)
        ensures
            final(self).storage == old(self).storage,
            final(self)@ == old(self)@.asking(seq![action@]),
    {
        let ghost before = self.actions@;
        let ghost asked = action@;
        self.actions.push(action);
        proof {
            assert(self@.actions =~= before.map_values(|a: Action| a@) + seq![asked]);
        }
    }
}

} // verus!
