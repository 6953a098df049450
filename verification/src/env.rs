use vstd::prelude::*;

use crate::errors::Error;
use crate::events::ContractEvent;
use crate::storage::{Storage, StorageView};
use crate::types::{Address, LedgerInfo};

verus! {

/// What one invocation of the contract sees and leaves behind: the
/// contract's storage, the ledger it runs in, the addresses that authorized
/// it, and what it asked of the host (the authorizations it required, the
/// events it published, and the code it switched the contract to).
pub struct Env {
    pub storage: Storage,
    pub ledger: LedgerInfo,
    /// Every address authorizes the invocation (the host's recording mode).
    pub authorize_all: bool,
    /// Otherwise, the addresses that authorized it.
    pub signers: Vec<Address>,
    /// The addresses whose authorization the last invocation required.
    pub auth_log: Vec<Address>,
    /// The events the last invocation published.
    pub events: Vec<ContractEvent>,
    /// The WASM hash the last invocation switched the contract's code to.
    pub wasm_update: Option<[u8; 32]>,
}

pub struct EnvView {
    pub storage: StorageView,
    pub ledger: LedgerInfo,
    pub authorize_all: bool,
    pub signers: Seq<Address>,
    pub auth_log: Seq<Address>,
    pub events: Seq<ContractEvent>,
    pub wasm_update: Option<[u8; 32]>,
}

impl View for Env {
    type V = EnvView;

    open spec fn view(&self) -> EnvView {
        EnvView {
            storage: self.storage@,
            ledger: self.ledger,
            authorize_all: self.authorize_all,
            signers: self.signers@,
            auth_log: self.auth_log@,
            events: self.events@,
            wasm_update: self.wasm_update,
        }
    }
}

impl EnvView {
    /// Whether `a` authorized the invocation.
    pub open spec fn authorizes(self, a: Address) -> bool {
        self.authorize_all || exists|i: int| 0 <= i < self.signers.len() && #[trigger] self.signers[i]@ == a@
    }

    /// The environment at the start of an invocation: nothing required,
    /// published or switched yet.
    pub open spec fn fresh(self) -> EnvView {
        EnvView { auth_log: Seq::empty(), events: Seq::empty(), wasm_update: None, ..self }
    }

    pub open spec fn with_storage(self, storage: StorageView) -> EnvView {
        EnvView { storage, ..self }
    }
}

/// Whether an address authorized an invocation depends only on who signed it.
pub proof fn lemma_same_signers(m1: EnvView, m2: EnvView, a: Address)
    requires
        m1.authorize_all == m2.authorize_all,
        m1.signers == m2.signers,
    ensures
        m1.authorizes(a) == m2.authorizes(a),
{
    if m1.authorizes(a) && !m1.authorize_all {
        let i = choose|i: int| 0 <= i < m1.signers.len() && #[trigger] m1.signers[i]@ == a@;
        assert(m2.signers[i]@ == a@);
    }
    if m2.authorizes(a) && !m2.authorize_all {
        let i = choose|i: int| 0 <= i < m2.signers.len() && #[trigger] m2.signers[i]@ == a@;
        assert(m1.signers[i]@ == a@);
    }
}

/// What a successful invocation leaves behind: the storage it wrote, the
/// events it published, and the code it switched the contract to.
pub struct Effect {
    pub storage: StorageView,
    pub events: Seq<ContractEvent>,
    pub wasm_update: Option<[u8; 32]>,
}

impl Effect {
    /// Storage written, events published, code unchanged.
    pub open spec fn writes(storage: StorageView, events: Seq<ContractEvent>) -> Effect {
        Effect { storage, events, wasm_update: None }
    }
}

/// The environment after an invocation that required the authorizations in
/// `auth_log` and ended in `outcome`. A failed invocation writes nothing and
/// publishes nothing.
pub open spec fn after(pre: EnvView, auth_log: Seq<Address>, outcome: Result<Effect, Error>) -> EnvView {
    match outcome {
        Ok(e) => EnvView {
            storage: e.storage,
            auth_log: pre.auth_log + auth_log,
            events: pre.events + e.events,
            wasm_update: match e.wasm_update {
                Some(h) => Some(h),
                None => pre.wasm_update,
            },
            ..pre
        },
        Err(_) => EnvView { auth_log: pre.auth_log + auth_log, ..pre },
    }
}

/// Appending one element is concatenating a one-element sequence.
pub broadcast proof fn lemma_push_is_concat<A>(s: Seq<A>, a: A)
    ensures
        #[trigger] s.push(a) == s + seq![a],
{
    assert(s.push(a) =~= s + seq![a]);
}

/// Concatenating nothing leaves a sequence as it is.
pub broadcast proof fn lemma_concat_empty<A>(s: Seq<A>)
    ensures
        #[trigger] (s + Seq::<A>::empty()) == s,
{
    assert(s + Seq::<A>::empty() =~= s);
}

/// The value an entry point returns for an outcome.
pub open spec fn result_of(outcome: Result<Effect, Error>) -> Result<(), Error> {
    match outcome {
        Ok(_) => Ok(()),
        Err(e) => Err(e),
    }
}

/// Whether some element of `v` names the same entity as `addr`.
pub fn contains_address(v: &Vec<Address>, addr: &Address) -> (r: bool)
    ensures
        r == exists|i: int| 0 <= i < v@.len() && #[trigger] v@[i]@ == addr@,
{
    let mut i: usize = 0;
    while i < v.len()
        invariant
            i <= v@.len(),
            forall|j: int| 0 <= j < i ==> #[trigger] v@[j]@ != addr@,
        decreases v@.len() - i,
    {
        if v[i].same_as(addr) {
            return true;
        }
        i = i + 1;
    }
    false
}

impl Env {
    /// An environment with empty contract storage, in which nobody has
    /// authorized anything.
    pub fn new(ledger: LedgerInfo) -> (env: Env)
        ensures
            env@.storage == StorageView::empty(),
            env@.ledger == ledger,
            !env@.authorize_all,
            env@.signers.len() == 0,
            env@.auth_log.len() == 0,
            env@.events.len() == 0,
            env@.wasm_update is None,
    {
        Env {
            storage: Storage::empty(),
            ledger,
            authorize_all: false,
            signers: Vec::new(),
            auth_log: Vec::new(),
            events: Vec::new(),
            wasm_update: None,
        }
    }

    /// Every address authorizes the following invocations.
    pub fn mock_all_auths(&mut self)
        ensures
            final(self)@ == (EnvView { authorize_all: true, ..old(self)@ }),
    {
        self.authorize_all = true;
    }

    /// Exactly `signers` authorize the following invocations.
    pub fn set_auths(&mut self, signers: Vec<Address>)
        ensures
            final(self)@ == (EnvView { authorize_all: false, signers: signers@, ..old(self)@ }),
    {
        self.authorize_all = false;
        self.signers = signers;
    }

    /// Starts an invocation.
    pub fn begin_invocation(&mut self)
        ensures
            final(self)@ == old(self)@.fresh(),
    {
        self.auth_log = Vec::new();
        self.events = Vec::new();
        self.wasm_update = None;
    }

    /// Switches the contract's code to the WASM with hash `new_wasm_hash`.
    pub fn update_current_contract_wasm(&mut self, new_wasm_hash: [u8; 32])
        ensures
            final(self)@ == (EnvView { wasm_update: Some(new_wasm_hash), ..old(self)@ }),
    {
        self.wasm_update = Some(new_wasm_hash);
    }

    /// Requires `addr` to have authorized the invocation; the requirement is
    /// recorded whether or not it is met.
    pub fn require_auth(&mut self, addr: &Address) -> (r: Result<(), Error>)
        ensures
            final(self)@ == (EnvView { auth_log: old(self)@.auth_log.push(*addr), ..old(self)@ }),
            r == if old(self)@.authorizes(*addr) {
                Ok::<(), Error>(())
            } else {
                Err(Error::Unauthorized)
            },
    {
        let authorized = self.authorize_all || contains_address(&self.signers, addr);
        self.auth_log.push(addr.clone());
        if authorized {
            Ok(())
        } else {
            Err(Error::Unauthorized)
        }
    }
}

} // verus!
