//! The state that a generated client carries and the protocol that its
//! methods follow: which authorization override is in force, and what the
//! host is asked to do for one call.

use vstd::prelude::*;
use crate::auth::Address;
use crate::model::Variant;

verus! {

/// The authorization override in force on a client.
pub enum Override<A, M> {
    /// None: the host checks authorizations as usual.
    Unset,
    /// The authorizations are fixed to this list.
    Fixed(Seq<A>),
    /// The authorizations of this list are mocked.
    Mocked(Seq<M>),
    /// Every authorization check is mocked.
    MockAll,
}

/// One request to the host.
#[derive(Clone, Copy, Debug, PartialEq, Eq, Structural)]
pub enum HostStep {
    SetAuths,
    MockAuths,
    MockAllAuths,
    /// The invocation that aborts on failure.
    Invoke,
    /// The invocation that returns the outcome.
    TryInvoke,
}

/// The state of a generated client: the identity of the contract it calls
/// and its authorization override. `A` is the host's authorization entry,
/// `M` its mock entry.
pub struct ClientState<'a, A, M> {
    pub contract_id: [u8; 32],
    pub set_auths: Option<&'a [A]>,
    pub mock_auths: Option<&'a [M]>,
    pub mock_all_auths: bool,
}

/// The request that dispatches a call of the given variant.
pub open spec fn dispatch_step(variant: Variant) -> HostStep {
    match variant {
        Variant::Unwrapping => HostStep::Invoke,
        Variant::Outcome => HostStep::TryInvoke,
    }
}

/// The requests that put an override in force: one, or none where none is set.
pub open spec fn override_steps<A, M>(o: Override<A, M>) -> Seq<HostStep> {
    match o {
        Override::Unset => Seq::empty(),
        Override::Fixed(_) => seq![HostStep::SetAuths],
        Override::Mocked(_) => seq![HostStep::MockAuths],
        Override::MockAll => seq![HostStep::MockAllAuths],
    }
}

/// The requests of one call: the override first, once, then the dispatch.
pub open spec fn steps_of<A, M>(o: Override<A, M>, variant: Variant) -> Seq<HostStep> {
    override_steps(o).push(dispatch_step(variant))
}

impl<'a, A, M> ClientState<'a, A, M> {
    /// At most one of the three override fields is set.
    pub open spec fn wf(&self) -> bool {
        &&& self.set_auths is Some ==> self.mock_auths is None && !self.mock_all_auths
        &&& self.mock_auths is Some ==> !self.mock_all_auths
    }

    /// The override in force.
    pub open spec fn effective(&self) -> Override<A, M> {
        if self.mock_all_auths {
            Override::MockAll
        } else if let Some(m) = self.mock_auths {
            Override::Mocked(m@)
        } else if let Some(a) = self.set_auths {
            Override::Fixed(a@)
        } else {
            Override::Unset
        }
    }

    /// The state after `set_auths(auths)`.
    pub open spec fn with_fixed(&self, auths: &'a [A]) -> Self {
        ClientState {
            contract_id: self.contract_id,
            set_auths: Some(auths),
            mock_auths: None,
            mock_all_auths: false,
        }
    }

    /// The state after `mock_auths(mocks)`.
    pub open spec fn with_mocked(&self, mocks: &'a [M]) -> Self {
        ClientState {
            contract_id: self.contract_id,
            set_auths: None,
            mock_auths: Some(mocks),
            mock_all_auths: false,
        }
    }

    /// The state after `mock_all_auths()`.
    pub open spec fn with_all_mocked(&self) -> Self {
        ClientState {
            contract_id: self.contract_id,
            set_auths: None,
            mock_auths: None,
            mock_all_auths: true,
        }
    }

    /// A client for the contract `contract_id`, with no override.
    pub fn new(contract_id: [u8; 32]) -> (client: Self)
        ensures
            client.wf(),
            client.contract_id == contract_id,
            client.effective() == Override::<A, M>::Unset,
    {
        ClientState { contract_id, set_auths: None, mock_auths: None, mock_all_auths: false }
    }

    /// The address of the contract that the client calls.
    pub fn address(&self) -> (address: Address)
        ensures
            address == Address::Contract(self.contract_id),
    {
        Address::from_contract_id(&self.contract_id)
    }

    /// A client for the same contract whose authorizations are fixed to
    /// `auths`. Any earlier override is gone.
    pub fn set_auths(&self, auths: &'a [A]) -> (client: Self)
        ensures
            client == self.with_fixed(auths),
            client.wf(),
            client.contract_id == self.contract_id,
            client.effective() == Override::<A, M>::Fixed(auths@),
    {
        ClientState {
            contract_id: self.contract_id,
            set_auths: Some(auths),
            mock_auths: None,
            mock_all_auths: false,
        }
    }

    /// A client for the same contract that mocks the authorizations of
    /// `mocks`. Any earlier override is gone.
    pub fn mock_auths(&self, mocks: &'a [M]) -> (client: Self)
        ensures
            client == self.with_mocked(mocks),
            client.wf(),
            client.contract_id == self.contract_id,
            client.effective() == Override::<A, M>::Mocked(mocks@),
    {
        ClientState {
            contract_id: self.contract_id,
            set_auths: None,
            mock_auths: Some(mocks),
            mock_all_auths: false,
        }
    }

    /// A client for the same contract that mocks every authorization check.
    /// Any earlier override is gone.
    pub fn mock_all_auths(&self) -> (client: Self)
        ensures
            client == self.with_all_mocked(),
            client.wf(),
            client.contract_id == self.contract_id,
            client.effective() == Override::<A, M>::MockAll,
    {
        ClientState {
            contract_id: self.contract_id,
            set_auths: None,
            mock_auths: None,
            mock_all_auths: true,
        }
    }

    /// The requests that one call of a generated method makes of the host, in
    /// order: the override in force, if any, then the dispatch. The client is
    /// left as it was, so the next call makes the same requests.
    pub fn call_steps(&self, variant: Variant) -> (steps: Vec<HostStep>)
        requires
            self.wf(),
        ensures
            steps@ == steps_of(self.effective(), variant),
    {
        let mut steps: Vec<HostStep> = Vec::new();
        if self.set_auths.is_some() {
            steps.push(HostStep::SetAuths);
        }
        if self.mock_auths.is_some() {
            steps.push(HostStep::MockAuths);
        }
        if self.mock_all_auths {
            steps.push(HostStep::MockAllAuths);
        }
        match variant {
            Variant::Unwrapping => steps.push(HostStep::Invoke),
            Variant::Outcome => steps.push(HostStep::TryInvoke),
        }
        proof {
            assert(steps@ =~= steps_of(self.effective(), variant));
        }
        steps
    }
}

/// Whatever override a client carries, `set_auths` and then `mock_auths`
/// leave exactly the mocked list in force, and the other order leaves exactly
/// the fixed list: overrides replace one another and never stack.
pub proof fn lemma_latest_override_wins<'a, A, M>(
    c: ClientState<'a, A, M>,
    auths: &'a [A],
    mocks: &'a [M],
)
    ensures
        c.with_fixed(auths).with_mocked(mocks).effective() == Override::<A, M>::Mocked(mocks@),
        c.with_mocked(mocks).with_fixed(auths).effective() == Override::<A, M>::Fixed(auths@),
        c.with_fixed(auths).with_all_mocked().effective() == Override::<A, M>::MockAll,
        c.with_all_mocked().with_fixed(auths).effective() == Override::<A, M>::Fixed(auths@),
        c.with_all_mocked().with_mocked(mocks).effective() == Override::<A, M>::Mocked(mocks@),
        c.with_fixed(auths).with_mocked(mocks).wf(),
        c.with_mocked(mocks).with_fixed(auths).wf(),
{
}

/// What a call of the outcome variant comes to.
pub enum InvocationOutcome<R, H, D> {
    /// The host answered and the answer converts to the declared type.
    Decoded(R),
    /// The host reported that the call failed.
    HostFailure(H),
    /// The host answered with a value that does not convert.
    DecodeFailure(D),
}

/// Which of the three outcomes a call came to.
#[derive(Clone, Copy, Debug, PartialEq, Eq, Structural)]
pub enum OutcomeKind {
    Decoded,
    HostFailure,
    DecodeFailure,
}

impl<R, H, D> InvocationOutcome<R, H, D> {
    /// The outcome's kind.
    pub open spec fn spec_kind(&self) -> OutcomeKind {
        match *self {
            InvocationOutcome::Decoded(_) => OutcomeKind::Decoded,
            InvocationOutcome::HostFailure(_) => OutcomeKind::HostFailure,
            InvocationOutcome::DecodeFailure(_) => OutcomeKind::DecodeFailure,
        }
    }

    /// The outcome's kind.
    pub fn kind(&self) -> (k: OutcomeKind)
        ensures
            k == self.spec_kind(),
    {
        match self {
            InvocationOutcome::Decoded(_) => OutcomeKind::Decoded,
            InvocationOutcome::HostFailure(_) => OutcomeKind::HostFailure,
            InvocationOutcome::DecodeFailure(_) => OutcomeKind::DecodeFailure,
        }
    }
}

/// For a method that returns no value the outcome still has three arms: the
/// success without a payload, the host's failure and the conversion failure
/// are pairwise distinct, whatever the two errors hold.
pub proof fn lemma_unit_outcome_is_ternary<H, D>(h: H, d: D)
    ensures
        InvocationOutcome::<(), H, D>::Decoded(()).spec_kind() == OutcomeKind::Decoded,
        InvocationOutcome::<(), H, D>::HostFailure(h).spec_kind() == OutcomeKind::HostFailure,
        InvocationOutcome::<(), H, D>::DecodeFailure(d).spec_kind() == OutcomeKind::DecodeFailure,
        InvocationOutcome::<(), H, D>::HostFailure(h) != InvocationOutcome::<(), H, D>::DecodeFailure(d),
        InvocationOutcome::<(), H, D>::HostFailure(h) != InvocationOutcome::<(), H, D>::Decoded(()),
        InvocationOutcome::<(), H, D>::DecodeFailure(d) != InvocationOutcome::<(), H, D>::Decoded(()),
{
}

} // verus!
