use client_stubs::auth::{Address, Context};
use client_stubs::model::Variant;
use client_stubs::overrides::{ClientState, HostStep, InvocationOutcome, OutcomeKind};

#[test]
fn context_contract_is_the_contract_address() {
    let mut id = [0u8; 32];
    id[0] = 7;
    id[31] = 9;
    let c = Context { contract: id, fn_name: "transfer".to_string(), args: vec![1, 2] };
    assert_eq!(c.contract(), Address::Contract(id));
    assert_ne!(c.contract(), Address::Account(id));
    assert_eq!(Address::from_contract_id(&id), Address::Contract(id));
}

#[test]
fn new_client_has_no_override() {
    let c: ClientState<u32, u64> = ClientState::new([1u8; 32]);
    assert!(c.set_auths.is_none());
    assert!(c.mock_auths.is_none());
    assert!(!c.mock_all_auths);
    assert_eq!(c.address(), Address::Contract([1u8; 32]));
    assert_eq!(c.call_steps(Variant::Unwrapping), vec![HostStep::Invoke]);
    assert_eq!(c.call_steps(Variant::Outcome), vec![HostStep::TryInvoke]);
}

#[test]
fn latest_override_replaces_the_earlier_one() {
    let auths = [1u32, 2];
    let mocks = [3u64];
    let c: ClientState<u32, u64> = ClientState::new([5u8; 32]);
    let both = c.set_auths(&auths).mock_auths(&mocks);
    assert!(both.set_auths.is_none());
    assert_eq!(both.mock_auths, Some(&mocks[..]));
    assert!(!both.mock_all_auths);
    assert_eq!(both.contract_id, [5u8; 32]);
    assert_eq!(both.call_steps(Variant::Unwrapping), vec![HostStep::MockAuths, HostStep::Invoke]);

    let back = both.set_auths(&auths);
    assert_eq!(back.set_auths, Some(&auths[..]));
    assert!(back.mock_auths.is_none());
    assert_eq!(back.call_steps(Variant::Outcome), vec![HostStep::SetAuths, HostStep::TryInvoke]);

    let all = back.mock_all_auths();
    assert!(all.set_auths.is_none() && all.mock_auths.is_none() && all.mock_all_auths);
    assert_eq!(all.call_steps(Variant::Outcome), vec![HostStep::MockAllAuths, HostStep::TryInvoke]);
    assert!(!all.mock_auths(&mocks).mock_all_auths);
}

#[test]
fn builders_leave_the_client_they_start_from_alone() {
    let auths = [1u32];
    let c: ClientState<u32, u64> = ClientState::new([0u8; 32]);
    let _ = c.set_auths(&auths);
    let _ = c.mock_all_auths();
    assert!(c.set_auths.is_none());
    assert!(!c.mock_all_auths);
}

#[test]
fn override_is_applied_on_every_call() {
    let c: ClientState<u32, u64> = ClientState::new([0u8; 32]).mock_all_auths();
    let first = c.call_steps(Variant::Unwrapping);
    let second = c.call_steps(Variant::Unwrapping);
    assert_eq!(first, vec![HostStep::MockAllAuths, HostStep::Invoke]);
    assert_eq!(second, first);
}

#[test]
fn unit_outcome_tells_the_two_failures_apart() {
    let ok: InvocationOutcome<(), u32, u32> = InvocationOutcome::Decoded(());
    let host: InvocationOutcome<(), u32, u32> = InvocationOutcome::HostFailure(4);
    let decode: InvocationOutcome<(), u32, u32> = InvocationOutcome::DecodeFailure(4);
    assert_eq!(ok.kind(), OutcomeKind::Decoded);
    assert_eq!(host.kind(), OutcomeKind::HostFailure);
    assert_eq!(decode.kind(), OutcomeKind::DecodeFailure);
    assert_ne!(host.kind(), decode.kind());
}
