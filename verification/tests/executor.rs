use stormint::account::{generate_accounts, Signer};
use stormint::error::{Error, Fault, FaultKind};
use stormint::executor::{
    action_for, advance, call, execute, Action, ContractHandle, Event, Execution, Executor,
    ReadAction, ReadEvent, ReadStage, Stage,
};
use stormint::primitives::{Address, Amount, TxHash, Value};

const PHRASE: &str = "test test test test test test test test test test test junk";

fn signer(index: u32) -> Signer {
    generate_accounts(PHRASE, index, index + 1).unwrap()[0]
}

fn contract() -> ContractHandle {
    ContractHandle {
        functions: vec![
            "mint".to_string(),
            "increment".to_string(),
            "balanceOf".to_string(),
            "MINT_AMOUNT".to_string(),
        ],
        address: Address { bytes: [0xc0; 20] },
    }
}

fn start(account: &Signer, function_name: &str, args: Vec<Value>, value: Option<Amount>) -> Executor {
    execute(account, &contract(), function_name, args, value).unwrap()
}

fn hash(byte: u8) -> TxHash {
    TxHash { bytes: [byte; 32] }
}

fn fault(kind: FaultKind, text: &str) -> Fault {
    Fault { kind, text: text.to_string() }
}

fn drive(mut run: Executor, events: Vec<Event>) -> Executor {
    for event in events {
        run = run.step(event);
    }
    run
}

#[test]
fn a_transaction_starts_with_nothing_sent() {
    let alice = signer(1);
    let run = start(&alice, "increment", vec![Value::Bool(true)], Some(Amount::from_u128(7)));
    assert_eq!(run.caller(), alice.address());
    assert_eq!(run.call().contract, Address { bytes: [0xc0; 20] });
    assert_eq!(run.call().function, "increment");
    assert_eq!(run.call().args, vec![Value::Bool(true)]);
    assert_eq!(run.call().value, Amount { hi: 0, lo: 7 });
    assert_eq!(*run.stage(), Stage::Building);
    assert_eq!(run.action(), Action::Build);
    assert_eq!(run.into_outcome(), None);
}

#[test]
fn no_value_means_zero() {
    let run = start(&signer(0), "mint", vec![], None);
    assert_eq!(run.call().value, Amount { hi: 0, lo: 0 });
    assert!(run.call().args.is_empty());
}

#[test]
fn a_confirmed_transaction_gives_caller_and_hash() {
    let alice = signer(1);
    let run = start(&alice, "mint", vec![], None);
    let run = run.step(Event::Built);
    assert_eq!(run.action(), Action::Send);
    let run = run.step(Event::Sent);
    assert_eq!(run.action(), Action::Watch);
    assert_eq!(*run.stage(), Stage::Watching);
    let run = run.step(Event::Watched(hash(9)));
    assert_eq!(run.action(), Action::Stop);
    assert_eq!(
        run.into_outcome(),
        Some(Ok(Execution { caller: alice.address(), tx_hash: hash(9) }))
    );
}

#[test]
fn the_hash_alone_can_be_taken() {
    let run = drive(
        start(&signer(0), "mint", vec![], None),
        vec![Event::Built, Event::Sent, Event::Watched(hash(3))],
    );
    assert_eq!(run.into_tx_hash(), Some(Ok(hash(3))));
    let run = drive(
        start(&signer(0), "mint", vec![], None),
        vec![Event::Built, Event::SendFailed(fault(FaultKind::Transport, "nonce too low"))],
    );
    assert_eq!(run.into_tx_hash(), Some(Err(Error::Submission("nonce too low".to_string()))));
    let run = drive(start(&signer(0), "mint", vec![], None), vec![Event::Built]);
    assert_eq!(run.into_tx_hash(), None);
}

#[test]
fn an_unknown_function_is_refused_by_name() {
    let outcome = execute(&signer(0), &contract(), "burn", vec![], None);
    assert_eq!(outcome.err(), Some(Error::FunctionNotFound("burn".to_string())));
    let outcome = execute(&signer(0), &contract(), "Mint", vec![], None);
    assert_eq!(outcome.err(), Some(Error::FunctionNotFound("Mint".to_string())));
    let outcome = execute(&signer(0), &contract(), "", vec![], None);
    assert_eq!(outcome.err(), Some(Error::FunctionNotFound(String::new())));
}

#[test]
fn a_contract_without_functions_refuses_every_call() {
    let bare = ContractHandle { functions: vec![], address: Address { bytes: [1; 20] } };
    assert!(!bare.has_function("mint"));
    let outcome = execute(&signer(0), &bare, "mint", vec![], None);
    assert_eq!(outcome.err(), Some(Error::FunctionNotFound("mint".to_string())));
}

#[test]
fn functions_are_found_by_their_exact_name() {
    let handle = contract();
    assert!(handle.has_function("mint"));
    assert!(handle.has_function("MINT_AMOUNT"));
    assert!(!handle.has_function("mint "));
    assert!(!handle.has_function("min"));
    assert!(!handle.has_function("mint_amount"));
    let twice = ContractHandle {
        functions: vec!["a".to_string(), "b".to_string(), "a".to_string()],
        address: Address { bytes: [1; 20] },
    };
    assert!(twice.has_function("a"));
    assert!(twice.has_function("b"));
    assert!(!twice.has_function("c"));
}

#[test]
fn a_function_that_the_node_side_does_not_know_is_reported_by_name() {
    let run = start(&signer(0), "increment", vec![], None);
    let run = run.step(Event::BuildFailed(fault(FaultKind::UnknownFunction, "no such function")));
    assert_eq!(run.action(), Action::Stop);
    assert_eq!(run.into_outcome(), Some(Err(Error::FunctionNotFound("increment".to_string()))));
}

#[test]
fn arguments_that_do_not_fit_fail_the_submission() {
    let run = start(&signer(0), "mint", vec![Value::Bool(false)], None);
    let run = run.step(Event::BuildFailed(fault(FaultKind::Abi, "expected 0 arguments")));
    assert_eq!(
        run.into_outcome(),
        Some(Err(Error::Submission("expected 0 arguments".to_string())))
    );
}

#[test]
fn a_refused_transaction_fails_the_submission() {
    let run = drive(
        start(&signer(0), "mint", vec![], None),
        vec![Event::Built, Event::SendFailed(fault(FaultKind::Transport, "insufficient funds"))],
    );
    assert_eq!(*run.stage(), Stage::Failed(Error::Submission("insufficient funds".to_string())));
    assert_eq!(run.action(), Action::Stop);
}

#[test]
fn an_unconfirmed_transaction_fails_the_confirmation() {
    let run = drive(
        start(&signer(0), "mint", vec![], None),
        vec![Event::Built, Event::Sent, Event::WatchFailed(fault(FaultKind::Pending, "timed out"))],
    );
    assert_eq!(run.into_outcome(), Some(Err(Error::Confirmation("timed out".to_string()))));
}

#[test]
fn no_hash_comes_out_before_the_confirmation() {
    let run = start(&signer(0), "mint", vec![], None);
    let run = run.step(Event::Watched(hash(1)));
    assert_eq!(*run.stage(), Stage::Building);
    let run = run.step(Event::Built);
    let run = run.step(Event::Watched(hash(1)));
    assert_eq!(*run.stage(), Stage::Sending);
    assert_eq!(run.into_outcome(), None);
}

#[test]
fn events_out_of_turn_change_nothing() {
    let run = start(&signer(0), "mint", vec![], None);
    let run = drive(
        run,
        vec![
            Event::Sent,
            Event::SendFailed(fault(FaultKind::Transport, "early")),
            Event::WatchFailed(fault(FaultKind::Pending, "early")),
        ],
    );
    assert_eq!(*run.stage(), Stage::Building);
    let run = drive(
        run,
        vec![
            Event::Built,
            Event::Built,
            Event::BuildFailed(fault(FaultKind::UnknownFunction, "late")),
        ],
    );
    assert_eq!(*run.stage(), Stage::Sending);
}

#[test]
fn nothing_is_tried_again_after_a_failure() {
    let run = drive(
        start(&signer(0), "mint", vec![], None),
        vec![
            Event::Built,
            Event::SendFailed(fault(FaultKind::Transport, "refused")),
            Event::Built,
            Event::Sent,
            Event::Watched(hash(5)),
        ],
    );
    assert_eq!(run.into_outcome(), Some(Err(Error::Submission("refused".to_string()))));
}

#[test]
fn a_confirmed_transaction_stays_confirmed() {
    let alice = signer(2);
    let run = drive(
        start(&alice, "mint", vec![], None),
        vec![
            Event::Built,
            Event::Sent,
            Event::Watched(hash(5)),
            Event::Watched(hash(6)),
            Event::WatchFailed(fault(FaultKind::Pending, "late")),
        ],
    );
    assert_eq!(
        run.into_outcome(),
        Some(Ok(Execution { caller: alice.address(), tx_hash: hash(5) }))
    );
}

#[test]
fn stages_advance_one_event_at_a_time() {
    let caller = Address { bytes: [7; 20] };
    let name = "mint".to_string();
    assert_eq!(advance(caller, &name, Stage::Building, Event::Built), Stage::Sending);
    assert_eq!(advance(caller, &name, Stage::Sending, Event::Sent), Stage::Watching);
    assert_eq!(
        advance(caller, &name, Stage::Watching, Event::Watched(hash(1))),
        Stage::Done(Execution { caller, tx_hash: hash(1) })
    );
    assert_eq!(action_for(&Stage::Building), Action::Build);
    assert_eq!(action_for(&Stage::Sending), Action::Send);
    assert_eq!(action_for(&Stage::Watching), Action::Watch);
    assert_eq!(action_for(&Stage::Done(Execution { caller, tx_hash: hash(1) })), Action::Stop);
    assert_eq!(action_for(&Stage::Failed(Error::AmountOverflow)), Action::Stop);
}

#[test]
fn a_read_returns_the_decoded_outputs() {
    let reader = call(&contract(), "balanceOf", vec![Value::Address(Address { bytes: [1; 20] })])
        .unwrap();
    assert_eq!(reader.contract, Address { bytes: [0xc0; 20] });
    assert_eq!(reader.function, "balanceOf");
    assert_eq!(reader.stage, ReadStage::Building);
    assert_eq!(reader.action(), ReadAction::Build);
    let reader = reader.step(ReadEvent::Built);
    assert_eq!(reader.action(), ReadAction::Call);
    let outputs = vec![Value::Uint(Amount::from_u128(1000), 256)];
    let reader = reader.step(ReadEvent::Replied(outputs));
    assert_eq!(reader.action(), ReadAction::Stop);
    assert_eq!(reader.args, vec![Value::Address(Address { bytes: [1; 20] })]);
    assert_eq!(
        reader.into_outcome(),
        Some(Ok(vec![Value::Uint(Amount { hi: 0, lo: 1000 }, 256)]))
    );
}

#[test]
fn a_read_of_an_unknown_function_is_refused() {
    let outcome = call(&contract(), "totalSupply", vec![]);
    assert_eq!(outcome, Err(Error::FunctionNotFound("totalSupply".to_string())));
}

#[test]
fn a_read_that_the_node_side_does_not_know_fails() {
    let reader = call(&contract(), "MINT_AMOUNT", vec![]).unwrap();
    let reader = reader.step(ReadEvent::BuildFailed(fault(FaultKind::UnknownFunction, "unknown")));
    assert_eq!(
        reader.into_outcome(),
        Some(Err(Error::FunctionNotFound("MINT_AMOUNT".to_string())))
    );
}

#[test]
fn a_read_with_unfit_arguments_fails() {
    let reader = call(&contract(), "MINT_AMOUNT", vec![Value::Bool(true)]).unwrap();
    let reader = reader.step(ReadEvent::BuildFailed(fault(FaultKind::Abi, "too many")));
    assert_eq!(reader.into_outcome(), Some(Err(Error::Submission("too many".to_string()))));
}

#[test]
fn a_read_without_reply_fails_as_unreachable() {
    let reader = call(&contract(), "MINT_AMOUNT", vec![]).unwrap().step(ReadEvent::Built);
    let reader = reader.step(ReadEvent::CallFailed(fault(FaultKind::Transport, "connection refused")));
    assert_eq!(
        reader.into_outcome(),
        Some(Err(Error::Unreachable("connection refused".to_string())))
    );
}

#[test]
fn a_reply_that_cannot_be_decoded_fails_the_read() {
    let reader = call(&contract(), "MINT_AMOUNT", vec![]).unwrap().step(ReadEvent::Built);
    let reader = reader.step(ReadEvent::CallFailed(fault(FaultKind::Abi, "buffer overrun")));
    assert_eq!(reader.into_outcome(), Some(Err(Error::Decoding("buffer overrun".to_string()))));
}

#[test]
fn a_read_ignores_events_out_of_turn_and_after_its_end() {
    let reader = call(&contract(), "MINT_AMOUNT", vec![]).unwrap();
    let reader = reader.step(ReadEvent::Replied(vec![Value::Bool(true)]));
    assert_eq!(reader.stage, ReadStage::Building);
    assert_eq!(reader.into_outcome(), None);
    let reader = call(&contract(), "MINT_AMOUNT", vec![]).unwrap().step(ReadEvent::Built);
    let reader = reader.step(ReadEvent::Replied(vec![Value::Bool(true)]));
    let reader = reader.step(ReadEvent::Replied(vec![Value::Bool(false)]));
    let reader = reader.step(ReadEvent::CallFailed(fault(FaultKind::Transport, "late")));
    assert_eq!(reader.into_outcome(), Some(Ok(vec![Value::Bool(true)])));
}
