//! One mint transaction per signer, with an outcome for each.
//!
//! A [`MintLoop`] takes the signers one after the other. A transaction that
//! fails is recorded in its signer's entry and the loop goes on with the next
//! signer; the loop itself does not fail for it.

use vstd::prelude::*;

use crate::account::Signer;
use crate::error::Error;
use crate::executor::{
    action_for, action_of, advance, answers, next_stage, steps_left, Action, CallSpec,
    ContractHandle, Event, Executor, Stage,
};
use crate::primitives::{Address, Amount, TxHash, Value};

verus! {

/// The outcome of one signer's mint: the hash of the confirmed transaction, or
/// the error that it came to.
#[derive(Debug, PartialEq, Eq)]
pub struct MintResult {
    pub signer: Address,
    pub result: Result<TxHash, Error>,
}

impl MintResult {
    fn new(signer: Address, tx: Result<TxHash, Error>) -> (r: Self)
        ensures
            r == (MintResult { signer, result: tx }),
    {
        Self { signer, result: tx }
    }
}

/// The name of the function that a mint calls: the one given, or `mint`.
pub open spec fn mint_function(function_name: Option<&str>) -> Seq<char> {
    match function_name {
        Some(name) => name@,
        None => "mint"@,
    }
}

/// Whether `call` is the mint call on the contract at `contract` for the
/// given options: the function named, or `mint`; the arguments given, or
/// none; the value given, or zero.
pub open spec fn is_mint_call(
    call: CallSpec,
    contract: Address,
    function_name: Option<&str>,
    args: Option<Vec<Value>>,
    value: Option<Amount>,
) -> bool {
    &&& call.contract == contract
    &&& call.function@ == mint_function(function_name)
    &&& match args {
        Some(list) => call.args == list,
        None => call.args@ == Seq::<Value>::empty(),
    }
    &&& call.value == (match value {
        Some(amount) => amount,
        None => Amount { hi: 0, lo: 0 },
    })
}

/// The call that every signer of a mint makes.
pub fn mint_call(
    contract: Address,
    function_name: Option<&str>,
    args: Option<Vec<Value>>,
    value: Option<Amount>,
) -> (r: CallSpec)
    ensures
        is_mint_call(r, contract, function_name, args, value),
{
    let function = match function_name {
        Some(name) => name.to_owned(),
        None => "mint".to_owned(),
    };
    let args = match args {
        Some(list) => list,
        None => Vec::new(),
    };
    let value = match value {
        Some(amount) => amount,
        None => Amount::zero(),
    };
    CallSpec { contract, function, args, value }
}

/// Starts one signer's mint transaction. There is no transaction where the
/// contract's interface has no function of the name.
pub fn execute_mint(
    signer: &Signer,
    contract: &ContractHandle,
    function_name: Option<&str>,
    args: Option<Vec<Value>>,
    value: Option<Amount>,
) -> (r: Result<Executor, Error>)
    ensures
        r is Ok <==> contract.has(mint_function(function_name)),
        r matches Ok(run) ==> {
            &&& run@.caller == signer.address()
            &&& is_mint_call(run@.call, contract.address, function_name, args, value)
            &&& run@.stage == Stage::Building
            &&& run@.events == Seq::<Event>::empty()
        },
        r matches Err(e) ==> e matches Error::FunctionNotFound(name) && name@ == mint_function(
            function_name,
        ),
{
    let call = mint_call(contract.address, function_name, args, value);
    if !contract.has_function(call.function.as_str()) {
        return Err(Error::FunctionNotFound(call.function));
    }
    Ok(Executor::new(signer.address(), call))
}

/// A mint loop as a mathematical value: the signers' addresses in order, the
/// name of the function they call, whether the contract has that function,
/// the stage of the transaction of the signer whose turn it is, and the
/// results of the signers before it.
pub struct MintState {
    pub signers: Seq<Address>,
    pub function: String,
    pub known: bool,
    pub stage: Stage,
    pub results: Seq<MintResult>,
}

/// The addresses of `signers`, in order.
pub open spec fn addresses_of(signers: Seq<Signer>) -> Seq<Address> {
    Seq::new(signers.len(), |i: int| signers[i].address())
}

/// The result of a signer whose contract has no function called `function`.
pub open spec fn not_found(signer: Address, function: String) -> MintResult {
    MintResult { signer, result: Err(Error::FunctionNotFound(function)) }
}

/// The loop before its first event. Where the contract has the function, no
/// signer has a result yet; where it has not, every signer's transaction has
/// failed already, for want of the function.
pub open spec fn mint_start(signers: Seq<Address>, function: String, known: bool) -> MintState {
    MintState {
        signers,
        function,
        known,
        stage: Stage::Building,
        results: if known {
            Seq::empty()
        } else {
            Seq::new(signers.len(), |i: int| not_found(signers[i], function))
        },
    }
}

/// Whether a state is one that a mint loop can be in: every result belongs to
/// the signer at its position, and the transaction under way is not finished.
pub open spec fn mint_wf(state: MintState) -> bool {
    &&& state.results.len() <= state.signers.len()
    &&& forall|i: int|
        0 <= i < state.results.len() ==> (#[trigger] state.results[i]).signer == state.signers[i]
    &&& state.stage is Building || state.stage is Sending || state.stage is Watching
}

/// Whether every signer has its result.
pub open spec fn mint_done(state: MintState) -> bool {
    state.results.len() >= state.signers.len()
}

/// The state after `event`. The event belongs to the transaction of the signer
/// whose turn it is. When that transaction ends, in a hash or in an error, its
/// result is appended and the next signer's transaction begins.
pub open spec fn mint_step(state: MintState, event: Event) -> MintState {
    if mint_done(state) {
        state
    } else {
        let signer = state.signers[state.results.len() as int];
        match next_stage(signer, state.function, state.stage, event) {
            Stage::Done(execution) => MintState {
                stage: Stage::Building,
                results: state.results.push(
                    MintResult { signer, result: Ok(execution.tx_hash) },
                ),
                ..state
            },
            Stage::Failed(error) => MintState {
                stage: Stage::Building,
                results: state.results.push(MintResult { signer, result: Err(error) }),
                ..state
            },
            stage => MintState { stage, ..state },
        }
    }
}

/// The state reached from `state` after the events of `events`, in order.
pub open spec fn mint_run(state: MintState, events: Seq<Event>) -> MintState
    decreases events.len(),
{
    if events.len() == 0 {
        state
    } else {
        mint_step(mint_run(state, events.drop_last()), events.last())
    }
}

/// What a state asks for: the action of the transaction under way, or `Stop`
/// when every signer has its result.
pub open spec fn mint_action(state: MintState) -> Action {
    if mint_done(state) {
        Action::Stop
    } else {
        action_of(state.stage)
    }
}

/// How many answers the loop can still take.
pub open spec fn mint_steps_left(state: MintState) -> nat {
    if mint_done(state) {
        0
    } else {
        (3 * (state.signers.len() - state.results.len() - 1) + steps_left(state.stage)) as nat
    }
}

/// One mint transaction per signer, in the signers' order. The loop moves
/// only by the events that it is handed, so that its state is always the one
/// that its events lead to from the start.
pub struct MintLoop {
    signers: Vec<Address>,
    call: CallSpec,
    known: bool,
    stage: Stage,
    results: Vec<MintResult>,
    events: Ghost<Seq<Event>>,
}

impl View for MintLoop {
    type V = MintState;

    closed spec fn view(&self) -> MintState {
        MintState {
            signers: self.signers@,
            function: self.call.function,
            known: self.known,
            stage: self.stage,
            results: self.results@,
        }
    }
}

impl MintLoop {
    #[verifier::type_invariant]
    spec fn well_formed(self) -> bool {
        &&& mint_wf(self@)
        &&& self@ == mint_run(
            mint_start(self@.signers, self@.function, self@.known),
            self.events@,
        )
    }

    /// The events that the loop has been handed, in order.
    pub closed spec fn events(&self) -> Seq<Event> {
        self.events@
    }

    /// The call that every signer makes.
    pub closed spec fn call_spec(&self) -> CallSpec {
        self.call
    }

    /// The call that every signer makes.
    pub fn call(&self) -> (r: &CallSpec)
        ensures
            *r == self.call_spec(),
            r.function == self@.function,
    {
        &self.call
    }

    /// What to do next, for the signer whose turn it is.
    pub fn action(&self) -> (r: Action)
        ensures
            r == mint_action(self@),
    {
        if self.results.len() >= self.signers.len() {
            Action::Stop
        } else {
            action_for(&self.stage)
        }
    }

    /// The position of the signer whose turn it is; the number of signers
    /// when every signer has its result.
    pub fn position(&self) -> (r: usize)
        ensures
            r == self@.results.len(),
            r <= self@.signers.len(),
            mint_wf(self@),
            self@ == mint_run(
                mint_start(self@.signers, self@.function, self@.known),
                self.events(),
            ),
    {
        proof {
            use_type_invariant(self);
        }
        self.results.len()
    }

    /// The address of the signer whose turn it is.
    pub fn signer(&self) -> (r: Option<Address>)
        ensures
            r == (if mint_done(self@) {
                None
            } else {
                Some(self@.signers[self@.results.len() as int])
            }),
    {
        if self.results.len() >= self.signers.len() {
            None
        } else {
            Some(self.signers[self.results.len()])
        }
    }

    /// Takes in what came of the last action.
    pub fn step(self, event: Event) -> (r: MintLoop)
        ensures
            r@ == mint_step(self@, event),
            r.call_spec() == self.call_spec(),
            r.events() == self.events().push(event),
            mint_wf(r@),
    {
        proof {
            use_type_invariant(&self);
            lemma_step_keeps_order(self@, event);
        }
        let ghost events = self.events@.push(event);
        proof {
            assert(events.drop_last() =~= self.events@);
        }
        let MintLoop { signers, call, known, stage, mut results, events: _ } = self;
        if results.len() >= signers.len() {
            return MintLoop { signers, call, known, stage, results, events: Ghost(events) };
        }
        let signer = signers[results.len()];
        let stage = match advance(signer, &call.function, stage, event) {
            Stage::Done(execution) => {
                results.push(MintResult::new(signer, Ok(execution.tx_hash)));
                Stage::Building
            },
            Stage::Failed(error) => {
                results.push(MintResult::new(signer, Err(error)));
                Stage::Building
            },
            stage => stage,
        };
        MintLoop { signers, call, known, stage, results, events: Ghost(events) }
    }

    /// The results, one for each signer in the signers' order, each hash one
    /// under which the inclusion of a transaction was watched. An error where
    /// a signer is still without its result.
    pub fn finish(self) -> (r: Result<Vec<MintResult>, Error>)
        ensures
            r is Ok <==> mint_done(self@),
            r matches Ok(results) ==> {
                &&& results@ == self@.results
                &&& results@.len() == self@.signers.len()
                &&& forall|i: int|
                    0 <= i < results@.len() ==> (#[trigger] results@[i]).signer
                        == self@.signers[i]
                &&& forall|i: int|
                    0 <= i < results@.len() ==> ((#[trigger] results@[i]).result matches Ok(
                        tx_hash,
                    ) ==> self.events().contains(Event::Watched(tx_hash)))
            },
            r matches Err(e) ==> e == (Error::Incomplete {
                recorded: self@.results.len() as usize,
                expected: self@.signers.len() as usize,
            }),
    {
        proof {
            use_type_invariant(&self);
            lemma_minted_only_after_confirmation(
                self@.signers,
                self@.function,
                self@.known,
                self.events@,
            );
        }
        if self.results.len() >= self.signers.len() {
            Ok(self.results)
        } else {
            Err(Error::Incomplete { recorded: self.results.len(), expected: self.signers.len() })
        }
    }
}

/// Starts the loop in which each of `signers` makes the mint call on
/// `contract` once, one after the other. Where the contract's interface has no
/// function of the name, every signer's result is that error from the start.
pub fn mint_loop(
    signers: &Vec<Signer>,
    contract: &ContractHandle,
    function_name: Option<&str>,
    args: Option<Vec<Value>>,
    value: Option<Amount>,
) -> (r: MintLoop)
    ensures
        r@ == mint_start(
            addresses_of(signers@),
            r.call_spec().function,
            contract.has(mint_function(function_name)),
        ),
        is_mint_call(r.call_spec(), contract.address, function_name, args, value),
        r.events() == Seq::<Event>::empty(),
        mint_wf(r@),
{
    let call = mint_call(contract.address, function_name, args, value);
    let known = contract.has_function(call.function.as_str());
    let mut addresses: Vec<Address> = Vec::new();
    let mut results: Vec<MintResult> = Vec::new();
    let mut i: usize = 0;
    while i < signers.len()
        invariant
            i <= signers@.len(),
            addresses@.len() == i,
            forall|n: int| 0 <= n < i ==> #[trigger] addresses@[n] == signers@[n].address(),
            results@.len() == (if known {
                0
            } else {
                i as int
            }),
            forall|n: int|
                0 <= n < results@.len() ==> #[trigger] results@[n] == not_found(
                    signers@[n].address(),
                    call.function,
                ),
        decreases signers@.len() - i,
    {
        let address = signers[i].address();
        addresses.push(address);
        if !known {
            results.push(MintResult::new(address, Err(Error::FunctionNotFound(call.function.clone()))));
        }
        i += 1;
    }
    assert(addresses@ =~= addresses_of(signers@));
    assert(results@ =~= mint_start(addresses@, call.function, known).results);
    MintLoop {
        signers: addresses,
        call,
        known,
        stage: Stage::Building,
        results,
        events: Ghost(Seq::empty()),
    }
}

/// An event leaves the signers as they are, never takes a result back, and
/// keeps every result at the position of its signer.
pub proof fn lemma_step_keeps_order(state: MintState, event: Event)
    requires
        mint_wf(state),
    ensures
        mint_wf(mint_step(state, event)),
        mint_step(state, event).signers == state.signers,
        mint_step(state, event).function == state.function,
        mint_step(state, event).known == state.known,
        state.results.is_prefix_of(mint_step(state, event).results),
        mint_step(state, event).results.len() <= state.results.len() + 1,
{
}

/// Whatever the events, and whether a signer's transaction succeeded or
/// failed: the results of a loop are those of the first signers, in the
/// signers' order, each with the address of its signer.
pub proof fn lemma_results_follow_signers(
    signers: Seq<Address>,
    function: String,
    known: bool,
    events: Seq<Event>,
)
    ensures
        ({
            let end = mint_run(mint_start(signers, function, known), events);
            &&& end.signers == signers
            &&& end.results.len() <= signers.len()
            &&& forall|i: int|
                0 <= i < end.results.len() ==> (#[trigger] end.results[i]).signer == signers[i]
            &&& mint_done(end) ==> end.results.len() == signers.len()
        }),
{
    lemma_run_keeps_order(mint_start(signers, function, known), events);
}

/// A run of events leaves the signers as they are and keeps every result at
/// the position of its signer.
pub proof fn lemma_run_keeps_order(state: MintState, events: Seq<Event>)
    requires
        mint_wf(state),
    ensures
        mint_wf(mint_run(state, events)),
        mint_run(state, events).signers == state.signers,
        mint_run(state, events).function == state.function,
        mint_run(state, events).known == state.known,
        state.results.is_prefix_of(mint_run(state, events).results),
    decreases events.len(),
{
    if events.len() > 0 {
        lemma_run_keeps_order(state, events.drop_last());
        lemma_step_keeps_order(mint_run(state, events.drop_last()), events.last());
    }
}

/// No hash without confirmation: every hash among the results of a loop is
/// one under which the inclusion of a transaction was watched.
pub proof fn lemma_minted_only_after_confirmation(
    signers: Seq<Address>,
    function: String,
    known: bool,
    events: Seq<Event>,
)
    ensures
        ({
            let end = mint_run(mint_start(signers, function, known), events);
            forall|i: int|
                0 <= i < end.results.len() ==> ((#[trigger] end.results[i]).result matches Ok(
                    tx_hash,
                ) ==> events.contains(Event::Watched(tx_hash)))
        }),
    decreases events.len(),
{
    if events.len() > 0 {
        let before = events.drop_last();
        let last = events.last();
        let start = mint_start(signers, function, known);
        lemma_minted_only_after_confirmation(signers, function, known, before);
        lemma_run_keeps_order(start, before);
        let earlier = mint_run(start, before);
        let end = mint_step(earlier, last);
        assert(events[events.len() - 1] == last);
        assert forall|e: Event| before.contains(e) implies events.contains(e) by {
            let i: int = choose|i: int| 0 <= i < before.len() && before[i] == e;
            assert(events[i] == e);
        }
        assert forall|i: int| 0 <= i < end.results.len() implies ((
        #[trigger] end.results[i]).result matches Ok(tx_hash) ==> events.contains(
            Event::Watched(tx_hash),
        )) by {
            if i < earlier.results.len() {
                assert(end.results[i] == earlier.results[i]);
            }
        }
    }
}

/// A failed transaction does not stop the loop: the failure becomes the
/// result of its signer, the results before it stay, and unless that signer
/// was the last, the loop asks to build the next signer's transaction.
pub proof fn lemma_failure_is_isolated(state: MintState, event: Event)
    requires
        mint_wf(state),
        !mint_done(state),
        next_stage(
            state.signers[state.results.len() as int],
            state.function,
            state.stage,
            event,
        ) is Failed,
    ensures
        ({
            let signer = state.signers[state.results.len() as int];
            let failed = next_stage(signer, state.function, state.stage, event);
            let after = mint_step(state, event);
            &&& after.results == state.results.push(
                MintResult { signer, result: Err(failed->Failed_0) },
            )
            &&& after.signers == state.signers
            &&& after.results.len() < after.signers.len() ==> mint_action(after) == Action::Build
            &&& after.results.len() == after.signers.len() ==> mint_action(after) == Action::Stop
        }),
{
}

/// Every answer to the action that the loop asks for brings it closer to its
/// end, so that three answers for each signer at most finish it.
pub proof fn lemma_mint_answer_makes_progress(state: MintState, event: Event)
    requires
        mint_wf(state),
        answers(mint_action(state), event),
    ensures
        mint_steps_left(mint_step(state, event)) < mint_steps_left(state),
{
}

/// The loop stops exactly when every signer has its result.
pub proof fn lemma_stop_means_done(state: MintState)
    requires
        mint_wf(state),
    ensures
        mint_action(state) == Action::Stop <==> state.results.len() == state.signers.len(),
        mint_steps_left(state) == 0 <==> mint_done(state),
{
}

} // verus!
