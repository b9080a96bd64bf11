//! One transaction, from the call to its confirmation, and one read-only call.
//!
//! Neither talks to a node. An [`Executor`] names the next thing to do for a
//! transaction ([`Action`]) and takes what came of it ([`Event`]); a
//! [`Reader`] does the same for a call that changes nothing.

use vstd::prelude::*;

use crate::account::Signer;
use crate::error::{Error, Fault, FaultKind};
use crate::primitives::{Address, Amount, TxHash, Value};

verus! {

/// A deployed contract as far as calls need it: the names of the functions
/// of its interface, and its address.
#[derive(Debug, PartialEq, Eq)]
pub struct ContractHandle {
    pub functions: Vec<String>,
    pub address: Address,
}

impl ContractHandle {
    /// Whether the interface has a function called `name`.
    pub open spec fn has(&self, name: Seq<char>) -> bool {
        exists|i: int| 0 <= i < self.functions@.len() && (#[trigger] self.functions@[i])@ == name
    }

    /// Whether the interface has a function called `name`.
    pub fn has_function(&self, name: &str) -> (r: bool)
        ensures
            r == self.has(name@),
    {
        let wanted = name.to_owned();
        let mut i: usize = 0;
        while i < self.functions.len()
            invariant
                i <= self.functions@.len(),
                wanted@ == name@,
                forall|n: int| 0 <= n < i ==> (#[trigger] self.functions@[n])@ != name@,
            decreases self.functions@.len() - i,
        {
            if self.functions[i] == wanted {
                return true;
            }
            i += 1;
        }
        false
    }
}

/// One invocation of a contract function: the contract's address, the
/// function's name, its arguments in order, and the native currency sent
/// along.
#[derive(Debug, PartialEq, Eq)]
pub struct CallSpec {
    pub contract: Address,
    pub function: String,
    pub args: Vec<Value>,
    pub value: Amount,
}

/// The result of one confirmed transaction.
#[derive(Clone, Copy, Debug, PartialEq, Eq)]
pub struct Execution {
    pub caller: Address,
    pub tx_hash: TxHash,
}

impl Execution {
    fn new(caller: Address, tx_hash: TxHash) -> (r: Self)
        ensures
            r == (Execution { caller, tx_hash }),
    {
        Self { caller, tx_hash }
    }
}

/// What came of one step of a transaction.
#[derive(Debug, PartialEq, Eq)]
pub enum Event {
    /// The call was looked up in the interface and encoded.
    Built,
    /// The call could not be looked up or encoded.
    BuildFailed(Fault),
    /// The node accepted the signed transaction.
    Sent,
    /// The transaction did not reach the node, or the node refused it.
    SendFailed(Fault),
    /// The transaction was seen included, under this hash.
    Watched(TxHash),
    /// The wait for the transaction ended without its inclusion.
    WatchFailed(Fault),
}

/// How far a transaction has come.
#[derive(Debug, PartialEq, Eq)]
pub enum Stage {
    /// Nothing has left the machine yet.
    Building,
    /// The call is encoded; the node has not accepted it yet.
    Sending,
    /// The node has accepted the transaction; it is not confirmed yet.
    Watching,
    /// The transaction is confirmed.
    Done(Execution),
    /// The transaction failed; nothing is tried again.
    Failed(Error),
}

/// What to do next for a transaction.
#[derive(Clone, Copy, Debug, PartialEq, Eq, Structural)]
pub enum Action {
    /// Look the function up in the interface and encode the call.
    Build,
    /// Sign the transaction and hand it to the node.
    Send,
    /// Wait until the transaction is included.
    Watch,
    /// Nothing: the transaction is confirmed or has failed.
    Stop,
}

/// The stage that follows `stage` when `event` comes in, for a transaction of
/// `caller` that calls `function`. An event that does not answer the stage's
/// action changes nothing, and neither does any event once the transaction is
/// done or has failed.
pub open spec fn next_stage(caller: Address, function: String, stage: Stage, event: Event) -> Stage {
    match stage {
        Stage::Building => match event {
            Event::Built => Stage::Sending,
            Event::BuildFailed(fault) => if fault.kind == FaultKind::UnknownFunction {
                Stage::Failed(Error::FunctionNotFound(function))
            } else {
                Stage::Failed(Error::Submission(fault.text))
            },
            _ => stage,
        },
        Stage::Sending => match event {
            Event::Sent => Stage::Watching,
            Event::SendFailed(fault) => Stage::Failed(Error::Submission(fault.text)),
            _ => stage,
        },
        Stage::Watching => match event {
            Event::Watched(tx_hash) => Stage::Done(Execution { caller, tx_hash }),
            Event::WatchFailed(fault) => Stage::Failed(Error::Confirmation(fault.text)),
            _ => stage,
        },
        Stage::Done(_) => stage,
        Stage::Failed(_) => stage,
    }
}

/// The action that a stage asks for.
pub open spec fn action_of(stage: Stage) -> Action {
    match stage {
        Stage::Building => Action::Build,
        Stage::Sending => Action::Send,
        Stage::Watching => Action::Watch,
        Stage::Done(_) => Action::Stop,
        Stage::Failed(_) => Action::Stop,
    }
}

/// What a transaction has come to: nothing yet, an execution or an error.
pub open spec fn outcome_of(stage: Stage) -> Option<Result<Execution, Error>> {
    match stage {
        Stage::Done(execution) => Some(Ok(execution)),
        Stage::Failed(error) => Some(Err(error)),
        _ => None,
    }
}

/// The stage reached from `stage` after the events of `events`, in order.
pub open spec fn run(caller: Address, function: String, stage: Stage, events: Seq<Event>) -> Stage
    decreases events.len(),
{
    if events.len() == 0 {
        stage
    } else {
        next_stage(caller, function, run(caller, function, stage, events.drop_last()), events.last())
    }
}

/// Moves a transaction one event on.
pub fn advance(caller: Address, function: &String, stage: Stage, event: Event) -> (r: Stage)
    ensures
        r == next_stage(caller, *function, stage, event),
{
    match stage {
        Stage::Building => match event {
            Event::Built => Stage::Sending,
            Event::BuildFailed(fault) => match fault.kind {
                FaultKind::UnknownFunction => Stage::Failed(
                    Error::FunctionNotFound(function.clone()),
                ),
                _ => Stage::Failed(Error::Submission(fault.text)),
            },
            _ => Stage::Building,
        },
        Stage::Sending => match event {
            Event::Sent => Stage::Watching,
            Event::SendFailed(fault) => Stage::Failed(Error::Submission(fault.text)),
            _ => Stage::Sending,
        },
        Stage::Watching => match event {
            Event::Watched(tx_hash) => Stage::Done(Execution::new(caller, tx_hash)),
            Event::WatchFailed(fault) => Stage::Failed(Error::Confirmation(fault.text)),
            _ => Stage::Watching,
        },
        Stage::Done(execution) => Stage::Done(execution),
        Stage::Failed(error) => Stage::Failed(error),
    }
}

/// The action that a stage asks for.
pub fn action_for(stage: &Stage) -> (r: Action)
    ensures
        r == action_of(*stage),
{
    match stage {
        Stage::Building => Action::Build,
        Stage::Sending => Action::Send,
        Stage::Watching => Action::Watch,
        Stage::Done(_) => Action::Stop,
        Stage::Failed(_) => Action::Stop,
    }
}

/// An executor as a mathematical value: who sends the transaction, what it
/// calls, how far it has come, and the events that brought it there.
pub struct ExecutorState {
    pub caller: Address,
    pub call: CallSpec,
    pub stage: Stage,
    pub events: Seq<Event>,
}

/// A transaction under way. It starts at `Building` and moves only by the
/// events that it is handed, so that its stage is always the one that its
/// events lead to.
pub struct Executor {
    caller: Address,
    call: CallSpec,
    stage: Stage,
    events: Ghost<Seq<Event>>,
}

impl View for Executor {
    type V = ExecutorState;

    closed spec fn view(&self) -> ExecutorState {
        ExecutorState {
            caller: self.caller,
            call: self.call,
            stage: self.stage,
            events: self.events@,
        }
    }
}

/// Whether the stage of `state` is the one that its events lead to.
pub open spec fn follows_events(state: ExecutorState) -> bool {
    state.stage == run(state.caller, state.call.function, Stage::Building, state.events)
}

impl Executor {
    #[verifier::type_invariant]
    spec fn well_formed(self) -> bool {
        follows_events(self@)
    }

    /// Starts the transaction in which `caller` makes `call`.
    pub(crate) fn new(caller: Address, call: CallSpec) -> (r: Executor)
        ensures
            r@ == (ExecutorState { caller, call, stage: Stage::Building, events: Seq::empty() }),
    {
        Executor { caller, call, stage: Stage::Building, events: Ghost(Seq::empty()) }
    }

    /// Who sends the transaction.
    pub fn caller(&self) -> (r: Address)
        ensures
            r == self@.caller,
    {
        self.caller
    }

    /// What the transaction calls.
    pub fn call(&self) -> (r: &CallSpec)
        ensures
            *r == self@.call,
    {
        &self.call
    }

    /// How far the transaction has come.
    pub fn stage(&self) -> (r: &Stage)
        ensures
            *r == self@.stage,
            follows_events(self@),
    {
        proof {
            use_type_invariant(self);
        }
        &self.stage
    }

    /// What to do next.
    pub fn action(&self) -> (r: Action)
        ensures
            r == action_of(self@.stage),
    {
        action_for(&self.stage)
    }

    /// Takes in what came of the last action.
    pub fn step(self, event: Event) -> (r: Executor)
        ensures
            r@.caller == self@.caller,
            r@.call == self@.call,
            r@.stage == next_stage(self@.caller, self@.call.function, self@.stage, event),
            r@.events == self@.events.push(event),
    {
        proof {
            use_type_invariant(&self);
        }
        let ghost events = self.events@.push(event);
        proof {
            assert(events.drop_last() =~= self.events@);
        }
        let Executor { caller, call, stage, events: _ } = self;
        let stage = advance(caller, &call.function, stage, event);
        Executor { caller, call, stage, events: Ghost(events) }
    }

    /// The execution or the error that the transaction has come to, or `None`
    /// while it is under way. An execution carries the caller of the
    /// transaction and the hash under which its inclusion was watched.
    pub fn into_outcome(self) -> (r: Option<Result<Execution, Error>>)
        ensures
            r == outcome_of(self@.stage),
            r matches Some(Ok(execution)) ==> execution.caller == self@.caller
                && self@.events.contains(Event::Sent) && self@.events.contains(
                Event::Watched(execution.tx_hash),
            ),
    {
        proof {
            use_type_invariant(&self);
            lemma_done_only_after_confirmation(self.caller, self.call.function, self.events@);
        }
        match self.stage {
            Stage::Done(execution) => Some(Ok(execution)),
            Stage::Failed(error) => Some(Err(error)),
            _ => None,
        }
    }

    /// The hash of the confirmed transaction or the error that it has come
    /// to, or `None` while it is under way.
    pub fn into_tx_hash(self) -> (r: Option<Result<TxHash, Error>>)
        ensures
            r == tx_hash_of(outcome_of(self@.stage)),
            r matches Some(Ok(tx_hash)) ==> self@.events.contains(Event::Watched(tx_hash)),
    {
        match self.into_outcome() {
            Some(Ok(execution)) => Some(Ok(execution.tx_hash)),
            Some(Err(error)) => Some(Err(error)),
            None => None,
        }
    }
}

/// Starts the transaction in which `account` calls the function
/// `function_name` of `contract` with `args`, sending `value` along, or
/// nothing where there is none. There is no transaction where the contract's
/// interface has no function of that name.
pub fn execute(
    account: &Signer,
    contract: &ContractHandle,
    function_name: &str,
    args: Vec<Value>,
    value: Option<Amount>,
) -> (r: Result<Executor, Error>)
    ensures
        r is Ok <==> contract.has(function_name@),
        r matches Ok(run) ==> {
            &&& run@.caller == account.address()
            &&& run@.call.contract == contract.address
            &&& run@.call.function@ == function_name@
            &&& run@.call.args == args
            &&& run@.call.value == (match value {
                Some(amount) => amount,
                None => Amount { hi: 0, lo: 0 },
            })
            &&& run@.stage == Stage::Building
            &&& run@.events == Seq::<Event>::empty()
        },
        r matches Err(e) ==> e matches Error::FunctionNotFound(name) && name@ == function_name@,
{
    if !contract.has_function(function_name) {
        return Err(Error::FunctionNotFound(function_name.to_owned()));
    }
    let value = match value {
        Some(amount) => amount,
        None => Amount::zero(),
    };
    let call = CallSpec {
        contract: contract.address,
        function: function_name.to_owned(),
        args,
        value,
    };
    Ok(Executor::new(account.address(), call))
}

/// An outcome without the caller.
pub open spec fn tx_hash_of(outcome: Option<Result<Execution, Error>>) -> Option<
    Result<TxHash, Error>,
> {
    match outcome {
        Some(Ok(execution)) => Some(Ok(execution.tx_hash)),
        Some(Err(error)) => Some(Err(error)),
        None => None,
    }
}

/// No hash without confirmation: a transaction that started at `Building` is
/// done only if its call was built, the node accepted it, and its inclusion
/// was watched under the very hash that the execution carries. The execution
/// names the caller that the transaction was started for.
pub proof fn lemma_done_only_after_confirmation(
    caller: Address,
    function: String,
    events: Seq<Event>,
)
    ensures
        ({
            let stage = run(caller, function, Stage::Building, events);
            &&& stage is Sending || stage is Watching || stage is Done ==> events.contains(
                Event::Built,
            )
            &&& stage is Watching || stage is Done ==> events.contains(Event::Sent)
            &&& stage matches Stage::Done(execution) ==> execution.caller == caller
                && events.contains(Event::Watched(execution.tx_hash))
        }),
    decreases events.len(),
{
    if events.len() > 0 {
        let before = events.drop_last();
        let last = events.last();
        lemma_done_only_after_confirmation(caller, function, before);
        assert(events[events.len() - 1] == last);
        assert forall|e: Event| before.contains(e) implies events.contains(e) by {
            let i: int = choose|i: int| 0 <= i < before.len() && before[i] == e;
            assert(events[i] == e);
        }
    }
}

/// No retry: once a transaction is done or has failed, no event changes it.
pub proof fn lemma_finished_stays_finished(
    caller: Address,
    function: String,
    stage: Stage,
    events: Seq<Event>,
)
    requires
        stage is Done || stage is Failed,
    ensures
        run(caller, function, stage, events) == stage,
    decreases events.len(),
{
    if events.len() > 0 {
        lemma_finished_stays_finished(caller, function, stage, events.drop_last());
    }
}

/// Whether `event` is an answer to `action`.
pub open spec fn answers(action: Action, event: Event) -> bool {
    match action {
        Action::Build => event is Built || event is BuildFailed,
        Action::Send => event is Sent || event is SendFailed,
        Action::Watch => event is Watched || event is WatchFailed,
        Action::Stop => false,
    }
}

/// How many answers a transaction at `stage` can still take.
pub open spec fn steps_left(stage: Stage) -> nat {
    match stage {
        Stage::Building => 3,
        Stage::Sending => 2,
        Stage::Watching => 1,
        Stage::Done(_) => 0,
        Stage::Failed(_) => 0,
    }
}

/// Every answer to the action that a stage asks for brings the transaction
/// closer to its end, so that three answers at most finish it.
pub proof fn lemma_answer_makes_progress(
    caller: Address,
    function: String,
    stage: Stage,
    event: Event,
)
    requires
        answers(action_of(stage), event),
    ensures
        steps_left(next_stage(caller, function, stage, event)) < steps_left(stage),
{
}

/// What came of one step of a read-only call.
#[derive(Debug, PartialEq, Eq)]
pub enum ReadEvent {
    /// The call was looked up in the interface and encoded.
    Built,
    /// The call could not be looked up or encoded.
    BuildFailed(Fault),
    /// The endpoint's reply, decoded.
    Replied(Vec<Value>),
    /// No reply came, or it could not be decoded.
    CallFailed(Fault),
}

/// How far a read-only call has come.
#[derive(Debug, PartialEq, Eq)]
pub enum ReadStage {
    /// Nothing has left the machine yet.
    Building,
    /// The call is encoded; no reply has come yet.
    Calling,
    /// The decoded outputs of the function.
    Done(Vec<Value>),
    /// The call failed.
    Failed(Error),
}

/// What to do next for a read-only call.
#[derive(Clone, Copy, Debug, PartialEq, Eq, Structural)]
pub enum ReadAction {
    /// Look the function up in the interface and encode the call.
    Build,
    /// Make the call, once, and decode the reply.
    Call,
    /// Nothing: the call has returned or failed.
    Stop,
}

/// The stage that follows `stage` of a read-only call of `function` when
/// `event` comes in.
pub open spec fn next_read_stage(function: String, stage: ReadStage, event: ReadEvent) -> ReadStage {
    match stage {
        ReadStage::Building => match event {
            ReadEvent::Built => ReadStage::Calling,
            ReadEvent::BuildFailed(fault) => if fault.kind == FaultKind::UnknownFunction {
                ReadStage::Failed(Error::FunctionNotFound(function))
            } else {
                ReadStage::Failed(Error::Submission(fault.text))
            },
            _ => stage,
        },
        ReadStage::Calling => match event {
            ReadEvent::Replied(outputs) => ReadStage::Done(outputs),
            ReadEvent::CallFailed(fault) => if fault.kind == FaultKind::Abi {
                ReadStage::Failed(Error::Decoding(fault.text))
            } else {
                ReadStage::Failed(Error::Unreachable(fault.text))
            },
            _ => stage,
        },
        ReadStage::Done(_) => stage,
        ReadStage::Failed(_) => stage,
    }
}

/// The action that a stage of a read-only call asks for.
pub open spec fn read_action_of(stage: ReadStage) -> ReadAction {
    match stage {
        ReadStage::Building => ReadAction::Build,
        ReadStage::Calling => ReadAction::Call,
        ReadStage::Done(_) => ReadAction::Stop,
        ReadStage::Failed(_) => ReadAction::Stop,
    }
}

/// What a read-only call has come to: nothing yet, the outputs or an error.
pub open spec fn read_outcome_of(stage: ReadStage) -> Option<Result<Vec<Value>, Error>> {
    match stage {
        ReadStage::Done(outputs) => Some(Ok(outputs)),
        ReadStage::Failed(error) => Some(Err(error)),
        _ => None,
    }
}

/// A read-only call under way. It has no signer: nothing is signed or
/// submitted, and no confirmation is waited for.
#[derive(Debug, PartialEq, Eq)]
pub struct Reader {
    pub contract: Address,
    pub function: String,
    pub args: Vec<Value>,
    pub stage: ReadStage,
}

impl Reader {
    /// What to do next.
    pub fn action(&self) -> (r: ReadAction)
        ensures
            r == read_action_of(self.stage),
    {
        match &self.stage {
            ReadStage::Building => ReadAction::Build,
            ReadStage::Calling => ReadAction::Call,
            ReadStage::Done(_) => ReadAction::Stop,
            ReadStage::Failed(_) => ReadAction::Stop,
        }
    }

    /// Takes in what came of the last action.
    pub fn step(self, event: ReadEvent) -> (r: Reader)
        ensures
            r.contract == self.contract,
            r.function == self.function,
            r.args == self.args,
            r.stage == next_read_stage(self.function, self.stage, event),
    {
        let stage = match self.stage {
            ReadStage::Building => match event {
                ReadEvent::Built => ReadStage::Calling,
                ReadEvent::BuildFailed(fault) => match fault.kind {
                    FaultKind::UnknownFunction => ReadStage::Failed(
                        Error::FunctionNotFound(self.function.clone()),
                    ),
                    _ => ReadStage::Failed(Error::Submission(fault.text)),
                },
                _ => ReadStage::Building,
            },
            ReadStage::Calling => match event {
                ReadEvent::Replied(outputs) => ReadStage::Done(outputs),
                ReadEvent::CallFailed(fault) => match fault.kind {
                    FaultKind::Abi => ReadStage::Failed(Error::Decoding(fault.text)),
                    _ => ReadStage::Failed(Error::Unreachable(fault.text)),
                },
                _ => ReadStage::Calling,
            },
            ReadStage::Done(outputs) => ReadStage::Done(outputs),
            ReadStage::Failed(error) => ReadStage::Failed(error),
        };
        Reader { contract: self.contract, function: self.function, args: self.args, stage }
    }

    /// The outputs or the error that the call has come to, or `None` while it
    /// is under way.
    pub fn into_outcome(self) -> (r: Option<Result<Vec<Value>, Error>>)
        ensures
            r == read_outcome_of(self.stage),
    {
        match self.stage {
            ReadStage::Done(outputs) => Some(Ok(outputs)),
            ReadStage::Failed(error) => Some(Err(error)),
            _ => None,
        }
    }
}

/// Starts the read-only call of the function `function_name` of `contract`
/// with `args`. There is no call where the contract's interface has no
/// function of that name.
pub fn call(contract: &ContractHandle, function_name: &str, args: Vec<Value>) -> (r: Result<
    Reader,
    Error,
>)
    ensures
        r is Ok <==> contract.has(function_name@),
        r matches Ok(reader) ==> {
            &&& reader.contract == contract.address
            &&& reader.function@ == function_name@
            &&& reader.args == args
            &&& reader.stage == ReadStage::Building
        },
        r matches Err(e) ==> e matches Error::FunctionNotFound(name) && name@ == function_name@,
{
    if !contract.has_function(function_name) {
        return Err(Error::FunctionNotFound(function_name.to_owned()));
    }
    Ok(
        Reader {
            contract: contract.address,
            function: function_name.to_owned(),
            args,
            stage: ReadStage::Building,
        },
    )
}

} // verus!
