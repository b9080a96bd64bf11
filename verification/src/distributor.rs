//! Paying many receivers with one transaction.

use vstd::prelude::*;

use crate::account::Signer;
use crate::error::Error;
use crate::executor::{execute, ContractHandle, Event, Executor, Stage};
use crate::primitives::{amount_max, Address, Amount, Value};

verus! {

/// One payment: who receives, and how much.
#[derive(Clone, Copy, Debug, PartialEq, Eq)]
pub struct DistributeParam {
    pub receiver: Address,
    pub amount: Amount,
}

/// The sum of the amounts of `params`.
pub open spec fn total(params: Seq<DistributeParam>) -> nat
    decreases params.len(),
{
    if params.len() == 0 {
        0
    } else {
        total(params.drop_last()) + params.last().amount.value()
    }
}

/// Whether `value` is the pair of `param`'s receiver and its amount as a
/// 256-bit unsigned integer.
pub open spec fn is_transfer(value: Value, param: DistributeParam) -> bool {
    &&& value matches Value::Tuple(pair)
    &&& pair@ == seq![Value::Address(param.receiver), Value::Uint(param.amount, 256)]
}

/// Whether `args` is the one argument of the distributing function for
/// `params`: a single array that holds a receiver-and-amount pair for each
/// payment, in order.
pub open spec fn is_payload(args: Seq<Value>, params: Seq<DistributeParam>) -> bool {
    &&& args.len() == 1
    &&& args[0] matches Value::Array(items)
    &&& items@.len() == params.len()
    &&& forall|i: int| 0 <= i < params.len() ==> is_transfer(#[trigger] items@[i], params[i])
}

/// The sum over a prefix is at most the sum over the whole.
pub proof fn lemma_total_of_prefix(params: Seq<DistributeParam>, count: int)
    requires
        0 <= count <= params.len(),
    ensures
        total(params.take(count)) <= total(params),
    decreases params.len(),
{
    if count == params.len() {
        assert(params.take(count) =~= params);
    } else {
        lemma_total_of_prefix(params.drop_last(), count);
        assert(params.drop_last().take(count) =~= params.take(count));
    }
}

/// Payments of one and the same amount add up to that amount times their
/// number.
pub proof fn lemma_total_of_equal_amounts(params: Seq<DistributeParam>, each: nat)
    requires
        forall|i: int| 0 <= i < params.len() ==> (#[trigger] params[i]).amount.value() == each,
    ensures
        total(params) == params.len() * each,
    decreases params.len(),
{
    if params.len() > 0 {
        lemma_total_of_equal_amounts(params.drop_last(), each);
        assert(total(params) == (params.len() - 1) * each + each);
        assert((params.len() - 1) * each + each == params.len() * each) by (nonlinear_arith);
    }
}

/// The sum of the amounts of `params`; an error where it exceeds 256 bits.
pub fn total_amount(params: &Vec<DistributeParam>) -> (r: Result<Amount, Error>)
    ensures
        r is Ok <==> total(params@) <= amount_max(),
        r matches Ok(sum) ==> sum.value() == total(params@),
        r matches Err(e) ==> e == Error::AmountOverflow,
{
    let mut sum = Amount::zero();
    let mut i: usize = 0;
    assert(params@.take(0) =~= Seq::<DistributeParam>::empty());
    while i < params.len()
        invariant
            i <= params@.len(),
            sum.value() == total(params@.take(i as int)),
        decreases params@.len() - i,
    {
        proof {
            assert(params@.take(i + 1).drop_last() =~= params@.take(i as int));
            lemma_total_of_prefix(params@, i + 1);
        }
        match sum.checked_add(params[i].amount) {
            Some(next) => {
                sum = next;
            },
            None => {
                return Err(Error::AmountOverflow);
            },
        }
        i += 1;
    }
    assert(params@.take(i as int) =~= params@);
    Ok(sum)
}

/// The argument list of the distributing function for `params`.
pub fn payload(params: &Vec<DistributeParam>) -> (r: Vec<Value>)
    ensures
        is_payload(r@, params@),
{
    let mut items: Vec<Value> = Vec::new();
    let mut i: usize = 0;
    while i < params.len()
        invariant
            i <= params@.len(),
            items@.len() == i,
            forall|n: int| 0 <= n < i ==> is_transfer(#[trigger] items@[n], params@[n]),
        decreases params@.len() - i,
    {
        let mut pair: Vec<Value> = Vec::new();
        pair.push(Value::Address(params[i].receiver));
        pair.push(Value::Uint(params[i].amount, 256));
        assert(pair@ =~= seq![
            Value::Address(params@[i as int].receiver),
            Value::Uint(params@[i as int].amount, 256),
        ]);
        items.push(Value::Tuple(pair));
        i += 1;
    }
    let mut args: Vec<Value> = Vec::new();
    args.push(Value::Array(items));
    args
}

/// Starts the one transaction in which `sender` pays every receiver of
/// `params`: a call of `distributeEther` on `contract` with the payments as
/// its argument and their sum as its value. There is no transaction where the
/// sum exceeds 256 bits, or where the contract has no such function.
pub fn distribute(sender: &Signer, contract: &ContractHandle, params: &Vec<DistributeParam>) -> (r:
    Result<Executor, Error>)
    ensures
        r is Ok <==> total(params@) <= amount_max() && contract.has("distributeEther"@),
        r matches Ok(run) ==> {
            &&& run@.caller == sender.address()
            &&& run@.call.contract == contract.address
            &&& run@.call.function@ == "distributeEther"@
            &&& is_payload(run@.call.args@, params@)
            &&& run@.call.value.value() == total(params@)
            &&& run@.stage == Stage::Building
            &&& run@.events == Seq::<Event>::empty()
        },
        r matches Ok(run) ==> (params@.len() == 0 ==> run@.call.value.value() == 0),
        r matches Err(e) ==> if total(params@) > amount_max() {
            e == Error::AmountOverflow
        } else {
            e matches Error::FunctionNotFound(name) && name@ == "distributeEther"@
        },
{
    let value = match total_amount(params) {
        Ok(sum) => sum,
        Err(e) => {
            return Err(e);
        },
    };
    let args = payload(params);
    execute(sender, contract, "distributeEther", args, Some(value))
}

} // verus!
