use crate::db::{created, transferred};
use crate::error::LedgerError;
use crate::ledger::{leg_sum, log_rows, Account, Ledger};
use crate::proto::accounting::{TransferComponent, TransferResponse};
use crate::proto::accounting_grpc::{AccountingService, RpcStatus};
use crate::service::{column_of, GrpcAccountingService};
use crate::store::DataStore;
use vstd::prelude::*;

verus! {

/// What the legs of a transfer add to the balance of the account `id`: the
/// sum of the deltas of the legs that name it.
pub open spec fn net(legs: Seq<TransferComponent>, id: u32) -> int
    decreases legs.len(),
{
    if legs.len() == 0 {
        0
    } else {
        net(legs.drop_last(), id) + if legs.last().account_id == id {
            legs.last().money_delta as int
        } else {
            0
        }
    }
}

/// The balance of an existing account after the legs from place `from` on.
proof fn lemma_balance_after(
    rows: Ledger,
    req_id: i64,
    legs: Seq<TransferComponent>,
    from: nat,
    id: u32,
)
    requires
        rows.wf(),
        from <= legs.len(),
        rows.apply_legs_from(req_id, legs, from) is Some,
        rows.has_account(id),
    ensures
        rows.apply_legs_from(req_id, legs, from).unwrap().balance_of(id) == Some(
            rows.balance_of(id).unwrap() + net(legs, id) - net(legs.take(from as int), id),
        ),
    decreases legs.len() - from,
{
    if from >= legs.len() {
        assert(legs.take(from as int) =~= legs);
    } else {
        let leg = legs[from as int];
        let credited = rows.credit(leg.account_id, leg.money_delta as int).unwrap();
        let next = rows.apply_leg(req_id, leg, from).unwrap();
        rows.lemma_credit(leg.account_id, leg.money_delta as int);
        assert(credited.has_account(id));
        let p = credited.position(id);
        assert(credited.holds_at(p, id));
        assert(next.holds_at(p, id));
        next.lemma_position(p, id);
        assert(next.balance_of(id) == credited.balance_of(id));
        lemma_balance_after(next, req_id, legs, from + 1, id);
        assert(legs.take(from as int + 1).drop_last() =~= legs.take(from as int));
    }
}

/// Legs that can be applied can be applied up to any place among them.
proof fn lemma_prefix_applies(
    rows: Ledger,
    req_id: i64,
    legs: Seq<TransferComponent>,
    from: nat,
    k: nat,
)
    requires
        from <= k <= legs.len(),
        rows.apply_legs_from(req_id, legs, from) is Some,
    ensures
        rows.apply_legs_from(req_id, legs.take(k as int), from) is Some,
    decreases k - from,
{
    if from < k {
        let next = rows.apply_leg(req_id, legs[from as int], from).unwrap();
        assert(legs.take(k as int)[from as int] == legs[from as int]);
        lemma_prefix_applies(next, req_id, legs, from + 1, k);
    }
}

/// Legs of which one names a missing account cannot be applied.
proof fn lemma_missing_account_stops(
    rows: Ledger,
    req_id: i64,
    legs: Seq<TransferComponent>,
    from: nat,
    k: nat,
)
    requires
        rows.wf(),
        from <= k < legs.len(),
        !rows.has_account(legs[k as int].account_id),
    ensures
        rows.apply_legs_from(req_id, legs, from) is None,
    decreases k - from,
{
    if from < k {
        let leg = legs[from as int];
        if rows.apply_leg(req_id, leg, from) is Some {
            let credited = rows.credit(leg.account_id, leg.money_delta as int).unwrap();
            let next = rows.apply_leg(req_id, leg, from).unwrap();
            rows.lemma_credit(leg.account_id, leg.money_delta as int);
            let missing = legs[k as int].account_id;
            assert(!next.has_account(missing)) by {
                if next.has_account(missing) {
                    let p = next.position(missing);
                    assert(next.holds_at(p, missing));
                    assert(credited.holds_at(p, missing));
                }
            }
            lemma_missing_account_stops(next, req_id, legs, from + 1, k);
        }
    }
}

/// Money is neither made nor lost: a transfer whose legs add up to zero
/// leaves the sum of all balances as it was.
pub proof fn law_conservation(rows: Ledger, req_id: i64, legs: Seq<TransferComponent>)
    requires
        rows.wf(),
        leg_sum(legs) == 0,
        rows.apply_legs(req_id, legs) is Some,
    ensures
        rows.apply_legs(req_id, legs).unwrap().total() == rows.total(),
{
    rows.lemma_apply_legs_from(req_id, legs, 0);
    assert(legs.take(0) =~= Seq::<TransferComponent>::empty());
}

/// Whatever a call for a transfer is answered with, and whatever the store,
/// it leaves the sum of all balances as it was.
pub proof fn law_transfer_call_conserves<T: DataStore>(
    before: GrpcAccountingService<T>,
    req_id: u64,
    legs: Seq<TransferComponent>,
    after: GrpcAccountingService<T>,
    reply: Result<TransferResponse, RpcStatus>,
)
    requires
        before.ready(),
        before.transfers(req_id, legs, after, reply),
    ensures
        after.state().rows.total() == before.state().rows.total(),
{
    if reply is Ok {
        law_conservation(before.state().rows, column_of(req_id), legs);
    }
}

/// No balance is negative: not in a well-formed ledger, not after a
/// transfer, and not after any leg on the way.
pub proof fn law_non_negative(
    rows: Ledger,
    req_id: i64,
    legs: Seq<TransferComponent>,
    k: nat,
    id: u32,
)
    requires
        rows.wf(),
        rows.apply_legs(req_id, legs) is Some,
        k <= legs.len(),
        rows.has_account(id),
    ensures
        rows.balance_of(id).unwrap() >= 0,
        rows.apply_legs(req_id, legs.take(k as int)) is Some,
        rows.apply_legs(req_id, legs.take(k as int)).unwrap().wf(),
        rows.apply_legs(req_id, legs.take(k as int)).unwrap().balance_of(id) is Some,
        rows.apply_legs(req_id, legs.take(k as int)).unwrap().balance_of(id).unwrap() >= 0,
{
    let p = rows.position(id);
    assert(rows.holds_at(p, id));
    let part = legs.take(k as int);
    lemma_prefix_applies(rows, req_id, legs, 0, k);
    rows.lemma_apply_legs_from(req_id, part, 0);
    let after = rows.apply_legs(req_id, part).unwrap();
    assert(after.holds_at(p, id));
    let q = after.position(id);
    assert(after.holds_at(q, id));
}

/// A transfer that fails leaves no trace: whatever the store, a call for a
/// transfer that is answered with a failure leaves every balance and the
/// log as they were.
pub proof fn law_atomicity<T: DataStore>(
    before: GrpcAccountingService<T>,
    req_id: u64,
    legs: Seq<TransferComponent>,
    after: GrpcAccountingService<T>,
    reply: Result<TransferResponse, RpcStatus>,
)
    requires
        before.ready(),
        before.transfers(req_id, legs, after, reply),
        reply is Err,
    ensures
        after.state().rows == before.state().rows,
{
}

/// Legs that do not add up to zero are refused as invalid, whatever the
/// accounts and their balances, and the store is left as it was.
pub proof fn law_unbalanced_legs_refused<T: DataStore>(
    before: GrpcAccountingService<T>,
    req_id: u64,
    legs: Seq<TransferComponent>,
    after: GrpcAccountingService<T>,
    reply: Result<TransferResponse, RpcStatus>,
)
    requires
        before.ready(),
        before.transfers(req_id, legs, after, reply),
        leg_sum(legs) != 0,
    ensures
        reply matches Err(status) && status.reports(LedgerError::ValidationError),
        after.state() == before.state(),
{
}

/// An account that was created is not created again: a second creation
/// under its id is refused as existing, whatever balance it asks for, and
/// the balance is the one of the first.
pub proof fn law_duplicate_creation(rows: Ledger, account: Account, again: i64)
    requires
        rows.wf(),
        rows.open_account(account) is Some,
    ensures
        created(rows.open_account(account).unwrap(), account.id, again) == Err::<u64, LedgerError>(
            LedgerError::AlreadyExists,
        ),
        rows.open_account(account).unwrap().open_account(
            Account { id: account.id, balance: again, creation_request: account.creation_request },
        ) is None,
        rows.open_account(account).unwrap().balance_of(account.id) == Some(account.balance as int),
{
    rows.lemma_open_account(account);
}

/// A transfer with a leg on a missing account fails as a whole: on a
/// dependable store that allows an attempt it ends in a leg failure.
pub proof fn law_missing_account(
    rows: Ledger,
    req_id: i64,
    legs: Seq<TransferComponent>,
    k: nat,
    conflicts: nat,
    max_attempts: nat,
)
    requires
        rows.wf(),
        k < legs.len(),
        !rows.has_account(legs[k as int].account_id),
        max_attempts > 0,
    ensures
        rows.apply_legs(req_id, legs) is None,
        transferred(rows, req_id, legs, conflicts, max_attempts) == Err::<(), LedgerError>(
            LedgerError::LegFailure,
        ),
{
    lemma_missing_account_stops(rows, req_id, legs, 0, k);
}

/// A transfer adds to each balance the sum of its legs on that account.
pub proof fn law_net_effect(rows: Ledger, req_id: i64, legs: Seq<TransferComponent>, id: u32)
    requires
        rows.wf(),
        rows.apply_legs(req_id, legs) is Some,
        rows.has_account(id),
    ensures
        rows.apply_legs(req_id, legs).unwrap().balance_of(id) == Some(
            rows.balance_of(id).unwrap() + net(legs, id),
        ),
{
    lemma_balance_after(rows, req_id, legs, 0, id);
    assert(legs.take(0) =~= Seq::<TransferComponent>::empty());
}

/// Two transfers that can be applied one after the other in either order
/// leave the same balances in both orders: those of before, with the legs
/// of both added.
pub proof fn law_order_of_arrival(
    rows: Ledger,
    first_id: i64,
    first: Seq<TransferComponent>,
    second_id: i64,
    second: Seq<TransferComponent>,
    id: u32,
)
    requires
        rows.wf(),
        rows.has_account(id),
        rows.apply_legs(first_id, first) is Some,
        rows.apply_legs(first_id, first).unwrap().apply_legs(second_id, second) is Some,
        rows.apply_legs(second_id, second) is Some,
        rows.apply_legs(second_id, second).unwrap().apply_legs(first_id, first) is Some,
    ensures
        rows.apply_legs(first_id, first).unwrap().apply_legs(second_id, second).unwrap().balance_of(
            id,
        ) == Some(rows.balance_of(id).unwrap() + net(first, id) + net(second, id)),
        rows.apply_legs(second_id, second).unwrap().apply_legs(first_id, first).unwrap().balance_of(
            id,
        ) == rows.apply_legs(first_id, first).unwrap().apply_legs(
            second_id,
            second,
        ).unwrap().balance_of(id),
{
    let one = rows.apply_legs(first_id, first).unwrap();
    let two = rows.apply_legs(second_id, second).unwrap();
    law_net_effect(rows, first_id, first, id);
    law_net_effect(rows, second_id, second, id);
    rows.lemma_apply_legs_from(first_id, first, 0);
    rows.lemma_apply_legs_from(second_id, second, 0);
    law_net_effect(one, second_id, second, id);
    law_net_effect(two, first_id, first, id);
}

/// The log keeps every leg: a transfer adds one row for each of its legs,
/// in the order of the legs and each with its place, also where two legs
/// name the same account.
pub proof fn law_order_preserved(rows: Ledger, req_id: i64, legs: Seq<TransferComponent>, k: int)
    requires
        rows.wf(),
        rows.apply_legs(req_id, legs) is Some,
        0 <= k < legs.len(),
    ensures
        rows.apply_legs(req_id, legs).unwrap().log == rows.log + log_rows(req_id, legs),
        rows.apply_legs(req_id, legs).unwrap().log.len() == rows.log.len() + legs.len(),
        rows.apply_legs(req_id, legs).unwrap().log[rows.log.len() + k].account_id
            == legs[k].account_id,
        rows.apply_legs(req_id, legs).unwrap().log[rows.log.len() + k].amount
            == legs[k].money_delta,
        rows.apply_legs(req_id, legs).unwrap().log[rows.log.len() + k].transaction_index == k,
        rows.apply_legs(req_id, legs).unwrap().log[rows.log.len() + k].req_id == req_id,
{
    rows.lemma_apply_legs_from(req_id, legs, 0);
    let added = log_rows(req_id, legs);
    assert(added.subrange(0, legs.len() as int) =~= added);
    lemma_applied_legs_are_counted(rows, req_id, legs, 0);
}

/// The ledger after the transfers of `transfers`, each given by its request
/// id and its legs and applied to what the one before it left. `None` where
/// one of them cannot be applied.
pub open spec fn apply_all(rows: Ledger, transfers: Seq<(i64, Seq<TransferComponent>)>) -> Option<
    Ledger,
>
    decreases transfers.len(),
{
    if transfers.len() == 0 {
        Some(rows)
    } else {
        match apply_all(rows, transfers.drop_last()) {
            None => None,
            Some(so_far) => so_far.apply_legs(transfers.last().0, transfers.last().1),
        }
    }
}

/// Money is neither made nor lost over any number of transfers: where the
/// legs of each add up to zero, the sum of all balances after them is the
/// sum before, and no balance is negative.
pub proof fn law_conservation_over_many(
    rows: Ledger,
    transfers: Seq<(i64, Seq<TransferComponent>)>,
)
    requires
        rows.wf(),
        forall|i: int| 0 <= i < transfers.len() ==> leg_sum(#[trigger] transfers[i].1) == 0,
        apply_all(rows, transfers) is Some,
    ensures
        apply_all(rows, transfers).unwrap().wf(),
        apply_all(rows, transfers).unwrap().total() == rows.total(),
    decreases transfers.len(),
{
    if transfers.len() > 0 {
        let earlier = transfers.drop_last();
        assert forall|i: int| 0 <= i < earlier.len() implies leg_sum(#[trigger] earlier[i].1)
            == 0 by {
            assert(earlier[i] == transfers[i]);
        }
        law_conservation_over_many(rows, earlier);
        let so_far = apply_all(rows, earlier).unwrap();
        let last = transfers.last();
        assert(last == transfers[transfers.len() - 1]);
        law_conservation(so_far, last.0, last.1);
        so_far.lemma_apply_legs_from(last.0, last.1, 0);
    }
}

/// Conflicts are not seen by the caller: on a dependable store that counts
/// fewer conflicts than attempts are allowed, a transfer ends as it would
/// without any conflict.
pub proof fn law_conflicts_are_transparent(
    rows: Ledger,
    req_id: i64,
    legs: Seq<TransferComponent>,
    conflicts: nat,
    max_attempts: nat,
)
    requires
        conflicts < max_attempts,
    ensures
        transferred(rows, req_id, legs, conflicts, max_attempts) == transferred(
            rows,
            req_id,
            legs,
            0,
            max_attempts,
        ),
        transferred(rows, req_id, legs, conflicts, max_attempts) is Ok <==> rows.apply_legs(
            req_id,
            legs,
        ) is Some,
{
}

/// Legs that can be applied from place `from` on are not more than a place
/// can number.
proof fn lemma_applied_legs_are_counted(
    rows: Ledger,
    req_id: i64,
    legs: Seq<TransferComponent>,
    from: nat,
)
    requires
        from <= legs.len(),
        rows.apply_legs_from(req_id, legs, from) is Some,
    ensures
        from < legs.len() ==> legs.len() - 1 <= u64::MAX,
    decreases legs.len() - from,
{
    if from < legs.len() {
        let next = rows.apply_leg(req_id, legs[from as int], from).unwrap();
        lemma_applied_legs_are_counted(next, req_id, legs, from + 1);
    }
}

} // verus!
