//! What holds of the escrow state machine as a whole.

use crate::errors::EscrowError;
use crate::instructions::check_and_execute::{
    consistent, retire_of, settlement, step, transfer_of, Action, CheckAndExecute, Event, Phase,
    Settlement, Transfer,
};
use crate::instructions::confirm_delivery::confirmed;
use crate::state::{Escrow, Identity};
use vstd::prelude::*;

verus! {

/// A context is well formed when no execution is running on an executed record.
pub open spec fn well_formed(ctx: CheckAndExecute) -> bool {
    !(ctx.phase is Idle) ==> !ctx.escrow.executed
}

/// The balances of the holding accounts after the service has carried out a
/// transfer: the amount leaves one account and arrives in the other.
pub open spec fn after_transfer(balances: Map<Identity, int>, t: Transfer) -> Map<Identity, int> {
    let debited = balances.insert(t.from, balances[t.from] - t.amount);
    debited.insert(t.to, debited[t.to] + t.amount)
}

/// No event leads from a well-formed context to one that is not.
pub proof fn step_keeps_well_formed(ctx: CheckAndExecute, event: Event, authority: Option<Identity>)
    requires
        well_formed(ctx),
    ensures
        well_formed(step(ctx, event, authority).0),
{
}

/// An event changes nothing but the phase and the record, and the record only
/// when the retirement is reported: then it is marked executed. An executed
/// record stays executed.
pub proof fn only_commit_changes_record(
    ctx: CheckAndExecute,
    event: Event,
    authority: Option<Identity>,
)
    ensures
        ({
            let (next, answer) = step(ctx, event, authority);
            &&& next == (CheckAndExecute { phase: next.phase, escrow: next.escrow, ..ctx })
            &&& ctx.escrow.executed ==> next.escrow.executed
            &&& next.escrow != ctx.escrow ==> {
                &&& event is Retired
                &&& ctx.phase is Retiring
                &&& answer == Ok::<Action, EscrowError>(Action::Done)
                &&& !ctx.escrow.executed
                &&& next.escrow == (Escrow { executed: true, ..ctx.escrow })
            }
            &&& answer.is_err() ==> next.escrow == ctx.escrow
        }),
{
}

/// Once a record is executed, a trigger fails with `AlreadyExecuted` at any
/// time, whatever accompanies it, and every event is answered with an error:
/// no request goes to the service, and nothing changes.
pub proof fn executed_is_terminal(ctx: CheckAndExecute, event: Event, authority: Option<Identity>)
    requires
        ctx.escrow.executed,
    ensures
        event is Trigger ==> step(ctx, event, authority) == (
            ctx,
            Err::<Action, EscrowError>(EscrowError::AlreadyExecuted),
        ),
        well_formed(ctx) ==> step(ctx, event, authority).0 == ctx && step(
            ctx,
            event,
            authority,
        ).1.is_err(),
{
}

/// A record that can be settled, with matching accounts and an authority, is
/// executed in three steps: the funds are moved first, to the destination of
/// the settlement and in the amount of the deposit; the custody account is
/// retired next, under the same authorizer; then the record is marked executed
/// and is otherwise as before. A further trigger fails with `AlreadyExecuted`.
pub proof fn execution_runs_once(
    ctx: CheckAndExecute,
    now: i64,
    later: i64,
    authorizer: Identity,
    to: Settlement,
)
    requires
        ctx.phase is Idle,
        consistent(ctx),
        settlement(ctx.escrow, now) == Ok::<Settlement, EscrowError>(to),
    ensures
        ({
            let authority = Some(authorizer);
            let (first, moving) = step(ctx, Event::Trigger { now }, authority);
            let (second, retiring) = step(first, Event::Transferred, authority);
            let (third, done) = step(second, Event::Retired, authority);
            &&& moving == Ok::<Action, EscrowError>(
                Action::Transfer(transfer_of(ctx, to, authorizer)),
            )
            &&& retiring == Ok::<Action, EscrowError>(Action::Retire(retire_of(ctx, authorizer)))
            &&& done == Ok::<Action, EscrowError>(Action::Done)
            &&& first.escrow == ctx.escrow
            &&& second.escrow == ctx.escrow
            &&& third == (CheckAndExecute {
                escrow: Escrow { executed: true, ..ctx.escrow },
                ..ctx
            })
            &&& step(third, Event::Trigger { now: later }, authority) == (
                third,
                Err::<Action, EscrowError>(EscrowError::AlreadyExecuted),
            )
        }),
{
}

/// When the service rejects a request, the execution is over and the record is
/// as it was: not executed, and open to a later trigger.
pub proof fn rejection_aborts(ctx: CheckAndExecute, authority: Option<Identity>)
    requires
        !(ctx.phase is Idle),
    ensures
        step(ctx, Event::Rejected, authority) == (
            CheckAndExecute { phase: Phase::Idle, ..ctx },
            Err::<Action, EscrowError>(EscrowError::ServiceFailure),
        ),
{
}

/// A confirmed record that is not yet executed is released to the beneficiary
/// at any time, before the deadline or after it.
pub proof fn confirmed_is_released(ctx: CheckAndExecute, now: i64, authorizer: Identity)
    requires
        ctx.escrow.buyer_confirmed,
        !ctx.escrow.executed,
    ensures
        settlement(ctx.escrow, now) == Ok::<Settlement, EscrowError>(Settlement::Release),
        ctx.phase is Idle && consistent(ctx) ==> step(
            ctx,
            Event::Trigger { now },
            Some(authorizer),
        ).1 == Ok::<Action, EscrowError>(
            Action::Transfer(
                Transfer {
                    from: ctx.vault.address,
                    to: ctx.keeper_ata_a.address,
                    mint: ctx.mint_a.address,
                    amount: ctx.escrow.deposit,
                    decimals: ctx.mint_a.decimals,
                    authorizer,
                },
            ),
        ),
{
}

/// An unconfirmed record that is not yet executed cannot be executed up to its
/// deadline: the trigger fails with `NotReady`, and nothing changes.
pub proof fn unconfirmed_waits_for_deadline(
    ctx: CheckAndExecute,
    now: i64,
    authority: Option<Identity>,
)
    requires
        !ctx.escrow.buyer_confirmed,
        !ctx.escrow.executed,
        now <= ctx.escrow.deadline,
    ensures
        step(ctx, Event::Trigger { now }, authority) == (
            ctx,
            Err::<Action, EscrowError>(EscrowError::NotReady),
        ),
{
}

/// Nobody but the maker can confirm: for any other caller the confirmation
/// fails with `Unauthorized`, executed or not.
pub proof fn stranger_cannot_confirm(caller: Identity, record: Escrow)
    requires
        caller != record.maker,
    ensures
        confirmed(caller, record) == Err::<Escrow, EscrowError>(EscrowError::Unauthorized),
{
}

/// A confirmation changes nothing but the confirmation, which it sets; and
/// confirming a second time changes nothing at all.
pub proof fn confirmation_is_idempotent(record: Escrow, once: Escrow)
    requires
        confirmed(record.maker, record) == Ok::<Escrow, EscrowError>(once),
    ensures
        once == (Escrow { buyer_confirmed: true, ..record }),
        confirmed(once.maker, once) == Ok::<Escrow, EscrowError>(once),
{
}

/// A confirmation is possible as long as the record is not executed, whatever
/// the time, and a record confirmed after its deadline is released, not
/// refunded.
pub proof fn late_confirmation_overrides(record: Escrow, once: Escrow, now: i64)
    requires
        confirmed(record.maker, record) == Ok::<Escrow, EscrowError>(once),
    ensures
        settlement(once, now) == Ok::<Settlement, EscrowError>(Settlement::Release),
{
}

/// Conservation. While a record is not executed the custody account holds the
/// deposit. The transfer that an execution asks for moves exactly the deposit
/// out of custody, to the keeper's or the maker's holding account: afterwards
/// custody holds nothing, the destination holds the deposit more, and every
/// other balance is as it was. This is stated for a destination other than the
/// custody account itself.
pub proof fn conservation(
    ctx: CheckAndExecute,
    now: i64,
    authority: Option<Identity>,
    t: Transfer,
    balances: Map<Identity, int>,
)
    requires
        step(ctx, Event::Trigger { now }, authority).1 == Ok::<Action, EscrowError>(
            Action::Transfer(t),
        ),
        balances[ctx.vault.address] == ctx.escrow.deposit,
        t.to != ctx.vault.address,
    ensures
        t.amount == ctx.escrow.deposit,
        t.from == ctx.vault.address,
        t.to == ctx.keeper_ata_a.address || t.to == ctx.maker_ata_a.address,
        ctx.escrow.buyer_confirmed ==> t.to == ctx.keeper_ata_a.address,
        !ctx.escrow.buyer_confirmed ==> t.to == ctx.maker_ata_a.address,
        after_transfer(balances, t)[ctx.vault.address] == 0,
        after_transfer(balances, t)[t.to] == balances[t.to] + ctx.escrow.deposit,
        forall|other: Identity|
            other != t.to && other != ctx.vault.address ==> #[trigger] after_transfer(
                balances,
                t,
            )[other] == balances[other],
{
}

} // verus!
