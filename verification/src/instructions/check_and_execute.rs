//! Executing an escrow: release to the beneficiary or refund to the maker.
//!
//! Anyone may trigger an execution. The funds are moved and the custody account
//! is retired by an asset transfer service outside this library, so an
//! execution is a short conversation: the library answers each event with the
//! next request to the service, and marks the record executed when the service
//! has done both.

use crate::authority::{authority_of, derived_authority, resolved};
use crate::errors::EscrowError;
use crate::state::{Escrow, Identity};
use vstd::prelude::*;

verus! {

/// A holding account of the asset transfer service, as far as an execution
/// reads it.
#[derive(Clone, Copy, Debug, PartialEq, Eq)]
pub struct TokenAccount {
    /// Where the account lives.
    pub address: Identity,
    /// The asset type it holds.
    pub mint: Identity,
    /// Who may move its funds.
    pub owner: Identity,
}

/// The descriptor of an asset type.
#[derive(Clone, Copy, Debug, PartialEq, Eq)]
pub struct Mint {
    /// Where the descriptor lives: the asset's identity.
    pub address: Identity,
    /// The number of decimals of the asset's amounts.
    pub decimals: u8,
}

/// How far a running execution has come.
#[derive(Clone, Copy, Debug, PartialEq, Eq)]
pub enum Phase {
    /// No execution is running.
    Idle,
    /// The service was asked to move the funds, under this authorizer.
    Transferring { authorizer: Identity },
    /// The funds were moved, and the service was asked to retire the custody
    /// account, under the same authorizer.
    Retiring { authorizer: Identity },
}

/// What an execution works on: the record, and the accounts that accompany the
/// invocation.
#[derive(Clone, Copy, Debug, PartialEq, Eq)]
pub struct CheckAndExecute {
    /// The program under which the record's authority is derived.
    pub program_id: Identity,
    /// Whoever triggered the execution. A release goes to the keeper's holding
    /// account.
    pub keeper: Identity,
    /// The party named as maker by the invocation.
    pub maker: Identity,
    /// The record.
    pub escrow: Escrow,
    /// The maker's holding account: where a refund goes.
    pub maker_ata_a: TokenAccount,
    /// The keeper's holding account: where a release goes.
    pub keeper_ata_a: TokenAccount,
    /// The custody account.
    pub vault: TokenAccount,
    /// The descriptor of the asset in custody.
    pub mint_a: Mint,
    /// How far the running execution has come.
    pub phase: Phase,
}

/// Where the funds of an execution go.
#[derive(Clone, Copy, Debug, PartialEq, Eq, Structural)]
pub enum Settlement {
    /// To the beneficiary.
    Release,
    /// Back to the maker.
    Refund,
}

/// A request to the service: move `amount` units of `mint` from one account to
/// another.
#[derive(Clone, Copy, Debug, PartialEq, Eq)]
pub struct Transfer {
    /// The account that the funds leave.
    pub from: Identity,
    /// The account that receives them.
    pub to: Identity,
    /// The asset type of both accounts.
    pub mint: Identity,
    /// How many units move.
    pub amount: u64,
    /// The decimals of the asset, which the service holds against its own.
    pub decimals: u8,
    /// The party under whose authority the funds move.
    pub authorizer: Identity,
}

/// A request to the service: retire an account, and hand what is left of its
/// reserve to `residual_destination`.
#[derive(Clone, Copy, Debug, PartialEq, Eq)]
pub struct Retire {
    /// The account to retire.
    pub account: Identity,
    /// Who receives what is left of the account's reserve.
    pub residual_destination: Identity,
    /// The party under whose authority the account is retired.
    pub authorizer: Identity,
}

/// What happened, as far as an execution is concerned.
#[derive(Clone, Copy, Debug, PartialEq, Eq, Structural)]
pub enum Event {
    /// Someone triggered the execution at time `now`.
    Trigger { now: i64 },
    /// The service moved the funds.
    Transferred,
    /// The service retired the custody account.
    Retired,
    /// The service rejected the pending request.
    Rejected,
}

/// What an execution asks for next.
#[derive(Clone, Copy, Debug, PartialEq, Eq)]
pub enum Action {
    /// Ask the service to move the funds.
    Transfer(Transfer),
    /// Ask the service to retire the custody account.
    Retire(Retire),
    /// Nothing: the record is executed.
    Done,
}

/// Where the funds of a record go at time `now`. A confirmed record is released
/// at any time; an unconfirmed one is refunded once the deadline has passed.
pub open spec fn settlement(record: Escrow, now: i64) -> Result<Settlement, EscrowError> {
    if record.executed {
        Err(EscrowError::AlreadyExecuted)
    } else if record.buyer_confirmed {
        Ok(Settlement::Release)
    } else if now > record.deadline {
        Ok(Settlement::Refund)
    } else {
        Err(EscrowError::NotReady)
    }
}

/// Whether the accompanying accounts agree with the record: the maker is the
/// stored maker, the asset is the stored asset, all three holding accounts hold
/// that asset, and the two destinations belong to the maker and the keeper.
/// Who owns the custody account is for the service to hold against the
/// authorizer.
pub open spec fn consistent(ctx: CheckAndExecute) -> bool {
    &&& ctx.maker == ctx.escrow.maker
    &&& ctx.mint_a.address == ctx.escrow.mint_a
    &&& ctx.vault.mint == ctx.mint_a.address
    &&& ctx.maker_ata_a.mint == ctx.mint_a.address
    &&& ctx.maker_ata_a.owner == ctx.maker
    &&& ctx.keeper_ata_a.mint == ctx.mint_a.address
    &&& ctx.keeper_ata_a.owner == ctx.keeper
}

/// The account that receives the funds.
pub open spec fn destination(ctx: CheckAndExecute, to: Settlement) -> Identity {
    match to {
        Settlement::Release => ctx.keeper_ata_a.address,
        Settlement::Refund => ctx.maker_ata_a.address,
    }
}

/// The transfer that settles the record: the whole deposit leaves custody.
pub open spec fn transfer_of(ctx: CheckAndExecute, to: Settlement, authorizer: Identity) -> Transfer {
    Transfer {
        from: ctx.vault.address,
        to: destination(ctx, to),
        mint: ctx.mint_a.address,
        amount: ctx.escrow.deposit,
        decimals: ctx.mint_a.decimals,
        authorizer,
    }
}

/// The retirement of the custody account: its reserve goes to the maker.
pub open spec fn retire_of(ctx: CheckAndExecute, authorizer: Identity) -> Retire {
    Retire { account: ctx.vault.address, residual_destination: ctx.maker, authorizer }
}

/// How an execution begins at time `now`, with the authority that the record
/// yields.
pub open spec fn triggered(ctx: CheckAndExecute, now: i64, authority: Option<Identity>) -> (
    CheckAndExecute,
    Result<Action, EscrowError>,
) {
    match settlement(ctx.escrow, now) {
        Err(e) => (ctx, Err(e)),
        Ok(to) => if !(ctx.phase is Idle) {
            (ctx, Err(EscrowError::OutOfOrder))
        } else if !consistent(ctx) {
            (ctx, Err(EscrowError::InvalidAccounts))
        } else {
            match authority {
                None => (ctx, Err(EscrowError::ServiceFailure)),
                Some(authorizer) => (
                    CheckAndExecute { phase: Phase::Transferring { authorizer }, ..ctx },
                    Ok(Action::Transfer(transfer_of(ctx, to, authorizer))),
                ),
            }
        },
    }
}

/// The state after an event, and the answer to it. The funds are moved before
/// the custody account is retired, both under one authorizer; the record is
/// marked executed when both are done, and changes in no other way.
pub open spec fn step(ctx: CheckAndExecute, event: Event, authority: Option<Identity>) -> (
    CheckAndExecute,
    Result<Action, EscrowError>,
) {
    match event {
        Event::Trigger { now } => triggered(ctx, now, authority),
        Event::Transferred => match ctx.phase {
            Phase::Transferring { authorizer } => (
                CheckAndExecute { phase: Phase::Retiring { authorizer }, ..ctx },
                Ok(Action::Retire(retire_of(ctx, authorizer))),
            ),
            _ => (ctx, Err(EscrowError::OutOfOrder)),
        },
        Event::Retired => match ctx.phase {
            Phase::Retiring { .. } => (
                CheckAndExecute {
                    phase: Phase::Idle,
                    escrow: Escrow { executed: true, ..ctx.escrow },
                    ..ctx
                },
                Ok(Action::Done),
            ),
            _ => (ctx, Err(EscrowError::OutOfOrder)),
        },
        Event::Rejected => match ctx.phase {
            Phase::Idle => (ctx, Err(EscrowError::OutOfOrder)),
            _ => (CheckAndExecute { phase: Phase::Idle, ..ctx }, Err(EscrowError::ServiceFailure)),
        },
    }
}

/// Where the funds of a record go at time `now`, or why it cannot be executed
/// now.
pub fn settlement_at(record: &Escrow, now: i64) -> (to: Result<Settlement, EscrowError>)
    ensures
        to == settlement(*record, now),
{
    if record.executed {
        Err(EscrowError::AlreadyExecuted)
    } else if record.buyer_confirmed {
        Ok(Settlement::Release)
    } else if now > record.deadline {
        Ok(Settlement::Refund)
    } else {
        Err(EscrowError::NotReady)
    }
}

impl CheckAndExecute {
    /// Whether the accompanying accounts agree with the record.
    pub fn is_consistent(&self) -> (yes: bool)
        ensures
            yes == consistent(*self),
    {
        let maker = self.maker == self.escrow.maker;
        let asset = self.mint_a.address == self.escrow.mint_a;
        let custody = self.vault.mint == self.mint_a.address;
        let refund = self.maker_ata_a.mint == self.mint_a.address && self.maker_ata_a.owner
            == self.maker;
        let release = self.keeper_ata_a.mint == self.mint_a.address && self.keeper_ata_a.owner
            == self.keeper;
        maker && asset && custody && refund && release
    }
}

/// Begins an execution at time `now`.
fn trigger(ctx: &mut CheckAndExecute, now: i64, authority: Option<Identity>) -> (answer: Result<
    Action,
    EscrowError,
>)
    ensures
        (*final(ctx), answer) == triggered(*old(ctx), now, authority),
{
    let to = match settlement_at(&ctx.escrow, now) {
        Ok(to) => to,
        Err(e) => {
            return Err(e);
        },
    };
    match ctx.phase {
        Phase::Idle => {},
        _ => {
            return Err(EscrowError::OutOfOrder);
        },
    }
    if !ctx.is_consistent() {
        return Err(EscrowError::InvalidAccounts);
    }
    let authorizer = match authority {
        Some(authorizer) => authorizer,
        None => {
            return Err(EscrowError::ServiceFailure);
        },
    };
    let destination = match to {
        Settlement::Release => ctx.keeper_ata_a.address,
        Settlement::Refund => ctx.maker_ata_a.address,
    };
    let transfer = Transfer {
        from: ctx.vault.address,
        to: destination,
        mint: ctx.mint_a.address,
        amount: ctx.escrow.deposit,
        decimals: ctx.mint_a.decimals,
        authorizer,
    };
    ctx.phase = Phase::Transferring { authorizer };
    Ok(Action::Transfer(transfer))
}

/// Answers one event of an execution, given the authority that the record
/// yields: the state moves as `step` says, and the answer is the next request
/// to the service, `Done`, or the reason for the failure.
pub fn advance(ctx: &mut CheckAndExecute, event: Event, authority: Option<Identity>) -> (answer:
    Result<Action, EscrowError>)
    ensures
        (*final(ctx), answer) == step(*old(ctx), event, authority),
{
    match event {
        Event::Trigger { now } => trigger(ctx, now, authority),
        Event::Transferred => match ctx.phase {
            Phase::Transferring { authorizer } => {
                let retire = Retire {
                    account: ctx.vault.address,
                    residual_destination: ctx.maker,
                    authorizer,
                };
                ctx.phase = Phase::Retiring { authorizer };
                Ok(Action::Retire(retire))
            },
            _ => Err(EscrowError::OutOfOrder),
        },
        Event::Retired => match ctx.phase {
            Phase::Retiring { .. } => {
                ctx.phase = Phase::Idle;
                ctx.escrow.executed = true;
                Ok(Action::Done)
            },
            _ => Err(EscrowError::OutOfOrder),
        },
        Event::Rejected => match ctx.phase {
            Phase::Idle => Err(EscrowError::OutOfOrder),
            _ => {
                ctx.phase = Phase::Idle;
                Err(EscrowError::ServiceFailure)
            },
        },
    }
}

/// Answers one event of an execution. The authorizer of both requests is the
/// authority derived from the stored maker, nonce and bump.
pub fn handler(ctx: &mut CheckAndExecute, event: Event) -> (answer: Result<Action, EscrowError>)
    ensures
        (*final(ctx), answer) == step(
            *old(ctx),
            event,
            resolved(authority_of(old(ctx).program_id, old(ctx).escrow)),
        ),
{
    let authority = match event {
        Event::Trigger { .. } => derived_authority(&ctx.program_id, &ctx.escrow),
        _ => None,
    };
    advance(ctx, event, authority)
}

} // verus!
