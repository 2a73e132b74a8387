//! What holds of the vault over any sequence of requests: the running total
//! follows the positions, the migration runs once, no position is paid twice,
//! the administrator is never paid, and the vault never pays out more than
//! the conversion returned.

use vstd::prelude::*;
use crate::claim::{claim_effect, claim_rejection, claim_share, Claim};
use crate::deposit::position_after_deposit;
use crate::error::SentinelError;
use crate::initialize::initial_config;
use crate::ledger::{
    lemma_pooled_push, lemma_pooled_update, lemma_position_within_pool, lemma_settled_mark,
    lemma_settled_none, lemma_settled_within_share_of_pool, Ledger, Request,
};
use crate::migrate::{migrate_effect, migrate_rejection, Migrate};
use crate::pubkey::Pubkey;
use crate::share::{lemma_share_within_received, pro_rata_share};
use crate::state::{MigrationStatus, UserVault};
use crate::withdraw::withdraw_effect;

verus! {

/// A vault that has just been set up, with no position opened yet, is sound.
pub proof fn lemma_new_vault_is_sound(
    authority: Pubkey,
    old_token_mint: Pubkey,
    dex_program_id: Pubkey,
    bump: u8,
)
    ensures
        (Ledger {
            config: initial_config(authority, old_token_mint, dex_program_id, bump),
            positions: Seq::empty(),
        }).sound(),
{
}

/// Every request leaves the running total equal to what the positions hold
/// together.
pub proof fn lemma_step_keeps_balance(ledger: Ledger, request: Request)
    requires
        ledger.balanced(),
    ensures
        ledger.step(request).balanced(),
{
    if ledger.commits(request) {
        match request {
            Request::Deposit { slot, ctx, amount, now } => {
                let opened = position_after_deposit(ctx, amount, now);
                if slot == ledger.positions.len() {
                    lemma_pooled_push(ledger.positions, opened);
                } else {
                    lemma_pooled_update(ledger.positions, slot, opened);
                }
            },
            Request::Withdraw { slot, ctx, amount } => {
                lemma_pooled_update(ledger.positions, slot, withdraw_effect(ctx, amount).user_vault);
            },
            Request::Migrate { .. } => {},
            Request::Claim { slot, ctx } => {
                lemma_pooled_update(ledger.positions, slot, claim_effect(ctx).user_vault);
            },
        }
    }
}

/// Over any sequence of deposits, withdrawals, migrations and claims, the
/// running total stays equal to the sum of what the positions hold.
pub proof fn lemma_run_keeps_balance(ledger: Ledger, requests: Seq<Request>)
    requires
        ledger.balanced(),
    ensures
        ledger.run(requests).balanced(),
    decreases requests.len(),
{
    if requests.len() > 0 {
        lemma_run_keeps_balance(ledger, requests.drop_last());
        lemma_step_keeps_balance(ledger.run(requests.drop_last()), requests.last());
    }
}

/// The status moves only through a migration that commits, and only from
/// not started to completed.
pub proof fn lemma_status_moves_only_by_migration(ledger: Ledger, request: Request)
    ensures
        ledger.step(request).config.migration_status != ledger.config.migration_status ==> {
            &&& request is Migrate
            &&& ledger.commits(request)
            &&& ledger.config.migration_status == MigrationStatus::NotStarted
            &&& ledger.step(request).config.migration_status == MigrationStatus::Completed
        },
{
}

/// Once the migration has run, no request changes the configuration: the
/// status never goes back, and what was received stays fixed.
pub proof fn lemma_step_keeps_completed_config(ledger: Ledger, request: Request)
    requires
        ledger.config.migration_status == MigrationStatus::Completed,
    ensures
        ledger.step(request).config == ledger.config,
        request is Migrate ==> !ledger.commits(request),
{
}

/// Over any sequence of requests at most one migration is committed, and
/// none once the vault is completed; a vault in which one was committed is
/// completed, and a completed vault keeps its configuration for good.
pub proof fn lemma_at_most_one_migration(ledger: Ledger, requests: Seq<Request>)
    ensures
        ledger.migrations(requests) <= 1,
        ledger.migrations(requests) == 1 ==> ledger.run(requests).config.migration_status
            == MigrationStatus::Completed,
        ledger.config.migration_status == MigrationStatus::Completed ==> {
            &&& ledger.migrations(requests) == 0
            &&& ledger.run(requests).config == ledger.config
        },
    decreases requests.len(),
{
    if requests.len() > 0 {
        let before = ledger.run(requests.drop_last());
        lemma_at_most_one_migration(ledger, requests.drop_last());
        if before.config.migration_status == MigrationStatus::Completed {
            lemma_step_keeps_completed_config(before, requests.last());
        }
    }
}

/// A migration that is asked for once one has been committed is rejected, whatever
/// it offers: as `MigrationAlreadyCompleted` where the administrator asks
/// again, as `Unauthorized` where anybody else does.
pub proof fn lemma_second_migration_is_rejected(
    first: Migrate,
    new_token_mint: Pubkey,
    min_new_tokens_out: u64,
    new_token_balance_after: u64,
    now: i64,
    second: Migrate,
    second_min_new_tokens_out: u64,
    second_new_token_balance_after: u64,
)
    requires
        migrate_rejection(first, min_new_tokens_out, new_token_balance_after) is None,
        second.sentinel_config == migrate_effect(
            first,
            new_token_mint,
            new_token_balance_after,
            now,
        ).sentinel_config,
    ensures
        migrate_rejection(second, second_min_new_tokens_out, second_new_token_balance_after) == Some(
            if second.authority == first.authority {
                SentinelError::MigrationAlreadyCompleted
            } else {
                SentinelError::Unauthorized
            },
        ),
{
}

/// A position that is marked as paid stays so through every request, and no
/// claim on it commits.
pub proof fn lemma_step_keeps_claimed(ledger: Ledger, request: Request, slot: int)
    requires
        0 <= slot < ledger.positions.len(),
        ledger.positions[slot].has_claimed,
    ensures
        slot < ledger.step(request).positions.len(),
        ledger.step(request).positions[slot].has_claimed,
        request matches Request::Claim { slot: claimed, .. } && claimed == slot ==> !ledger.commits(
            request,
        ),
{
}

/// A claim that commits marks its position as paid.
pub proof fn lemma_committed_claim_marks(ledger: Ledger, request: Request)
    requires
        request is Claim,
        ledger.commits(request),
    ensures
        0 <= request->Claim_slot < ledger.step(request).positions.len(),
        ledger.step(request).positions[request->Claim_slot].has_claimed,
{
}

/// Over any sequence of requests at most one claim is committed on any one
/// position, and none on a position that is already marked as paid.
pub proof fn lemma_at_most_one_claim(ledger: Ledger, requests: Seq<Request>, slot: int)
    ensures
        ledger.claims_on(requests, slot) <= 1,
        ledger.claims_on(requests, slot) == 1 ==> {
            &&& 0 <= slot < ledger.run(requests).positions.len()
            &&& ledger.run(requests).positions[slot].has_claimed
        },
        0 <= slot < ledger.positions.len() && ledger.positions[slot].has_claimed ==> {
            &&& ledger.claims_on(requests, slot) == 0
            &&& slot < ledger.run(requests).positions.len()
            &&& ledger.run(requests).positions[slot].has_claimed
        },
    decreases requests.len(),
{
    if requests.len() > 0 {
        let before = ledger.run(requests.drop_last());
        let last = requests.last();
        lemma_at_most_one_claim(ledger, requests.drop_last(), slot);
        if 0 <= slot < before.positions.len() && before.positions[slot].has_claimed {
            lemma_step_keeps_claimed(before, last, slot);
        } else if last matches Request::Claim { slot: claimed, .. } && claimed == slot
            && before.commits(last) {
            lemma_committed_claim_marks(before, last);
        }
    }
}

/// A claim on a position that has been paid is rejected as `AlreadyClaimed`,
/// whoever makes it: no position is paid twice.
pub proof fn lemma_second_claim_is_rejected(first: Claim, second: Claim)
    requires
        claim_rejection(first) is None,
        second.user_vault == claim_effect(first).user_vault,
        second.sentinel_config.migration_status == MigrationStatus::Completed,
    ensures
        claim_rejection(second) == Some(SentinelError::AlreadyClaimed),
{
}

/// What a sound vault has paid out is no more than the conversion returned.
pub proof fn lemma_paid_out_within_received(ledger: Ledger)
    requires
        ledger.sound(),
    ensures
        ledger.paid_out() <= ledger.config.total_new_received,
{
    let received = ledger.config.total_new_received as nat;
    let total = ledger.config.total_old_deposited as nat;
    if ledger.config.migration_status == MigrationStatus::NotStarted {
        lemma_settled_none(ledger.positions, received, total);
    } else {
        lemma_settled_within_share_of_pool(ledger.positions, received, total);
        lemma_share_within_received(total, received, total);
    }
}

/// A request leaves a sound vault sound, and raises what the vault has paid
/// out by exactly what the request makes it pay.
pub proof fn lemma_step_keeps_sound(ledger: Ledger, request: Request)
    requires
        ledger.sound(),
    ensures
        ledger.step(request).sound(),
        ledger.step(request).paid_out() == ledger.paid_out() + ledger.payout(request),
{
    let after = ledger.step(request);
    let received = ledger.config.total_new_received as nat;
    let total = ledger.config.total_old_deposited as nat;
    lemma_step_keeps_balance(ledger, request);
    if ledger.commits(request) {
        match request {
            Request::Claim { slot, ctx } => {
                lemma_settled_mark(ledger.positions, slot, received, total);
            },
            _ => {
                assert forall|i: int| 0 <= i < after.positions.len() implies !(
                #[trigger] after.positions[i]).has_claimed by {
                    if i < ledger.positions.len() {
                        assert(!ledger.positions[i].has_claimed);
                    }
                }
                lemma_settled_none(ledger.positions, received, total);
                lemma_settled_none(
                    after.positions,
                    after.config.total_new_received as nat,
                    after.config.total_old_deposited as nat,
                );
            },
        }
    }
}

/// Over any sequence of requests, what the claims pay out, together with
/// what had been paid before, is what the vault has paid out in the end, and
/// that is no more than the conversion returned.
pub proof fn lemma_payout_within_received(ledger: Ledger, requests: Seq<Request>)
    requires
        ledger.sound(),
    ensures
        ledger.run(requests).sound(),
        ledger.paid_out() + ledger.total_payout(requests) == ledger.run(requests).paid_out(),
        ledger.paid_out() + ledger.total_payout(requests)
            <= ledger.run(requests).config.total_new_received,
    decreases requests.len(),
{
    if requests.len() > 0 {
        lemma_payout_within_received(ledger, requests.drop_last());
        lemma_step_keeps_sound(ledger.run(requests.drop_last()), requests.last());
    }
    lemma_paid_out_within_received(ledger.run(requests));
}

/// Once the migration has run, no request changes what a position holds.
pub proof fn lemma_step_keeps_completed_holding(ledger: Ledger, request: Request, slot: int)
    requires
        ledger.config.migration_status == MigrationStatus::Completed,
        0 <= slot < ledger.positions.len(),
    ensures
        slot < ledger.step(request).positions.len(),
        ledger.step(request).positions[slot].old_token_deposited
            == ledger.positions[slot].old_token_deposited,
{
}

/// Over any sequence of requests, a position is paid either nothing or,
/// once, exactly its pro-rata share: what it holds, of what the conversion
/// returned, in proportion to the pool, rounded down.
pub proof fn lemma_position_is_paid_its_share_at_most(
    ledger: Ledger,
    requests: Seq<Request>,
    slot: int,
)
    ensures
        ledger.paid_to(requests, slot) == 0 || {
            let after = ledger.run(requests);
            &&& after.config.migration_status == MigrationStatus::Completed
            &&& 0 <= slot < after.positions.len()
            &&& after.positions[slot].has_claimed
            &&& ledger.paid_to(requests, slot) == pro_rata_share(
                after.positions[slot].old_token_deposited as nat,
                after.config.total_new_received as nat,
                after.config.total_old_deposited as nat,
            )
        },
    decreases requests.len(),
{
    if requests.len() > 0 {
        let before = ledger.run(requests.drop_last());
        let last = requests.last();
        lemma_position_is_paid_its_share_at_most(ledger, requests.drop_last(), slot);
        if ledger.paid_to(requests.drop_last(), slot) != 0 {
            lemma_step_keeps_completed_config(before, last);
            lemma_step_keeps_claimed(before, last, slot);
            lemma_step_keeps_completed_holding(before, last, slot);
        }
    }
}

/// In a sound vault whose migration has run, no position's share exceeds
/// what the conversion returned. So every share fits an amount, and a claim
/// that shows the vault's records is never rejected as `ArithmeticOverflow`.
pub proof fn lemma_share_fits_in_sound_vault(ledger: Ledger, request: Request)
    requires
        ledger.sound(),
        ledger.config.migration_status == MigrationStatus::Completed,
        request is Claim,
        ledger.shown_by(request),
    ensures
        claim_share(request->Claim_ctx) <= ledger.config.total_new_received,
        claim_rejection(request->Claim_ctx) != Some(SentinelError::ArithmeticOverflow),
{
    lemma_position_within_pool(ledger.positions, request->Claim_slot);
    lemma_share_within_received(
        request->Claim_ctx.user_vault.old_token_deposited as nat,
        ledger.config.total_new_received as nat,
        ledger.config.total_old_deposited as nat,
    );
}

/// In a sound vault whose migration has run, what the conversion returned
/// covers what has been paid out and, on top of it, the share of any
/// position that is still unpaid: a vault that holds what it received can
/// pay every depositor.
pub proof fn lemma_unpaid_share_is_covered(ledger: Ledger, slot: int)
    requires
        ledger.sound(),
        ledger.config.migration_status == MigrationStatus::Completed,
        0 <= slot < ledger.positions.len(),
        !ledger.positions[slot].has_claimed,
    ensures
        ledger.paid_out() + pro_rata_share(
            ledger.positions[slot].old_token_deposited as nat,
            ledger.config.total_new_received as nat,
            ledger.config.total_old_deposited as nat,
        ) <= ledger.config.total_new_received,
{
    let marked = UserVault { has_claimed: true, ..ledger.positions[slot] };
    let paid = Ledger { config: ledger.config, positions: ledger.positions.update(slot, marked) };
    lemma_pooled_update(ledger.positions, slot, marked);
    lemma_settled_mark(
        ledger.positions,
        slot,
        ledger.config.total_new_received as nat,
        ledger.config.total_old_deposited as nat,
    );
    lemma_paid_out_within_received(paid);
}

/// No request changes who the administrator is, or whose a position is.
pub proof fn lemma_step_keeps_identities(ledger: Ledger, request: Request, slot: int)
    requires
        0 <= slot < ledger.positions.len(),
    ensures
        ledger.step(request).config.authority == ledger.config.authority,
        slot < ledger.step(request).positions.len(),
        ledger.step(request).positions[slot].user == ledger.positions[slot].user,
{
}

/// Over any sequence of requests, a position that is the administrator's
/// own is never paid: no claim on it commits, whoever makes it.
pub proof fn lemma_administrator_is_never_paid(ledger: Ledger, requests: Seq<Request>, slot: int)
    requires
        0 <= slot < ledger.positions.len(),
        ledger.positions[slot].user == ledger.config.authority,
    ensures
        ledger.claims_on(requests, slot) == 0,
        ledger.paid_to(requests, slot) == 0,
        ledger.run(requests).config.authority == ledger.config.authority,
        slot < ledger.run(requests).positions.len(),
        ledger.run(requests).positions[slot].user == ledger.positions[slot].user,
    decreases requests.len(),
{
    if requests.len() > 0 {
        lemma_administrator_is_never_paid(ledger, requests.drop_last(), slot);
        lemma_step_keeps_identities(ledger.run(requests.drop_last()), requests.last(), slot);
    }
}

} // verus!
