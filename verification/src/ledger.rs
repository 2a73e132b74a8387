//! The vault as a whole: its configuration with all its positions, and what
//! a sequence of requests makes of them. This is the model that the
//! vault's invariants are stated over; nothing here runs.

use vstd::prelude::*;
use crate::claim::{claim_effect, claim_rejection, claim_share, Claim};
use crate::deposit::{deposit_effect, deposit_rejection, position_after_deposit, Deposit};
use crate::migrate::{migrate_effect, migrate_rejection, Migrate};
use crate::pubkey::Pubkey;
use crate::share::{lemma_shares_add_up, pro_rata_share};
use crate::state::{MigrationStatus, SentinelConfig, UserVault};
use crate::withdraw::{withdraw_effect, withdraw_rejection, Withdraw};

verus! {

/// The vault as a whole, as no single operation sees it: the configuration
/// and every position, in the order in which they were opened.
pub struct Ledger {
    pub config: SentinelConfig,
    pub positions: Seq<UserVault>,
}

/// One request made of the vault. `slot` says which position the request
/// is made on; a deposit that names the slot after the last opens a position.
#[allow(inconsistent_fields)]
pub enum Request {
    Deposit { slot: int, ctx: Deposit, amount: u64, now: i64 },
    Withdraw { slot: int, ctx: Withdraw, amount: u64 },
    Migrate {
        ctx: Migrate,
        new_token_mint: Pubkey,
        min_new_tokens_out: u64,
        new_token_balance_after: u64,
        now: i64,
    },
    Claim { slot: int, ctx: Claim },
}

/// What all the positions hold together.
pub open spec fn pooled(positions: Seq<UserVault>) -> nat
    decreases positions.len(),
{
    if positions.len() == 0 {
        0
    } else {
        pooled(positions.drop_last()) + positions.last().old_token_deposited as nat
    }
}

/// What has been paid to the positions that are marked as paid, at the
/// shares that `total_received` and `total_deposited` give.
pub open spec fn settled(positions: Seq<UserVault>, total_received: nat, total_deposited: nat) -> nat
    decreases positions.len(),
{
    if positions.len() == 0 {
        0
    } else {
        settled(positions.drop_last(), total_received, total_deposited) + if positions.last().has_claimed {
            pro_rata_share(
                positions.last().old_token_deposited as nat,
                total_received,
                total_deposited,
            )
        } else {
            0
        }
    }
}

impl Ledger {
    /// The running total is what the positions hold together.
    pub open spec fn balanced(self) -> bool {
        self.config.total_old_deposited == pooled(self.positions)
    }

    /// What the vault has paid out so far.
    pub open spec fn paid_out(self) -> nat {
        settled(
            self.positions,
            self.config.total_new_received as nat,
            self.config.total_old_deposited as nat,
        )
    }

    /// What holds of a vault however it got where it is: the running total
    /// is what the positions hold, nobody is paid before the migration, and
    /// a migration has only ever run on a pool that held something.
    pub open spec fn sound(self) -> bool {
        &&& self.balanced()
        &&& self.config.migration_status == MigrationStatus::NotStarted ==> forall|i: int|
            0 <= i < self.positions.len() ==> !(#[trigger] self.positions[i]).has_claimed
        &&& self.config.migration_status == MigrationStatus::Completed
            ==> self.config.total_old_deposited > 0
    }

    /// The request shows the vault's own records: its configuration and, for
    /// a request on a position, the position in that slot.
    pub open spec fn shown_by(self, request: Request) -> bool {
        match request {
            Request::Deposit { slot, ctx, .. } => {
                &&& ctx.sentinel_config == self.config
                &&& if slot == self.positions.len() {
                    ctx.user_vault is None
                } else {
                    0 <= slot < self.positions.len() && ctx.user_vault == Some(self.positions[slot])
                }
            },
            Request::Withdraw { slot, ctx, .. } => {
                &&& ctx.sentinel_config == self.config
                &&& 0 <= slot < self.positions.len()
                &&& ctx.user_vault == self.positions[slot]
            },
            Request::Migrate { ctx, .. } => ctx.sentinel_config == self.config,
            Request::Claim { slot, ctx } => {
                &&& ctx.sentinel_config == self.config
                &&& 0 <= slot < self.positions.len()
                &&& ctx.user_vault == self.positions[slot]
            },
        }
    }

    /// The request shows the vault's own records and the operation does not
    /// reject it.
    pub open spec fn commits(self, request: Request) -> bool {
        &&& self.shown_by(request)
        &&& match request {
            Request::Deposit { ctx, amount, .. } => deposit_rejection(ctx, amount) is None,
            Request::Withdraw { ctx, amount, .. } => withdraw_rejection(ctx, amount) is None,
            Request::Migrate { ctx, min_new_tokens_out, new_token_balance_after, .. } =>
                migrate_rejection(ctx, min_new_tokens_out, new_token_balance_after) is None,
            Request::Claim { ctx, .. } => claim_rejection(ctx) is None,
        }
    }

    /// The vault after a request: as the operation leaves the records where
    /// the request commits, unchanged where it does not.
    pub open spec fn step(self, request: Request) -> Ledger {
        if !self.commits(request) {
            self
        } else {
            match request {
                Request::Deposit { slot, ctx, amount, now } => Ledger {
                    config: deposit_effect(ctx, amount, now).sentinel_config,
                    positions: if slot == self.positions.len() {
                        self.positions.push(position_after_deposit(ctx, amount, now))
                    } else {
                        self.positions.update(slot, position_after_deposit(ctx, amount, now))
                    },
                },
                Request::Withdraw { slot, ctx, amount } => Ledger {
                    config: withdraw_effect(ctx, amount).sentinel_config,
                    positions: self.positions.update(slot, withdraw_effect(ctx, amount).user_vault),
                },
                Request::Migrate { ctx, new_token_mint, new_token_balance_after, now, .. } => Ledger {
                    config: migrate_effect(
                        ctx,
                        new_token_mint,
                        new_token_balance_after,
                        now,
                    ).sentinel_config,
                    positions: self.positions,
                },
                Request::Claim { slot, ctx } => Ledger {
                    config: self.config,
                    positions: self.positions.update(slot, claim_effect(ctx).user_vault),
                },
            }
        }
    }

    /// What the request makes the vault pay out of the converted asset: the
    /// share, for a claim that commits, and nothing otherwise.
    pub open spec fn payout(self, request: Request) -> nat {
        match request {
            Request::Claim { ctx, .. } => if self.commits(request) {
                claim_share(ctx)
            } else {
                0
            },
            _ => 0,
        }
    }

    /// The vault after a sequence of requests, made one after the other.
    pub open spec fn run(self, requests: Seq<Request>) -> Ledger
        decreases requests.len(),
    {
        if requests.len() == 0 {
            self
        } else {
            self.run(requests.drop_last()).step(requests.last())
        }
    }

    /// What a sequence of requests makes the vault pay out of the converted
    /// asset, all claims together.
    pub open spec fn total_payout(self, requests: Seq<Request>) -> nat
        decreases requests.len(),
    {
        if requests.len() == 0 {
            0
        } else {
            self.total_payout(requests.drop_last()) + self.run(requests.drop_last()).payout(
                requests.last(),
            )
        }
    }

    /// How many migrations a sequence of requests commits.
    pub open spec fn migrations(self, requests: Seq<Request>) -> nat
        decreases requests.len(),
    {
        if requests.len() == 0 {
            0
        } else {
            self.migrations(requests.drop_last()) + if requests.last() is Migrate && self.run(
                requests.drop_last(),
            ).commits(requests.last()) {
                1nat
            } else {
                0nat
            }
        }
    }

    /// What a sequence of requests makes the vault pay to the position in
    /// `slot`.
    pub open spec fn paid_to(self, requests: Seq<Request>, slot: int) -> nat
        decreases requests.len(),
    {
        if requests.len() == 0 {
            0
        } else {
            self.paid_to(requests.drop_last(), slot) + if requests.last() matches Request::Claim {
                slot: claimed,
                ..
            } && claimed == slot {
                self.run(requests.drop_last()).payout(requests.last())
            } else {
                0
            }
        }
    }

    /// How many claims on the position in `slot` a sequence of requests
    /// commits.
    pub open spec fn claims_on(self, requests: Seq<Request>, slot: int) -> nat
        decreases requests.len(),
    {
        if requests.len() == 0 {
            0
        } else {
            self.claims_on(requests.drop_last(), slot) + if requests.last() matches Request::Claim {
                slot: claimed,
                ..
            } && claimed == slot && self.run(requests.drop_last()).commits(requests.last()) {
                1nat
            } else {
                0nat
            }
        }
    }
}

/// Opening a position adds what it holds to the pool.
pub proof fn lemma_pooled_push(positions: Seq<UserVault>, position: UserVault)
    ensures
        pooled(positions.push(position)) == pooled(positions) + position.old_token_deposited,
{
    assert(positions.push(position).drop_last() =~= positions);
}

/// Replacing a position changes the pool by the difference of what the two
/// hold.
pub proof fn lemma_pooled_update(positions: Seq<UserVault>, slot: int, position: UserVault)
    requires
        0 <= slot < positions.len(),
    ensures
        pooled(positions.update(slot, position)) == pooled(positions)
            - positions[slot].old_token_deposited + position.old_token_deposited,
    decreases positions.len(),
{
    let updated = positions.update(slot, position);
    if slot == positions.len() - 1 {
        assert(updated.drop_last() =~= positions.drop_last());
    } else {
        lemma_pooled_update(positions.drop_last(), slot, position);
        assert(updated.drop_last() =~= positions.drop_last().update(slot, position));
    }
}

/// No position holds more than the pool.
pub proof fn lemma_position_within_pool(positions: Seq<UserVault>, slot: int)
    requires
        0 <= slot < positions.len(),
    ensures
        positions[slot].old_token_deposited <= pooled(positions),
    decreases positions.len(),
{
    if slot < positions.len() - 1 {
        lemma_position_within_pool(positions.drop_last(), slot);
    }
}

/// What has been paid to the positions is no more than the share of all
/// they hold together: rounding down only ever leaves something in the vault.
pub proof fn lemma_settled_within_share_of_pool(
    positions: Seq<UserVault>,
    total_received: nat,
    total_deposited: nat,
)
    requires
        total_deposited > 0,
    ensures
        settled(positions, total_received, total_deposited) <= pro_rata_share(
            pooled(positions),
            total_received,
            total_deposited,
        ),
    decreases positions.len(),
{
    if positions.len() == 0 {
        assert(pro_rata_share(0, total_received, total_deposited) >= 0);
    } else {
        let rest = positions.drop_last();
        let last = positions.last().old_token_deposited as nat;
        lemma_settled_within_share_of_pool(rest, total_received, total_deposited);
        lemma_shares_add_up(pooled(rest), last, total_received, total_deposited);
    }
}

/// Where nobody is marked as paid, nothing has been paid.
pub proof fn lemma_settled_none(positions: Seq<UserVault>, total_received: nat, total_deposited: nat)
    requires
        forall|i: int| 0 <= i < positions.len() ==> !(#[trigger] positions[i]).has_claimed,
    ensures
        settled(positions, total_received, total_deposited) == 0,
    decreases positions.len(),
{
    if positions.len() > 0 {
        let rest = positions.drop_last();
        assert forall|i: int| 0 <= i < rest.len() implies !(#[trigger] rest[i]).has_claimed by {
            assert(rest[i] == positions[i]);
        }
        lemma_settled_none(rest, total_received, total_deposited);
    }
}

/// Marking one unpaid position as paid raises what has been paid by that
/// position's share.
pub proof fn lemma_settled_mark(
    positions: Seq<UserVault>,
    slot: int,
    total_received: nat,
    total_deposited: nat,
)
    requires
        0 <= slot < positions.len(),
        !positions[slot].has_claimed,
    ensures
        settled(
            positions.update(slot, UserVault { has_claimed: true, ..positions[slot] }),
            total_received,
            total_deposited,
        ) == settled(positions, total_received, total_deposited) + pro_rata_share(
            positions[slot].old_token_deposited as nat,
            total_received,
            total_deposited,
        ),
    decreases positions.len(),
{
    let marked = UserVault { has_claimed: true, ..positions[slot] };
    let updated = positions.update(slot, marked);
    if slot == positions.len() - 1 {
        assert(updated.drop_last() =~= positions.drop_last());
    } else {
        lemma_settled_mark(positions.drop_last(), slot, total_received, total_deposited);
        assert(updated.drop_last() =~= positions.drop_last().update(
            slot,
            UserVault { has_claimed: true, ..positions.drop_last()[slot] },
        ));
    }
}

} // verus!
