//! The escrow ledger: allowance records, receipt records, the authorization
//! registry, the collaborator-contract registry, and the operations that
//! mutate them.
//!
//! Every operation is a single synchronous state transition.  Operations that
//! want an external collaborator to move an asset append an
//! [`OutboundRequest`](crate::requests::OutboundRequest) to the ledger's
//! journal; the local commit is final the moment the operation returns,
//! whether or not the dispatched request later succeeds.

use vstd::prelude::*;

use crate::requests::{
    CallFailure, MintedToken, OutboundRequest, ReceiptMetadata, StorageBalanceInfo,
};
use crate::text::dec_digits;

verus! {

/// An escrow record: what `owner` has put up for the spender that keys the
/// surrounding [`SpenderAllowances`].
#[derive(Clone, Debug, PartialEq, Eq)]
pub struct BalanceEntry {
    pub owner: String,
    /// Escrowed native-currency amount.
    pub main_amount: u128,
    /// Escrowed fungible-token amount.
    pub ft_amount: u128,
}

/// A receipt record: the receipt minted for `spender` under the owner that
/// keys the surrounding [`OwnerReceipts`], and whether it has been claimed.
#[derive(Clone, Debug, PartialEq, Eq)]
pub struct ReceiptEntry {
    pub spender: String,
    pub token_id: String,
    pub claimed: bool,
}

/// All escrow records held for one spender, in insertion order.
#[derive(Clone, Debug, PartialEq, Eq)]
pub struct SpenderAllowances {
    pub spender: String,
    pub entries: Vec<BalanceEntry>,
}

/// All receipt records minted for one owner, in insertion order.
#[derive(Clone, Debug, PartialEq, Eq)]
pub struct OwnerReceipts {
    pub owner: String,
    pub entries: Vec<ReceiptEntry>,
}

/// Whether the account list holds `k`.
pub open spec fn contains_account(accts: Seq<String>, k: Seq<char>) -> bool {
    exists|i: int| 0 <= i < accts.len() && accts[i]@ == k
}

/// Resolution of an optional collaborator-address override against the first
/// (default) registered address.
pub open spec fn resolve_override(ov: Option<String>, defaults: Seq<String>) -> String {
    match ov {
        Some(a) => a,
        None => defaults[0],
    }
}

fn contains_acct(accts: &Vec<String>, k: &String) -> (r: bool)
    ensures
        r == contains_account(accts@, k@),
{
    let mut i: usize = 0;
    while i < accts.len()
        invariant
            i <= accts.len(),
            forall|j: int| 0 <= j < i ==> accts@[j]@ != k@,
        decreases accts.len() - i,
    {
        if accts[i] == *k {
            return true;
        }
        i += 1;
    }
    false
}

fn clone_accounts(v: &Vec<String>) -> (r: Vec<String>)
    ensures
        r@ == v@,
{
    let mut r: Vec<String> = Vec::new();
    let mut i: usize = 0;
    while i < v.len()
        invariant
            i <= v.len(),
            r@ == v@.subrange(0, i as int),
        decreases v.len() - i,
    {
        r.push(v[i].clone());
        proof {
            assert(r@ =~= v@.subrange(0, i + 1));
        }
        i += 1;
    }
    proof {
        assert(r@ =~= v@);
    }
    r
}

fn find_spender_row(bals: &Vec<SpenderAllowances>, spender: &String) -> (r: Option<usize>)
    ensures
        match r {
            Some(i) => i < bals@.len() && bals@[i as int].spender@ == spender@,
            None => forall|j: int| 0 <= j < bals@.len() ==> bals@[j].spender@ != spender@,
        },
{
    let mut i: usize = 0;
    while i < bals.len()
        invariant
            i <= bals.len(),
            forall|j: int| 0 <= j < i ==> bals@[j].spender@ != spender@,
        decreases bals.len() - i,
    {
        if bals[i].spender == *spender {
            return Some(i);
        }
        i += 1;
    }
    None
}

fn find_owner_row(nfts: &Vec<OwnerReceipts>, owner: &String) -> (r: Option<usize>)
    ensures
        match r {
            Some(k) => k < nfts@.len() && nfts@[k as int].owner@ == owner@,
            None => forall|j: int| 0 <= j < nfts@.len() ==> nfts@[j].owner@ != owner@,
        },
{
    let mut k: usize = 0;
    while k < nfts.len()
        invariant
            k <= nfts.len(),
            forall|j: int| 0 <= j < k ==> nfts@[j].owner@ != owner@,
        decreases nfts.len() - k,
    {
        if nfts[k].owner == *owner {
            return Some(k);
        }
        k += 1;
    }
    None
}

fn find_balance_entry(entries: &Vec<BalanceEntry>, owner: &String) -> (r: Option<usize>)
    ensures
        match r {
            Some(j) => j < entries@.len() && entries@[j as int].owner@ == owner@,
            None => forall|j: int| 0 <= j < entries@.len() ==> entries@[j].owner@ != owner@,
        },
{
    let mut j: usize = 0;
    while j < entries.len()
        invariant
            j <= entries.len(),
            forall|l: int| 0 <= l < j ==> entries@[l].owner@ != owner@,
        decreases entries.len() - j,
    {
        if entries[j].owner == *owner {
            return Some(j);
        }
        j += 1;
    }
    None
}

fn find_receipt_entry(entries: &Vec<ReceiptEntry>, spender: &String) -> (r: Option<usize>)
    ensures
        match r {
            Some(j) => j < entries@.len() && entries@[j as int].spender@ == spender@,
            None => forall|j: int| 0 <= j < entries@.len() ==> entries@[j].spender@ != spender@,
        },
{
    let mut j: usize = 0;
    while j < entries.len()
        invariant
            j <= entries.len(),
            forall|l: int| 0 <= l < j ==> entries@[l].spender@ != spender@,
        decreases entries.len() - j,
    {
        if entries[j].spender == *spender {
            return Some(j);
        }
        j += 1;
    }
    None
}

/// Allowance records survive any growth of the allowance ledger that keeps
/// the existing rows' keys and record owners in place.
proof fn lemma_allowances_grow(pre: L2eTop, post: L2eTop)
    requires
        post.balances@.len() >= pre.balances@.len(),
        forall|i: int|
            0 <= i < pre.balances@.len() ==> (#[trigger] post.balances@[i]).spender@
                == pre.balances@[i].spender@,
        forall|i: int|
            0 <= i < pre.balances@.len() ==> (#[trigger] post.balances@[i]).entries@.len()
                >= pre.balances@[i].entries@.len(),
        forall|i: int, j: int|
            0 <= i < pre.balances@.len() && 0 <= j < pre.balances@[i].entries@.len()
                ==> (#[trigger] post.balances@[i].entries@[j]).owner@
                == pre.balances@[i].entries@[j].owner@,
    ensures
        forall|s: Seq<char>, o: Seq<char>|
            pre.allowance_present(s, o) ==> #[trigger] post.allowance_present(s, o),
{
    assert forall|s: Seq<char>, o: Seq<char>|
        pre.allowance_present(s, o) implies #[trigger] post.allowance_present(s, o) by {
        let (i0, j0) = choose|i0: int, j0: int|
            0 <= i0 < pre.balances@.len() && 0 <= j0 < pre.balances@[i0].entries@.len()
                && pre.balances@[i0].spender@ == s && pre.balances@[i0].entries@[j0].owner@ == o;
        assert(post.balances@[i0].entries@[j0].owner@ == o);
    }
}

/// The metadata a mint request carries when the approving owner supplies
/// none.
pub open spec fn is_default_receipt_metadata(m: ReceiptMetadata) -> bool {
    &&& m.title matches Some(t) && t@ == "L2E.TOP Chain Near Network"@
    &&& m.description matches Some(d) && d@
        == "Near Network and L2E.TOP Joint Certification Reward."@
    &&& m.copies == Some(1u64)
}

/// The mint request journalled by an accepted approval: addressed to the
/// resolved registry, carrying the fresh receipt identifier, with the
/// caller's metadata or the default.
pub open spec fn spec_mint_request(
    rq: OutboundRequest,
    registry: String,
    tid: Seq<char>,
    metadata: Option<ReceiptMetadata>,
) -> bool {
    rq matches OutboundRequest::NftMint { registry: rg, token_id: t, metadata: md } && rg
        == registry && t@ == tid && (match metadata {
        Some(m) => md == m,
        None => is_default_receipt_metadata(md),
    })
}

/// How an accepted approval changes the ledger: the allowance record is
/// created under the spender's collection (the collection itself is created
/// if absent, in which case a storage-registration check for the spender is
/// journalled first), the receipt counter advances by one, an unclaimed
/// receipt record carrying the fresh identifier is appended under the owner's
/// collection, and a mint request for that identifier is journalled last.
pub open spec fn spec_approve_effect(
    pre: L2eTop,
    post: L2eTop,
    owner: String,
    spender: String,
    main: u128,
    ft: u128,
    metadata: Option<ReceiptMetadata>,
    e20: Option<String>,
    e721: Option<String>,
) -> bool {
    let tid = dec_digits((pre.token_id_num + 1) as nat);
    let had_row = pre.has_spender_row(spender@);
    {
        &&& post.token_id_num == pre.token_id_num + 1
        &&& if had_row {
            &&& post.balances@.len() == pre.balances@.len()
            &&& forall|i: int|
                0 <= i < pre.balances@.len() && pre.balances@[i].spender@ != spender@
                    ==> #[trigger] post.balances@[i] == pre.balances@[i]
            &&& forall|i: int|
                0 <= i < pre.balances@.len() && pre.balances@[i].spender@ == spender@
                    ==> (#[trigger] post.balances@[i]).spender == pre.balances@[i].spender
                    && post.balances@[i].entries@ == pre.balances@[i].entries@.push(
                    (BalanceEntry { owner, main_amount: main, ft_amount: ft }),
                )
        } else {
            &&& post.balances@.len() == pre.balances@.len() + 1
            &&& post.balances@.drop_last() == pre.balances@
            &&& post.balances@.last().spender == spender
            &&& post.balances@.last().entries@ == seq![
                (BalanceEntry { owner, main_amount: main, ft_amount: ft }),
            ]
        }
        &&& post.nfts@.len() == pre.nfts@.len()
        &&& forall|k: int|
            0 <= k < pre.nfts@.len() && pre.nfts@[k].owner@ != owner@
                ==> #[trigger] post.nfts@[k] == pre.nfts@[k]
        &&& forall|k: int|
            0 <= k < pre.nfts@.len() && pre.nfts@[k].owner@ == owner@ ==> (
            #[trigger] post.nfts@[k]).owner == pre.nfts@[k].owner && post.nfts@[k].entries@.len()
                == pre.nfts@[k].entries@.len() + 1 && post.nfts@[k].entries@.drop_last()
                == pre.nfts@[k].entries@ && post.nfts@[k].entries@.last().spender == spender
                && post.nfts@[k].entries@.last().token_id@ == tid
                && post.nfts@[k].entries@.last().claimed == false
        &&& if had_row {
            &&& post.pending_requests@.len() == pre.pending_requests@.len() + 1
            &&& post.pending_requests@.drop_last() == pre.pending_requests@
        } else {
            &&& post.pending_requests@.len() == pre.pending_requests@.len() + 2
            &&& post.pending_requests@.subrange(0, pre.pending_requests@.len() as int)
                == pre.pending_requests@
            &&& post.pending_requests@[pre.pending_requests@.len() as int]
                == (OutboundRequest::StorageBalanceQuery {
                ledger: resolve_override(e20, pre.erc20_address@),
                account: spender,
            })
        }
        &&& spec_mint_request(
            post.pending_requests@.last(),
            resolve_override(e721, pre.erc721_address@),
            tid,
            metadata,
        )
        &&& post.greeting == pre.greeting
        &&& post.erc20_address == pre.erc20_address
        &&& post.erc721_address == pre.erc721_address
        &&& post.admin_address == pre.admin_address
        &&& post.auth_token_owner == pre.auth_token_owner
    }
}

/// How an accepted receipt claim changes the ledger: the pair's receipt
/// record is marked claimed (before the transfer resolves — the local flag is
/// optimistic), a transfer request moving the receipt token to the spender is
/// journalled, and nothing else moves.
pub open spec fn spec_claim_receipt_effect(
    pre: L2eTop,
    post: L2eTop,
    owner: String,
    spender: String,
    e721: Option<String>,
) -> bool {
    &&& post.nfts@.len() == pre.nfts@.len()
    &&& forall|l: int|
        0 <= l < pre.nfts@.len() && pre.nfts@[l].owner@ != owner@ ==> #[trigger] post.nfts@[l]
            == pre.nfts@[l]
    &&& forall|l: int|
        0 <= l < pre.nfts@.len() && pre.nfts@[l].owner@ == owner@ ==> (#[trigger] post.nfts@[l]).owner
            == pre.nfts@[l].owner && post.nfts@[l].entries@.len() == pre.nfts@[l].entries@.len()
            && (forall|j: int|
            0 <= j < pre.nfts@[l].entries@.len() && pre.nfts@[l].entries@[j].spender@ != spender@
                ==> #[trigger] post.nfts@[l].entries@[j] == pre.nfts@[l].entries@[j]) && (forall|
            j: int,
        |
            0 <= j < pre.nfts@[l].entries@.len() && pre.nfts@[l].entries@[j].spender@ == spender@
                ==> (#[trigger] post.nfts@[l].entries@[j]).spender == pre.nfts@[l].entries@[j].spender
                && post.nfts@[l].entries@[j].token_id == pre.nfts@[l].entries@[j].token_id
                && post.nfts@[l].entries@[j].claimed == true)
    &&& pre.spec_receipt(owner@, spender@) matches Some(e) && post.pending_requests@
        == pre.pending_requests@.push(
        (OutboundRequest::NftTransfer {
            registry: resolve_override(e721, pre.erc721_address@),
            to: spender,
            token_id: e.token_id,
        }),
    )
    &&& post.greeting == pre.greeting
    &&& post.balances == pre.balances
    &&& post.erc20_address == pre.erc20_address
    &&& post.erc721_address == pre.erc721_address
    &&& post.token_id_num == pre.token_id_num
    &&& post.admin_address == pre.admin_address
    &&& post.auth_token_owner == pre.auth_token_owner
}

/// How an accepted balance claim changes the ledger: a native payout and a
/// fungible-token transfer of the recorded amounts are journalled, and
/// nothing else moves.  In particular the allowance record is neither
/// decremented nor removed — a repeated claim re-reads and re-dispatches the
/// same amounts.  That double-spend hazard is deliberate here: it is stated
/// explicitly rather than silently mended.
pub open spec fn spec_claim_balances_effect(
    pre: L2eTop,
    post: L2eTop,
    owner: String,
    spender: String,
    e20: Option<String>,
) -> bool {
    &&& pre.spec_allowance(spender@, owner@) matches Some(a) && {
        &&& post.pending_requests@.len() == pre.pending_requests@.len() + 2
        &&& post.pending_requests@.subrange(0, pre.pending_requests@.len() as int)
            == pre.pending_requests@
        &&& post.pending_requests@[pre.pending_requests@.len() as int]
            == (OutboundRequest::NativeTransfer { to: spender, amount: a.main_amount })
        &&& post.pending_requests@.last() == (OutboundRequest::FtTransfer {
            ledger: resolve_override(e20, pre.erc20_address@),
            to: spender,
            amount: a.ft_amount,
        })
    }
    &&& post == (L2eTop { pending_requests: post.pending_requests, ..pre })
}

/// Under well-formedness, any allowance-ledger position with `spender`'s key
/// is the row the spec accessors denote.
pub(crate) proof fn lemma_spender_row_unique(s: L2eTop, spender: Seq<char>, i: int)
    requires
        s.wf(),
        0 <= i < s.balances@.len(),
        s.balances@[i].spender@ == spender,
    ensures
        s.has_spender_row(spender),
        s.spender_row_entries(spender) == s.balances@[i].entries@,
{
    let i2 = choose|i2: int| 0 <= i2 < s.balances@.len() && s.balances@[i2].spender@ == spender;
    if i2 != i {
        assert(s.balances@[i2].spender@ != s.balances@[i].spender@);
    }
}

/// Under well-formedness, any receipt-ledger position with `owner`'s key is
/// the row the spec accessors denote.
pub(crate) proof fn lemma_owner_row_unique(s: L2eTop, owner: Seq<char>, k: int)
    requires
        s.wf(),
        0 <= k < s.nfts@.len(),
        s.nfts@[k].owner@ == owner,
    ensures
        s.has_owner_row(owner),
        s.owner_row_entries(owner) == s.nfts@[k].entries@,
{
    let k2 = choose|k2: int| 0 <= k2 < s.nfts@.len() && s.nfts@[k2].owner@ == owner;
    if k2 != k {
        assert(s.nfts@[k2].owner@ != s.nfts@[k].owner@);
    }
}

/// Under well-formedness, the allowance record found at a concrete position
/// is the record the spec accessor denotes for its pair.
pub(crate) proof fn lemma_allowance_at(s: L2eTop, i: int, j: int)
    requires
        s.wf(),
        0 <= i < s.balances@.len(),
        0 <= j < s.balances@[i].entries@.len(),
    ensures
        s.allowance_present(s.balances@[i].spender@, s.balances@[i].entries@[j].owner@),
        s.spec_allowance(s.balances@[i].spender@, s.balances@[i].entries@[j].owner@) == Some(
            s.balances@[i].entries@[j],
        ),
{
    let spender = s.balances@[i].spender@;
    let owner = s.balances@[i].entries@[j].owner@;
    assert(s.allowance_present(spender, owner));
    let (i2, j2) = choose|i2: int, j2: int|
        0 <= i2 < s.balances@.len() && 0 <= j2 < s.balances@[i2].entries@.len()
            && s.balances@[i2].spender@ == spender && s.balances@[i2].entries@[j2].owner@ == owner;
    if i2 != i {
        assert(s.balances@[i2].spender@ != s.balances@[i].spender@);
    }
    if j2 != j {
        assert(s.balances@[i].entries@[j2].owner@ != s.balances@[i].entries@[j].owner@);
    }
}

/// Under well-formedness, the receipt record found at a concrete position is
/// the record the spec accessor denotes for its pair.
pub(crate) proof fn lemma_receipt_at(s: L2eTop, k: int, j: int)
    requires
        s.wf(),
        0 <= k < s.nfts@.len(),
        0 <= j < s.nfts@[k].entries@.len(),
    ensures
        s.receipt_present(s.nfts@[k].owner@, s.nfts@[k].entries@[j].spender@),
        s.spec_receipt(s.nfts@[k].owner@, s.nfts@[k].entries@[j].spender@) == Some(
            s.nfts@[k].entries@[j],
        ),
{
    let owner = s.nfts@[k].owner@;
    let spender = s.nfts@[k].entries@[j].spender@;
    assert(s.receipt_present(owner, spender));
    let (k2, j2) = choose|k2: int, j2: int|
        0 <= k2 < s.nfts@.len() && 0 <= j2 < s.nfts@[k2].entries@.len() && s.nfts@[k2].owner@
            == owner && s.nfts@[k2].entries@[j2].spender@ == spender;
    if k2 != k {
        assert(s.nfts@[k2].owner@ != s.nfts@[k].owner@);
    }
    if j2 != j {
        assert(s.nfts@[k].entries@[j2].spender@ != s.nfts@[k].entries@[j].spender@);
    }
}

/// A pair whose owner keys no receipt-ledger row has no receipt record.
pub(crate) proof fn lemma_no_receipt_row(s: L2eTop, owner: Seq<char>, spender: Seq<char>)
    requires
        forall|l: int| 0 <= l < s.nfts@.len() ==> (#[trigger] s.nfts@[l]).owner@ != owner,
    ensures
        s.spec_receipt(owner, spender) is None,
{
    if s.receipt_present(owner, spender) {
        let (k2, j2) = choose|k2: int, j2: int|
            0 <= k2 < s.nfts@.len() && 0 <= j2 < s.nfts@[k2].entries@.len() && s.nfts@[k2].owner@
                == owner && s.nfts@[k2].entries@[j2].spender@ == spender;
        assert(false);
    }
}

/// A pair whose owner's row holds no record for the spender has no receipt
/// record.
pub(crate) proof fn lemma_no_receipt_entry(s: L2eTop, owner: Seq<char>, spender: Seq<char>, k: int)
    requires
        s.wf(),
        0 <= k < s.nfts@.len(),
        s.nfts@[k].owner@ == owner,
        forall|j: int|
            0 <= j < s.nfts@[k].entries@.len() ==> (#[trigger] s.nfts@[k].entries@[j]).spender@
                != spender,
    ensures
        s.spec_receipt(owner, spender) is None,
{
    if s.receipt_present(owner, spender) {
        let (k2, j2) = choose|k2: int, j2: int|
            0 <= k2 < s.nfts@.len() && 0 <= j2 < s.nfts@[k2].entries@.len() && s.nfts@[k2].owner@
                == owner && s.nfts@[k2].entries@[j2].spender@ == spender;
        if k2 != k {
            assert(s.nfts@[k2].owner@ != s.nfts@[k].owner@);
        }
        assert(false);
    }
}

/// The ledger program's whole state.
#[derive(Clone, Debug, PartialEq, Eq)]
pub struct L2eTop {
    pub greeting: String,
    /// Allowance ledger, keyed by spender.
    pub balances: Vec<SpenderAllowances>,
    /// Receipt ledger, keyed by owner.
    pub nfts: Vec<OwnerReceipts>,
    /// Known fungible-token collaborator addresses; the first is the default.
    pub erc20_address: Vec<String>,
    /// Known non-fungible-token collaborator addresses; the first is the
    /// default.
    pub erc721_address: Vec<String>,
    /// Receipt-identifier counter; incremented on every mint request.
    pub token_id_num: u128,
    /// Administrator set.
    pub admin_address: Vec<String>,
    /// Authorized-owner set.
    pub auth_token_owner: Vec<String>,
    /// Journal of requests decided on but not yet handed to the dispatcher.
    pub pending_requests: Vec<OutboundRequest>,
}

impl L2eTop {
    /// Whether some allowance record exists for the (spender, owner) pair.
    pub open spec fn allowance_present(self, spender: Seq<char>, owner: Seq<char>) -> bool {
        exists|i: int, j: int|
            0 <= i < self.balances@.len() && 0 <= j < self.balances@[i].entries@.len()
                && self.balances@[i].spender@ == spender && self.balances@[i].entries@[j].owner@
                == owner
    }

    /// Well-formedness of the ledger state.
    ///
    /// Keys and set members are duplicate-free, each (spender, owner) pair
    /// has at most one allowance record and at most one receipt record,
    /// every receipt is backed by an allowance record (records are never
    /// deleted, so a claimed receipt keeps its record too), and the
    /// authorization sets and collaborator registries are non-empty.
    pub open spec fn wf(self) -> bool {
        &&& forall|i: int, j: int|
            0 <= i < j < self.balances@.len() ==> (#[trigger] self.balances@[i].spender@)
                != (#[trigger] self.balances@[j].spender@)
        &&& forall|i: int, j: int|
            0 <= i < j < self.nfts@.len() ==> (#[trigger] self.nfts@[i].owner@)
                != (#[trigger] self.nfts@[j].owner@)
        &&& forall|k: int, i: int, j: int|
            0 <= k < self.balances@.len() && 0 <= i < j < self.balances@[k].entries@.len()
                ==> (#[trigger] self.balances@[k].entries@[i].owner@)
                != (#[trigger] self.balances@[k].entries@[j].owner@)
        &&& forall|k: int, i: int, j: int|
            0 <= k < self.nfts@.len() && 0 <= i < j < self.nfts@[k].entries@.len()
                ==> (#[trigger] self.nfts@[k].entries@[i].spender@)
                != (#[trigger] self.nfts@[k].entries@[j].spender@)
        &&& forall|k: int, j: int|
            0 <= k < self.nfts@.len() && 0 <= j < self.nfts@[k].entries@.len()
                ==> self.allowance_present(
                (#[trigger] self.nfts@[k].entries@[j]).spender@,
                self.nfts@[k].owner@,
            )
        &&& forall|i: int, j: int|
            0 <= i < j < self.admin_address@.len() ==> (#[trigger] self.admin_address@[i]@)
                != (#[trigger] self.admin_address@[j]@)
        &&& forall|i: int, j: int|
            0 <= i < j < self.auth_token_owner@.len() ==> (#[trigger] self.auth_token_owner@[i]@)
                != (#[trigger] self.auth_token_owner@[j]@)
        &&& forall|i: int, j: int|
            0 <= i < j < self.erc20_address@.len() ==> (#[trigger] self.erc20_address@[i]@)
                != (#[trigger] self.erc20_address@[j]@)
        &&& forall|i: int, j: int|
            0 <= i < j < self.erc721_address@.len() ==> (#[trigger] self.erc721_address@[i]@)
                != (#[trigger] self.erc721_address@[j]@)
        &&& self.admin_address@.len() >= 1
        &&& self.auth_token_owner@.len() >= 1
        &&& self.erc20_address@.len() >= 1
        &&& self.erc721_address@.len() >= 1
    }

    /// Whether the allowance ledger has a collection keyed by `spender`.
    pub open spec fn has_spender_row(self, spender: Seq<char>) -> bool {
        exists|i: int| 0 <= i < self.balances@.len() && self.balances@[i].spender@ == spender
    }

    /// Whether the receipt ledger has a collection keyed by `owner`.
    pub open spec fn has_owner_row(self, owner: Seq<char>) -> bool {
        exists|k: int| 0 <= k < self.nfts@.len() && self.nfts@[k].owner@ == owner
    }

    /// The escrow records of the collection keyed by `spender`.
    pub open spec fn spender_row_entries(self, spender: Seq<char>) -> Seq<BalanceEntry> {
        let i = choose|i: int|
            0 <= i < self.balances@.len() && self.balances@[i].spender@ == spender;
        self.balances@[i].entries@
    }

    /// The receipt records of the collection keyed by `owner`.
    pub open spec fn owner_row_entries(self, owner: Seq<char>) -> Seq<ReceiptEntry> {
        let k = choose|k: int| 0 <= k < self.nfts@.len() && self.nfts@[k].owner@ == owner;
        self.nfts@[k].entries@
    }

    /// The allowance record of the (spender, owner) pair, if one exists.
    pub open spec fn spec_allowance(self, spender: Seq<char>, owner: Seq<char>) -> Option<
        BalanceEntry,
    > {
        if self.allowance_present(spender, owner) {
            let (i, j) = choose|i: int, j: int|
                0 <= i < self.balances@.len() && 0 <= j < self.balances@[i].entries@.len()
                    && self.balances@[i].spender@ == spender && self.balances@[i].entries@[j].owner@
                    == owner;
            Some(self.balances@[i].entries@[j])
        } else {
            None
        }
    }

    /// Whether some receipt record exists for the (owner, spender) pair.
    pub open spec fn receipt_present(self, owner: Seq<char>, spender: Seq<char>) -> bool {
        exists|k: int, j: int|
            0 <= k < self.nfts@.len() && 0 <= j < self.nfts@[k].entries@.len()
                && self.nfts@[k].owner@ == owner && self.nfts@[k].entries@[j].spender@ == spender
    }

    /// The receipt record of the (owner, spender) pair, if one exists.
    pub open spec fn spec_receipt(self, owner: Seq<char>, spender: Seq<char>) -> Option<
        ReceiptEntry,
    > {
        if self.receipt_present(owner, spender) {
            let (k, j) = choose|k: int, j: int|
                0 <= k < self.nfts@.len() && 0 <= j < self.nfts@[k].entries@.len()
                    && self.nfts@[k].owner@ == owner && self.nfts@[k].entries@[j].spender@
                    == spender;
            Some(self.nfts@[k].entries@[j])
        } else {
            None
        }
    }

    /// What the allowance query reports for the (spender, owner) pair:
    /// nothing when the spender has no collection at all, the recorded
    /// amounts when a record for the owner exists, and zero amounts
    /// otherwise.
    pub open spec fn spec_query_allowance(self, spender: Seq<char>, owner: Seq<char>) -> Option<
        (u128, u128),
    > {
        if !self.has_spender_row(spender) {
            None
        } else {
            match self.spec_allowance(spender, owner) {
                Some(e) => Some((e.main_amount, e.ft_amount)),
                None => Some((0u128, 0u128)),
            }
        }
    }

    /// When an approval is accepted: a positive native amount, fully covered
    /// by the value attached to the call, an owner that has a receipt
    /// collection, and no allowance record for the pair yet.
    pub open spec fn spec_approve_allowed(
        self,
        owner: Seq<char>,
        spender: Seq<char>,
        main: u128,
        attached: u128,
    ) -> bool {
        &&& 0 < main
        &&& main <= attached
        &&& self.has_owner_row(owner)
        &&& !self.allowance_present(spender, owner)
    }

    /// When a receipt claim is accepted: the pair has a receipt record that
    /// is still unclaimed.
    pub open spec fn spec_claim_receipt_allowed(self, owner: Seq<char>, spender: Seq<char>) -> bool {
        self.spec_receipt(owner, spender) matches Some(e) && !e.claimed
    }

    /// When a balance claim is accepted: the pair has a receipt record that
    /// was already claimed.  (Under well-formedness the backing allowance
    /// record then exists as well.)
    pub open spec fn spec_claim_balances_allowed(self, owner: Seq<char>, spender: Seq<char>) -> bool {
        self.spec_receipt(owner, spender) matches Some(e) && e.claimed
    }

    /// Creates the ledger.  The deploying identity becomes the first
    /// administrator and the first authorized owner, with empty allowance and
    /// receipt collections; the two collaborator addresses become the
    /// defaults of their registries.
    pub fn init(deployer: String, erc20: String, erc721: String) -> (r: L2eTop)
        ensures
            r.wf(),
            r.greeting@ == "Hello"@,
            r.balances@.len() == 1,
            r.balances@[0].spender == deployer,
            r.balances@[0].entries@ == Seq::<BalanceEntry>::empty(),
            r.nfts@.len() == 1,
            r.nfts@[0].owner == deployer,
            r.nfts@[0].entries@ == Seq::<ReceiptEntry>::empty(),
            r.erc20_address@ == seq![erc20],
            r.erc721_address@ == seq![erc721],
            r.token_id_num == 1000u128,
            r.admin_address@ == seq![deployer],
            r.auth_token_owner@ == seq![deployer],
            r.pending_requests@ == Seq::<OutboundRequest>::empty(),
    {
        let mut balances: Vec<SpenderAllowances> = Vec::new();
        balances.push(SpenderAllowances { spender: deployer.clone(), entries: Vec::new() });
        let mut nfts: Vec<OwnerReceipts> = Vec::new();
        nfts.push(OwnerReceipts { owner: deployer.clone(), entries: Vec::new() });
        let mut erc20_address: Vec<String> = Vec::new();
        erc20_address.push(erc20);
        let mut erc721_address: Vec<String> = Vec::new();
        erc721_address.push(erc721);
        let mut admin_address: Vec<String> = Vec::new();
        admin_address.push(deployer.clone());
        let mut auth_token_owner: Vec<String> = Vec::new();
        auth_token_owner.push(deployer);
        let r = L2eTop {
            greeting: String::from_str("Hello"),
            balances,
            nfts,
            erc20_address,
            erc721_address,
            token_id_num: 1000,
            admin_address,
            auth_token_owner,
            pending_requests: Vec::new(),
        };
        proof {
            assert(r.erc20_address@ =~= seq![erc20]);
            assert(r.erc721_address@ =~= seq![erc721]);
        }
        r
    }

    /// The greeting saved by `set_greeting`, `"Hello"` after `init`.
    pub fn get_greeting(&self) -> (r: String)
        ensures
            r == self.greeting,
    {
        self.greeting.clone()
    }

    /// Records a new greeting; no other state is touched.
    pub fn set_greeting(&mut self, greeting: String)
        ensures
            *final(self) == (L2eTop { greeting, ..*old(self) }),
    {
        self.greeting = greeting;
    }

    /// Adds `new_admin_address` to the administrator set.  Succeeds exactly
    /// when the caller is an administrator and the candidate is not one yet;
    /// otherwise nothing changes.
    pub fn add_admin_address(&mut self, caller: &String, new_admin_address: &String) -> (r: bool)
        requires
            old(self).wf(),
        ensures
            final(self).wf(),
            r == (contains_account(old(self).admin_address@, caller@) && !contains_account(
                old(self).admin_address@,
                new_admin_address@,
            )),
            r ==> final(self).admin_address@ == old(self).admin_address@.push(*new_admin_address) && *final(self)
                == (L2eTop { admin_address: final(self).admin_address, ..*old(self) }),
            !r ==> *final(self) == *old(self),
    {
        if contains_acct(&self.admin_address, caller) && !contains_acct(
            &self.admin_address,
            new_admin_address,
        ) {
            self.admin_address.push(new_admin_address.clone());
            true
        } else {
            false
        }
    }

    /// Authorizes `owner_address` to act as an escrow owner.  Succeeds
    /// exactly when the caller is an administrator; the candidate joins the
    /// authorized-owner set if not yet a member, and empty allowance and
    /// receipt collections are allocated for it if it has none.  Repeating
    /// the call changes nothing more.
    pub fn add_auth_token_owner(&mut self, caller: &String, owner_address: &String) -> (r: bool)
        requires
            old(self).wf(),
        ensures
            final(self).wf(),
            r == contains_account(old(self).admin_address@, caller@),
            !r ==> *final(self) == *old(self),
            r ==> {
                &&& if contains_account(old(self).auth_token_owner@, owner_address@) {
                    final(self).auth_token_owner == old(self).auth_token_owner
                } else {
                    final(self).auth_token_owner@ == old(self).auth_token_owner@.push(*owner_address)
                }
                &&& if old(self).has_spender_row(owner_address@) {
                    final(self).balances == old(self).balances
                } else {
                    final(self).balances@.len() == old(self).balances@.len() + 1
                        && final(self).balances@.drop_last() == old(self).balances@
                        && final(self).balances@.last().spender == *owner_address
                        && final(self).balances@.last().entries@ == Seq::<BalanceEntry>::empty()
                }
                &&& if old(self).has_owner_row(owner_address@) {
                    final(self).nfts == old(self).nfts
                } else {
                    final(self).nfts@.len() == old(self).nfts@.len() + 1 && final(self).nfts@.drop_last() == old(
                        self,
                    ).nfts@ && final(self).nfts@.last().owner == *owner_address
                        && final(self).nfts@.last().entries@ == Seq::<ReceiptEntry>::empty()
                }
                &&& final(self).greeting == old(self).greeting
                &&& final(self).erc20_address == old(self).erc20_address
                &&& final(self).erc721_address == old(self).erc721_address
                &&& final(self).token_id_num == old(self).token_id_num
                &&& final(self).admin_address == old(self).admin_address
                &&& final(self).pending_requests == old(self).pending_requests
            },
    {
        if !contains_acct(&self.admin_address, caller) {
            return false;
        }
        if !contains_acct(&self.auth_token_owner, owner_address) {
            self.auth_token_owner.push(owner_address.clone());
        }
        let ghost pre = *self;
        if find_spender_row(&self.balances, owner_address).is_none() {
            self.balances.push(
                SpenderAllowances { spender: owner_address.clone(), entries: Vec::new() },
            );
            proof {
                assert(self.balances@.drop_last() =~= pre.balances@);
            }
        }
        if find_owner_row(&self.nfts, owner_address).is_none() {
            let ghost pre2 = *self;
            self.nfts.push(OwnerReceipts { owner: owner_address.clone(), entries: Vec::new() });
            proof {
                assert(self.nfts@.drop_last() =~= pre2.nfts@);
            }
        }
        proof {
            lemma_allowances_grow(*old(self), *self);
        }
        true
    }

    /// Registers collaborator contract addresses.  Succeeds exactly when the
    /// caller is an administrator or an authorized owner; each address is
    /// appended to its registry only if not already present.
    pub fn add_contract_address(
        &mut self,
        caller: &String,
        erc20_address: &String,
        erc721_address: &String,
    ) -> (r: bool)
        requires
            old(self).wf(),
        ensures
            final(self).wf(),
            r == (contains_account(old(self).admin_address@, caller@) || contains_account(
                old(self).auth_token_owner@,
                caller@,
            )),
            !r ==> *final(self) == *old(self),
            r ==> {
                &&& if contains_account(old(self).erc20_address@, erc20_address@) {
                    final(self).erc20_address == old(self).erc20_address
                } else {
                    final(self).erc20_address@ == old(self).erc20_address@.push(*erc20_address)
                }
                &&& if contains_account(old(self).erc721_address@, erc721_address@) {
                    final(self).erc721_address == old(self).erc721_address
                } else {
                    final(self).erc721_address@ == old(self).erc721_address@.push(*erc721_address)
                }
                &&& final(self).greeting == old(self).greeting
                &&& final(self).balances == old(self).balances
                &&& final(self).nfts == old(self).nfts
                &&& final(self).token_id_num == old(self).token_id_num
                &&& final(self).admin_address == old(self).admin_address
                &&& final(self).auth_token_owner == old(self).auth_token_owner
                &&& final(self).pending_requests == old(self).pending_requests
            },
    {
        if !contains_acct(&self.admin_address, caller) && !contains_acct(
            &self.auth_token_owner,
            caller,
        ) {
            return false;
        }
        if !contains_acct(&self.erc20_address, erc20_address) {
            self.erc20_address.push(erc20_address.clone());
        }
        if !contains_acct(&self.erc721_address, erc721_address) {
            self.erc721_address.push(erc721_address.clone());
        }
        true
    }

    /// The registered fungible-token collaborator addresses, default first.
    pub fn get_erc20_address(&self) -> (r: Vec<String>)
        ensures
            r@ == self.erc20_address@,
    {
        clone_accounts(&self.erc20_address)
    }

    /// The registered non-fungible-token collaborator addresses, default
    /// first.
    pub fn get_erc721_address(&self) -> (r: Vec<String>)
        ensures
            r@ == self.erc721_address@,
    {
        clone_accounts(&self.erc721_address)
    }

    /// The administrator set, in insertion order.
    pub fn get_admin_address(&self) -> (r: Vec<String>)
        ensures
            r@ == self.admin_address@,
    {
        clone_accounts(&self.admin_address)
    }

    /// The authorized-owner set, in insertion order.
    pub fn get_auth_token_owner(&self) -> (r: Vec<String>)
        ensures
            r@ == self.auth_token_owner@,
    {
        clone_accounts(&self.auth_token_owner)
    }

    /// All receipt records under `owner` as (spender, receipt identifier,
    /// claimed flag) triples, in insertion order; nothing when the owner has
    /// no receipt collection.
    pub fn get_all_spender_claim_for_owner(&self, owner: &String) -> (r: Option<
        Vec<(String, String, bool)>,
    >)
        requires
            self.wf(),
        ensures
            r is Some <==> self.has_owner_row(owner@),
            match r {
                Some(v) => {
                    let es = self.owner_row_entries(owner@);
                    &&& v@.len() == es.len()
                    &&& forall|j: int|
                        0 <= j < es.len() ==> (#[trigger] v@[j]).0 == es[j].spender && v@[j].1
                            == es[j].token_id && v@[j].2 == es[j].claimed
                },
                None => true,
            },
    {
        match find_owner_row(&self.nfts, owner) {
            Some(k) => {
                proof {
                    lemma_owner_row_unique(*self, owner@, k as int);
                }
                let entries = &self.nfts[k].entries;
                let mut v: Vec<(String, String, bool)> = Vec::new();
                let mut j: usize = 0;
                while j < entries.len()
                    invariant
                        j <= entries.len(),
                        v@.len() == j,
                        forall|l: int|
                            0 <= l < j ==> (#[trigger] v@[l]).0 == entries@[l].spender && v@[l].1
                                == entries@[l].token_id && v@[l].2 == entries@[l].claimed,
                    decreases entries.len() - j,
                {
                    v.push(
                        (entries[j].spender.clone(), entries[j].token_id.clone(), entries[j].claimed),
                    );
                    j += 1;
                }
                Some(v)
            },
            None => None,
        }
    }

    /// All escrow records under `spender` as (owner, native amount, fungible
    /// amount) triples with the amounts rendered in decimal, in insertion
    /// order; nothing when the spender has no allowance collection.
    pub fn get_all_owner_rewards_for_spender(&self, spender: &String) -> (r: Option<
        Vec<(String, String, String)>,
    >)
        requires
            self.wf(),
        ensures
            r is Some <==> self.has_spender_row(spender@),
            match r {
                Some(v) => {
                    let es = self.spender_row_entries(spender@);
                    &&& v@.len() == es.len()
                    &&& forall|j: int|
                        0 <= j < es.len() ==> (#[trigger] v@[j]).0 == es[j].owner && v@[j].1@
                            == dec_digits(es[j].main_amount as nat) && v@[j].2@ == dec_digits(
                            es[j].ft_amount as nat,
                        )
                },
                None => true,
            },
    {
        match find_spender_row(&self.balances, spender) {
            Some(i) => {
                proof {
                    lemma_spender_row_unique(*self, spender@, i as int);
                }
                let entries = &self.balances[i].entries;
                let mut v: Vec<(String, String, String)> = Vec::new();
                let mut j: usize = 0;
                while j < entries.len()
                    invariant
                        j <= entries.len(),
                        v@.len() == j,
                        forall|l: int|
                            0 <= l < j ==> (#[trigger] v@[l]).0 == entries@[l].owner && v@[l].1@
                                == dec_digits(entries@[l].main_amount as nat) && v@[l].2@
                                == dec_digits(entries@[l].ft_amount as nat),
                    decreases entries.len() - j,
                {
                    v.push(
                        (
                            entries[j].owner.clone(),
                            crate::text::decimal_string(entries[j].main_amount),
                            crate::text::decimal_string(entries[j].ft_amount),
                        ),
                    );
                    j += 1;
                }
                Some(v)
            },
            None => None,
        }
    }

    /// The escrowed amounts the (spender, owner) pair may still claim:
    /// nothing when the spender has no allowance collection at all, the
    /// recorded (native, fungible) amounts when a record for `owner` exists,
    /// and zero amounts otherwise.
    pub fn get_allowances_for_spender(&self, spender: &String, owner: &String) -> (r: Option<
        (u128, u128),
    >)
        requires
            self.wf(),
        ensures
            r == self.spec_query_allowance(spender@, owner@),
    {
        match find_spender_row(&self.balances, spender) {
            Some(i) => {
                proof {
                    lemma_spender_row_unique(*self, spender@, i as int);
                }
                match find_balance_entry(&self.balances[i].entries, owner) {
                    Some(j) => {
                        proof {
                            lemma_allowance_at(*self, i as int, j as int);
                        }
                        let e = &self.balances[i].entries[j];
                        Some((e.main_amount, e.ft_amount))
                    },
                    None => {
                        proof {
                            if self.allowance_present(spender@, owner@) {
                                let (i2, j2) = choose|i2: int, j2: int|
                                    0 <= i2 < self.balances@.len() && 0 <= j2
                                        < self.balances@[i2].entries@.len()
                                        && self.balances@[i2].spender@ == spender@
                                        && self.balances@[i2].entries@[j2].owner@ == owner@;
                                if i2 != i as int {
                                    assert(self.balances@[i2].spender@
                                        != self.balances@[i as int].spender@);
                                }
                                assert(false);
                            }
                        }
                        Some((0, 0))
                    },
                }
            },
            None => None,
        }
    }

    /// Escrows `main_token_amount` of native currency and `ft_amount` of
    /// fungible tokens from `owner` for `spender`, and has a fresh receipt
    /// minted into the ledger program's own custody: a new allowance record
    /// and an unclaimed receipt record are committed, and the mint request
    /// (preceded, for a spender not seen before, by a storage-registration
    /// check) is journalled.  `attached_amount` is the value the owner put up
    /// with the call and must cover `main_token_amount`.
    ///
    /// Returns `true` once the local records are committed, independent of
    /// whether the asynchronously dispatched mint later succeeds.  Returns
    /// `false`, changing nothing, on a zero native amount, an attached value
    /// short of it, an owner without a receipt collection, or an allowance
    /// record already existing for the pair.
    pub fn approve_for_spender(
        &mut self,
        owner: &String,
        spender: &String,
        main_token_amount: u128,
        ft_amount: u128,
        attached_amount: u128,
        token_metadata: Option<ReceiptMetadata>,
        erc20_address: Option<String>,
        erc721_address: Option<String>,
    ) -> (r: bool)
        requires
            old(self).wf(),
            old(self).token_id_num < u128::MAX,
        ensures
            final(self).wf(),
            r == old(self).spec_approve_allowed(
                owner@,
                spender@,
                main_token_amount,
                attached_amount,
            ),
            !r ==> *final(self) == *old(self),
            r ==> spec_approve_effect(
                *old(self),
                *final(self),
                *owner,
                *spender,
                main_token_amount,
                ft_amount,
                token_metadata,
                erc20_address,
                erc721_address,
            ),
    {
        if main_token_amount == 0 || attached_amount < main_token_amount {
            return false;
        }
        let k = match find_owner_row(&self.nfts, owner) {
            Some(k) => k,
            None => {
                return false;
            },
        };
        let ghost pre = *self;
        let row = find_spender_row(&self.balances, spender);
        match row {
            Some(i) => {
                match find_balance_entry(&self.balances[i].entries, owner) {
                    Some(j) => {
                        proof {
                            assert(pre.allowance_present(spender@, owner@));
                        }
                        return false;
                    },
                    None => {
                        proof {
                            if pre.allowance_present(spender@, owner@) {
                                let (i2, j2) = choose|i2: int, j2: int|
                                    0 <= i2 < pre.balances@.len() && 0 <= j2
                                        < pre.balances@[i2].entries@.len()
                                        && pre.balances@[i2].spender@ == spender@
                                        && pre.balances@[i2].entries@[j2].owner@ == owner@;
                                if i2 != i as int {
                                    assert(pre.balances@[i2].spender@
                                        != pre.balances@[i as int].spender@);
                                }
                                assert(false);
                            }
                        }
                        let e = BalanceEntry {
                            owner: owner.clone(),
                            main_amount: main_token_amount,
                            ft_amount: ft_amount,
                        };
                        self.balances[i].entries.push(e);
                        proof {
                            assert(self.balances@.len() == pre.balances@.len());
                            assert(forall|l: int|
                                0 <= l < pre.balances@.len() && l != i as int
                                    ==> #[trigger] self.balances@[l] == pre.balances@[l]);
                            assert(self.balances@[i as int].spender == pre.balances@[
                            i as int].spender);
                            assert(self.balances@[i as int].entries@ == pre.balances@[
                            i as int].entries@.push(e));
                        }
                    },
                }
            },
            None => {
                proof {
                    if pre.allowance_present(spender@, owner@) {
                        let (i2, j2) = choose|i2: int, j2: int|
                            0 <= i2 < pre.balances@.len() && 0 <= j2
                                < pre.balances@[i2].entries@.len() && pre.balances@[i2].spender@
                                == spender@ && pre.balances@[i2].entries@[j2].owner@ == owner@;
                        assert(false);
                    }
                }
                let mut entries: Vec<BalanceEntry> = Vec::new();
                entries.push(
                    BalanceEntry {
                        owner: owner.clone(),
                        main_amount: main_token_amount,
                        ft_amount: ft_amount,
                    },
                );
                self.balances.push(SpenderAllowances { spender: spender.clone(), entries });
                let ledger_addr = match &erc20_address {
                    Some(a) => a.clone(),
                    None => self.erc20_address[0].clone(),
                };
                self.pending_requests.push(
                    OutboundRequest::StorageBalanceQuery {
                        ledger: ledger_addr,
                        account: spender.clone(),
                    },
                );
                proof {
                    assert(self.balances@.drop_last() =~= pre.balances@);
                    assert(self.balances@.last().entries@ =~= seq![
                        (BalanceEntry {
                            owner: *owner,
                            main_amount: main_token_amount,
                            ft_amount: ft_amount,
                        }),
                    ]);
                    assert(self.pending_requests@.drop_last() =~= pre.pending_requests@);
                }
            },
        }
        let ghost mid = *self;
        let tid_num: u128 = self.token_id_num + 1;
        self.token_id_num = tid_num;
        let tid = crate::text::decimal_string(tid_num);
        let registry = match &erc721_address {
            Some(a) => a.clone(),
            None => self.erc721_address[0].clone(),
        };
        let md = match token_metadata {
            Some(m) => m,
            None => ReceiptMetadata {
                title: Some(String::from_str("L2E.TOP Chain Near Network")),
                description: Some(
                    String::from_str("Near Network and L2E.TOP Joint Certification Reward."),
                ),
                copies: Some(1),
            },
        };
        self.pending_requests.push(
            OutboundRequest::NftMint { registry, token_id: tid.clone(), metadata: md },
        );
        self.nfts[k].entries.push(
            ReceiptEntry { spender: spender.clone(), token_id: tid, claimed: false },
        );
        proof {
            let post = *self;
            let ki = k as int;
            assert(post.nfts@[ki].entries@.drop_last() =~= pre.nfts@[ki].entries@);
            assert(post.pending_requests@.drop_last() =~= mid.pending_requests@);
            // the caller holds a receipt collection, and `row` decides whether
            // the spender already had an allowance collection
            assert(pre.has_owner_row(owner@));
            match row {
                Some(i) => {
                    assert(pre.has_spender_row(spender@));
                },
                None => {
                    assert(!pre.has_spender_row(spender@)) by {
                        if pre.has_spender_row(spender@) {
                            let i2 = choose|i2: int|
                                0 <= i2 < pre.balances@.len() && pre.balances@[i2].spender@
                                    == spender@;
                            assert(false);
                        }
                    }
                    assert(post.pending_requests@.subrange(0, pre.pending_requests@.len() as int)
                        =~= pre.pending_requests@);
                },
            }
            // only row `k` of the receipt ledger carries the owner's key
            assert forall|l: int|
                0 <= l < pre.nfts@.len() && pre.nfts@[l].owner@ == owner@ implies l == ki by {
                if l != ki {
                    assert(pre.nfts@[l].owner@ != pre.nfts@[ki].owner@);
                }
            }
            // the pair had no receipt record either: records are always
            // backed by an allowance record, and the pair has none
            assert forall|j: int|
                0 <= j < pre.nfts@[ki].entries@.len() implies pre.nfts@[ki].entries@[j].spender@
                != spender@ by {
                if pre.nfts@[ki].entries@[j].spender@ == spender@ {
                    assert(pre.allowance_present(spender@, owner@));
                    assert(false);
                }
            }
            // allowance-ledger keys after the commit
            match row {
                Some(i) => {
                    assert(forall|l: int|
                        0 <= l < post.balances@.len() ==> (#[trigger] post.balances@[l]).spender@
                            == pre.balances@[l].spender@);
                },
                None => {
                    assert(forall|l: int|
                        0 <= l < pre.balances@.len() ==> (#[trigger] post.balances@[l]).spender@
                            == pre.balances@[l].spender@);
                    assert(post.balances@.last().spender@ == spender@);
                },
            }
            assert forall|a: int, b: int|
                0 <= a < b < post.balances@.len() implies post.balances@[a].spender@
                != post.balances@[b].spender@ by {
                match row {
                    Some(i) => {},
                    None => {
                        if b == pre.balances@.len() as int {
                            assert(pre.balances@[a].spender@ != spender@);
                        }
                    },
                }
            }
            // owners stay unique inside each allowance collection
            assert forall|c: int, a: int, b: int|
                0 <= c < post.balances@.len() && 0 <= a < b < post.balances@[c].entries@.len()
                implies post.balances@[c].entries@[a].owner@
                != post.balances@[c].entries@[b].owner@ by {
                match row {
                    Some(i) => {
                        if c == i as int {
                            if b == pre.balances@[c].entries@.len() as int {
                                assert(pre.balances@[c].entries@[a].owner@ != owner@);
                                assert(post.balances@[c].entries@[b].owner@ == owner@);
                            } else {
                                assert(post.balances@[c].entries@[a]
                                    == pre.balances@[c].entries@[a]);
                                assert(post.balances@[c].entries@[b]
                                    == pre.balances@[c].entries@[b]);
                            }
                        } else {
                            assert(post.balances@[c] == pre.balances@[c]);
                        }
                    },
                    None => {
                        if c < pre.balances@.len() as int {
                            assert(post.balances@[c] == pre.balances@[c]);
                        } else {
                            assert(post.balances@[c].entries@.len() == 1);
                        }
                    },
                }
            }
            // receipt-ledger keys are untouched
            assert(forall|l: int|
                0 <= l < post.nfts@.len() ==> (#[trigger] post.nfts@[l]).owner@
                    == pre.nfts@[l].owner@);
            // spenders stay unique inside each receipt collection
            assert forall|c: int, a: int, b: int|
                0 <= c < post.nfts@.len() && 0 <= a < b < post.nfts@[c].entries@.len()
                implies post.nfts@[c].entries@[a].spender@
                != post.nfts@[c].entries@[b].spender@ by {
                if c == ki {
                    if b == pre.nfts@[ki].entries@.len() as int {
                        assert(post.nfts@[c].entries@[a] == pre.nfts@[c].entries@[a]);
                        assert(pre.nfts@[ki].entries@[a].spender@ != spender@);
                    } else {
                        assert(post.nfts@[c].entries@[a] == pre.nfts@[c].entries@[a]);
                        assert(post.nfts@[c].entries@[b] == pre.nfts@[c].entries@[b]);
                    }
                } else {
                    assert(post.nfts@[c] == pre.nfts@[c]);
                }
            }
            // every receipt record is still backed by an allowance record
            lemma_allowances_grow(pre, post);
            assert forall|c: int, j: int|
                0 <= c < post.nfts@.len() && 0 <= j < post.nfts@[c].entries@.len()
                implies post.allowance_present(
                post.nfts@[c].entries@[j].spender@,
                post.nfts@[c].owner@,
            ) by {
                if c == ki && j == pre.nfts@[ki].entries@.len() as int {
                    match row {
                        Some(i) => {
                            let jn = pre.balances@[i as int].entries@.len() as int;
                            assert(post.balances@[i as int].entries@[jn].owner@ == owner@);
                            assert(post.allowance_present(spender@, owner@));
                        },
                        None => {
                            let ib = pre.balances@.len() as int;
                            assert(post.balances@[ib].entries@[0].owner@ == owner@);
                            assert(post.allowance_present(spender@, owner@));
                        },
                    }
                } else {
                    if c == ki {
                        assert(post.nfts@[c].entries@[j] == pre.nfts@[c].entries@[j]);
                    } else {
                        assert(post.nfts@[c] == pre.nfts@[c]);
                    }
                    assert(pre.allowance_present(
                        pre.nfts@[c].entries@[j].spender@,
                        pre.nfts@[c].owner@,
                    ));
                }
            }
        }
        true
    }

    /// Claims the receipt minted for (`owner`, `spender`): marks the pair's
    /// receipt record claimed — optimistically, before the transfer moving
    /// the receipt token to the spender is known to have succeeded — and
    /// journals that transfer request.
    ///
    /// Returns `true` once the flag is flipped and the request journalled;
    /// returns `false`, changing nothing, when the pair has no unclaimed
    /// receipt record.
    pub fn transfer_nft_from(
        &mut self,
        owner: &String,
        spender: &String,
        erc721_address: Option<String>,
    ) -> (r: bool)
        requires
            old(self).wf(),
        ensures
            final(self).wf(),
            r == old(self).spec_claim_receipt_allowed(owner@, spender@),
            !r ==> *final(self) == *old(self),
            r ==> spec_claim_receipt_effect(
                *old(self),
                *final(self),
                *owner,
                *spender,
                erc721_address,
            ),
    {
        let ghost pre = *self;
        let k = match find_owner_row(&self.nfts, owner) {
            Some(k) => k,
            None => {
                proof {
                    lemma_no_receipt_row(pre, owner@, spender@);
                }
                return false;
            },
        };
        let j = match find_receipt_entry(&self.nfts[k].entries, spender) {
            Some(j) => j,
            None => {
                proof {
                    lemma_no_receipt_entry(pre, owner@, spender@, k as int);
                }
                return false;
            },
        };
        proof {
            lemma_receipt_at(pre, k as int, j as int);
        }
        if self.nfts[k].entries[j].claimed {
            return false;
        }
        let token_id = self.nfts[k].entries[j].token_id.clone();
        let registry = match &erc721_address {
            Some(a) => a.clone(),
            None => self.erc721_address[0].clone(),
        };
        self.nfts[k].entries[j].claimed = true;
        self.pending_requests.push(
            OutboundRequest::NftTransfer { registry, to: spender.clone(), token_id },
        );
        proof {
            let post = *self;
            let ki = k as int;
            let ji = j as int;
            assert(forall|l: int|
                0 <= l < pre.nfts@.len() && l != ki ==> #[trigger] post.nfts@[l] == pre.nfts@[l]);
            assert(forall|l: int|
                0 <= l < pre.nfts@[ki].entries@.len() && l != ji
                    ==> #[trigger] post.nfts@[ki].entries@[l] == pre.nfts@[ki].entries@[l]);
            // only entry `j` of row `k` carries the pair's keys
            assert forall|l: int|
                0 <= l < pre.nfts@.len() && pre.nfts@[l].owner@ == owner@ implies l == ki by {
                if l != ki {
                    assert(pre.nfts@[l].owner@ != pre.nfts@[ki].owner@);
                }
            }
            assert forall|l: int|
                0 <= l < pre.nfts@[ki].entries@.len() && pre.nfts@[ki].entries@[l].spender@
                    == spender@ implies l == ji by {
                if l != ji {
                    assert(pre.nfts@[ki].entries@[l].spender@
                        != pre.nfts@[ki].entries@[ji].spender@);
                }
            }
            // well-formedness: keys, spenders and backing records are as
            // before; only one claimed flag changed
            assert(forall|l: int|
                0 <= l < post.nfts@.len() ==> (#[trigger] post.nfts@[l]).owner@
                    == pre.nfts@[l].owner@);
            assert forall|c: int, a: int, b: int|
                0 <= c < post.nfts@.len() && 0 <= a < b < post.nfts@[c].entries@.len()
                implies post.nfts@[c].entries@[a].spender@
                != post.nfts@[c].entries@[b].spender@ by {
                assert(post.nfts@[c].entries@[a].spender@ == pre.nfts@[c].entries@[a].spender@);
                assert(post.nfts@[c].entries@[b].spender@ == pre.nfts@[c].entries@[b].spender@);
            }
            assert forall|c: int, l: int|
                0 <= c < post.nfts@.len() && 0 <= l < post.nfts@[c].entries@.len()
                implies post.allowance_present(
                post.nfts@[c].entries@[l].spender@,
                post.nfts@[c].owner@,
            ) by {
                assert(post.nfts@[c].entries@[l].spender@ == pre.nfts@[c].entries@[l].spender@);
                assert(pre.allowance_present(
                    pre.nfts@[c].entries@[l].spender@,
                    pre.nfts@[c].owner@,
                ));
                lemma_allowances_grow(pre, post);
            }
        }
        true
    }

    /// Claims the escrowed balances of (`owner`, `spender`): requires the
    /// pair's receipt record to have been claimed first, then journals a
    /// native payout and a fungible-token transfer of the recorded amounts to
    /// the spender.
    ///
    /// Returns `true` once both requests are journalled.  Returns `false`,
    /// changing nothing, when the pair has no receipt record or the record is
    /// still unclaimed.  The allowance record is left untouched either way —
    /// a repeated claim re-dispatches the same amounts (see
    /// [`spec_claim_balances_effect`]).
    pub fn transfer_balances_from(
        &mut self,
        owner: &String,
        spender: &String,
        erc20_address: Option<String>,
    ) -> (r: bool)
        requires
            old(self).wf(),
        ensures
            final(self).wf(),
            r == old(self).spec_claim_balances_allowed(owner@, spender@),
            !r ==> *final(self) == *old(self),
            r ==> spec_claim_balances_effect(
                *old(self),
                *final(self),
                *owner,
                *spender,
                erc20_address,
            ),
    {
        let ghost pre = *self;
        let k = match find_owner_row(&self.nfts, owner) {
            Some(k) => k,
            None => {
                proof {
                    lemma_no_receipt_row(pre, owner@, spender@);
                }
                return false;
            },
        };
        let j = match find_receipt_entry(&self.nfts[k].entries, spender) {
            Some(j) => j,
            None => {
                proof {
                    lemma_no_receipt_entry(pre, owner@, spender@, k as int);
                }
                return false;
            },
        };
        proof {
            lemma_receipt_at(pre, k as int, j as int);
        }
        if !self.nfts[k].entries[j].claimed {
            return false;
        }
        proof {
            assert(pre.allowance_present(spender@, owner@));
        }
        let i = match find_spender_row(&self.balances, spender) {
            Some(i) => i,
            None => {
                proof {
                    let (i2, j2) = choose|i2: int, j2: int|
                        0 <= i2 < pre.balances@.len() && 0 <= j2
                            < pre.balances@[i2].entries@.len() && pre.balances@[i2].spender@
                            == spender@ && pre.balances@[i2].entries@[j2].owner@ == owner@;
                    assert(false);
                }
                return false;
            },
        };
        let l = match find_balance_entry(&self.balances[i].entries, owner) {
            Some(l) => l,
            None => {
                proof {
                    let (i2, j2) = choose|i2: int, j2: int|
                        0 <= i2 < pre.balances@.len() && 0 <= j2
                            < pre.balances@[i2].entries@.len() && pre.balances@[i2].spender@
                            == spender@ && pre.balances@[i2].entries@[j2].owner@ == owner@;
                    if i2 != i as int {
                        assert(pre.balances@[i2].spender@ != pre.balances@[i as int].spender@);
                    }
                    assert(false);
                }
                return false;
            },
        };
        proof {
            lemma_allowance_at(pre, i as int, l as int);
        }
        let main_amount: u128 = self.balances[i].entries[l].main_amount;
        let ft_amount: u128 = self.balances[i].entries[l].ft_amount;
        self.pending_requests.push(
            OutboundRequest::NativeTransfer { to: spender.clone(), amount: main_amount },
        );
        let ledger_addr = match &erc20_address {
            Some(a) => a.clone(),
            None => self.erc20_address[0].clone(),
        };
        self.pending_requests.push(
            OutboundRequest::FtTransfer {
                ledger: ledger_addr,
                to: spender.clone(),
                amount: ft_amount,
            },
        );
        proof {
            assert(self.pending_requests@.subrange(0, pre.pending_requests@.len() as int)
                =~= pre.pending_requests@);
            assert(self.balances == pre.balances);
            assert(self.nfts == pre.nfts);
            assert(self.wf()) by {
                assert(forall|s2: Seq<char>, o2: Seq<char>|
                    pre.allowance_present(s2, o2) ==> #[trigger] self.allowance_present(s2, o2));
            }
        }
        true
    }

    /// Journals a storage-registration check for `account_id` on the
    /// fungible-token ledger at `erc20_address` and reports `true` at once;
    /// the actual answer arrives later at `ft_storage_balance_of_callback`.
    pub fn is_account_registered_for_ft(
        &mut self,
        account_id: &String,
        erc20_address: &String,
    ) -> (r: bool)
        ensures
            r == true,
            final(self).pending_requests@ == old(self).pending_requests@.push(
                (OutboundRequest::StorageBalanceQuery {
                    ledger: *erc20_address,
                    account: *account_id,
                }),
            ),
            *final(self) == (L2eTop {
                pending_requests: final(self).pending_requests,
                ..*old(self)
            }),
    {
        self.pending_requests.push(
            OutboundRequest::StorageBalanceQuery {
                ledger: erc20_address.clone(),
                account: account_id.clone(),
            },
        );
        true
    }

    /// Continuation of a mint request: passes the minted token through on
    /// success and reports nothing on failure.  The records committed at
    /// approval time are not rolled back on failure — the outcome is only
    /// observed.
    pub fn nft_mint_callback(&self, call_result: Result<MintedToken, CallFailure>) -> (r: Option<
        MintedToken,
    >)
        ensures
            r == (match call_result {
                Ok(t) => Some(t),
                Err(_) => None,
            }),
    {
        match call_result {
            Ok(t) => Some(t),
            Err(_) => None,
        }
    }

    /// Continuation of a storage-registration check: when the check itself
    /// failed, reports nothing; when the spender turned out unregistered,
    /// journals a registration request and reports nothing; when registered,
    /// passes the reported balance through.
    pub fn ft_storage_balance_of_callback(
        &mut self,
        erc20_address: &String,
        spender: &String,
        call_result: Result<Option<StorageBalanceInfo>, CallFailure>,
    ) -> (r: Option<StorageBalanceInfo>)
        ensures
            r == (match call_result {
                Ok(b) => b,
                Err(_) => None,
            }),
            call_result matches Ok(None) ==> final(self).pending_requests@ == old(
                self,
            ).pending_requests@.push(
                (OutboundRequest::StorageDeposit {
                    ledger: *erc20_address,
                    account: *spender,
                    registration_only: true,
                }),
            ) && *final(self) == (L2eTop {
                pending_requests: final(self).pending_requests,
                ..*old(self)
            }),
            !(call_result matches Ok(None)) ==> *final(self) == *old(self),
    {
        match call_result {
            Ok(b) => {
                if b.is_none() {
                    self.pending_requests.push(
                        OutboundRequest::StorageDeposit {
                            ledger: erc20_address.clone(),
                            account: spender.clone(),
                            registration_only: true,
                        },
                    );
                }
                b
            },
            Err(_) => None,
        }
    }

    /// Continuation of a registration request: reports whether it succeeded.
    pub fn storage_deposit_callback(
        &self,
        call_result: Result<StorageBalanceInfo, CallFailure>,
    ) -> (r: Option<bool>)
        ensures
            r == (match call_result {
                Ok(_) => Some(true),
                Err(_) => None,
            }),
    {
        match call_result {
            Ok(_) => Some(true),
            Err(_) => None,
        }
    }

    /// Continuation of a receipt approval request: the outcome is only
    /// observed (the shell reports a failure in its log); nothing is decided
    /// here.
    #[allow(unused_variables)]
    pub fn nft_approve_callback(&self, call_result: Result<Vec<u8>, CallFailure>) {
    }

    /// Continuation of a receipt transfer request: the outcome is only
    /// observed; the claimed flag set at claim time is not rolled back on
    /// failure.
    #[allow(unused_variables)]
    pub fn nft_transfer_callback(&self, call_result: Result<(), CallFailure>) {
    }

    /// Continuation of a fungible-token transfer request: the outcome is only
    /// observed; the payout is neither retried nor compensated on failure.
    #[allow(unused_variables)]
    pub fn ft_transfer_callback(&self, call_result: Result<(), CallFailure>) {
    }

    /// Hands the journalled requests to the dispatching shell, leaving the
    /// journal empty; nothing else moves.
    pub fn take_pending_requests(&mut self) -> (r: Vec<OutboundRequest>)
        ensures
            r@ == old(self).pending_requests@,
            final(self).pending_requests@ == Seq::<OutboundRequest>::empty(),
            *final(self) == (L2eTop {
                pending_requests: final(self).pending_requests,
                ..*old(self)
            }),
    {
        let mut out: Vec<OutboundRequest> = Vec::new();
        core::mem::swap(&mut out, &mut self.pending_requests);
        out
    }
}

} // verus!
