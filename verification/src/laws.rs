//! The protocol's laws, each stated over the spec functions that the
//! operations' contracts use and proved from them.

use vstd::prelude::*;

use crate::ledger::{
    contains_account, lemma_allowance_at, lemma_receipt_at, spec_approve_effect,
    spec_claim_receipt_effect, L2eTop,
};
use crate::requests::ReceiptMetadata;
use crate::text::dec_digits;

verus! {

/// After an accepted approval, the allowance query reports exactly the
/// approved amounts for the pair, and exactly one receipt record — unclaimed,
/// carrying the fresh identifier — exists for it.
pub proof fn lemma_approve_establishes_claim(
    pre: L2eTop,
    post: L2eTop,
    owner: String,
    spender: String,
    main: u128,
    ft: u128,
    attached: u128,
    metadata: Option<ReceiptMetadata>,
    e20: Option<String>,
    e721: Option<String>,
)
    requires
        pre.wf(),
        post.wf(),
        pre.spec_approve_allowed(owner@, spender@, main, attached),
        spec_approve_effect(pre, post, owner, spender, main, ft, metadata, e20, e721),
    ensures
        post.spec_query_allowance(spender@, owner@) == Some((main, ft)),
        post.spec_receipt(owner@, spender@) matches Some(e) && !e.claimed && e.token_id@
            == dec_digits((pre.token_id_num + 1) as nat),
        forall|k: int, j1: int, j2: int|
            0 <= k < post.nfts@.len() && post.nfts@[k].owner@ == owner@ && 0 <= j1
                < post.nfts@[k].entries@.len() && 0 <= j2 < post.nfts@[k].entries@.len()
                && (#[trigger] post.nfts@[k].entries@[j1]).spender@ == spender@
                && (#[trigger] post.nfts@[k].entries@[j2]).spender@ == spender@ ==> j1 == j2,
{
    // the allowance record sits at a concrete position of the spender's row
    if pre.has_spender_row(spender@) {
        let i = choose|i: int|
            0 <= i < pre.balances@.len() && pre.balances@[i].spender@ == spender@;
        let jn = pre.balances@[i].entries@.len() as int;
        assert(post.balances@[i].entries@[jn].owner@ == owner@);
        lemma_allowance_at(post, i, jn);
        assert(post.has_spender_row(spender@));
    } else {
        let ib = pre.balances@.len() as int;
        assert(post.balances@[ib].entries@[0].owner@ == owner@);
        lemma_allowance_at(post, ib, 0);
        assert(post.has_spender_row(spender@));
    }
    // the receipt record sits at the end of the owner's row
    let k = choose|k: int| 0 <= k < pre.nfts@.len() && pre.nfts@[k].owner@ == owner@;
    let jr = pre.nfts@[k].entries@.len() as int;
    assert(post.nfts@[k].owner@ == owner@);
    assert(post.nfts@[k].entries@[jr].spender@ == spender@);
    lemma_receipt_at(post, k, jr);
}

/// A second approval for the same (spender, owner) pair is rejected whatever
/// amounts it offers: the pair's allowance record persists.
pub proof fn lemma_second_approve_rejected(
    pre: L2eTop,
    post: L2eTop,
    owner: String,
    spender: String,
    main: u128,
    ft: u128,
    attached: u128,
    metadata: Option<ReceiptMetadata>,
    e20: Option<String>,
    e721: Option<String>,
)
    requires
        pre.wf(),
        post.wf(),
        pre.spec_approve_allowed(owner@, spender@, main, attached),
        spec_approve_effect(pre, post, owner, spender, main, ft, metadata, e20, e721),
    ensures
        forall|m2: u128, a2: u128| !post.spec_approve_allowed(owner@, spender@, m2, a2),
{
    if pre.has_spender_row(spender@) {
        let i = choose|i: int|
            0 <= i < pre.balances@.len() && pre.balances@[i].spender@ == spender@;
        let jn = pre.balances@[i].entries@.len() as int;
        assert(post.balances@[i].entries@[jn].owner@ == owner@);
        assert(post.allowance_present(spender@, owner@));
    } else {
        let ib = pre.balances@.len() as int;
        assert(post.balances@[ib].entries@[0].owner@ == owner@);
        assert(post.allowance_present(spender@, owner@));
    }
}

/// A balance claim is accepted only when some prior receipt claim has marked
/// the pair's receipt record claimed: while every record of the pair is
/// unclaimed, the claim is rejected.
pub proof fn lemma_claim_balances_needs_prior_claim(s: L2eTop, owner: Seq<char>, spender: Seq<char>)
    requires
        s.wf(),
        forall|k: int, j: int|
            0 <= k < s.nfts@.len() && 0 <= j < s.nfts@[k].entries@.len() && s.nfts@[k].owner@
                == owner && (#[trigger] s.nfts@[k].entries@[j]).spender@ == spender
                ==> !s.nfts@[k].entries@[j].claimed,
    ensures
        !s.spec_claim_balances_allowed(owner, spender),
{
    if s.spec_claim_balances_allowed(owner, spender) {
        let (k2, j2) = choose|k2: int, j2: int|
            0 <= k2 < s.nfts@.len() && 0 <= j2 < s.nfts@[k2].entries@.len() && s.nfts@[k2].owner@
                == owner && s.nfts@[k2].entries@[j2].spender@ == spender;
        assert(!s.nfts@[k2].entries@[j2].claimed);
        assert(false);
    }
}

/// A receipt claim succeeds at most once per pair: after an accepted claim
/// the pair has no unclaimed record left (a second claim is rejected), the
/// balance claim is unlocked, and the accepted claim journalled exactly one
/// new transfer request.
pub proof fn lemma_claim_receipt_once(
    pre: L2eTop,
    post: L2eTop,
    owner: String,
    spender: String,
    e721: Option<String>,
)
    requires
        pre.wf(),
        post.wf(),
        pre.spec_claim_receipt_allowed(owner@, spender@),
        spec_claim_receipt_effect(pre, post, owner, spender, e721),
    ensures
        !post.spec_claim_receipt_allowed(owner@, spender@),
        post.spec_claim_balances_allowed(owner@, spender@),
        post.pending_requests@.len() == pre.pending_requests@.len() + 1,
{
    let (k, j) = choose|k: int, j: int|
        0 <= k < pre.nfts@.len() && 0 <= j < pre.nfts@[k].entries@.len() && pre.nfts@[k].owner@
            == owner@ && pre.nfts@[k].entries@[j].spender@ == spender@;
    assert(post.nfts@[k].owner@ == owner@);
    assert(post.nfts@[k].entries@[j].spender@ == pre.nfts@[k].entries@[j].spender@);
    assert(post.nfts@[k].entries@[j].claimed == true);
    lemma_receipt_at(post, k, j);
}

/// Administrator membership never shrinks: whatever an `add_admin_address`
/// call does, every administrator stays one, and a call by a non-member
/// changes nothing at all.
pub proof fn lemma_admin_set_monotonic(
    pre: L2eTop,
    post: L2eTop,
    caller: String,
    candidate: String,
    r: bool,
)
    requires
        r == (contains_account(pre.admin_address@, caller@) && !contains_account(
            pre.admin_address@,
            candidate@,
        )),
        r ==> post.admin_address@ == pre.admin_address@.push(candidate),
        !r ==> post == pre,
    ensures
        forall|a: Seq<char>|
            contains_account(pre.admin_address@, a) ==> contains_account(post.admin_address@, a),
        !contains_account(pre.admin_address@, caller@) ==> post == pre,
{
    assert forall|a: Seq<char>|
        contains_account(pre.admin_address@, a) implies contains_account(
        post.admin_address@,
        a,
    ) by {
        let i = choose|i: int| 0 <= i < pre.admin_address@.len() && pre.admin_address@[i]@ == a;
        assert(post.admin_address@[i]@ == a);
    }
}

} // verus!
