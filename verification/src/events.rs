//! Structured event records and their serialized form.
//!
//! Every mutating query of the ledger emits one [`EventLog`] record.  The
//! serialized form is the `EVENT_JSON:` marker followed by one JSON object
//! holding the standard name, the version, the event kind and its payload;
//! [`spec_event_json`] states that form character by character, and
//! [`EventLog::to_string`] is proved to produce exactly it.

use vstd::prelude::*;

use crate::text::{esc_seq, push_char, push_escaped};

verus! {

/// The payload of an event record.
#[derive(Clone, Debug, PartialEq, Eq)]
pub enum EventLogVariant {
    /// The registered fungible-token collaborator addresses.
    FTAddress(Vec<String>),
    /// The registered non-fungible-token collaborator addresses.
    NFTAddress(Vec<String>),
    /// The administrator set.
    AdminAddress(Vec<String>),
    /// The authorized-owner set.
    AuthOwnerAddress(Vec<String>),
    /// Per spender: receipt identifier and claimed flag, under one owner.
    AllSpenderClaimedForOwner(Vec<(String, String, bool)>),
    /// Per owner: native and fungible amounts, under one spender.
    AllOwnerRewardsForSpender(Vec<(String, String, String)>),
    /// An allowance query was served; the record carries no payload.
    AllowancesForSpender,
    /// A receipt token moved to a spender.
    TransferNftFrom(Vec<NftTransferLog>),
    /// Escrowed balances moved to a spender.
    TransferBalacnesFrom(Vec<BalacnesTransferLog>),
}

/// One event record: the standard name and version of the emitting program,
/// and the event payload.
#[derive(Clone, Debug, PartialEq, Eq)]
pub struct EventLog {
    pub standard: String,
    pub version: String,
    pub event: EventLogVariant,
}

/// Details of a receipt-token transfer.
#[derive(Clone, Debug, PartialEq, Eq)]
pub struct NftTransferLog {
    pub authorized_id: Option<String>,
    pub old_owner_id: String,
    pub new_owner_id: String,
    pub token_ids: Vec<String>,
    pub memo: Option<String>,
}

/// Details of a balance payout.
#[derive(Clone, Debug, PartialEq, Eq)]
pub struct BalacnesTransferLog {
    pub authorized_id: Option<String>,
    pub old_owner_id: String,
    pub new_owner_id: String,
    pub main_token_amount: Vec<String>,
    pub ft_token_amount: Vec<String>,
    pub memo: Option<String>,
}

/// The JSON string literal rendering `s`: quoted, with the body escaped.
pub open spec fn json_str(s: Seq<char>) -> Seq<char> {
    seq!['"'] + esc_seq(s) + seq!['"']
}

/// The JSON rendering of a boolean.
pub open spec fn json_bool(b: bool) -> Seq<char> {
    if b {
        "true"@
    } else {
        "false"@
    }
}

/// The views of a list of strings.
pub open spec fn str_views(v: Seq<String>) -> Seq<Seq<char>> {
    Seq::new(v.len(), |i: int| v[i]@)
}

/// The comma-separated JSON string literals of `v`.
pub open spec fn json_str_list(v: Seq<Seq<char>>) -> Seq<char>
    decreases v.len(),
{
    if v.len() == 0 {
        Seq::empty()
    } else if v.len() == 1 {
        json_str(v[0])
    } else {
        json_str_list(v.drop_last()) + seq![','] + json_str(v.last())
    }
}

/// The JSON array of string literals of `v`.
pub open spec fn json_str_array(v: Seq<Seq<char>>) -> Seq<char> {
    seq!['['] + json_str_list(v) + seq![']']
}

/// The JSON rendering of one (spender, receipt identifier, claimed) triple.
pub open spec fn json_claim_triple(t: (String, String, bool)) -> Seq<char> {
    seq!['['] + json_str(t.0@) + seq![','] + json_str(t.1@) + seq![','] + json_bool(t.2)
        + seq![']']
}

/// The comma-separated renderings of claim triples.
pub open spec fn json_claim_list(v: Seq<(String, String, bool)>) -> Seq<char>
    decreases v.len(),
{
    if v.len() == 0 {
        Seq::empty()
    } else if v.len() == 1 {
        json_claim_triple(v[0])
    } else {
        json_claim_list(v.drop_last()) + seq![','] + json_claim_triple(v.last())
    }
}

/// The JSON rendering of one (owner, native amount, fungible amount) triple.
pub open spec fn json_reward_triple(t: (String, String, String)) -> Seq<char> {
    seq!['['] + json_str(t.0@) + seq![','] + json_str(t.1@) + seq![','] + json_str(t.2@)
        + seq![']']
}

/// The comma-separated renderings of reward triples.
pub open spec fn json_reward_list(v: Seq<(String, String, String)>) -> Seq<char>
    decreases v.len(),
{
    if v.len() == 0 {
        Seq::empty()
    } else if v.len() == 1 {
        json_reward_triple(v[0])
    } else {
        json_reward_list(v.drop_last()) + seq![','] + json_reward_triple(v.last())
    }
}

/// The JSON object rendering one receipt-transfer detail record.  Optional
/// fields are left out entirely when absent.
pub open spec fn json_nft_log(l: NftTransferLog) -> Seq<char> {
    seq!['{'] + (match l.authorized_id {
        Some(a) => "\"authorized_id\":"@ + json_str(a@) + seq![','],
        None => Seq::<char>::empty(),
    }) + "\"old_owner_id\":"@ + json_str(l.old_owner_id@) + ",\"new_owner_id\":"@ + json_str(
        l.new_owner_id@,
    ) + ",\"token_ids\":"@ + json_str_array(str_views(l.token_ids@)) + (match l.memo {
        Some(m) => ",\"memo\":"@ + json_str(m@),
        None => Seq::<char>::empty(),
    }) + seq!['}']
}

/// The comma-separated renderings of receipt-transfer detail records.
pub open spec fn json_nft_log_list(v: Seq<NftTransferLog>) -> Seq<char>
    decreases v.len(),
{
    if v.len() == 0 {
        Seq::empty()
    } else if v.len() == 1 {
        json_nft_log(v[0])
    } else {
        json_nft_log_list(v.drop_last()) + seq![','] + json_nft_log(v.last())
    }
}

/// The JSON object rendering one balance-payout detail record.
pub open spec fn json_bal_log(l: BalacnesTransferLog) -> Seq<char> {
    seq!['{'] + (match l.authorized_id {
        Some(a) => "\"authorized_id\":"@ + json_str(a@) + seq![','],
        None => Seq::<char>::empty(),
    }) + "\"old_owner_id\":"@ + json_str(l.old_owner_id@) + ",\"new_owner_id\":"@ + json_str(
        l.new_owner_id@,
    ) + ",\"main_token_amount\":"@ + json_str_array(str_views(l.main_token_amount@))
        + ",\"ft_token_amount\":"@ + json_str_array(str_views(l.ft_token_amount@)) + (match l.memo {
        Some(m) => ",\"memo\":"@ + json_str(m@),
        None => Seq::<char>::empty(),
    }) + seq!['}']
}

/// The comma-separated renderings of balance-payout detail records.
pub open spec fn json_bal_log_list(v: Seq<BalacnesTransferLog>) -> Seq<char>
    decreases v.len(),
{
    if v.len() == 0 {
        Seq::empty()
    } else if v.len() == 1 {
        json_bal_log(v[0])
    } else {
        json_bal_log_list(v.drop_last()) + seq![','] + json_bal_log(v.last())
    }
}

/// The event-kind tag and payload part of the serialized record.
pub open spec fn spec_variant_json(v: EventLogVariant) -> Seq<char> {
    match v {
        EventLogVariant::FTAddress(a) => "\"event\":\"f_t_address\",\"data\":"@ + json_str_array(
            str_views(a@),
        ),
        EventLogVariant::NFTAddress(a) => "\"event\":\"n_f_t_address\",\"data\":"@
            + json_str_array(str_views(a@)),
        EventLogVariant::AdminAddress(a) => "\"event\":\"admin_address\",\"data\":"@
            + json_str_array(str_views(a@)),
        EventLogVariant::AuthOwnerAddress(a) => "\"event\":\"auth_owner_address\",\"data\":"@
            + json_str_array(str_views(a@)),
        EventLogVariant::AllSpenderClaimedForOwner(ts) =>
            "\"event\":\"all_spender_claimed_for_owner\",\"data\":["@ + json_claim_list(ts@)
            + seq![']'],
        EventLogVariant::AllOwnerRewardsForSpender(ts) =>
            "\"event\":\"all_owner_rewards_for_spender\",\"data\":["@ + json_reward_list(ts@)
            + seq![']'],
        EventLogVariant::AllowancesForSpender => "\"event\":\"allowances_for_spender\""@,
        EventLogVariant::TransferNftFrom(ls) => "\"event\":\"transfer_nft_from\",\"data\":["@
            + json_nft_log_list(ls@) + seq![']'],
        EventLogVariant::TransferBalacnesFrom(ls) =>
            "\"event\":\"transfer_balacnes_from\",\"data\":["@ + json_bal_log_list(ls@)
            + seq![']'],
    }
}

/// The whole serialized record: the `EVENT_JSON:` marker and one JSON object
/// with the standard name, the version, and the event kind and payload.
pub open spec fn spec_event_json(e: EventLog) -> Seq<char> {
    "EVENT_JSON:{\"standard\":"@ + json_str(e.standard@) + ",\"version\":"@ + json_str(e.version@)
        + seq![','] + spec_variant_json(e.event) + seq!['}']
}

fn push_json_str(out: &mut String, s: &str)
    ensures
        final(out)@ == old(out)@ + json_str(s@),
{
    push_char(out, '"');
    push_escaped(out, s);
    push_char(out, '"');
    proof {
        assert(out@ =~= old(out)@ + json_str(s@));
    }
}

fn push_json_str_array(out: &mut String, v: &Vec<String>)
    ensures
        final(out)@ == old(out)@ + json_str_array(str_views(v@)),
{
    push_char(out, '[');
    let mut j: usize = 0;
    while j < v.len()
        invariant
            j <= v.len(),
            out@ == old(out)@ + seq!['['] + json_str_list(str_views(v@.subrange(0, j as int))),
        decreases v.len() - j,
    {
        if j > 0 {
            push_char(out, ',');
        }
        push_json_str(out, v[j].as_str());
        proof {
            let pfx = str_views(v@.subrange(0, j as int));
            let pfx1 = str_views(v@.subrange(0, j + 1));
            assert(pfx1.drop_last() =~= pfx);
            assert(pfx1.last() == v@[j as int]@);
            assert(out@ =~= old(out)@ + seq!['['] + json_str_list(pfx1));
        }
        j += 1;
    }
    push_char(out, ']');
    proof {
        assert(v@.subrange(0, v@.len() as int) =~= v@);
        assert(str_views(v@.subrange(0, v@.len() as int)) =~= str_views(v@));
        assert(out@ =~= old(out)@ + json_str_array(str_views(v@)));
    }
}

fn push_bool(out: &mut String, b: bool)
    ensures
        final(out)@ == old(out)@ + json_bool(b),
{
    if b {
        out.append("true");
    } else {
        out.append("false");
    }
}

fn push_claim_list(out: &mut String, v: &Vec<(String, String, bool)>)
    ensures
        final(out)@ == old(out)@ + json_claim_list(v@),
{
    let mut j: usize = 0;
    while j < v.len()
        invariant
            j <= v.len(),
            out@ == old(out)@ + json_claim_list(v@.subrange(0, j as int)),
        decreases v.len() - j,
    {
        if j > 0 {
            push_char(out, ',');
        }
        push_char(out, '[');
        push_json_str(out, v[j].0.as_str());
        push_char(out, ',');
        push_json_str(out, v[j].1.as_str());
        push_char(out, ',');
        push_bool(out, v[j].2);
        push_char(out, ']');
        proof {
            assert(v@.subrange(0, j + 1).drop_last() =~= v@.subrange(0, j as int));
            assert(v@.subrange(0, j + 1).last() == v@[j as int]);
            assert(out@ =~= old(out)@ + json_claim_list(v@.subrange(0, j + 1)));
        }
        j += 1;
    }
    proof {
        assert(v@.subrange(0, v@.len() as int) =~= v@);
    }
}

fn push_reward_list(out: &mut String, v: &Vec<(String, String, String)>)
    ensures
        final(out)@ == old(out)@ + json_reward_list(v@),
{
    let mut j: usize = 0;
    while j < v.len()
        invariant
            j <= v.len(),
            out@ == old(out)@ + json_reward_list(v@.subrange(0, j as int)),
        decreases v.len() - j,
    {
        if j > 0 {
            push_char(out, ',');
        }
        push_char(out, '[');
        push_json_str(out, v[j].0.as_str());
        push_char(out, ',');
        push_json_str(out, v[j].1.as_str());
        push_char(out, ',');
        push_json_str(out, v[j].2.as_str());
        push_char(out, ']');
        proof {
            assert(v@.subrange(0, j + 1).drop_last() =~= v@.subrange(0, j as int));
            assert(v@.subrange(0, j + 1).last() == v@[j as int]);
            assert(out@ =~= old(out)@ + json_reward_list(v@.subrange(0, j + 1)));
        }
        j += 1;
    }
    proof {
        assert(v@.subrange(0, v@.len() as int) =~= v@);
    }
}

fn push_nft_log(out: &mut String, l: &NftTransferLog)
    ensures
        final(out)@ == old(out)@ + json_nft_log(*l),
{
    push_char(out, '{');
    match &l.authorized_id {
        Some(a) => {
            out.append("\"authorized_id\":");
            push_json_str(out, a.as_str());
            push_char(out, ',');
        },
        None => {},
    }
    out.append("\"old_owner_id\":");
    push_json_str(out, l.old_owner_id.as_str());
    out.append(",\"new_owner_id\":");
    push_json_str(out, l.new_owner_id.as_str());
    out.append(",\"token_ids\":");
    push_json_str_array(out, &l.token_ids);
    match &l.memo {
        Some(m) => {
            out.append(",\"memo\":");
            push_json_str(out, m.as_str());
        },
        None => {},
    }
    push_char(out, '}');
    proof {
        assert(out@ =~= old(out)@ + json_nft_log(*l));
    }
}

#[verifier::rlimit(30)]
fn push_bal_log(out: &mut String, l: &BalacnesTransferLog)
    ensures
        final(out)@ == old(out)@ + json_bal_log(*l),
{
    push_char(out, '{');
    match &l.authorized_id {
        Some(a) => {
            out.append("\"authorized_id\":");
            push_json_str(out, a.as_str());
            push_char(out, ',');
        },
        None => {},
    }
    out.append("\"old_owner_id\":");
    push_json_str(out, l.old_owner_id.as_str());
    out.append(",\"new_owner_id\":");
    push_json_str(out, l.new_owner_id.as_str());
    out.append(",\"main_token_amount\":");
    push_json_str_array(out, &l.main_token_amount);
    out.append(",\"ft_token_amount\":");
    push_json_str_array(out, &l.ft_token_amount);
    match &l.memo {
        Some(m) => {
            out.append(",\"memo\":");
            push_json_str(out, m.as_str());
        },
        None => {},
    }
    push_char(out, '}');
    proof {
        assert(out@ =~= old(out)@ + json_bal_log(*l));
    }
}

fn push_nft_log_list(out: &mut String, v: &Vec<NftTransferLog>)
    ensures
        final(out)@ == old(out)@ + json_nft_log_list(v@),
{
    let mut j: usize = 0;
    while j < v.len()
        invariant
            j <= v.len(),
            out@ == old(out)@ + json_nft_log_list(v@.subrange(0, j as int)),
        decreases v.len() - j,
    {
        if j > 0 {
            push_char(out, ',');
        }
        push_nft_log(out, &v[j]);
        proof {
            assert(v@.subrange(0, j + 1).drop_last() =~= v@.subrange(0, j as int));
            assert(v@.subrange(0, j + 1).last() == v@[j as int]);
            assert(out@ =~= old(out)@ + json_nft_log_list(v@.subrange(0, j + 1)));
        }
        j += 1;
    }
    proof {
        assert(v@.subrange(0, v@.len() as int) =~= v@);
    }
}

fn push_bal_log_list(out: &mut String, v: &Vec<BalacnesTransferLog>)
    ensures
        final(out)@ == old(out)@ + json_bal_log_list(v@),
{
    let mut j: usize = 0;
    while j < v.len()
        invariant
            j <= v.len(),
            out@ == old(out)@ + json_bal_log_list(v@.subrange(0, j as int)),
        decreases v.len() - j,
    {
        if j > 0 {
            push_char(out, ',');
        }
        push_bal_log(out, &v[j]);
        proof {
            assert(v@.subrange(0, j + 1).drop_last() =~= v@.subrange(0, j as int));
            assert(v@.subrange(0, j + 1).last() == v@[j as int]);
            assert(out@ =~= old(out)@ + json_bal_log_list(v@.subrange(0, j + 1)));
        }
        j += 1;
    }
    proof {
        assert(v@.subrange(0, v@.len() as int) =~= v@);
    }
}

impl EventLog {
    /// The serialized record, exactly as [`spec_event_json`] states it.
    pub fn to_string(&self) -> (r: String)
        ensures
            r@ == spec_event_json(*self),
    {
        let mut out = String::new();
        out.append("EVENT_JSON:{\"standard\":");
        push_json_str(&mut out, self.standard.as_str());
        out.append(",\"version\":");
        push_json_str(&mut out, self.version.as_str());
        push_char(&mut out, ',');
        match &self.event {
            EventLogVariant::FTAddress(a) => {
                out.append("\"event\":\"f_t_address\",\"data\":");
                push_json_str_array(&mut out, a);
            },
            EventLogVariant::NFTAddress(a) => {
                out.append("\"event\":\"n_f_t_address\",\"data\":");
                push_json_str_array(&mut out, a);
            },
            EventLogVariant::AdminAddress(a) => {
                out.append("\"event\":\"admin_address\",\"data\":");
                push_json_str_array(&mut out, a);
            },
            EventLogVariant::AuthOwnerAddress(a) => {
                out.append("\"event\":\"auth_owner_address\",\"data\":");
                push_json_str_array(&mut out, a);
            },
            EventLogVariant::AllSpenderClaimedForOwner(ts) => {
                out.append("\"event\":\"all_spender_claimed_for_owner\",\"data\":[");
                push_claim_list(&mut out, ts);
                push_char(&mut out, ']');
            },
            EventLogVariant::AllOwnerRewardsForSpender(ts) => {
                out.append("\"event\":\"all_owner_rewards_for_spender\",\"data\":[");
                push_reward_list(&mut out, ts);
                push_char(&mut out, ']');
            },
            EventLogVariant::AllowancesForSpender => {
                out.append("\"event\":\"allowances_for_spender\"");
            },
            EventLogVariant::TransferNftFrom(ls) => {
                out.append("\"event\":\"transfer_nft_from\",\"data\":[");
                push_nft_log_list(&mut out, ls);
                push_char(&mut out, ']');
            },
            EventLogVariant::TransferBalacnesFrom(ls) => {
                out.append("\"event\":\"transfer_balacnes_from\",\"data\":[");
                push_bal_log_list(&mut out, ls);
                push_char(&mut out, ']');
            },
        }
        push_char(&mut out, '}');
        proof {
            assert(out@ =~= spec_event_json(*self));
        }
        out
    }
}

} // verus!
