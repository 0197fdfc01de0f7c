//! The activity assembler.
//!
//! Combines the signature listing with the per-signature lookup results
//! into the normalized output records, preserving the listing order.  A
//! signature whose transaction lookup failed still yields a record: its
//! delta and fee are unknown, everything else comes from the signature
//! record itself.  This is the partial-failure policy — one bad lookup
//! never fails the whole request.

use vstd::prelude::*;

use crate::address::Address;
use crate::delta::compute_delta;
use crate::delta::spec_delta;
use crate::timefmt::format_block_time;
use crate::timefmt::spec_block_time_label;
use crate::types::ActivityRecord;
use crate::types::ActivityStatus;
use crate::types::ConfirmationStatus;
use crate::types::SignatureRecord;
use crate::types::TransactionDetail;

verus! {

/// The outcome a signature record stands for, derived solely from its
/// on-chain error indicator.
pub open spec fn spec_status(sig: SignatureRecord) -> ActivityStatus {
    if sig.err is Some {
        ActivityStatus::Failed
    } else {
        ActivityStatus::Success
    }
}

/// The human-readable name of a finality level.
pub open spec fn confirmation_label(c: ConfirmationStatus) -> Seq<char> {
    match c {
        ConfirmationStatus::Processed => "Processed"@,
        ConfirmationStatus::Confirmed => "Confirmed"@,
        ConfirmationStatus::Finalized => "Finalized"@,
    }
}

/// The fee a lookup result carries: absent without a result or without
/// metadata in it.
pub open spec fn spec_fee(det: Option<TransactionDetail>) -> Option<u64> {
    match det {
        Some(tx) => (match tx.meta {
            Some(m) => Some(m.fee),
            None => None,
        }),
        None => None,
    }
}

/// How one output record relates to the signature record and the lookup
/// result it was assembled from.
pub open spec fn record_matches(
    sig: SignatureRecord,
    det: Option<TransactionDetail>,
    addr: Address,
    rec: ActivityRecord,
) -> bool {
    &&& rec.signature@ == sig.signature@
    &&& rec.timestamp == sig.block_time
    &&& rec.slot == sig.slot
    &&& (match (rec.confirmation_status, sig.confirmation_status) {
        (Some(label), Some(c)) => label@ == confirmation_label(c),
        (None, None) => true,
        _ => false,
    })
    &&& rec.lamports_delta == (match det {
        Some(tx) => spec_delta(tx, addr.b58@),
        None => None::<i128>,
    })
    &&& rec.fee == spec_fee(det)
    &&& rec.status == spec_status(sig)
    &&& (match (rec.block_time, sig.block_time) {
        (Some(label), Some(ts)) => label@ == spec_block_time_label(ts as int),
        (None, None) => true,
        _ => false,
    })
}

/// Derive the two-valued outcome from the on-chain error indicator alone.
pub fn status_of(sig: &SignatureRecord) -> (r: ActivityStatus)
    ensures
        r == spec_status(*sig),
{
    match &sig.err {
        Some(_) => ActivityStatus::Failed,
        None => ActivityStatus::Success,
    }
}

/// The string form of the two-valued outcome, as it appears in responses.
pub fn status_label(status: &ActivityStatus) -> (r: String)
    ensures
        status == ActivityStatus::Success ==> r@ == "success"@,
        status == ActivityStatus::Failed ==> r@ == "failed"@,
{
    match status {
        ActivityStatus::Success => "success".to_owned(),
        ActivityStatus::Failed => "failed".to_owned(),
    }
}

/// The human-readable name of a finality level.
pub fn confirmation_status_label(c: &ConfirmationStatus) -> (r: String)
    ensures
        r@ == confirmation_label(*c),
{
    match c {
        ConfirmationStatus::Processed => "Processed".to_owned(),
        ConfirmationStatus::Confirmed => "Confirmed".to_owned(),
        ConfirmationStatus::Finalized => "Finalized".to_owned(),
    }
}

/// Assemble one output record from a signature record and the result of
/// its transaction lookup, which is `None` whenever the lookup failed for
/// any reason.
pub fn assemble_record(
    sig: &SignatureRecord,
    det: &Option<TransactionDetail>,
    address: &Address,
) -> (r: ActivityRecord)
    ensures
        record_matches(*sig, *det, *address, r),
{
    let lamports_delta = match det {
        Some(tx) => compute_delta(tx, address),
        None => None,
    };
    let fee = match det {
        Some(tx) => (match &tx.meta {
            Some(m) => Some(m.fee),
            None => None,
        }),
        None => None,
    };
    let confirmation_status = match &sig.confirmation_status {
        Some(c) => Some(confirmation_status_label(c)),
        None => None,
    };
    let block_time = match &sig.block_time {
        Some(ts) => Some(format_block_time(*ts)),
        None => None,
    };
    ActivityRecord {
        signature: sig.signature.clone(),
        timestamp: sig.block_time,
        slot: sig.slot,
        confirmation_status,
        lamports_delta,
        fee,
        status: status_of(sig),
        block_time,
    }
}

/// Assemble the whole response: one record per listed signature, in the
/// listing order.  `details` carries, at each position, the lookup result
/// of the signature at the same position, or `None` if that lookup failed.
pub fn assemble_activities(
    address: &Address,
    sigs: &Vec<SignatureRecord>,
    details: &Vec<Option<TransactionDetail>>,
) -> (r: Vec<ActivityRecord>)
    requires
        sigs@.len() == details@.len(),
    ensures
        r@.len() == sigs@.len(),
        forall|i: int|
            0 <= i < sigs@.len() ==> record_matches(sigs@[i], details@[i], *address, r@[i]),
{
    let n: usize = sigs.len();
    let mut records: Vec<ActivityRecord> = Vec::new();
    let mut i: usize = 0;
    while i < n
        invariant
            n == sigs@.len(),
            n == details@.len(),
            i <= n,
            records@.len() == i,
            forall|j: int|
                0 <= j < i ==> record_matches(sigs@[j], details@[j], *address, records@[j]),
        decreases n - i,
    {
        let rec = assemble_record(&sigs[i], &details[i], address);
        records.push(rec);
        i += 1;
    }
    records
}

/// Law: output order matches listing order — the record at each position
/// carries the signature listed at that same position, however the lookups
/// were scheduled.
pub proof fn lemma_output_follows_listing_order(
    sigs: Seq<SignatureRecord>,
    details: Seq<Option<TransactionDetail>>,
    addr: Address,
    records: Seq<ActivityRecord>,
)
    requires
        records.len() == sigs.len(),
        forall|i: int| 0 <= i < sigs.len() ==> record_matches(sigs[i], details[i], addr, records[i]),
    ensures
        forall|i: int| 0 <= i < sigs.len() ==> records[i].signature@ == sigs[i].signature@,
{
}

/// Law: the outcome field of an assembled record answers exactly to the
/// presence of the on-chain error indicator — independent of whether the
/// transaction lookup succeeded.
pub proof fn lemma_status_from_error_indicator(
    sig: SignatureRecord,
    det: Option<TransactionDetail>,
    addr: Address,
    rec: ActivityRecord,
)
    requires
        record_matches(sig, det, addr, rec),
    ensures
        rec.status == ActivityStatus::Failed <==> sig.err is Some,
        rec.status == ActivityStatus::Success <==> sig.err is None,
{
}

/// Law: two records assembled from the same signature record carry the
/// same outcome, whatever became of either transaction lookup.
pub proof fn lemma_status_independent_of_lookup(
    sig: SignatureRecord,
    det1: Option<TransactionDetail>,
    det2: Option<TransactionDetail>,
    addr: Address,
    rec1: ActivityRecord,
    rec2: ActivityRecord,
)
    requires
        record_matches(sig, det1, addr, rec1),
        record_matches(sig, det2, addr, rec2),
    ensures
        rec1.status == rec2.status,
{
}

} // verus!
