//! What holds of the operations taken together, stated over the same spec
//! functions as the operations' own contracts.

use vstd::prelude::*;
use crate::error::{CertificateError, IssuanceError, PaymentError};
use crate::gate::{expired, gate_decision};
use crate::identity::Identity;
use crate::instructions::add_collection::add_collection_step;
use crate::instructions::mint_certificates::mint_step;
use crate::instructions::register_college::register_step;
use crate::instructions::renew_subscription::renew_step;
use crate::instructions::update_parameter::updated;
use crate::state::college::{CollectionInfoView, CollegeAccountView, MAX_COLLECTIONS};
use crate::state::protocol::MetaverfAccount;

verus! {

/// Adding a collection keeps a college's record within its invariant: however
/// the call ends, the record afterwards holds at most ten collections, each
/// with metadata within its bounds.
pub proof fn add_collection_keeps_limit(
    caller: Identity,
    college: CollegeAccountView,
    subscription_duration: i64,
    now: i64,
    info: CollectionInfoView,
    issued: Result<(), IssuanceError>,
)
    requires
        college.wf(),
        info.wf(),
    ensures
        add_collection_step(caller, college, subscription_duration, now, info, issued).1.wf(),
        add_collection_step(
            caller,
            college,
            subscription_duration,
            now,
            info,
            issued,
        ).1.collections.len() <= MAX_COLLECTIONS,
{
}

/// A college that already holds ten collections (or more) gets no further
/// one: the call fails and the record stays as it was, whatever the issuance
/// service answered. For an authorized caller of an active college the error is
/// `CollectionLimitReached`.
pub proof fn full_college_takes_no_collection(
    caller: Identity,
    college: CollegeAccountView,
    subscription_duration: i64,
    now: i64,
    info: CollectionInfoView,
    issued: Result<(), IssuanceError>,
)
    requires
        college.collections.len() >= MAX_COLLECTIONS,
    ensures
        add_collection_step(caller, college, subscription_duration, now, info, issued).0 is Err,
        add_collection_step(caller, college, subscription_duration, now, info, issued).1 == college,
        gate_decision(caller, college, subscription_duration, now) is Ok ==> add_collection_step(
            caller,
            college,
            subscription_duration,
            now,
            info,
            issued,
        ).0 == Err::<CollectionInfoView, CertificateError>(
            CertificateError::CollectionLimitReached,
        ),
{
}

/// One attempt to register: whether the place of the college's record was
/// already taken, and what the payment service answered.
pub struct Attempt {
    pub taken: bool,
    pub payment: Result<(), PaymentError>,
}

/// The ledger after a run of attempts to register, one after the other, and
/// the ids of those that succeeded, in order.
pub open spec fn registrations(ledger: MetaverfAccount, attempts: Seq<Attempt>) -> (
    MetaverfAccount,
    Seq<u16>,
)
    decreases attempts.len(),
{
    if attempts.len() == 0 {
        (ledger, Seq::empty())
    } else {
        let (before, ids) = registrations(ledger, attempts.drop_last());
        let (r, after) = register_step(before, attempts.last().taken, attempts.last().payment);
        match r {
            Ok(id) => (after, ids.push(id)),
            Err(_) => (after, ids),
        }
    }
}

/// Each college that registers gets as its id the count of colleges before
/// it plus one, and the count goes up by one with it: after any run of
/// attempts the ids given out are the numbers that follow the count at the
/// start, in order, and the count has grown by the number of successes.
/// Nothing else in the ledger changes.
pub proof fn registrations_count_up(ledger: MetaverfAccount, attempts: Seq<Attempt>)
    ensures
        registrations(ledger, attempts).0.uni_no == ledger.uni_no + registrations(
            ledger,
            attempts,
        ).1.len(),
        forall|i: int|
            0 <= i < registrations(ledger, attempts).1.len() ==> #[trigger] registrations(
                ledger,
                attempts,
            ).1[i] == ledger.uni_no + 1 + i,
        registrations(ledger, attempts).0 == (MetaverfAccount {
            uni_no: registrations(ledger, attempts).0.uni_no,
            ..ledger
        }),
    decreases attempts.len(),
{
    if attempts.len() > 0 {
        registrations_count_up(ledger, attempts.drop_last());
    }
}

/// No two colleges get the same id.
pub proof fn registration_ids_differ(
    ledger: MetaverfAccount,
    attempts: Seq<Attempt>,
    i: int,
    j: int,
)
    requires
        0 <= i < j < registrations(ledger, attempts).1.len(),
    ensures
        registrations(ledger, attempts).1[i] != registrations(ledger, attempts).1[j],
{
    registrations_count_up(ledger, attempts);
}

/// On a new ledger, the count after a run of attempts is the number of
/// registrations that succeeded.
pub proof fn count_is_number_registered(ledger: MetaverfAccount, attempts: Seq<Attempt>)
    requires
        ledger.uni_no == 0,
    ensures
        registrations(ledger, attempts).0.uni_no == registrations(ledger, attempts).1.len(),
{
    registrations_count_up(ledger, attempts);
}

/// The authority of an active college cannot mint into a collection that the
/// college does not own: the call fails with `CollectionNotFound`, whatever
/// the issuance service answered.
pub proof fn mint_needs_owned_collection(
    caller: Identity,
    college: CollegeAccountView,
    subscription_duration: i64,
    now: i64,
    collection: Identity,
    asset: Identity,
    issued: Result<(), IssuanceError>,
)
    requires
        gate_decision(caller, college, subscription_duration, now) is Ok,
        !college.owns(collection),
    ensures
        mint_step(caller, college, subscription_duration, now, collection, asset, issued) == Err::<
            Identity,
            CertificateError,
        >(CertificateError::CollectionNotFound),
{
}

/// A caller who is not the college's authority can neither add a collection
/// nor mint: both fail with `NotAuthorized`, whether or not the subscription
/// has run out, and the record stays as it was.
pub proof fn stranger_is_refused(
    caller: Identity,
    college: CollegeAccountView,
    subscription_duration: i64,
    now: i64,
    info: CollectionInfoView,
    collection: Identity,
    asset: Identity,
    issued: Result<(), IssuanceError>,
)
    requires
        caller != college.authority,
    ensures
        add_collection_step(caller, college, subscription_duration, now, info, issued) == (
            Err::<CollectionInfoView, CertificateError>(CertificateError::NotAuthorized),
            college,
        ),
        mint_step(caller, college, subscription_duration, now, collection, asset, issued) == Err::<
            Identity,
            CertificateError,
        >(CertificateError::NotAuthorized),
{
}

/// Once more than a period has gone by since the last payment, the college's
/// own authority is refused with `CollegeNotActive` at the first check, and so by
/// adding a collection and by minting, though the stored flag may still be
/// set.
pub proof fn expired_college_is_refused(
    college: CollegeAccountView,
    subscription_duration: i64,
    now: i64,
    info: CollectionInfoView,
    collection: Identity,
    asset: Identity,
    issued: Result<(), IssuanceError>,
)
    requires
        expired(college.last_payment, subscription_duration, now),
    ensures
        gate_decision(college.authority, college, subscription_duration, now) == Err::<
            (),
            CertificateError,
        >(CertificateError::CollegeNotActive),
        add_collection_step(
            college.authority,
            college,
            subscription_duration,
            now,
            info,
            issued,
        ) == (
            Err::<CollectionInfoView, CertificateError>(CertificateError::CollegeNotActive),
            college,
        ),
        mint_step(
            college.authority,
            college,
            subscription_duration,
            now,
            collection,
            asset,
            issued,
        ) == Err::<Identity, CertificateError>(CertificateError::CollegeNotActive),
{
}

/// Straight after a renewal that was paid for, the college's authority
/// is let through again, whatever the record's state before, as long as the
/// subscription period is not negative.
pub proof fn renewed_college_passes_gate(
    college: CollegeAccountView,
    subscription_duration: i64,
    now: i64,
)
    requires
        subscription_duration >= 0,
    ensures
        renew_step(college, now, Ok(())).0 is Ok,
        gate_decision(
            college.authority,
            renew_step(college, now, Ok(())).1,
            subscription_duration,
            now,
        ) is Ok,
{
}

/// A registration and a change of the fee schedule leave the protocol's
/// admin as it is, and neither lets the count of colleges go down.
pub proof fn ledger_keeps_admin_and_count(
    ledger: MetaverfAccount,
    taken: bool,
    payment: Result<(), PaymentError>,
    annual_fee: Option<u64>,
    subscription_duration: Option<i64>,
)
    ensures
        register_step(ledger, taken, payment).1.admin_key == ledger.admin_key,
        register_step(ledger, taken, payment).1.uni_no >= ledger.uni_no,
        updated(ledger, annual_fee, subscription_duration).admin_key == ledger.admin_key,
        updated(ledger, annual_fee, subscription_duration).uni_no == ledger.uni_no,
{
}

/// A renewal and a new collection leave a college's id and authorities as
/// they are, and its collections in the order in which they were created:
/// what was there stays in place, before anything new.
pub proof fn college_keeps_identity_and_order(
    caller: Identity,
    college: CollegeAccountView,
    subscription_duration: i64,
    now: i64,
    info: CollectionInfoView,
    issued: Result<(), IssuanceError>,
    payment: Result<(), PaymentError>,
)
    ensures
        ({
            let added = add_collection_step(
                caller,
                college,
                subscription_duration,
                now,
                info,
                issued,
            ).1;
            &&& added.id == college.id
            &&& added.authority == college.authority
            &&& added.update_authority == college.update_authority
            &&& college.collections.is_prefix_of(added.collections)
        }),
        ({
            let renewed = renew_step(college, now, payment).1;
            &&& renewed.id == college.id
            &&& renewed.authority == college.authority
            &&& renewed.update_authority == college.update_authority
            &&& renewed.collections == college.collections
        }),
{
}

} // verus!
