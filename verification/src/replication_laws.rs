//! What a replicating leader may claim of its term.

use crate::replication::HaStamp;
use crate::replication::HaStampError;
use crate::replication::ShipSeqno;
use crate::replication::SoloHistory;
use crate::replication::WriterEpoch;
use vstd::prelude::*;

verus! {

/// Zero is no epoch, and every other number is the epoch of that number.
pub proof fn law_epoch_is_its_number(n: u64, made: Option<WriterEpoch>, epoch: WriterEpoch, got: u64)
    requires
        call_ensures(WriterEpoch::new, (n,), made),
        call_ensures(WriterEpoch::get, (epoch,), got),
    ensures
        made is None <==> n == 0,
        made == Some(epoch) ==> got == n,
{
}

/// Zero is no shipped batch, and every other number is the batch of that number.
pub proof fn law_seqno_is_its_number(n: u64, made: Option<ShipSeqno>, seqno: ShipSeqno, got: u64)
    requires
        call_ensures(ShipSeqno::new, (n,), made),
        call_ensures(ShipSeqno::get, (seqno,), got),
    ensures
        made is None <==> n == 0,
        made == Some(seqno) ==> got == n,
{
}

/// A history says how often a term committed alone since its last ship, and whether it ever
/// did; commits made alone by a term that never ran alone are refused.
pub proof fn law_history_is_its_parts(
    n: u64,
    ran: bool,
    made: Option<SoloHistory>,
    history: SoloHistory,
    commits: u64,
    solo: bool,
)
    requires
        call_ensures(SoloHistory::commits_since_last_ship, (history,), commits),
        call_ensures(SoloHistory::ran_solo, (history,), solo),
    ensures
        call_ensures(SoloHistory::never, (), history) ==> commits == 0 && !solo,
        call_ensures(SoloHistory::ever, (n,), history) ==> commits == n && solo,
        call_ensures(SoloHistory::from_parts, (n, ran), made) ==> {
            &&& made is None <==> n > 0 && !ran
            &&& made == Some(history) ==> commits == n && solo == ran
        },
{
}

/// A stamp gives back the numbers of the parts that it was made of.
pub proof fn law_stamp_is_its_parts(
    epoch: WriterEpoch,
    shipped: Option<ShipSeqno>,
    history: SoloHistory,
    applied: Option<ShipSeqno>,
    stamp: HaStamp,
    got_epoch: WriterEpoch,
    got_shipped: Option<ShipSeqno>,
    got_history: SoloHistory,
    got_applied: Option<ShipSeqno>,
)
    requires
        call_ensures(
            HaStamp::new,
            (epoch, shipped, history, applied),
            Ok::<HaStamp, HaStampError>(stamp),
        ),
        call_ensures(HaStamp::writer_epoch, (&stamp,), got_epoch),
        call_ensures(HaStamp::last_shipped, (&stamp,), got_shipped),
        call_ensures(HaStamp::solo_history, (&stamp,), got_history),
        call_ensures(HaStamp::applied_through, (&stamp,), got_applied),
    ensures
        got_epoch.value() == epoch.value(),
        shipped matches Some(s) ==> s.value() > 0 ==> (got_shipped matches Some(t) && t.value()
            == s.value()),
        shipped is None ==> (got_shipped matches Some(t) ==> t.value() == 0),
        got_history.commits() == history.commits(),
        got_history.is_solo() == history.is_solo(),
        applied matches Some(s) ==> s.value() > 0 ==> (got_applied matches Some(t) && t.value()
            == s.value()),
        applied is None ==> (got_applied matches Some(t) ==> t.value() == 0),
{
}

/// A stamp is refused where the applied frontier lies behind the acknowledged ship, and
/// nowhere else: a leader cannot have shipped what it has not applied.
pub proof fn law_applied_is_not_behind_shipped(
    epoch: WriterEpoch,
    shipped: Option<ShipSeqno>,
    history: SoloHistory,
    applied: Option<ShipSeqno>,
    result: Result<HaStamp, HaStampError>,
)
    requires
        call_ensures(HaStamp::new, (epoch, shipped, history, applied), result),
    ensures
        result == Err::<HaStamp, HaStampError>(HaStampError::AppliedBehindShipped) <==> {
            shipped matches Some(s) && (match applied {
                Some(a) => a.value() < s.value(),
                None => s.value() > 0,
            })
        },
{
    match result {
        Ok(_) => {},
        Err(e) => {
            assert(e == HaStampError::AppliedBehindShipped);
        },
    }
}

} // verus!
