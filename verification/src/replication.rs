//! Provenance that a replicating leader stores with each batch.

use vstd::prelude::*;

verus! {

/// The term of a replicated writer. Zero means that there is none and is no epoch.
#[derive(Debug, Clone, Copy, PartialEq, Eq, Structural)]
pub struct WriterEpoch {
    epoch: u64,
}

impl WriterEpoch {
    #[verifier::type_invariant]
    spec fn is_epoch(self) -> bool {
        self.epoch != 0
    }

    pub closed spec fn value(self) -> u64 {
        self.epoch
    }

    /// The epoch of that number, if it is one.
    pub fn new(epoch: u64) -> (result: Option<Self>)
        ensures
            epoch == 0 <==> result is None,
            result matches Some(e) ==> e.value() == epoch,
    {
        if epoch == 0 {
            None
        } else {
            Some(WriterEpoch { epoch })
        }
    }

    pub fn get(self) -> (epoch: u64)
        ensures
            epoch == self.value(),
    {
        self.epoch
    }
}

/// The number of a shipped batch. Zero means that nothing was shipped.
#[derive(Debug, Clone, Copy, PartialEq, Eq, Structural)]
pub struct ShipSeqno {
    seqno: u64,
}

impl ShipSeqno {
    pub closed spec fn value(self) -> u64 {
        self.seqno
    }

    /// The batch of that number, if there is one.
    pub fn new(seqno: u64) -> (result: Option<Self>)
        ensures
            seqno == 0 <==> result is None,
            result matches Some(s) ==> s.value() == seqno,
    {
        if seqno == 0 {
            None
        } else {
            Some(ShipSeqno { seqno })
        }
    }

    pub fn get(self) -> (seqno: u64)
        ensures
            seqno == self.value(),
    {
        self.seqno
    }
}

/// The number that stands for an optional batch, zero for none.
pub open spec fn seqno_or_zero(seqno: Option<ShipSeqno>) -> u64 {
    match seqno {
        Some(s) => s.value(),
        None => 0,
    }
}

/// Whether a term ever committed alone, and how often since its last ship.
#[derive(Debug, Clone, Copy, PartialEq, Eq, Structural)]
pub struct SoloHistory {
    commits: u64,
    ever: bool,
}

impl SoloHistory {
    #[verifier::type_invariant]
    spec fn is_consistent(self) -> bool {
        self.commits > 0 ==> self.ever
    }

    pub closed spec fn commits(self) -> u64 {
        self.commits
    }

    pub closed spec fn is_solo(self) -> bool {
        self.ever
    }

    /// The term has run alone, with `commits` commits since its last ship.
    pub fn ever(commits: u64) -> (history: Self)
        ensures
            history.commits() == commits,
            history.is_solo(),
    {
        SoloHistory { commits, ever: true }
    }

    /// The term has always replicated.
    pub fn never() -> (history: Self)
        ensures
            history.commits() == 0,
            !history.is_solo(),
    {
        SoloHistory { commits: 0, ever: false }
    }

    /// A positive count cannot come with the claim that the term never ran alone.
    pub fn from_parts(commits: u64, ran_solo: bool) -> (result: Option<Self>)
        ensures
            result is None <==> commits > 0 && !ran_solo,
            result matches Some(h) ==> h.commits() == commits && h.is_solo() == ran_solo,
    {
        if commits > 0 && !ran_solo {
            None
        } else {
            Some(SoloHistory { commits, ever: ran_solo })
        }
    }

    pub fn commits_since_last_ship(self) -> (commits: u64)
        ensures
            commits == self.commits(),
    {
        self.commits
    }

    pub fn ran_solo(self) -> (ran: bool)
        ensures
            ran == self.is_solo(),
    {
        self.ever
    }
}

/// Why a stamp was refused.
#[derive(Debug, Clone, Copy, PartialEq, Eq, Structural)]
pub enum HaStampError {
    /// The applied frontier lies behind an acknowledged ship.
    AppliedBehindShipped,
}

/// Writer epoch, acknowledged ship, solo history and highest applied ship attempt.
#[derive(Debug, Clone, Copy, PartialEq, Eq, Structural)]
pub struct HaStamp {
    writer_epoch: WriterEpoch,
    last_shipped: Option<ShipSeqno>,
    solo_history: SoloHistory,
    applied_through: Option<ShipSeqno>,
}

/// The numbers of a stamp; a zero batch number means none.
pub struct HaStampModel {
    pub epoch: u64,
    pub shipped: u64,
    pub solo: u64,
    pub applied: u64,
    pub ran_solo: bool,
}

impl HaStampModel {
    /// What every stamp keeps: an epoch, an applied frontier not behind the
    /// acknowledged ship, and no solo commits without solo history.
    pub open spec fn valid(self) -> bool {
        &&& self.epoch != 0
        &&& self.shipped <= self.applied
        &&& (self.solo > 0 ==> self.ran_solo)
    }
}

impl View for HaStamp {
    type V = HaStampModel;

    closed spec fn view(&self) -> HaStampModel {
        HaStampModel {
            epoch: self.writer_epoch.value(),
            shipped: seqno_or_zero(self.last_shipped),
            solo: self.solo_history.commits(),
            applied: seqno_or_zero(self.applied_through),
            ran_solo: self.solo_history.is_solo(),
        }
    }
}

impl HaStamp {
    /// A stamp of those parts, unless the applied frontier lies behind the
    /// acknowledged ship.
    pub fn new(
        writer_epoch: WriterEpoch,
        last_shipped: Option<ShipSeqno>,
        solo_history: SoloHistory,
        applied_through: Option<ShipSeqno>,
    ) -> (result: Result<Self, HaStampError>)
        ensures
            result is Err <==> seqno_or_zero(applied_through) < seqno_or_zero(last_shipped),
            result matches Ok(stamp) ==> stamp@.valid() && stamp@ == (HaStampModel {
                epoch: writer_epoch.value(),
                shipped: seqno_or_zero(last_shipped),
                solo: solo_history.commits(),
                applied: seqno_or_zero(applied_through),
                ran_solo: solo_history.is_solo(),
            }),
    {
        proof {
            use_type_invariant(&writer_epoch);
            use_type_invariant(&solo_history);
        }
        let shipped: u64 = match last_shipped {
            Some(s) => s.get(),
            None => 0,
        };
        let applied: u64 = match applied_through {
            Some(s) => s.get(),
            None => 0,
        };
        if applied < shipped {
            Err(HaStampError::AppliedBehindShipped)
        } else {
            Ok(HaStamp { writer_epoch, last_shipped, solo_history, applied_through })
        }
    }

    pub fn writer_epoch(&self) -> (epoch: WriterEpoch)
        ensures
            epoch.value() == self@.epoch,
    {
        self.writer_epoch
    }

    pub fn last_shipped(&self) -> (seqno: Option<ShipSeqno>)
        ensures
            seqno_or_zero(seqno) == self@.shipped,
    {
        self.last_shipped
    }

    pub fn solo_history(&self) -> (history: SoloHistory)
        ensures
            history.commits() == self@.solo,
            history.is_solo() == self@.ran_solo,
    {
        self.solo_history
    }

    pub fn applied_through(&self) -> (seqno: Option<ShipSeqno>)
        ensures
            seqno_or_zero(seqno) == self@.applied,
    {
        self.applied_through
    }
}

} // verus!
