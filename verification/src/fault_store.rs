//! The rules of an object store that injects faults: which calls it refuses before they
//! reach the store behind it, and which replies it loses or cuts short.

use vstd::prelude::*;
use vstd::string::StringExecFns;

verus! {

/// A call that was made to fail.
#[derive(Debug, Clone, Copy, PartialEq, Eq, Structural)]
pub enum InjectedFault {
    Get,
    Put,
    PutCountLimit,
    PutByteOverflow,
    PutByteLimit,
    PutResponse,
    PutMultipart,
    MultipartBudget,
    Delete,
    Copy,
}

impl InjectedFault {
    /// What the call was.
    pub open spec fn spec_op(self) -> Seq<char> {
        match self {
            InjectedFault::Get => "get"@,
            InjectedFault::Put => "put"@,
            InjectedFault::PutCountLimit => "put count limit"@,
            InjectedFault::PutByteOverflow => "put byte counter overflow"@,
            InjectedFault::PutByteLimit => "put byte limit"@,
            InjectedFault::PutResponse => "put response"@,
            InjectedFault::PutMultipart => "put_multipart"@,
            InjectedFault::MultipartBudget => "multipart forbidden by put budget"@,
            InjectedFault::Delete => "delete"@,
            InjectedFault::Copy => "copy"@,
        }
    }

    /// The text of the error that the caller gets.
    pub fn message(self) -> (text: String)
        ensures
            text@ == "injected transient fault on "@ + self.spec_op(),
    {
        let op = match self {
            InjectedFault::Get => "get",
            InjectedFault::Put => "put",
            InjectedFault::PutCountLimit => "put count limit",
            InjectedFault::PutByteOverflow => "put byte counter overflow",
            InjectedFault::PutByteLimit => "put byte limit",
            InjectedFault::PutResponse => "put response",
            InjectedFault::PutMultipart => "put_multipart",
            InjectedFault::MultipartBudget => "multipart forbidden by put budget",
            InjectedFault::Delete => "delete",
            InjectedFault::Copy => "copy",
        };
        let mut text = "injected transient fault on ".to_owned();
        text.append(op);
        text
    }
}

/// The faults that are armed, and what has been counted. A new one has no fault armed.
pub struct FaultControls {
    partition_writes: bool,
    fail_next_gets: usize,
    fail_next_puts: usize,
    fail_after_puts: usize,
    fail_after_manifest_puts: usize,
    manifest_puts: usize,
    manifest_response_losses: usize,
    block_next_manifest_after_apply: bool,
    maximum_puts: usize,
    maximum_put_bytes: usize,
    attempted_put_bytes: usize,
    put_locations: Vec<String>,
    truncate_next_gets: usize,
    truncate_bytes: usize,
    gets: usize,
    puts: usize,
}

/// The value of `FaultControls`.
#[verifier::ext_equal]
pub struct FaultModel {
    /// While it holds, every write fails before it reaches the store.
    pub partition_writes: bool,
    /// How many of the next reads fail.
    pub fail_next_gets: usize,
    /// How many of the next puts fail before they are applied.
    pub fail_next_puts: usize,
    /// How many of the next applied puts lose their reply.
    pub fail_after_puts: usize,
    /// How many of the next applied puts of a manifest lose their reply.
    pub fail_after_manifest_puts: usize,
    pub manifest_puts: usize,
    pub manifest_response_losses: usize,
    /// Whether the next applied put of a manifest is held before its reply.
    pub block_next_manifest_after_apply: bool,
    /// The most puts that reach the store, or zero for no limit.
    pub maximum_puts: usize,
    /// The most bytes that reach the store, or zero for no limit.
    pub maximum_put_bytes: usize,
    pub attempted_put_bytes: usize,
    pub put_locations: Seq<Seq<char>>,
    /// How many of the next reads of a body come back short.
    pub truncate_next_gets: usize,
    pub truncate_bytes: usize,
    pub gets: usize,
    pub puts: usize,
}

impl View for FaultControls {
    type V = FaultModel;

    closed spec fn view(&self) -> FaultModel {
        FaultModel {
            partition_writes: self.partition_writes,
            fail_next_gets: self.fail_next_gets,
            fail_next_puts: self.fail_next_puts,
            fail_after_puts: self.fail_after_puts,
            fail_after_manifest_puts: self.fail_after_manifest_puts,
            manifest_puts: self.manifest_puts,
            manifest_response_losses: self.manifest_response_losses,
            block_next_manifest_after_apply: self.block_next_manifest_after_apply,
            maximum_puts: self.maximum_puts,
            maximum_put_bytes: self.maximum_put_bytes,
            attempted_put_bytes: self.attempted_put_bytes,
            put_locations: self.put_locations@.map_values(|location: String| location@),
            truncate_next_gets: self.truncate_next_gets,
            truncate_bytes: self.truncate_bytes,
            gets: self.gets,
            puts: self.puts,
        }
    }
}

/// No fault is armed and nothing has been counted.
pub open spec fn no_faults() -> FaultModel {
    FaultModel {
        partition_writes: false,
        fail_next_gets: 0,
        fail_next_puts: 0,
        fail_after_puts: 0,
        fail_after_manifest_puts: 0,
        manifest_puts: 0,
        manifest_response_losses: 0,
        block_next_manifest_after_apply: false,
        maximum_puts: 0,
        maximum_put_bytes: 0,
        attempted_put_bytes: 0,
        put_locations: Seq::empty(),
        truncate_next_gets: 0,
        truncate_bytes: 0,
        gets: 0,
        puts: 0,
    }
}

/// The counter after one more event. It starts over after the largest number.
pub open spec fn bumped(count: usize) -> usize {
    if count == usize::MAX {
        0
    } else {
        (count + 1) as usize
    }
}

/// The budget after one unit was taken from it, if it held one.
pub open spec fn spent(budget: usize) -> usize {
    if budget > 0 {
        (budget - 1) as usize
    } else {
        0
    }
}

/// Whether the object is a manifest: its name has the extension `manifest`.
pub open spec fn spec_is_manifest(location: Seq<char>) -> bool {
    ".manifest"@.is_suffix_of(location)
}

/// What a put does: the controls after its admission, and whether the object that is
/// forwarded is a manifest, or why nothing is forwarded.
pub open spec fn put_admission(model: FaultModel, location: Seq<char>, bytes: usize) -> (
    FaultModel,
    Result<bool, InjectedFault>,
) {
    let counted = FaultModel {
        puts: bumped(model.puts),
        put_locations: model.put_locations.push("put_opts "@ + location),
        ..model
    };
    let charged = FaultModel {
        attempted_put_bytes: (model.attempted_put_bytes + bytes) as usize,
        ..counted
    };
    let noted = FaultModel {
        manifest_puts: if spec_is_manifest(location) {
            bumped(model.manifest_puts)
        } else {
            model.manifest_puts
        },
        ..charged
    };
    if 0 < model.maximum_puts < counted.puts {
        (counted, Err(InjectedFault::PutCountLimit))
    } else if model.attempted_put_bytes + bytes > usize::MAX {
        (counted, Err(InjectedFault::PutByteOverflow))
    } else if 0 < model.maximum_put_bytes < charged.attempted_put_bytes {
        (charged, Err(InjectedFault::PutByteLimit))
    } else if model.partition_writes {
        (noted, Err(InjectedFault::Put))
    } else if model.fail_next_puts > 0 {
        (
            FaultModel { fail_next_puts: spent(model.fail_next_puts), ..noted },
            Err(InjectedFault::Put),
        )
    } else {
        (noted, Ok(spec_is_manifest(location)))
    }
}

/// What happens to the reply of a put that was applied. The reply of a manifest can be
/// lost on either budget, that of another object on the general one alone.
pub open spec fn put_reply(model: FaultModel, manifest: bool) -> (
    FaultModel,
    Result<(), InjectedFault>,
) {
    let manifest_loss = manifest && model.fail_after_manifest_puts > 0;
    (
        FaultModel {
            fail_after_puts: spent(model.fail_after_puts),
            fail_after_manifest_puts: if manifest {
                spent(model.fail_after_manifest_puts)
            } else {
                model.fail_after_manifest_puts
            },
            manifest_response_losses: if manifest_loss {
                bumped(model.manifest_response_losses)
            } else {
                model.manifest_response_losses
            },
            ..model
        },
        if model.fail_after_puts > 0 || manifest_loss {
            Err(InjectedFault::PutResponse)
        } else {
            Ok(())
        },
    )
}

fn bump(count: usize) -> (next: usize)
    ensures
        next == bumped(count),
{
    if count == usize::MAX {
        0
    } else {
        count + 1
    }
}

/// Takes one unit from the budget, if it holds one.
fn take_one(budget: &mut usize) -> (taken: bool)
    ensures
        taken == (*old(budget) > 0),
        *final(budget) == spent(*old(budget)),
{
    if *budget > 0 {
        *budget = *budget - 1;
        true
    } else {
        false
    }
}

/// How many bytes of a body are left when it is cut short by `cut` bytes.
pub fn kept_length(length: usize, cut: usize) -> (kept: usize)
    ensures
        kept == (if length > cut {
            length - cut
        } else {
            0
        }),
{
    if length > cut {
        length - cut
    } else {
        0
    }
}

/// Whether the object at `location` is a manifest.
pub fn is_manifest(location: &str) -> (manifest: bool)
    ensures
        manifest == spec_is_manifest(location@),
{
    proof {
        reveal_strlit(".manifest");
    }
    let suffix = ".manifest";
    let total: usize = location.unicode_len();
    if total < 9 {
        return false;
    }
    let start: usize = total - 9;
    let mut i: usize = 0;
    while i < 9
        invariant
            i <= 9,
            total == location@.len(),
            start == total - 9,
            suffix@ == ".manifest"@,
            suffix@.len() == 9,
            forall|j: int| 0 <= j < i ==> location@[start + j] == suffix@[j],
        decreases 9 - i,
    {
        if location.get_char(start + i) != suffix.get_char(i) {
            assert(location@.subrange(start as int, total as int)[i as int] != suffix@[i as int]);
            return false;
        }
        i = i + 1;
    }
    assert(suffix@ =~= location@.subrange(start as int, total as int));
    true
}

impl FaultControls {
    pub fn new() -> (controls: Self)
        ensures
            controls@ == no_faults(),
    {
        let controls = FaultControls {
            partition_writes: false,
            fail_next_gets: 0,
            fail_next_puts: 0,
            fail_after_puts: 0,
            fail_after_manifest_puts: 0,
            manifest_puts: 0,
            manifest_response_losses: 0,
            block_next_manifest_after_apply: false,
            maximum_puts: 0,
            maximum_put_bytes: 0,
            attempted_put_bytes: 0,
            put_locations: Vec::new(),
            truncate_next_gets: 0,
            truncate_bytes: 0,
            gets: 0,
            puts: 0,
        };
        assert(controls@ =~= no_faults());
        controls
    }

    /// While `on`, every write fails before it reaches the store.
    pub fn partition_writes(&mut self, on: bool)
        ensures
            final(self)@ == (FaultModel { partition_writes: on, ..old(self)@ }),
    {
        self.partition_writes = on;
    }

    /// The next `n` reads fail.
    pub fn fail_gets(&mut self, n: usize)
        ensures
            final(self)@ == (FaultModel { fail_next_gets: n, ..old(self)@ }),
    {
        self.fail_next_gets = n;
    }

    /// The next `n` puts fail before they are applied.
    pub fn fail_puts(&mut self, n: usize)
        ensures
            final(self)@ == (FaultModel { fail_next_puts: n, ..old(self)@ }),
    {
        self.fail_next_puts = n;
    }

    /// The next `n` puts are applied and lose their reply.
    pub fn fail_puts_after_apply(&mut self, n: usize)
        ensures
            final(self)@ == (FaultModel { fail_after_puts: n, ..old(self)@ }),
    {
        self.fail_after_puts = n;
    }

    /// The next `n` puts of a manifest are applied and lose their reply.
    pub fn fail_manifest_puts_after_apply(&mut self, n: usize)
        ensures
            final(self)@ == (FaultModel { fail_after_manifest_puts: n, ..old(self)@ }),
    {
        self.fail_after_manifest_puts = n;
    }

    /// The next `n` reads of a body are `cut` bytes short.
    pub fn truncate_gets(&mut self, n: usize, cut: usize)
        ensures
            final(self)@ == (FaultModel {
                truncate_next_gets: n,
                truncate_bytes: cut,
                ..old(self)@
            }),
    {
        self.truncate_bytes = cut;
        self.truncate_next_gets = n;
    }

    /// The next put of a manifest is held between its effect and its reply.
    pub fn block_manifest_after_apply(&mut self)
        requires
            !old(self)@.block_next_manifest_after_apply,
        ensures
            final(self)@ == (FaultModel { block_next_manifest_after_apply: true, ..old(self)@ }),
    {
        self.block_next_manifest_after_apply = true;
    }

    /// At most `maximum_puts` puts of `maximum_put_bytes` bytes together reach the store.
    pub fn set_put_limits(&mut self, maximum_puts: usize, maximum_put_bytes: usize)
        requires
            maximum_puts > 0,
            maximum_put_bytes > 0,
            old(self)@.puts == 0,
            old(self)@.attempted_put_bytes == 0,
        ensures
            final(self)@ == (FaultModel { maximum_puts, maximum_put_bytes, ..old(self)@ }),
    {
        self.maximum_puts = maximum_puts;
        self.maximum_put_bytes = maximum_put_bytes;
    }

    pub fn get_count(&self) -> (count: usize)
        ensures
            count == self@.gets,
    {
        self.gets
    }

    pub fn put_count(&self) -> (count: usize)
        ensures
            count == self@.puts,
    {
        self.puts
    }

    pub fn manifest_put_count(&self) -> (count: usize)
        ensures
            count == self@.manifest_puts,
    {
        self.manifest_puts
    }

    pub fn manifest_response_loss_count(&self) -> (count: usize)
        ensures
            count == self@.manifest_response_losses,
    {
        self.manifest_response_losses
    }

    pub fn put_locations(&self) -> (locations: &Vec<String>)
        ensures
            locations@.map_values(|location: String| location@) == self@.put_locations,
    {
        &self.put_locations
    }

    fn check_writable(&self, fault: InjectedFault) -> (result: Result<(), InjectedFault>)
        ensures
            result == (if self@.partition_writes {
                Err(fault)
            } else {
                Ok::<(), InjectedFault>(())
            }),
    {
        if self.partition_writes {
            Err(fault)
        } else {
            Ok(())
        }
    }

    /// Admits a put of `payload_bytes` bytes. Returns whether the object is a manifest.
    pub fn begin_put(&mut self, location: &str, payload_bytes: usize) -> (result: Result<
        bool,
        InjectedFault,
    >)
        ensures
            (final(self)@, result) == put_admission(old(self)@, location@, payload_bytes),
    {
        let ghost before = self@;
        let mut entry = "put_opts ".to_owned();
        entry.append(location);
        self.put_locations.push(entry);
        self.puts = bump(self.puts);
        assert(self@.put_locations =~= before.put_locations.push("put_opts "@ + location@));
        if self.maximum_puts > 0 && self.puts > self.maximum_puts {
            return Err(InjectedFault::PutCountLimit);
        }
        match self.attempted_put_bytes.checked_add(payload_bytes) {
            None => {
                return Err(InjectedFault::PutByteOverflow);
            },
            Some(total) => {
                self.attempted_put_bytes = total;
            },
        }
        if self.maximum_put_bytes > 0 && self.attempted_put_bytes > self.maximum_put_bytes {
            return Err(InjectedFault::PutByteLimit);
        }
        let manifest = is_manifest(location);
        if manifest {
            self.manifest_puts = bump(self.manifest_puts);
        }
        match self.check_writable(InjectedFault::Put) {
            Err(fault) => {
                return Err(fault);
            },
            Ok(()) => {},
        }
        let mut budget: usize = self.fail_next_puts;
        if take_one(&mut budget) {
            self.fail_next_puts = budget;
            return Err(InjectedFault::Put);
        }
        Ok(manifest)
    }

    /// Whether an applied put has to be held before its reply is decided.
    pub fn take_manifest_block(&mut self, manifest: bool) -> (held: bool)
        ensures
            held == (manifest && old(self)@.block_next_manifest_after_apply),
            final(self)@ == (FaultModel {
                block_next_manifest_after_apply: !manifest
                    && old(self)@.block_next_manifest_after_apply,
                ..old(self)@
            }),
    {
        if manifest && self.block_next_manifest_after_apply {
            self.block_next_manifest_after_apply = false;
            true
        } else {
            false
        }
    }

    /// Decides on the reply of a put that was applied.
    pub fn finish_put(&mut self, manifest: bool) -> (result: Result<(), InjectedFault>)
        ensures
            (final(self)@, result) == put_reply(old(self)@, manifest),
    {
        let mut general: usize = self.fail_after_puts;
        let general_loss = take_one(&mut general);
        self.fail_after_puts = general;
        let mut manifest_loss = false;
        if manifest {
            let mut budget: usize = self.fail_after_manifest_puts;
            manifest_loss = take_one(&mut budget);
            self.fail_after_manifest_puts = budget;
        }
        if manifest_loss {
            self.manifest_response_losses = bump(self.manifest_response_losses);
        }
        if general_loss || manifest_loss {
            Err(InjectedFault::PutResponse)
        } else {
            Ok(())
        }
    }

    /// Admits an upload in parts. There is none while the number of puts is limited.
    pub fn begin_multipart(&self) -> (result: Result<(), InjectedFault>)
        ensures
            result == (if self@.maximum_puts > 0 {
                Err(InjectedFault::MultipartBudget)
            } else if self@.partition_writes {
                Err(InjectedFault::PutMultipart)
            } else {
                Ok::<(), InjectedFault>(())
            }),
    {
        if self.maximum_puts > 0 {
            return Err(InjectedFault::MultipartBudget);
        }
        self.check_writable(InjectedFault::PutMultipart)
    }

    /// Admits a read.
    pub fn begin_get(&mut self) -> (result: Result<(), InjectedFault>)
        ensures
            final(self)@ == (FaultModel {
                gets: bumped(old(self)@.gets),
                fail_next_gets: spent(old(self)@.fail_next_gets),
                ..old(self)@
            }),
            result == (if old(self)@.fail_next_gets > 0 {
                Err(InjectedFault::Get)
            } else {
                Ok::<(), InjectedFault>(())
            }),
    {
        self.gets = bump(self.gets);
        let mut budget: usize = self.fail_next_gets;
        let taken = take_one(&mut budget);
        self.fail_next_gets = budget;
        if taken {
            Err(InjectedFault::Get)
        } else {
            Ok(())
        }
    }

    /// How many bytes a read that was admitted is to be cut short by, if it is. A read of
    /// the metadata alone (`head`) is never cut short.
    pub fn take_truncation(&mut self, head: bool) -> (cut: Option<usize>)
        ensures
            cut == (if !head && old(self)@.truncate_next_gets > 0 {
                Some(old(self)@.truncate_bytes)
            } else {
                None
            }),
            final(self)@ == (FaultModel {
                truncate_next_gets: if head {
                    old(self)@.truncate_next_gets
                } else {
                    spent(old(self)@.truncate_next_gets)
                },
                ..old(self)@
            }),
    {
        if head {
            return None;
        }
        let mut budget: usize = self.truncate_next_gets;
        let taken = take_one(&mut budget);
        self.truncate_next_gets = budget;
        if taken {
            Some(self.truncate_bytes)
        } else {
            None
        }
    }

    /// Admits a deletion.
    pub fn check_delete(&self) -> (result: Result<(), InjectedFault>)
        ensures
            result == (if self@.partition_writes {
                Err(InjectedFault::Delete)
            } else {
                Ok::<(), InjectedFault>(())
            }),
    {
        self.check_writable(InjectedFault::Delete)
    }

    /// Admits a copy.
    pub fn check_copy(&self) -> (result: Result<(), InjectedFault>)
        ensures
            result == (if self@.partition_writes {
                Err(InjectedFault::Copy)
            } else {
                Ok::<(), InjectedFault>(())
            }),
    {
        self.check_writable(InjectedFault::Copy)
    }
}

/// How many bytes a sequence of puts, each a location and a size, forwards.
pub open spec fn forwarded_bytes(model: FaultModel, puts: Seq<(Seq<char>, usize)>) -> nat
    decreases puts.len(),
{
    if puts.len() == 0 {
        0
    } else {
        let (after, result) = put_admission(model, puts[0].0, puts[0].1);
        let rest = forwarded_bytes(after, puts.drop_first());
        if result is Ok {
            puts[0].1 as nat + rest
        } else {
            rest
        }
    }
}

/// How many puts of a sequence are forwarded.
pub open spec fn forwarded_puts(model: FaultModel, puts: Seq<(Seq<char>, usize)>) -> nat
    decreases puts.len(),
{
    if puts.len() == 0 {
        0
    } else {
        let (after, result) = put_admission(model, puts[0].0, puts[0].1);
        let rest = forwarded_puts(after, puts.drop_first());
        if result is Ok {
            1 + rest
        } else {
            rest
        }
    }
}

/// Whatever is put in whatever order, the bytes that reach the store stay within the
/// byte limit.
pub proof fn law_forwarded_bytes_stay_within_budget(
    model: FaultModel,
    puts: Seq<(Seq<char>, usize)>,
)
    requires
        model.maximum_put_bytes > 0,
    ensures
        forwarded_bytes(model, puts) == 0 || model.attempted_put_bytes + forwarded_bytes(
            model,
            puts,
        ) <= model.maximum_put_bytes,
    decreases puts.len(),
{
    if puts.len() > 0 {
        let (after, result) = put_admission(model, puts[0].0, puts[0].1);
        law_forwarded_bytes_stay_within_budget(after, puts.drop_first());
    }
}

/// The number of puts that reach the store stays within its limit, as long as the
/// counter of puts does not start over.
pub proof fn law_forwarded_puts_stay_within_limit(
    model: FaultModel,
    puts: Seq<(Seq<char>, usize)>,
)
    requires
        model.maximum_puts > 0,
        model.puts + puts.len() <= usize::MAX,
    ensures
        forwarded_puts(model, puts) == 0 || model.puts + forwarded_puts(model, puts)
            <= model.maximum_puts,
    decreases puts.len(),
{
    if puts.len() > 0 {
        let (after, result) = put_admission(model, puts[0].0, puts[0].1);
        law_forwarded_puts_stay_within_limit(after, puts.drop_first());
    }
}

/// The reply of an object that is not a manifest is never charged to the manifests.
pub proof fn law_other_replies_leave_manifest_losses(model: FaultModel)
    ensures
        put_reply(model, false).0.fail_after_manifest_puts == model.fail_after_manifest_puts,
        put_reply(model, false).0.manifest_response_losses == model.manifest_response_losses,
        put_reply(model, false).1 is Err <==> model.fail_after_puts > 0,
{
}

} // verus!
