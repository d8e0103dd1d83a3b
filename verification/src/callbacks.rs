//! The callback bundle a handle owns, the default bundle that turns events
//! into buffered output records, and the rule that picks the numbered dump
//! directory those records are written under.

use vstd::prelude::*;

use crate::description::DescriptionBuilder;

verus! {

/// Name the default bundle registers for the application description entry.
pub const DEFAULT_APPLICATION_NAME: &'static str = "aftermath";
/// Version text the default bundle registers beside the name.
pub const DEFAULT_APPLICATION_VERSION: &'static str = "0.1.0";

/// The operations a callback bundle offers the native library's events.
///
/// The native library may invoke them from a thread of its own, one at a
/// time; a bundle should not assume it runs on the thread that built the
/// handle, and should not block. Each payload is only valid for the duration
/// of the call. Teardown is not an operation here: it is the release of the
/// bundle itself, performed exactly once when the owning handle is torn down.
pub trait AftermathCallbacks: Send + Sync + Sized {
    /// A finished GPU crash dump, as raw bytes.
    fn dumped(&mut self, dump_data: &Vec<u8>);

    /// Shader debug information belonging to a crash dump, as raw bytes.
    fn shader_debug_info(&mut self, data: &Vec<u8>);

    /// The one window in which description entries may be registered.
    fn description(&mut self, describe: &mut DescriptionBuilder);
}

/// Which artifact an output record carries.
#[derive(Clone, Copy, Debug, PartialEq, Eq, Structural)]
pub enum OutputKind {
    CrashDump,
    ShaderDebugInfo,
}

/// One file the default bundle wants persisted: the payload of one event,
/// tagged with the bundle-local call number that names the file.
#[derive(Debug)]
pub struct OutputRequest {
    pub call_num: u64,
    pub kind: OutputKind,
    pub contents: Vec<u8>,
}

/// The bundled callbacks: each crash dump or shader debug info event becomes
/// an output record holding the payload byte for byte, numbered by a counter
/// that grows by one per event, and the description window registers the
/// library's own name and version.
///
/// The records only buffer what should reach disk; the writing itself is an
/// effect this bundle does not perform, so the edge that owns the handle
/// drains them with [`DefaultAftermathCallbacks::take_pending`].
pub struct DefaultAftermathCallbacks {
    /// Events recorded so far; names the next record's file.
    pub call_num: u64,
    /// Records not yet drained, in event order.
    pub pending: Vec<OutputRequest>,
}

/// Well-formedness of the default bundle: every buffered record carries a
/// call number below the counter, and the records' call numbers grow strictly
/// in buffer order, so no record can ever name another record's file.
pub open spec fn default_callbacks_wf(bundle: DefaultAftermathCallbacks) -> bool {
    &&& forall|i: int|
        0 <= i < bundle.pending@.len() ==> #[trigger] bundle.pending@[i].call_num < bundle.call_num
    &&& forall|i: int, j: int|
        #![trigger bundle.pending@[i].call_num, bundle.pending@[j].call_num]
        0 <= i < j < bundle.pending@.len()
            ==> bundle.pending@[i].call_num < bundle.pending@[j].call_num
}

impl DefaultAftermathCallbacks {
    /// A fresh bundle: no events seen, nothing buffered.
    pub fn new() -> (bundle: Self)
        ensures
            bundle.call_num == 0,
            bundle.pending@ == Seq::<OutputRequest>::empty(),
            default_callbacks_wf(bundle),
    {
        DefaultAftermathCallbacks { call_num: 0, pending: Vec::new() }
    }

    /// Buffers one event's payload as the next numbered record of the given
    /// kind and advances the counter.
    pub fn record_output(&mut self, kind: OutputKind, payload: &Vec<u8>)
        requires
            old(self).call_num < u64::MAX,
        ensures
            final(self).call_num == old(self).call_num + 1,
            final(self).pending@.len() == old(self).pending@.len() + 1,
            final(self).pending@.drop_last() == old(self).pending@,
            final(self).pending@.last().call_num == old(self).call_num,
            final(self).pending@.last().kind == kind,
            final(self).pending@.last().contents@ == payload@,
            default_callbacks_wf(*old(self)) ==> default_callbacks_wf(*final(self)),
    {
        let contents = copy_bytes(payload);
        let record = OutputRequest { call_num: self.call_num, kind, contents };
        self.pending.push(record);
        self.call_num = self.call_num + 1;
        proof {
            assert(self.pending@.drop_last() =~= old(self).pending@);
        }
    }

    /// Hands out the buffered records, in event order, and leaves the buffer
    /// empty; the counter keeps its value, so later records still get fresh
    /// numbers.
    pub fn take_pending(&mut self) -> (pending: Vec<OutputRequest>)
        ensures
            pending@ == old(self).pending@,
            final(self).pending@ == Seq::<OutputRequest>::empty(),
            final(self).call_num == old(self).call_num,
            default_callbacks_wf(*final(self)),
    {
        let mut pending: Vec<OutputRequest> = Vec::new();
        core::mem::swap(&mut pending, &mut self.pending);
        pending
    }

    /// Registers the library's own name and version: exactly two entries, the
    /// name first, each text kept exactly; the bundle itself is untouched.
    pub fn register_description(&mut self, describe: &mut DescriptionBuilder)
        ensures
            *final(self) == *old(self),
            final(describe)@.len() == old(describe)@.len() + 2,
            final(describe)@.subrange(0, old(describe)@.len() as int) == old(describe)@,
            final(describe)@[old(describe)@.len() as int].key
                == crate::description::DESCRIPTION_KEY_APPLICATION_NAME,
            final(describe)@[old(describe)@.len() as int].value@ == DEFAULT_APPLICATION_NAME@,
            final(describe)@[old(describe)@.len() as int + 1].key
                == crate::description::DESCRIPTION_KEY_APPLICATION_VERSION,
            final(describe)@[old(describe)@.len() as int + 1].value@ == DEFAULT_APPLICATION_VERSION@,
    {
        proof {
            reveal_strlit("aftermath");
            reveal_strlit("0.1.0");
        }
        describe.set_application_name(DEFAULT_APPLICATION_NAME);
        describe.set_application_version(DEFAULT_APPLICATION_VERSION);
        proof {
            assert(describe@.drop_last().drop_last() =~= old(describe)@);
            assert(describe@.subrange(0, old(describe)@.len() as int) =~= old(describe)@);
        }
    }
}

impl AftermathCallbacks for DefaultAftermathCallbacks {
    fn dumped(&mut self, dump_data: &Vec<u8>)
        ensures
            old(self).call_num < u64::MAX ==> {
                &&& final(self).call_num == old(self).call_num + 1
                &&& final(self).pending@.len() == old(self).pending@.len() + 1
                &&& final(self).pending@.drop_last() == old(self).pending@
                &&& final(self).pending@.last().call_num == old(self).call_num
                &&& final(self).pending@.last().kind == OutputKind::CrashDump
                &&& final(self).pending@.last().contents@ == dump_data@
            },
            old(self).call_num == u64::MAX ==> *final(self) == *old(self),
            default_callbacks_wf(*old(self)) ==> default_callbacks_wf(*final(self)),
    {
        if self.call_num < u64::MAX {
            self.record_output(OutputKind::CrashDump, dump_data);
        }
    }

    fn shader_debug_info(&mut self, data: &Vec<u8>)
        ensures
            old(self).call_num < u64::MAX ==> {
                &&& final(self).call_num == old(self).call_num + 1
                &&& final(self).pending@.len() == old(self).pending@.len() + 1
                &&& final(self).pending@.drop_last() == old(self).pending@
                &&& final(self).pending@.last().call_num == old(self).call_num
                &&& final(self).pending@.last().kind == OutputKind::ShaderDebugInfo
                &&& final(self).pending@.last().contents@ == data@
            },
            old(self).call_num == u64::MAX ==> *final(self) == *old(self),
            default_callbacks_wf(*old(self)) ==> default_callbacks_wf(*final(self)),
    {
        if self.call_num < u64::MAX {
            self.record_output(OutputKind::ShaderDebugInfo, data);
        }
    }

    fn description(&mut self, describe: &mut DescriptionBuilder)
        ensures
            *final(self) == *old(self),
            final(describe)@.len() == old(describe)@.len() + 2,
            final(describe)@.subrange(0, old(describe)@.len() as int) == old(describe)@,
            final(describe)@[old(describe)@.len() as int].key
                == crate::description::DESCRIPTION_KEY_APPLICATION_NAME,
            final(describe)@[old(describe)@.len() as int].value@ == DEFAULT_APPLICATION_NAME@,
            final(describe)@[old(describe)@.len() as int + 1].key
                == crate::description::DESCRIPTION_KEY_APPLICATION_VERSION,
            final(describe)@[old(describe)@.len() as int + 1].value@
                == DEFAULT_APPLICATION_VERSION@,
    {
        self.register_description(describe);
    }
}

/// An exact copy of the given bytes.
fn copy_bytes(bytes: &Vec<u8>) -> (copy: Vec<u8>)
    ensures
        copy@ == bytes@,
{
    let mut copy: Vec<u8> = Vec::new();
    let mut i: usize = 0;
    while i < bytes.len()
        invariant
            i <= bytes.len(),
            copy@ == bytes@.take(i as int),
        decreases bytes.len() - i,
    {
        copy.push(bytes[i]);
        i = i + 1;
        proof {
            assert(copy@ =~= bytes@.take(i as int));
        }
    }
    proof {
        assert(copy@ =~= bytes@);
    }
    copy
}

/// The smallest index whose numbered dump directory does not exist yet.
pub open spec fn first_vacant(occupied: Seq<bool>) -> int
    decreases occupied.len(),
{
    if occupied.len() == 0 {
        0
    } else if !occupied[0] {
        0
    } else {
        1 + first_vacant(occupied.drop_first())
    }
}

/// Law: where some index is vacant, the first vacancy is a real vacant index
/// and every index before it is occupied — so the directory a new run opens
/// never collides with an existing one, and it is the earliest free number.
pub proof fn lemma_first_vacant_is_vacant(occupied: Seq<bool>)
    requires
        exists|i: int| 0 <= i < occupied.len() && !occupied[i],
    ensures
        0 <= first_vacant(occupied) < occupied.len(),
        !occupied[first_vacant(occupied)],
        forall|j: int| 0 <= j < first_vacant(occupied) ==> occupied[j],
    decreases occupied.len(),
{
    if occupied.len() > 0 && occupied[0] {
        let w = choose|i: int| 0 <= i < occupied.len() && !occupied[i];
        assert(!occupied.drop_first()[w - 1]);
        lemma_first_vacant_is_vacant(occupied.drop_first());
        assert forall|j: int| 0 <= j < first_vacant(occupied) implies occupied[j] by {
            if j > 0 {
                assert(occupied.drop_first()[j - 1]);
            }
        }
    }
}

proof fn lemma_first_vacant_at(occupied: Seq<bool>, i: int)
    requires
        0 <= i < occupied.len(),
        !occupied[i],
        forall|j: int| 0 <= j < i ==> occupied[j],
    ensures
        first_vacant(occupied) == i,
    decreases i,
{
    if i > 0 {
        lemma_first_vacant_at(occupied.drop_first(), i - 1);
    }
}

/// Index of the numbered dump directory one output run uses, given which
/// indices already carry a directory. `occupied` reports the directories in
/// index order, far enough to include a vacant one.
///
/// A run's first output takes the first vacant index, so it never overwrites
/// an earlier run's files; the run's later outputs keep using the directory
/// right before that vacancy, which the first output created. When even index
/// zero is vacant, every output of the run uses it.
pub fn select_dump_dir_index(call_num: u64, occupied: &Vec<bool>) -> (index: usize)
    requires
        exists|i: int| 0 <= i < occupied@.len() && !occupied@[i],
    ensures
        ({
            let gap = first_vacant(occupied@);
            index == if gap == 0 {
                0int
            } else if call_num == 0 {
                gap
            } else {
                gap - 1
            }
        }),
{
    let mut i: usize = 0;
    while i < occupied.len() && occupied[i]
        invariant
            i <= occupied@.len(),
            forall|j: int| 0 <= j < i ==> occupied@[j],
        decreases occupied@.len() - i,
    {
        i = i + 1;
    }
    proof {
        if i == occupied@.len() {
            let w = choose|w: int| 0 <= w < occupied@.len() && !occupied@[w];
            assert(occupied@[w]);
        }
        lemma_first_vacant_at(occupied@, i as int);
    }
    if i == 0 {
        0
    } else if call_num == 0 {
        i
    } else {
        i - 1
    }
}

} // verus!
