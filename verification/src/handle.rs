//! The dispatch table that carries the one callback bundle across the native
//! boundary, the trampolines that hand each event to it, and the handle that
//! owns the whole registration for its lifetime.

use vstd::prelude::*;

use crate::callbacks::AftermathCallbacks;
use crate::callbacks::DefaultAftermathCallbacks;
use crate::description::DescriptionBuilder;

verus! {

/// The dispatch table a handle registers with the native library.
///
/// The native library knows the table only as an opaque user-data pointer and
/// hands that pointer back with every callback; the callback bundle behind it
/// is reached by reconstructing ownership from the pointer and giving it up
/// again before returning. The slot models that allocation: an event trampoline
/// takes the bundle out, lets it handle the event, and puts it back so the next
/// event still finds it; only teardown leaves the slot empty, and it can do so
/// once. The table's view is the slot's content.
pub struct AftermathCallbackFunctions<T: AftermathCallbacks> {
    slot: Option<T>,
}

impl<T: AftermathCallbacks> View for AftermathCallbackFunctions<T> {
    type V = Option<T>;

    closed spec fn view(&self) -> Option<T> {
        self.slot
    }
}

impl<T: AftermathCallbacks> AftermathCallbackFunctions<T> {
    /// Builds the table around an exclusively owned bundle.
    pub fn new(callbacks: T) -> (functions: Self)
        ensures
            functions@ == Option::Some(callbacks),
    {
        AftermathCallbackFunctions { slot: Option::Some(callbacks) }
    }
}

/// Hands a crash dump to the bundle: takes the bundle out of the table, lets
/// it handle the bytes, and puts it back, so the table is as occupied as
/// before and later events still reach the bundle.
pub fn trampoline_dumped<T: AftermathCallbacks>(
    functions: &mut AftermathCallbackFunctions<T>,
    dump_data: &Vec<u8>,
)
    requires
        old(functions)@ is Some,
    ensures
        final(functions)@ is Some,
{
    let mut bundle = functions.slot.take().unwrap();
    bundle.dumped(dump_data);
    functions.slot = Option::Some(bundle);
}

/// Hands shader debug information to the bundle; the table stays occupied.
pub fn trampoline_shader_debug_info<T: AftermathCallbacks>(
    functions: &mut AftermathCallbackFunctions<T>,
    data: &Vec<u8>,
)
    requires
        old(functions)@ is Some,
    ensures
        final(functions)@ is Some,
{
    let mut bundle = functions.slot.take().unwrap();
    bundle.shader_debug_info(data);
    functions.slot = Option::Some(bundle);
}

/// Opens the description window for the bundle, recording what it registers;
/// the table stays occupied.
pub fn trampoline_description<T: AftermathCallbacks>(
    functions: &mut AftermathCallbackFunctions<T>,
    describe: &mut DescriptionBuilder,
)
    requires
        old(functions)@ is Some,
    ensures
        final(functions)@ is Some,
{
    let mut bundle = functions.slot.take().unwrap();
    bundle.description(describe);
    functions.slot = Option::Some(bundle);
}

/// Teardown: reconstructs ownership of the bundle one last time and empties
/// the table for good. The bundle comes back exactly as the table held it —
/// teardown itself invokes none of its event operations — and releasing it is
/// the caller's last act with it.
pub fn trampoline_drop<T: AftermathCallbacks>(
    functions: &mut AftermathCallbackFunctions<T>,
) -> (bundle: T)
    requires
        old(functions)@ is Some,
    ensures
        final(functions)@ is None,
        Option::Some(bundle) == old(functions)@,
{
    functions.slot.take().unwrap()
}

/// The handle that stands for "crash-dump monitoring is enabled for this
/// process".
///
/// It exclusively owns the dispatch table for its whole lifetime: built when
/// monitoring is enabled, torn down exactly once when the handle is consumed,
/// never partially enabled. The native library is a process-global singleton,
/// so at most one handle should be live at a time; holding to that is the
/// caller's duty, not checked here. The handle's view is the bundle it holds.
pub struct Aftermath<T: AftermathCallbacks> {
    functions: AftermathCallbackFunctions<T>,
}

impl<T: AftermathCallbacks> View for Aftermath<T> {
    type V = Option<T>;

    closed spec fn view(&self) -> Option<T> {
        self.functions@
    }
}

impl<T: AftermathCallbacks> Aftermath<T> {
    /// A live handle holds its bundle until teardown consumes it; every
    /// constructor establishes this and every event dispatch keeps it.
    pub open spec fn active(&self) -> bool {
        self@ is Some
    }

    /// Enables monitoring: takes exclusive ownership of the callback bundle
    /// and builds the dispatch table around it. Registering the table with
    /// the native library is the work of the edge that owns the process-wide
    /// singleton; this handle is what that edge keeps.
    pub fn new(callbacks: T) -> (handle: Self)
        ensures
            handle@ == Option::Some(callbacks),
            handle.active(),
    {
        Aftermath { functions: AftermathCallbackFunctions::new(callbacks) }
    }

    /// Delivers a crash-dump event to the bundle; the handle stays live.
    pub fn dispatch_dumped(&mut self, dump_data: &Vec<u8>)
        requires
            old(self).active(),
        ensures
            final(self).active(),
    {
        trampoline_dumped(&mut self.functions, dump_data);
    }

    /// Delivers a shader-debug-info event to the bundle; the handle stays
    /// live.
    pub fn dispatch_shader_debug_info(&mut self, data: &Vec<u8>)
        requires
            old(self).active(),
        ensures
            final(self).active(),
    {
        trampoline_shader_debug_info(&mut self.functions, data);
    }

    /// Opens the description window for the bundle; the handle stays live.
    pub fn dispatch_description(&mut self, describe: &mut DescriptionBuilder)
        requires
            old(self).active(),
        ensures
            final(self).active(),
    {
        trampoline_description(&mut self.functions, describe);
    }

    /// Disables monitoring: consumes the handle, so teardown can happen only
    /// once, and hands the bundle back exactly as the handle held it — no
    /// event operation runs on the way out. Dropping the result releases the
    /// bundle.
    pub fn teardown(self) -> (callbacks: T)
        requires
            self.active(),
        ensures
            Option::Some(callbacks) == self@,
    {
        let mut functions = self.functions;
        trampoline_drop(&mut functions)
    }
}

impl Default for Aftermath<DefaultAftermathCallbacks> {
    /// Monitoring with the bundled file-writing callbacks.
    fn default() -> (handle: Self)
        ensures
            handle.active(),
            handle@ matches Option::Some(bundle) && bundle.call_num == 0
                && bundle.pending@ == Seq::<crate::callbacks::OutputRequest>::empty(),
    {
        Aftermath::new(DefaultAftermathCallbacks::new())
    }
}

} // verus!
