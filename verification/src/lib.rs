//! Core of a callback adapter over a native GPU crash-diagnostics library.
//!
//! The native library reports crash-dump progress as a raw integer status,
//! invokes a fixed set of C callbacks through an opaque user-data pointer, and
//! accepts key/value description strings during a single callback window. This
//! crate holds the parts of that adapter that are plain logic: the validated
//! status mapping and the polling rules built on it, the dispatch table that
//! owns the one callback bundle and hands it to each event without consuming
//! it, the description recorder, and the bundled default callbacks that turn
//! events into numbered output records. The raw boundary itself — the C-ABI
//! shims, the native registration and query calls, file writing and sleeping —
//! lives outside this crate and drives these types with plain values.

pub mod callbacks;
pub mod description;
pub mod handle;
pub mod status;

pub use callbacks::AftermathCallbacks;
pub use callbacks::DefaultAftermathCallbacks;
pub use callbacks::OutputKind;
pub use callbacks::OutputRequest;
pub use callbacks::select_dump_dir_index;
pub use description::DescriptionBuilder;
pub use description::DescriptionEntry;
pub use handle::Aftermath;
pub use handle::AftermathCallbackFunctions;
pub use handle::trampoline_description;
pub use handle::trampoline_drop;
pub use handle::trampoline_dumped;
pub use handle::trampoline_shader_debug_info;
pub use status::ScriptedStatusSource;
pub use status::Status;
