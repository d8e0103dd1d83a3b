//! The write-only recorder handed to a callback bundle while the native
//! library asks for crash-dump description entries.

use vstd::prelude::*;

verus! {

/// Key under which the native protocol files the application name.
pub const DESCRIPTION_KEY_APPLICATION_NAME: u32 = 1;
/// Key under which the native protocol files the application version.
pub const DESCRIPTION_KEY_APPLICATION_VERSION: u32 = 2;
/// First key of the range reserved for caller-defined description fields;
/// a custom field's key is this base plus its index, so custom fields can
/// never collide with the reserved keys.
pub const DESCRIPTION_KEY_CUSTOM_BASE: u32 = 0x10000;

/// True of text that can cross the native boundary, which carries strings
/// with a terminating null byte: the text itself holds none.
pub open spec fn nul_free(text: Seq<char>) -> bool {
    forall|i: int| 0 <= i < text.len() ==> text[i] != '\0'
}

/// One key/value registration as the native protocol sees it.
#[derive(Debug)]
pub struct DescriptionEntry {
    pub key: u32,
    pub value: String,
}

/// Records the description entries a callback bundle registers, in the order
/// the native registration call would receive them.
///
/// A value of this type is only handed out during the description callback;
/// the native library reads descriptions in no other window, so the recorded
/// entries are forwarded right after that callback returns and the recorder
/// is dropped with the callback's scope.
pub struct DescriptionBuilder {
    entries: Vec<DescriptionEntry>,
}

impl View for DescriptionBuilder {
    type V = Seq<DescriptionEntry>;

    closed spec fn view(&self) -> Seq<DescriptionEntry> {
        self.entries@
    }
}

impl DescriptionBuilder {
    /// An empty recorder for one description callback window.
    pub fn new() -> (builder: Self)
        ensures
            builder@ == Seq::<DescriptionEntry>::empty(),
    {
        DescriptionBuilder { entries: Vec::new() }
    }

    /// Registers the application name: one entry under the name key, with the
    /// text kept exactly.
    pub fn set_application_name(&mut self, name: &str)
        requires
            nul_free(name@),
        ensures
            final(self)@.len() == old(self)@.len() + 1,
            final(self)@.drop_last() == old(self)@,
            final(self)@.last().key == DESCRIPTION_KEY_APPLICATION_NAME,
            final(self)@.last().value@ == name@,
    {
        self.push_entry(DESCRIPTION_KEY_APPLICATION_NAME, name);
    }

    /// Registers the application version: one entry under the version key,
    /// with the text kept exactly.
    pub fn set_application_version(&mut self, version: &str)
        requires
            nul_free(version@),
        ensures
            final(self)@.len() == old(self)@.len() + 1,
            final(self)@.drop_last() == old(self)@,
            final(self)@.last().key == DESCRIPTION_KEY_APPLICATION_VERSION,
            final(self)@.last().value@ == version@,
    {
        self.push_entry(DESCRIPTION_KEY_APPLICATION_VERSION, version);
    }

    /// Registers a caller-defined field: one entry under the custom base key
    /// plus the given index, with the text kept exactly.
    pub fn set(&mut self, index: u32, text: &str)
        requires
            nul_free(text@),
            index <= u32::MAX - DESCRIPTION_KEY_CUSTOM_BASE,
        ensures
            final(self)@.len() == old(self)@.len() + 1,
            final(self)@.drop_last() == old(self)@,
            final(self)@.last().key == DESCRIPTION_KEY_CUSTOM_BASE + index,
            final(self)@.last().value@ == text@,
    {
        self.push_entry(DESCRIPTION_KEY_CUSTOM_BASE + index, text);
    }

    /// The recorded registrations, oldest first, for the edge that forwards
    /// them to the native registration call.
    pub fn entries(&self) -> (entries: &Vec<DescriptionEntry>)
        ensures
            entries@ == self@,
    {
        &self.entries
    }

    fn push_entry(&mut self, key: u32, text: &str)
        ensures
            final(self)@.len() == old(self)@.len() + 1,
            final(self)@.drop_last() == old(self)@,
            final(self)@.last().key == key,
            final(self)@.last().value@ == text@,
    {
        let value = text.to_owned();
        self.entries.push(DescriptionEntry { key, value });
        proof {
            assert(self@.drop_last() =~= old(self)@);
        }
    }
}

} // verus!
