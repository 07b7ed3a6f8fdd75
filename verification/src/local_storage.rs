use std::sync::Arc;

use crossbeam::atomic::AtomicCell;
use vstd::prelude::*;

use crate::recorder::thread::Pid;
use crate::TagInfos;

verus! {

#[verifier::external_type_specification]
#[verifier::external_body]
#[verifier::reject_recursive_types(T)]
pub struct ExAtomicCell<T>(AtomicCell<T>);

/// Calls `AtomicCell::new`, a cell that holds `v`. The cell is shared between
/// threads afterwards, so nothing is claimed of what it holds.
#[verifier::external_body]
fn new_cell<T>(v: T) -> AtomicCell<T> {
    AtomicCell::new(v)
}

/// Calls `AtomicCell::swap`: stores `v` and returns what the cell held. Other
/// threads write the same cell, so nothing is claimed of the value returned.
#[verifier::external_body]
fn swap_cell<T>(cell: &AtomicCell<T>, v: T) -> T {
    cell.swap(v)
}

/// The tag attached to a thread, shared between that thread and the recorder.
pub struct SharedTagInfos {
    tag: Arc<AtomicCell<Option<Arc<TagInfos>>>>,
}

impl SharedTagInfos {
    /// A shared slot that holds `tag`.
    pub fn new(tag: Arc<TagInfos>) -> Self {
        SharedTagInfos { tag: Arc::new(new_cell(Some(tag))) }
    }

    /// An empty shared slot.
    pub fn empty() -> Self {
        SharedTagInfos { tag: Arc::new(new_cell(None)) }
    }

    /// Stores `tag` and returns the tag that the slot held.
    pub fn swap(&self, tag: Option<Arc<TagInfos>>) -> Option<Arc<TagInfos>> {
        swap_cell(&*self.tag, tag)
    }

    /// The tag that the slot holds, which stays in the slot.
    ///
    /// The tag is taken out and put back. Should another tag have been put in
    /// meanwhile, that newer tag is put back in its place.
    pub fn load_full(&self) -> Option<Arc<TagInfos>> {
        match self.swap(None) {
            Some(t) => {
                let r = t.clone();
                let displaced = self.swap(Some(t));
                if displaced.is_some() {
                    let _ = self.swap(displaced);
                }
                Some(r)
            },
            None => None,
        }
    }
}

impl Clone for SharedTagInfos {
    /// Another handle on the same slot.
    fn clone(&self) -> (s: Self)
        ensures
            s == *self,
    {
        SharedTagInfos { tag: self.tag.clone() }
    }
}

impl Default for SharedTagInfos {
    fn default() -> Self {
        SharedTagInfos::empty()
    }
}

/// The maximum number of failed attempts to register a thread with the recorder.
pub const MAX_THREAD_REGISTER_RETRY: u32 = 10;

/// The thread-local state of a thread that the recorder observes.
pub struct LocalStorage {
    pub registered: bool,
    pub register_failed_times: u32,
    pub is_set: bool,
    // The tag attached to the thread currently.
    pub attached_tag: SharedTagInfos,
}

/// The flags of a local storage, which the attaching logic keeps.
pub open spec fn flags(ls: LocalStorage) -> (bool, u32, bool) {
    (ls.registered, ls.register_failed_times, ls.is_set)
}

impl LocalStorage {
    /// A storage that is not registered, has no failed attempts and no tag.
    pub fn new() -> (ls: Self)
        ensures
            flags(ls) == (false, 0u32, false),
    {
        LocalStorage {
            registered: false,
            register_failed_times: 0,
            is_set: false,
            attached_tag: SharedTagInfos::empty(),
        }
    }

    /// Whether an attempt to register this thread is due: it is not registered
    /// and has failed fewer than `MAX_THREAD_REGISTER_RETRY` times.
    pub fn needs_registration(&self) -> (b: bool)
        ensures
            b == (!self.registered && self.register_failed_times < MAX_THREAD_REGISTER_RETRY),
    {
        !self.registered && self.register_failed_times < MAX_THREAD_REGISTER_RETRY
    }

    /// Records the outcome of an attempt to register this thread.
    pub fn record_registration(&mut self, ok: bool)
        requires
            !old(self).registered,
            old(self).register_failed_times < MAX_THREAD_REGISTER_RETRY,
        ensures
            final(self).registered == ok,
            final(self).register_failed_times == if ok {
                old(self).register_failed_times as int
            } else {
                old(self).register_failed_times + 1
            },
            final(self).is_set == old(self).is_set,
            final(self).attached_tag == old(self).attached_tag,
    {
        self.registered = ok;
        if !ok {
            self.register_failed_times = self.register_failed_times + 1;
        }
    }

    /// Attaches `tag` to this thread, unless a tag is attached already
    /// (attachments do not nest). Returns whether `tag` was attached.
    pub fn attach_tag(&mut self, tag: Arc<TagInfos>) -> (attached: bool)
        ensures
            attached == !old(self).is_set,
            final(self).is_set,
            final(self).registered == old(self).registered,
            final(self).register_failed_times == old(self).register_failed_times,
            final(self).attached_tag == old(self).attached_tag,
    {
        if self.is_set {
            return false;
        }
        let _prev_tag = self.attached_tag.swap(Some(tag));
        self.is_set = true;
        true
    }

    /// Marks this thread as having no tag attached. Returns whether a tag was
    /// attached; the tag itself is then still to be taken out of the slot.
    pub fn detach_tag(&mut self) -> (was_set: bool)
        ensures
            was_set == old(self).is_set,
            !final(self).is_set,
            final(self).registered == old(self).registered,
            final(self).register_failed_times == old(self).register_failed_times,
            final(self).attached_tag == old(self).attached_tag,
    {
        let was_set = self.is_set;
        self.is_set = false;
        was_set
    }
}

impl Clone for LocalStorage {
    fn clone(&self) -> (ls: Self)
        ensures
            ls == *self,
    {
        LocalStorage {
            registered: self.registered,
            register_failed_times: self.register_failed_times,
            is_set: self.is_set,
            attached_tag: self.attached_tag.clone(),
        }
    }
}

impl Default for LocalStorage {
    fn default() -> (ls: Self)
        ensures
            flags(ls) == (false, 0u32, false),
    {
        LocalStorage::new()
    }
}

/// A thread's local storage, with the thread's id, as the recorder receives it.
pub struct LocalStorageRef {
    pub id: Pid,
    pub storage: LocalStorage,
}

} // verus!
