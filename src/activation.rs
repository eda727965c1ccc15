//! The part of a call frame that native functions read: the object store,
//! the format version, and whether the call came through `new`.

use vstd::prelude::*;
use crate::object::ObjectHeap;

verus! {

/// The call context handed to a native function.
#[derive(Debug)]
pub struct Activation {
    /// The objects of the realm.
    pub heap: ObjectHeap,
    /// Set by the call layer when the function runs on behalf of `new`;
    /// cleared when read.
    pub constructor_flag: bool,
    /// The version of the file format that the running script came from.
    pub swf_version: u8,
}

impl Activation {
    /// A context over `heap` for scripts of format version `swf_version`,
    /// with the constructor signal clear.
    pub fn new(heap: ObjectHeap, swf_version: u8) -> (r: Activation)
        ensures
            r.heap == heap,
            !r.constructor_flag,
            r.swf_version == swf_version,
    {
        Activation { heap, constructor_flag: false, swf_version }
    }

    /// Marks the next native call as made on behalf of `new`.
    pub fn set_native_constructor_flag(&mut self)
        ensures
            final(self).constructor_flag,
            final(self).heap == old(self).heap,
            final(self).swf_version == old(self).swf_version,
    {
        self.constructor_flag = true;
    }

    /// Reads the constructor signal and clears it.
    pub fn consume_native_constructor_flag(&mut self) -> (r: bool)
        ensures
            r == old(self).constructor_flag,
            !final(self).constructor_flag,
            final(self).heap == old(self).heap,
            final(self).swf_version == old(self).swf_version,
    {
        let flag = self.constructor_flag;
        self.constructor_flag = false;
        flag
    }

    /// The format version of the running script.
    pub fn swf_version(&self) -> (r: u8)
        ensures
            r == self.swf_version,
    {
        self.swf_version
    }
}

} // verus!
