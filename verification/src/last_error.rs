//! The last-error slot.
//!
//! The ABI reports failure through sentinel return values; the message behind
//! the most recent failure is kept in a per-thread slot that the foreign
//! caller reads separately.  This module is the slot itself; the unverified
//! rim wraps one instance per thread and converts between C strings and the
//! plain messages stored here.

use vstd::prelude::*;

verus! {

/// One thread's last-error slot.  Empty until the first failure on that
/// thread; a set with no message empties it again.
pub struct ErrorSlot {
    message: Option<String>,
}

impl ErrorSlot {
    /// The stored message, if any.
    pub closed spec fn spec_message(&self) -> Option<Seq<char>> {
        match self.message {
            None => None,
            Some(m) => Some(m@),
        }
    }

    /// A fresh slot holds no message.
    pub fn new() -> (r: ErrorSlot)
        ensures
            r.spec_message() == None::<Seq<char>>,
    {
        ErrorSlot { message: None }
    }

    /// Stores a message, or empties the slot when handed none.  The previous
    /// content is discarded either way.
    pub fn set(&mut self, message: Option<String>)
        ensures
            final(self).spec_message() == (match message {
                None => None::<Seq<char>>,
                Some(m) => Some(m@),
            }),
    {
        self.message = message;
    }

    /// Reads the stored message; the borrow is good until the next set.
    pub fn get(&self) -> (r: Option<&String>)
        ensures
            match r {
                None => self.spec_message() == None::<Seq<char>>,
                Some(m) => self.spec_message() == Some(m@),
            },
    {
        self.message.as_ref()
    }
}

} // verus!
