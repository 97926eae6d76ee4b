use vstd::prelude::*;
use crate::error::{alloc_error_message, decode_text, PressioError, CONSTRUCTION_ERROR_CODE};
use vstd::utf8::{decode_utf8, valid_utf8};
use crate::option::{is_setter_call, option_marshals, setter_call, PressioOption, SetterCall};
use crate::text::{has_interior_nul, native_text, to_native_text};

verus! {

/// One assignment of an option dictionary: the marshaled option name and the
/// native setter call that stores the value under it.
#[derive(Debug)]
pub struct OptionEntry {
    pub name: Vec<u8>,
    pub call: SetterCall,
}

pub ghost struct OptionsModel {
    /// The address of the native dictionary; never null.
    pub handle: usize,
    /// The assignments made through this handle that the native dictionary
    /// has not received yet, oldest first.
    pub pending: Seq<OptionEntry>,
}

/// An owned option dictionary: a native handle, together with the assignments
/// that are still to be applied to it, in order.
#[derive(Debug)]
pub struct PressioOptions {
    ptr: usize,
    pending: Vec<OptionEntry>,
}

impl View for PressioOptions {
    type V = OptionsModel;

    closed spec fn view(&self) -> OptionsModel {
        OptionsModel { handle: self.ptr, pending: self.pending@ }
    }
}

/// `e` assigns `option` to the option called `name`.
pub open spec fn is_entry_for(e: OptionEntry, name: Seq<char>, option: PressioOption) -> bool {
    e.name@ == native_text(name) && is_setter_call(option, e.call)
}

/// An assignment of `option` to `name` can be marshaled.
pub open spec fn assignment_marshals(name: Seq<char>, option: PressioOption) -> bool {
    !has_interior_nul(name) && option_marshals(option)
}

/// A text with an interior NUL, given as a plain text value or as any element
/// of a list of texts, makes every assignment fail to marshal, whatever the
/// option's name; and a failed assignment leaves the dictionary unchanged
/// (see `try_set`).
pub proof fn nul_text_never_marshals(name: Seq<char>, option: PressioOption, text: String)
    requires
        has_interior_nul(text@),
        option == PressioOption::string(Some(text)) || (option matches PressioOption::vec_string(
            Some(v),
        ) && v@.contains(text)),
    ensures
        !assignment_marshals(name, option),
{
    if let PressioOption::vec_string(Some(v)) = option {
        let k = choose|k: int| 0 <= k < v@.len() && v@[k] == text;
        assert(has_interior_nul(v@[k]@));
    }
}

impl PressioOptions {
    pub open spec fn wf(self) -> bool {
        self@.handle != 0
    }

    /// Takes ownership of a freshly allocated native dictionary; a null handle
    /// means that the allocation failed.
    pub fn new(ptr: usize) -> (r: Result<PressioOptions, PressioError>)
        ensures
            r is Ok <==> ptr != 0,
            match r {
                Ok(o) => o.wf() && o@.handle == ptr && o@.pending.len() == 0,
                Err(e) => e.error_code == CONSTRUCTION_ERROR_CODE && e.message@
                    == alloc_error_message(),
            },
    {
        if ptr != 0 {
            Ok(PressioOptions { ptr, pending: Vec::new() })
        } else {
            Err(PressioError::alloc_failed())
        }
    }

    /// Takes ownership of a dictionary that the native library produced.
    pub fn from_raw(ptr: usize) -> (r: PressioOptions)
        requires
            ptr != 0,
        ensures
            r.wf(),
            r@.handle == ptr,
            r@.pending.len() == 0,
    {
        PressioOptions { ptr, pending: Vec::new() }
    }

    /// Records the assignment of `option` to `name`. On failure, the NUL
    /// error, the dictionary is left exactly as it was.
    pub fn try_set(&mut self, name: &str, option: PressioOption) -> (r: Result<(), PressioError>)
        ensures
            r is Ok <==> assignment_marshals(name@, option),
            match r {
                Ok(_) => final(self)@.handle == old(self)@.handle && final(self)@.pending.len()
                    == old(self)@.pending.len() + 1 && final(self)@.pending.drop_last()
                    == old(self)@.pending && is_entry_for(
                    final(self)@.pending.last(),
                    name@,
                    option,
                ),
                Err(e) => e.is_nul_error() && *final(self) == *old(self),
            },
    {
        let name_bytes = match to_native_text(name) {
            Ok(b) => b,
            Err(e) => {
                return Err(e);
            },
        };
        let call = match setter_call(option) {
            Ok(c) => c,
            Err(e) => {
                return Err(e);
            },
        };
        self.pending.push(OptionEntry { name: name_bytes, call });
        assert(self.pending@.drop_last() == old(self).pending@);
        Ok(())
    }

    /// Records the assignment of `option` to `name` and hands the dictionary
    /// back, for chaining. A failure consumes the dictionary: a caller that
    /// still has to release the native handle then uses `try_set`.
    pub fn set(self, name: &str, option: PressioOption) -> (r: Result<PressioOptions, PressioError>)
        ensures
            r is Ok <==> assignment_marshals(name@, option),
            match r {
                Ok(o) => o@.handle == self@.handle && o@.pending.len() == self@.pending.len() + 1
                    && o@.pending.drop_last() == self@.pending && is_entry_for(
                    o@.pending.last(),
                    name@,
                    option,
                ),
                Err(e) => e.is_nul_error(),
            },
    {
        let mut this = self;
        match this.try_set(name, option) {
            Ok(()) => Ok(this),
            Err(e) => Err(e),
        }
    }

    /// Hands out the assignments still to be applied, oldest first, and
    /// forgets them.
    pub fn take_pending(&mut self) -> (r: Vec<OptionEntry>)
        ensures
            r@ == old(self)@.pending,
            final(self)@.handle == old(self)@.handle,
            final(self)@.pending.len() == 0,
    {
        let mut out: Vec<OptionEntry> = Vec::new();
        std::mem::swap(&mut out, &mut self.pending);
        out
    }

    /// The address of the native dictionary.
    pub fn handle(&self) -> (r: usize)
        ensures
            r == self@.handle,
    {
        self.ptr
    }

    /// Turns the native text rendering of a dictionary (its bytes, without
    /// the terminator) into a `String`, or the UTF-8 error.
    pub fn listing_from(bytes: &[u8]) -> (r: Result<String, PressioError>)
        ensures
            r is Ok <==> valid_utf8(bytes@),
            match r {
                Ok(s) => s@ == decode_utf8(bytes@),
                Err(e) => e.is_utf8_error(),
            },
    {
        match decode_text(bytes) {
            Some(s) => Ok(s),
            None => Err(PressioError::utf8_error()),
        }
    }

    /// Gives up ownership: the caller releases the dictionary.
    pub fn into_raw(self) -> (r: usize)
        ensures
            r == self@.handle,
    {
        self.ptr
    }

    /// The number of assignments still to be applied.
    pub fn pending_len(&self) -> (r: usize)
        ensures
            r == self@.pending.len(),
    {
        self.pending.len()
    }
}

} // verus!
