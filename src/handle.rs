use vstd::prelude::*;
use crate::error::{init_error_message, ErrorState, PressioError, CONSTRUCTION_ERROR_CODE};
use crate::options::PressioOptions;
use crate::text::{has_interior_nul, native_text, to_native_text};

verus! {

/// The root of the native library: owns the address of one library instance.
/// It is neither `Copy` nor `Clone`, so the instance has one owner, which
/// gives it back exactly once through `into_raw`.
#[derive(Debug)]
pub struct Pressio {
    library: usize,
}

/// A compressor bound to one named algorithm: owns the address of one native
/// compressor, with the same single-owner discipline as `Pressio`.
#[derive(Debug)]
pub struct PressioCompressor {
    ptr: usize,
}

impl View for Pressio {
    type V = usize;

    closed spec fn view(&self) -> usize {
        self.library
    }
}

impl View for PressioCompressor {
    type V = usize;

    closed spec fn view(&self) -> usize {
        self.ptr
    }
}

impl Pressio {
    /// Takes ownership of a freshly created library instance; a null
    /// instance means that creation failed, and no error state exists to read.
    pub fn new(instance: usize) -> (r: Result<Pressio, PressioError>)
        ensures
            r is Ok <==> instance != 0,
            match r {
                Ok(p) => p@ == instance,
                Err(e) => e.error_code == CONSTRUCTION_ERROR_CODE && e.message@
                    == init_error_message(),
            },
    {
        if instance != 0 {
            Ok(Pressio { library: instance })
        } else {
            Err(PressioError::init_failed())
        }
    }

    /// Marshals the name of a compressor to ask for.
    pub fn compressor_id(id: &str) -> (r: Result<Vec<u8>, PressioError>)
        ensures
            r is Ok <==> !has_interior_nul(id@),
            match r {
                Ok(b) => b@ == native_text(id@),
                Err(e) => e.is_nul_error(),
            },
    {
        to_native_text(id)
    }

    /// Takes the answer of the native library to a compressor request: the
    /// compressor's address, null when the name is unknown, and this
    /// instance's error state, read right after the request.
    pub fn compressor_from(&self, ptr: usize, state: &ErrorState) -> (r: Result<
        PressioCompressor,
        PressioError,
    >)
        ensures
            r is Ok <==> ptr != 0,
            match r {
                Ok(c) => c@ == ptr,
                Err(e) => e.error_code != 0 && e.is_native_error(state.code, state.message@),
            },
    {
        if ptr != 0 {
            Ok(PressioCompressor { ptr })
        } else {
            Err(PressioError::from_state(state))
        }
    }

    /// The address of the instance.
    pub fn handle(&self) -> (r: usize)
        ensures
            r == self@,
    {
        self.library
    }

    /// Gives up ownership: the caller releases the instance.
    pub fn into_raw(self) -> (r: usize)
        ensures
            r == self@,
    {
        self.library
    }
}

impl PressioCompressor {
    /// Decides a compress call from its native return code: the output
    /// buffer comes back on success, the error read from this compressor's
    /// state otherwise.
    pub fn compress_result<T>(&self, rc: i32, compressed_data: T, state: &ErrorState) -> (r:
        Result<T, PressioError>)
        ensures
            r is Ok <==> rc == 0,
            match r {
                Ok(d) => d == compressed_data,
                Err(e) => e.error_code != 0 && e.is_native_error(state.code, state.message@),
            },
    {
        if rc == 0 {
            Ok(compressed_data)
        } else {
            Err(PressioError::from_state(state))
        }
    }

    /// Decides a decompress call from its native return code, as `compress_result` does.
    pub fn decompress_result<T>(&self, rc: i32, decompressed_data: T, state: &ErrorState) -> (r:
        Result<T, PressioError>)
        ensures
            r is Ok <==> rc == 0,
            match r {
                Ok(d) => d == decompressed_data,
                Err(e) => e.error_code != 0 && e.is_native_error(state.code, state.message@),
            },
    {
        self.compress_result(rc, decompressed_data, state)
    }

    /// Decides a call to set the compressor's options from its native return code.
    pub fn set_options_result(&self, rc: i32, state: &ErrorState) -> (r: Result<(), PressioError>)
        ensures
            r is Ok <==> rc == 0,
            match r {
                Ok(_) => true,
                Err(e) => e.error_code != 0 && e.is_native_error(state.code, state.message@),
            },
    {
        self.compress_result(rc, (), state)
    }

    /// Takes a dictionary that the compressor produced (its options, or its
    /// metric results): null means failure, read from the compressor's state.
    pub fn options_result(&self, ptr: usize, state: &ErrorState) -> (r: Result<
        PressioOptions,
        PressioError,
    >)
        ensures
            r is Ok <==> ptr != 0,
            match r {
                Ok(o) => o.wf() && o@.handle == ptr && o@.pending.len() == 0,
                Err(e) => e.error_code != 0 && e.is_native_error(state.code, state.message@),
            },
    {
        if ptr != 0 {
            Ok(PressioOptions::from_raw(ptr))
        } else {
            Err(PressioError::from_state(state))
        }
    }

    /// The address of the compressor.
    pub fn handle(&self) -> (r: usize)
        ensures
            r == self@,
    {
        self.ptr
    }

    /// Gives up ownership: the caller releases the compressor.
    pub fn into_raw(self) -> (r: usize)
        ensures
            r == self@,
    {
        self.ptr
    }
}

} // verus!
