use vstd::prelude::*;
use crate::dtype::Dtype;

verus! {

/// What this layer knows of a data buffer: the address of the native buffer
/// and the element type and shape that it was created with.
pub ghost struct DataModel {
    pub handle: usize,
    pub dtype: Dtype,
    pub shape: Seq<u64>,
}

/// An owned, typed, multi-dimensional native data buffer: its address, with
/// the element type and the dimensions that it was created with. The storage
/// lives on the native side. It is neither `Copy` nor `Clone`: a deep copy is
/// a new native buffer, taken in by `clone_at`.
#[derive(Debug)]
pub struct PressioData {
    data: usize,
    dtype: Dtype,
    dims: Vec<u64>,
}

impl View for PressioData {
    type V = DataModel;

    closed spec fn view(&self) -> DataModel {
        DataModel { handle: self.data, dtype: self.dtype, shape: self.dims@ }
    }
}

/// Copies `dims` into a vector of its own.
fn copy_dims(dims: &[u64]) -> (r: Vec<u64>)
    ensures
        r@ == dims@,
{
    let mut v: Vec<u64> = Vec::new();
    let mut i: usize = 0;
    while i < dims.len()
        invariant
            i <= dims@.len(),
            v@ == dims@.subrange(0, i as int),
        decreases dims@.len() - i,
    {
        v.push(dims[i]);
        i = i + 1;
        assert(v@ == dims@.subrange(0, i as int));
    }
    assert(dims@.subrange(0, i as int) == dims@);
    v
}

/// Each dimension of `shape` widened to the native 64-bit size type.
pub open spec fn widened(shape: Seq<usize>) -> Seq<u64> {
    Seq::new(shape.len(), |k: int| shape[k] as u64)
}

impl PressioData {
    /// Takes ownership of the native buffer at `data`, allocated empty with
    /// the given element type and shape.
    pub fn new_empty(data: usize, dtype: Dtype, dims: &[u64]) -> (r: PressioData)
        ensures
            r@ == (DataModel { handle: data, dtype, shape: dims@ }),
    {
        PressioData { data, dtype, dims: copy_dims(dims) }
    }

    /// The dimensions of a row-major array of the given shape, as the native
    /// side takes them.
    pub fn widen_shape(shape: &[usize]) -> (r: Vec<u64>)
        ensures
            r@ == widened(shape@),
    {
        let mut v: Vec<u64> = Vec::new();
        let mut i: usize = 0;
        while i < shape.len()
            invariant
                i <= shape@.len(),
                v@.len() == i,
                forall|k: int| 0 <= k < i ==> v@[k] == shape@[k] as u64,
            decreases shape@.len() - i,
        {
            v.push(shape[i] as u64);
            i = i + 1;
        }
        assert(v@ == widened(shape@));
        v
    }

    /// Takes ownership of the native buffer at `data`, a copy of a row-major
    /// array of 32-bit floats of the given shape.
    pub fn from_shape(data: usize, shape: &[usize]) -> (r: PressioData)
        ensures
            r@ == (DataModel { handle: data, dtype: Dtype::Float, shape: widened(shape@) }),
    {
        PressioData { data, dtype: Dtype::Float, dims: PressioData::widen_shape(shape) }
    }

    /// Takes ownership of the native buffer at `data`, a deep copy of this
    /// one: same element type, same shape.
    pub fn clone_at(&self, data: usize) -> (r: PressioData)
        ensures
            r@ == (DataModel { handle: data, dtype: self@.dtype, shape: self@.shape }),
    {
        PressioData { data, dtype: self.dtype, dims: self.dims.clone() }
    }

    /// The address of the native buffer.
    pub fn handle(&self) -> (r: usize)
        ensures
            r == self@.handle,
    {
        self.data
    }

    /// Gives up ownership: the caller releases the buffer.
    pub fn into_raw(self) -> (r: usize)
        ensures
            r == self@.handle,
    {
        self.data
    }

    pub fn dtype(&self) -> (r: Dtype)
        ensures
            r == self@.dtype,
    {
        self.dtype
    }

    pub fn dims(&self) -> (r: &Vec<u64>)
        ensures
            r@ == self@.shape,
    {
        &self.dims
    }

    /// The number of dimensions.
    pub fn num_dimensions(&self) -> (r: usize)
        ensures
            r == self@.shape.len(),
    {
        self.dims.len()
    }
}

/// A buffer allocated empty and then cloned has the element type and the
/// shape that it was allocated with.
pub proof fn clone_of_new_empty_keeps_layout(
    dtype: Dtype,
    dims: Seq<u64>,
    allocated_at: usize,
    copied_at: usize,
    allocated: PressioData,
    copy: PressioData,
)
    requires
        allocated@ == (DataModel { handle: allocated_at, dtype, shape: dims }),
        copy@ == (DataModel { handle: copied_at, dtype: allocated@.dtype, shape: allocated@.shape }),
    ensures
        copy@.dtype == dtype,
        copy@.shape == dims,
{
}

} // verus!
