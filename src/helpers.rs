use vstd::prelude::*;

verus! {

broadcast use vstd::layout::layout_of_slices;

/// Number of bytes that `val` occupies, as the signed size that buffer uploads take.
pub fn byte_size_of_array<T>(val: &[T]) -> (r: isize)
    requires
        val@.len() * vstd::layout::size_of::<T>() <= isize::MAX,
    ensures
        r as int == val@.len() * vstd::layout::size_of::<T>(),
{
    core::mem::size_of_val(val) as isize
}

/// Size in bytes of one value of type `T`, as the `i32` that byte-count
/// parameters of the graphics API take.
pub fn size_of<T>() -> (r: i32)
    requires
        vstd::layout::size_of::<T>() <= i32::MAX,
    ensures
        r as nat == vstd::layout::size_of::<T>(),
{
    core::mem::size_of::<T>() as i32
}

} // verus!
