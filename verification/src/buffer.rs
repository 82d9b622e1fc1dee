//! The double buffer that holds the grid: `dubble::DoubleBuffered` over a
//! vector of cells. That crate's code is not verified here. This module
//! declares its type, names the contents of its two halves, and states, for
//! each of its functions that the simulation calls, what its source shows.
//! Everything the rest of the library proves about the grid rests on these
//! statements.

use crate::cell::Cell;
use dubble::DoubleBuffered;
use vstd::prelude::*;

verus! {

/// The type `dubble::DoubleBuffered`: two values of one type, one to read and
/// one to write. Nothing is known of what a value of it holds but what the
/// functions below state.
#[verifier::external_type_specification]
#[verifier::external_body]
#[verifier::reject_recursive_types(T)]
pub struct ExDoubleBuffered<T: Clone>(DoubleBuffered<T>);

/// The cells of the half that is read: the generation that is current.
pub uninterp spec fn read_half(buffers: DoubleBuffered<Vec<Cell>>) -> Seq<Cell>;

/// The cells of the half that is written: the generation in the making.
pub uninterp spec fn write_half(buffers: DoubleBuffered<Vec<Cell>>) -> Seq<Cell>;

/// A vector without cells: what each half of a new double buffer starts as.
fn no_cells() -> (cells: Vec<Cell>)
    ensures
        cells@ == Seq::<Cell>::empty(),
{
    Vec::new()
}

/// `DoubleBuffered::construct_with`: it calls the constructor it is given
/// once for each half. With `no_cells` as the constructor both halves start
/// without cells.
#[verifier::external_body]
pub(crate) fn construct() -> (buffers: DoubleBuffered<Vec<Cell>>)
    ensures
        read_half(buffers) == Seq::<Cell>::empty(),
        write_half(buffers) == Seq::<Cell>::empty(),
{
    DoubleBuffered::construct_with(no_cells)
}

/// `DoubleBuffered::read`: a shared reference to the half that is read. The
/// vector behind it holds the cells of that half.
#[verifier::external_body]
pub(crate) fn reader(buffers: &DoubleBuffered<Vec<Cell>>) -> (front: &Vec<Cell>)
    ensures
        front@ == read_half(*buffers),
{
    buffers.read()
}

/// `DoubleBuffered::write`: a mutable reference to the half that is written.
/// The vector behind it holds the cells of that half, and what the caller
/// leaves in it is that half from then on. The half that is read is out of
/// its reach and stays as it is.
#[verifier::external_body]
pub(crate) fn writer(buffers: &mut DoubleBuffered<Vec<Cell>>) -> (back: &mut Vec<Cell>)
    ensures
        back@ == write_half(*old(buffers)),
        write_half(*final(buffers)) == final(back)@,
        read_half(*final(buffers)) == read_half(*old(buffers)),
{
    buffers.write()
}

/// `DoubleBuffered::update`: it replaces the half that is read by a clone of
/// the half that is written, and leaves the latter as it is. A clone of a
/// vector of cells holds the same cells in the same order, so afterwards both
/// halves hold what the written half held.
#[verifier::external_body]
pub(crate) fn update(buffers: &mut DoubleBuffered<Vec<Cell>>)
    ensures
        read_half(*final(buffers)) == write_half(*old(buffers)),
        write_half(*final(buffers)) == write_half(*old(buffers)),
{
    buffers.update()
}

} // verus!
