//! How each entry of a call is stored for the length of the call. The
//! calling mechanism reads each argument through a pointer to storage of the
//! type the argument was described with, so the storage has to be of that
//! type exactly. The kinds of storage are decided here; making the pointers
//! is left to the caller.

use vstd::prelude::*;
use crate::descriptor::{argument_models, argument_type, Argument, ArgumentModel, CallDescriptor};
use crate::descriptor::DescriptorModel;
use crate::emitter::{call_types, promoted};
use crate::registry::AbiType;
use crate::text::CText;
use crate::value::{ArgValue, ValueModel};

verus! {

/// The storage of one argument.
#[derive(Debug)]
pub enum Cell {
    /// A signed 32-bit integer.
    Int(i32),
    /// An unsigned 32-bit integer.
    UInt(u32),
    /// One byte.
    Byte(u8),
    /// A pointer to the native object at this address.
    Address(usize),
    /// A pointer to this text, followed by its terminating zero.
    Text(CText),
    /// A pointer to the slot that receives the output handle.
    OutputSlot,
    /// The null pointer.
    Null,
}

/// What a [`Cell`] holds, as mathematics.
pub enum CellModel {
    Int(i32),
    UInt(u32),
    Byte(u8),
    Address(usize),
    Text(Seq<u8>),
    OutputSlot,
    Null,
}

impl View for Cell {
    type V = CellModel;

    open spec fn view(&self) -> CellModel {
        match *self {
            Cell::Int(n) => CellModel::Int(n),
            Cell::UInt(n) => CellModel::UInt(n),
            Cell::Byte(b) => CellModel::Byte(b),
            Cell::Address(p) => CellModel::Address(p),
            Cell::Text(t) => CellModel::Text(t@),
            Cell::OutputSlot => CellModel::OutputSlot,
            Cell::Null => CellModel::Null,
        }
    }
}

/// The native type of a cell's storage.
pub open spec fn cell_type(c: CellModel) -> AbiType {
    match c {
        CellModel::Int(_) => AbiType::SInt32,
        CellModel::UInt(_) => AbiType::UInt32,
        CellModel::Byte(_) => AbiType::UInt8,
        CellModel::Address(_) => AbiType::Pointer,
        CellModel::Text(_) => AbiType::Pointer,
        CellModel::OutputSlot => AbiType::Pointer,
        CellModel::Null => AbiType::Pointer,
    }
}

/// The storage of an entry. A flag is one byte that holds 1 or 0 among the
/// fixed arguments, and an integer that holds 1 or 0 in the variadic tail;
/// a member of an enumeration is its number; every other entry is stored as
/// what it is.
pub open spec fn stored(a: ArgumentModel, variadic: bool) -> CellModel {
    match a {
        ArgumentModel::Value(ValueModel::Int32(n)) => CellModel::Int(n),
        ArgumentModel::Value(ValueModel::UInt32(n)) => CellModel::UInt(n),
        ArgumentModel::Value(ValueModel::Enum(n)) => CellModel::UInt(n),
        ArgumentModel::Value(ValueModel::Bool(b)) => if variadic {
            CellModel::Int(
                if b {
                    1i32
                } else {
                    0i32
                },
            )
        } else {
            CellModel::Byte(
                if b {
                    1u8
                } else {
                    0u8
                },
            )
        },
        ArgumentModel::Value(ValueModel::Text(t)) => CellModel::Text(t),
        ArgumentModel::Value(ValueModel::Pointer(p)) => CellModel::Address(p),
        ArgumentModel::Name(n) => CellModel::Text(n),
        ArgumentModel::OutputSlot => CellModel::OutputSlot,
        ArgumentModel::Sentinel => CellModel::Null,
    }
}

/// The storage of every entry of a call: the entries after the fixed ones
/// are stored as the variadic tail is.
pub open spec fn stored_list(d: DescriptorModel) -> Seq<CellModel> {
    Seq::new(d.arguments.len(), |i: int| stored(d.arguments[i], i >= d.fixed))
}

/// The cells of a list, each as mathematics.
pub open spec fn cell_models(v: Seq<Cell>) -> Seq<CellModel> {
    Seq::new(v.len(), |i: int| v[i]@)
}

/// The native type of each cell of a list.
pub open spec fn cell_types(cells: Seq<CellModel>) -> Seq<AbiType> {
    Seq::new(cells.len(), |i: int| cell_type(cells[i]))
}

/// An entry is stored with the type it is described with: its own type among
/// the fixed arguments, its promoted type in the variadic tail.
pub proof fn lemma_stored_as_described(a: ArgumentModel, variadic: bool)
    ensures
        cell_type(stored(a, variadic)) == if variadic {
            promoted(argument_type(a))
        } else {
            argument_type(a)
        },
{
}

/// The storage of a call has, entry by entry, the types the call is
/// described with.
pub proof fn lemma_storage_matches_description(d: DescriptorModel)
    ensures
        cell_types(stored_list(d)) == call_types(d),
{
    assert forall|i: int| 0 <= i < d.arguments.len() implies cell_types(stored_list(d))[i]
        == call_types(d)[i] by {
        lemma_stored_as_described(d.arguments[i], i >= d.fixed);
    }
    assert(cell_types(stored_list(d)) =~= call_types(d));
}

/// The storage of one entry, among the fixed arguments or in the variadic
/// tail.
pub fn cell_of(entry: &Argument, variadic: bool) -> (cell: Cell)
    ensures
        cell@ == stored(entry@, variadic),
{
    match entry {
        Argument::Value(ArgValue::Int32(n)) => Cell::Int(*n),
        Argument::Value(ArgValue::UInt32(n)) => Cell::UInt(*n),
        Argument::Value(ArgValue::Enum(n)) => Cell::UInt(*n),
        Argument::Value(ArgValue::Bool(b)) => {
            if variadic {
                Cell::Int(
                    if *b {
                        1
                    } else {
                        0
                    },
                )
            } else {
                Cell::Byte(
                    if *b {
                        1
                    } else {
                        0
                    },
                )
            }
        },
        Argument::Value(ArgValue::Text(t)) => Cell::Text(t.duplicate()),
        Argument::Value(ArgValue::Pointer(p)) => Cell::Address(*p),
        Argument::Name(n) => Cell::Text(n.duplicate()),
        Argument::OutputSlot => Cell::OutputSlot,
        Argument::Sentinel => Cell::Null,
    }
}

impl CallDescriptor {
    /// The storage of each entry, in call order. Each cell has the type its
    /// entry is described with to the calling mechanism.
    pub fn cells(&self) -> (cells: Vec<Cell>)
        ensures
            cell_models(cells@) == stored_list(self@),
            cell_types(cell_models(cells@)) == call_types(self@),
    {
        let entries = self.arguments();
        let fixed = self.fixed_count();
        let mut cells: Vec<Cell> = Vec::new();
        let mut i: usize = 0;
        while i < entries.len()
            invariant
                i <= entries.len(),
                argument_models(entries@) == self@.arguments,
                fixed == self@.fixed,
                cell_models(cells@) == stored_list(self@).take(i as int),
            decreases entries.len() - i,
        {
            let ghost before = cells@;
            assert(argument_models(entries@)[i as int] == entries@[i as int]@);
            let cell = cell_of(&entries[i], i >= fixed);
            let ghost model = cell@;
            assert(model == stored_list(self@)[i as int]);
            cells.push(cell);
            i = i + 1;
            assert(cell_models(cells@) =~= cell_models(before).push(model));
            assert(cell_models(cells@) =~= stored_list(self@).take(i as int));
        }
        assert(stored_list(self@).take(entries.len() as int) =~= stored_list(self@));
        proof {
            lemma_storage_matches_description(self@);
        }
        cells
    }
}

} // verus!
