//! The calls into the guest's virtual machine. Nothing in this file is
//! proved: each function's contract states what the called function of
//! `wasmer` does, as its source shows it.
use crate::error::ExportFault;
use vstd::prelude::*;
use wasmer::{
    ExportError, Exports, Function, Memory, MemoryAccessError, MemoryView, RuntimeError, Store,
    Value,
};

verus! {

#[verifier::external_type_specification]
#[verifier::external_body]
pub struct ExStore(Store);

#[verifier::external_type_specification]
#[verifier::external_body]
pub struct ExMemory(Memory);

#[verifier::external_type_specification]
#[verifier::external_body]
pub struct ExFunction(Function);

#[verifier::external_type_specification]
#[verifier::external_body]
pub struct ExMemoryView<'a>(MemoryView<'a>);

#[verifier::external_type_specification]
#[verifier::external_body]
pub struct ExExports(Exports);

#[verifier::external_type_specification]
#[verifier::external_body]
pub struct ExRuntimeError(RuntimeError);

#[verifier::external_type_specification]
#[verifier::external_body]
pub struct ExMemoryAccessError(MemoryAccessError);

/// The bytes of a linear memory, as the store that owns it holds them.
pub uninterp spec fn memory_bytes(memory: Memory, store: Store) -> Seq<u8>;

/// The bytes that a view shows.
pub uninterp spec fn view_bytes(view: MemoryView) -> Seq<u8>;

/// What `Memory::is_from_store` answers.
pub uninterp spec fn memory_in_store(memory: Memory, store: Store) -> bool;

/// What `Function::is_from_store` answers.
pub uninterp spec fn function_in_store(function: Function, store: Store) -> bool;

/// What `RuntimeError::message` answers.
pub uninterp spec fn trap_text(error: RuntimeError) -> Seq<char>;

/// What `Exports::get_memory` answers for a name.
pub uninterp spec fn exported_memory(exports: Exports, name: Seq<char>) -> Result<
    Memory,
    ExportFault,
>;

/// What `Exports::get_function` answers for a name.
pub uninterp spec fn exported_function(exports: Exports, name: Seq<char>) -> Result<
    Function,
    ExportFault,
>;

/// `Memory::is_from_store`: whether the store owns the memory.
#[verifier::external_body]
pub(crate) fn memory_is_from(memory: &Memory, store: &Store) -> (b: bool)
    ensures
        b == memory_in_store(*memory, *store),
{
    memory.is_from_store(store)
}

/// `Function::is_from_store`: whether the store owns the function.
#[verifier::external_body]
pub(crate) fn function_is_from(function: &Function, store: &Store) -> (b: bool)
    ensures
        b == function_in_store(*function, *store),
{
    function.is_from_store(store)
}

/// `Memory::clone`: a second handle to the same memory.
#[verifier::external_body]
pub(crate) fn clone_memory(memory: &Memory) -> (copy: Memory)
    ensures
        copy == *memory,
{
    memory.clone()
}

/// `Memory::view`: a view that shows the memory's bytes. It panics for a
/// memory of another store, which `requires` leaves out.
#[verifier::external_body]
pub(crate) fn memory_view_of<'a>(memory: &Memory, store: &'a Store) -> (view: MemoryView<'a>)
    requires
        memory_in_store(*memory, *store),
    ensures
        view_bytes(view) == memory_bytes(*memory, *store),
{
    memory.view(store)
}

/// `MemoryView::data_size`: the number of bytes that the view shows.
#[verifier::external_body]
pub(crate) fn view_size(view: &MemoryView) -> (n: u64)
    ensures
        n == view_bytes(*view).len(),
{
    view.data_size()
}

/// `MemoryView::read`: fills the buffer with the bytes from `offset` on. It
/// fails, and leaves the buffer as it was, where the view ends before the
/// buffer is full.
#[verifier::external_body]
pub(crate) fn view_read(view: &MemoryView, offset: u64, buf: &mut Vec<u8>) -> (r: Result<
    (),
    MemoryAccessError,
>)
    ensures
        r is Ok <==> offset + old(buf)@.len() <= view_bytes(*view).len(),
        r is Ok ==> final(buf)@ == view_bytes(*view).subrange(
            offset as int,
            offset + old(buf)@.len(),
        ),
        r is Err ==> final(buf)@ == old(buf)@,
{
    view.read(offset, buf)
}

/// `MemoryView::write`, on a view of the memory made for this one call:
/// puts the bytes into the memory from `offset` on. It fails, and writes
/// nothing, where the memory ends before the last byte.
#[verifier::external_body]
pub(crate) fn write_memory(memory: &Memory, store: &mut Store, offset: u64, data: &Vec<u8>) -> (r:
    Result<(), MemoryAccessError>)
    requires
        memory_in_store(*memory, *old(store)),
    ensures
        r is Ok <==> offset + data@.len() <= memory_bytes(*memory, *old(store)).len(),
        r is Ok ==> memory_bytes(*memory, *final(store)) == memory_bytes(
            *memory,
            *old(store),
        ).subrange(0, offset as int) + data@ + memory_bytes(*memory, *old(store)).subrange(
            offset + data@.len(),
            memory_bytes(*memory, *old(store)).len() as int,
        ),
        r is Err ==> memory_bytes(*memory, *final(store)) == memory_bytes(*memory, *old(store)),
        memory_in_store(*memory, *final(store)),
{
    memory.view(store).write(offset, data)
}

/// `Function::call` with 32-bit integers as arguments. Of each value that
/// comes back it hands on the 32-bit integer, or `None` for a value of
/// another type. What the guest does is not known here, so nothing is said
/// of the result or of the store afterwards. It panics for a function of
/// another store, which `requires` leaves out.
#[verifier::external_body]
pub(crate) fn call_i32(function: &Function, store: &mut Store, args: &Vec<i32>) -> (r: Result<
    Vec<Option<i32>>,
    RuntimeError,
>)
    requires
        function_in_store(*function, *old(store)),
{
    let params: Vec<Value> = args.iter().map(|a| Value::I32(*a)).collect();
    let results = function.call(store, &params)?;
    Ok(results.iter().map(|v| v.i32()).collect())
}

/// `RuntimeError::message`: the message of a runtime fault.
#[verifier::external_body]
pub(crate) fn trap_message(error: &RuntimeError) -> (message: String)
    ensures
        message@ == trap_text(*error),
{
    error.message()
}

/// `Exports::get_memory`: a handle to the memory exported under the name,
/// or whether the name is missing or names something else.
#[verifier::external_body]
pub(crate) fn export_memory(exports: &Exports, name: &str) -> (r: Result<Memory, ExportFault>)
    ensures
        r == exported_memory(*exports, name@),
{
    match exports.get_memory(name) {
        Ok(memory) => Ok(memory.clone()),
        Err(ExportError::IncompatibleType) => Err(ExportFault::WrongKind),
        Err(ExportError::Missing(_)) => Err(ExportFault::Missing),
    }
}

/// `Exports::get_function`: a handle to the function exported under the
/// name, or whether the name is missing or names something else.
#[verifier::external_body]
pub(crate) fn export_function(exports: &Exports, name: &str) -> (r: Result<
    Function,
    ExportFault,
>)
    ensures
        r == exported_function(*exports, name@),
{
    match exports.get_function(name) {
        Ok(function) => Ok(function.clone()),
        Err(ExportError::IncompatibleType) => Err(ExportFault::WrongKind),
        Err(ExportError::Missing(_)) => Err(ExportFault::Missing),
    }
}

} // verus!
