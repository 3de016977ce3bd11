//! Reading a guest string out of the guest memory, and putting a host string
//! into it: allocate, write the payload, pin.
use crate::env::Env;
use crate::error::{HostError, Slot};
use crate::guest::{
    call_i32, function_in_store, function_is_from, memory_bytes, memory_in_store, memory_is_from,
    trap_message, trap_text, view_bytes, view_read, view_size, write_memory,
};
use crate::layout::{
    address, bytes_to_units, bytes_units, payload, read_le_u32, stored, string_at, string_fits,
    units_to_bytes,
};
use crate::utf16::{decode_utf16_lossy, encode_utf16, utf16_units};
use vstd::prelude::*;
use wasmer::{Function, Memory, MemoryView, RuntimeError, Store};

verus! {

/// The class id that the guest runtime keeps for its built-in string type.
pub const STRING_CLASS_ID: i32 = 1;

/// The address that a guest pointer stands for.
pub fn pointer_address(ptr: i32) -> (at: u64)
    ensures
        at == address(ptr),
{
    if ptr >= 0 {
        ptr as u64
    } else {
        (ptr as i64 + 0x1_0000_0000) as u64
    }
}

/// The string that the guest pointer stands for, read through the view. A
/// string whose header or payload lies outside the view is refused.
pub fn read_string_wasm(view: &MemoryView, string_ptr: i32) -> (r: Result<String, HostError>)
    ensures
        match r {
            Ok(text) => {
                &&& string_fits(view_bytes(*view), address(string_ptr))
                &&& text@ == string_at(view_bytes(*view), address(string_ptr))
            },
            Err(e) => {
                &&& e == HostError::OutOfBounds
                &&& !string_fits(view_bytes(*view), address(string_ptr))
            },
        },
{
    let size: u64 = view_size(view);
    let at: u64 = pointer_address(string_ptr);
    if at < 4 || at > size {
        return Err(HostError::OutOfBounds);
    }
    let mut header: Vec<u8> = vec![0u8; 4];
    match view_read(view, at - 4, &mut header) {
        Ok(()) => {},
        Err(_) => {
            return Err(HostError::OutOfBounds);
        },
    }
    let byte_len: u32 = read_le_u32(&header);
    if byte_len as u64 > size - at {
        return Err(HostError::OutOfBounds);
    }
    let taken: usize = (byte_len / 2 * 2) as usize;
    let mut bytes: Vec<u8> = vec![0u8; taken];
    match view_read(view, at, &mut bytes) {
        Ok(()) => {},
        Err(_) => {
            return Err(HostError::OutOfBounds);
        },
    }
    let units = bytes_to_units(&bytes);
    assert(bytes_units(bytes@) =~= bytes_units(
        view_bytes(*view).subrange(at as int, at + byte_len),
    ));
    Ok(decode_utf16_lossy(&units))
}

/// Puts payload bytes into the memory at the guest pointer.
fn write_payload(memory: &Memory, store: &mut Store, ptr: i32, bytes: &Vec<u8>) -> (r: Result<
    (),
    HostError,
>)
    ensures
        match r {
            Ok(()) => {
                &&& memory_in_store(*memory, *old(store))
                &&& address(ptr) + bytes@.len() <= memory_bytes(*memory, *old(store)).len()
                &&& memory_bytes(*memory, *final(store)) == stored(
                    memory_bytes(*memory, *old(store)),
                    address(ptr),
                    bytes@,
                )
            },
            Err(e) => if !memory_in_store(*memory, *old(store)) {
                e == HostError::ForeignStore
            } else {
                &&& e == HostError::OutOfBounds
                &&& address(ptr) + bytes@.len() > memory_bytes(*memory, *old(store)).len()
                &&& memory_bytes(*memory, *final(store)) == memory_bytes(*memory, *old(store))
            },
        },
        memory_in_store(*memory, *old(store)) ==> memory_in_store(*memory, *final(store)),
{
    if !memory_is_from(memory, store) {
        return Err(HostError::ForeignStore);
    }
    match write_memory(memory, store, pointer_address(ptr), bytes) {
        Ok(()) => Ok(()),
        Err(_) => Err(HostError::OutOfBounds),
    }
}

/// Puts the text's payload into the memory at the guest pointer. The
/// header in front of it is the guest allocator's to write. A payload that
/// does not lie inside the memory is refused, and nothing is written.
pub fn write_string(memory: &Memory, store: &mut Store, ptr: i32, value: &str) -> (r: Result<
    (),
    HostError,
>)
    ensures
        match r {
            Ok(()) => {
                &&& memory_in_store(*memory, *old(store))
                &&& address(ptr) + payload(value@).len() <= memory_bytes(
                    *memory,
                    *old(store),
                ).len()
                &&& memory_bytes(*memory, *final(store)) == stored(
                    memory_bytes(*memory, *old(store)),
                    address(ptr),
                    payload(value@),
                )
            },
            Err(e) => if !memory_in_store(*memory, *old(store)) {
                e == HostError::ForeignStore
            } else {
                &&& e == HostError::OutOfBounds
                &&& address(ptr) + payload(value@).len() > memory_bytes(
                    *memory,
                    *old(store),
                ).len()
                &&& memory_bytes(*memory, *final(store)) == memory_bytes(*memory, *old(store))
            },
        },
        memory_in_store(*memory, *old(store)) ==> memory_in_store(*memory, *final(store)),
{
    let units = encode_utf16(value);
    let bytes = units_to_bytes(&units);
    write_payload(memory, store, ptr, &bytes)
}

/// What the guest allocator is asked for a payload of `units` code units:
/// its length in bytes, and the string class id.
pub fn allocation_request(units: usize) -> (r: Result<Vec<i32>, HostError>)
    ensures
        match r {
            Ok(args) => 2 * units <= i32::MAX && args@ == seq![(2 * units) as i32, STRING_CLASS_ID],
            Err(e) => 2 * units > i32::MAX && e == HostError::TooLong,
        },
{
    if units > 0x3FFF_FFFF {
        return Err(HostError::TooLong);
    }
    let byte_len: i32 = (units * 2) as i32;
    let mut args: Vec<i32> = Vec::new();
    args.push(byte_len);
    args.push(STRING_CLASS_ID);
    assert(args@ =~= seq![(2 * units) as i32, STRING_CLASS_ID]);
    Ok(args)
}

/// The pointer that a guest function returned: its first result, which
/// must be a 32-bit integer.
pub fn returned_pointer(results: &Vec<Option<i32>>) -> (r: Result<i32, HostError>)
    ensures
        match r {
            Ok(ptr) => results@.len() > 0 && results@[0] == Some(ptr),
            Err(e) => e == HostError::MissingPointer && (results@.len() == 0 || results@[0]
                is None),
        },
{
    if results.len() == 0 {
        return Err(HostError::MissingPointer);
    }
    match results[0] {
        Some(ptr) => Ok(ptr),
        None => Err(HostError::MissingPointer),
    }
}

/// The error that stands for a runtime fault of the guest.
pub fn trap_error(error: &RuntimeError) -> (e: HostError)
    ensures
        e matches HostError::GuestTrap(message) && message@ == trap_text(*error),
{
    HostError::GuestTrap(trap_message(error))
}

/// Calls a guest function with 32-bit integers. Where the function does
/// not belong to the store, no call is made.
pub fn call_export(function: &Function, store: &mut Store, args: &Vec<i32>) -> (r: Result<
    Vec<Option<i32>>,
    HostError,
>)
    ensures
        !function_in_store(*function, *old(store)) ==> r == Err::<Vec<Option<i32>>, HostError>(
            HostError::ForeignStore,
        ) && *final(store) == *old(store),
        function_in_store(*function, *old(store)) ==> r is Ok || r matches Err(
            HostError::GuestTrap(_),
        ),
{
    if !function_is_from(function, store) {
        return Err(HostError::ForeignStore);
    }
    match call_i32(function, store, args) {
        Ok(results) => Ok(results),
        Err(error) => Err(trap_error(&error)),
    }
}

/// Memory, allocator and pin function are all set.
pub open spec fn env_ready(env: Env) -> bool {
    &&& env.spec_fn_new() is Some
    &&& env.spec_memory() is Some
    &&& env.spec_fn_pin() is Some
}

/// The first handle that allocation needs and finds unset: the allocator,
/// then the memory, then the pin function.
pub open spec fn first_unset(env: Env) -> Slot
    recommends
        !env_ready(env),
{
    if env.spec_fn_new() is None {
        Slot::Allocate
    } else if env.spec_memory() is None {
        Slot::Memory
    } else {
        Slot::Pin
    }
}

/// The store owns the memory, the allocator and the pin function.
pub open spec fn env_in_store(env: Env, store: Store) -> bool
    recommends
        env_ready(env),
{
    &&& function_in_store(env.spec_fn_new()->0, store)
    &&& memory_in_store(env.spec_memory()->0, store)
    &&& function_in_store(env.spec_fn_pin()->0, store)
}

/// What is decided about an allocation before the guest is called, if
/// anything is: the error for an environment that is not ready, a text that
/// is too long, or handles of another store.
pub open spec fn refused_before_call(env: Env, store: Store, text: Seq<char>) -> Option<
    HostError,
> {
    if !env_ready(env) {
        Some(HostError::NotReady(first_unset(env)))
    } else if 2 * utf16_units(text).len() > i32::MAX {
        Some(HostError::TooLong)
    } else if !env_in_store(env, store) {
        Some(HostError::ForeignStore)
    } else {
        None
    }
}

/// Makes a guest string of the text: asks the guest allocator for the
/// payload's bytes, writes the payload at the pointer that comes back, and
/// pins the allocation. The guest is called only if nothing was refused
/// before; what it answers decides the rest.
pub fn alloc_string(env: &Env, store: &mut Store, value: &str) -> (r: Result<i32, HostError>)
    ensures
        refused_before_call(*env, *old(store), value@) matches Some(e) ==> r == Err::<
            i32,
            HostError,
        >(e) && *final(store) == *old(store),
        r is Ok ==> refused_before_call(*env, *old(store), value@) is None,
        r matches Err(e) ==> {
            ||| refused_before_call(*env, *old(store), value@) == Some(e)
            ||| e is GuestTrap
            ||| e == HostError::MissingPointer
            ||| e == HostError::OutOfBounds
            ||| e == HostError::ForeignStore
        },
{
    let fn_new = match env.try_fn_new() {
        Ok(function) => function,
        Err(e) => {
            return Err(e);
        },
    };
    let memory = match env.try_memory() {
        Ok(memory) => memory,
        Err(e) => {
            return Err(e);
        },
    };
    let fn_pin = match env.try_fn_pin() {
        Ok(function) => function,
        Err(e) => {
            return Err(e);
        },
    };
    let units = encode_utf16(value);
    let request = match allocation_request(units.len()) {
        Ok(request) => request,
        Err(e) => {
            return Err(e);
        },
    };
    if !function_is_from(fn_new, store) || !memory_is_from(memory, store) || !function_is_from(
        fn_pin,
        store,
    ) {
        return Err(HostError::ForeignStore);
    }
    let results = match call_export(fn_new, store, &request) {
        Ok(results) => results,
        Err(e) => {
            return Err(e);
        },
    };
    let ptr = match returned_pointer(&results) {
        Ok(ptr) => ptr,
        Err(e) => {
            return Err(e);
        },
    };
    let bytes = units_to_bytes(&units);
    match write_payload(memory, store, ptr, &bytes) {
        Ok(()) => {},
        Err(e) => {
            return Err(e);
        },
    }
    let mut pinned: Vec<i32> = Vec::new();
    pinned.push(ptr);
    match call_export(fn_pin, store, &pinned) {
        Ok(_) => Ok(ptr),
        Err(e) => Err(e),
    }
}

/// What `lift_string` gives for a memory and a pointer.
pub open spec fn lifted(env: Env, store: Store, ptr: i32) -> Result<Seq<char>, HostError> {
    if env.spec_memory() is None {
        Err(HostError::NotReady(Slot::Memory))
    } else if !memory_in_store(env.spec_memory()->0, store) {
        Err(HostError::ForeignStore)
    } else if !string_fits(memory_bytes(env.spec_memory()->0, store), address(ptr)) {
        Err(HostError::OutOfBounds)
    } else {
        Ok(string_at(memory_bytes(env.spec_memory()->0, store), address(ptr)))
    }
}

/// The string that the guest pointer stands for in the environment's
/// memory.
pub fn lift_string(env: &Env, store: &Store, string_ptr: i32) -> (r: Result<String, HostError>)
    ensures
        match r {
            Ok(text) => lifted(*env, *store, string_ptr) == Ok::<Seq<char>, HostError>(text@),
            Err(e) => lifted(*env, *store, string_ptr) == Err::<Seq<char>, HostError>(e),
        },
{
    let view = match env.try_memory_view(store) {
        Ok(view) => view,
        Err(e) => {
            return Err(e);
        },
    };
    read_string_wasm(&view, string_ptr)
}

} // verus!
