//! Driving a guest: filling the shared environment from what the instance
//! exports, and calling a guest function from string to string.
use crate::codec::{
    alloc_string, call_export, env_ready, lift_string, lifted, refused_before_call,
    returned_pointer,
};
use crate::env::Env;
use crate::error::{ExportFault, HostError, Slot};
use crate::guest::{export_function, export_memory, exported_function, exported_memory};
use vstd::prelude::*;
use wasmer::{Exports, Function, Memory, Store};

verus! {

/// None of the handles that the guest's exports fill is set yet.
pub open spec fn unbound(env: Env) -> bool {
    &&& env.spec_memory() is None
    &&& env.spec_fn_pin() is None
    &&& env.spec_fn_new() is None
}

/// The first handle that is set already: the memory, then the pin
/// function, then the allocator.
pub open spec fn first_bound(env: Env) -> Slot
    recommends
        !unbound(env),
{
    if env.spec_memory() is Some {
        Slot::Memory
    } else if env.spec_fn_pin() is Some {
        Slot::Pin
    } else {
        Slot::Allocate
    }
}

/// The error for an export that could not be had for a handle.
pub open spec fn spec_export_error(slot: Slot, fault: ExportFault) -> HostError {
    match fault {
        ExportFault::Missing => HostError::MissingExport(slot),
        ExportFault::WrongKind => HostError::WrongExportKind(slot),
    }
}

/// The error for an export that could not be had for a handle.
pub fn export_error(slot: Slot, fault: ExportFault) -> (e: HostError)
    ensures
        e == spec_export_error(slot, fault),
{
    match fault {
        ExportFault::Missing => HostError::MissingExport(slot),
        ExportFault::WrongKind => HostError::WrongExportKind(slot),
    }
}

/// Fills an environment with the guest's memory, allocator and pin
/// function. Where one of them is set already, nothing changes.
pub fn bind_exports(env: &mut Env, memory: Memory, fn_new: Function, fn_pin: Function) -> (r:
    Result<(), HostError>)
    ensures
        match r {
            Ok(()) => {
                &&& unbound(*old(env))
                &&& final(env).spec_memory() == Some(memory)
                &&& final(env).spec_fn_new() == Some(fn_new)
                &&& final(env).spec_fn_pin() == Some(fn_pin)
                &&& final(env).spec_fn_unpin() == old(env).spec_fn_unpin()
            },
            Err(e) => {
                &&& !unbound(*old(env))
                &&& e == HostError::AlreadySet(first_bound(*old(env)))
                &&& *final(env) == *old(env)
            },
        },
{
    if env.try_memory().is_ok() {
        return Err(HostError::AlreadySet(Slot::Memory));
    }
    if env.try_fn_pin().is_ok() {
        return Err(HostError::AlreadySet(Slot::Pin));
    }
    if env.try_fn_new().is_ok() {
        return Err(HostError::AlreadySet(Slot::Allocate));
    }
    env.set_memory(memory);
    env.set_fn_pin(fn_pin);
    env.set_fn_new(fn_new);
    Ok(())
}

/// The error for the first export that an environment cannot be filled
/// from: the memory under `memory`, then the pin function under `__pin`,
/// then the allocator under `__new`.
pub open spec fn first_export_error(exports: Exports) -> Option<HostError> {
    if exported_memory(exports, "memory"@) is Err {
        Some(spec_export_error(Slot::Memory, exported_memory(exports, "memory"@)->Err_0))
    } else if exported_function(exports, "__pin"@) is Err {
        Some(spec_export_error(Slot::Pin, exported_function(exports, "__pin"@)->Err_0))
    } else if exported_function(exports, "__new"@) is Err {
        Some(spec_export_error(Slot::Allocate, exported_function(exports, "__new"@)->Err_0))
    } else {
        None
    }
}

/// Fills an environment from an instance's exports: the memory under
/// `memory`, the pin function under `__pin`, the allocator under `__new`.
/// An environment in which one of them is set already is refused before the
/// exports are looked at. On any error the environment stays as it was.
pub fn resolve_exports(env: &mut Env, exports: &Exports) -> (r: Result<(), HostError>)
    ensures
        match r {
            Ok(()) => {
                &&& unbound(*old(env))
                &&& first_export_error(*exports) is None
                &&& Ok::<Memory, ExportFault>(final(env).spec_memory()->0) == exported_memory(
                    *exports,
                    "memory"@,
                )
                &&& Ok::<Function, ExportFault>(final(env).spec_fn_pin()->0) == exported_function(
                    *exports,
                    "__pin"@,
                )
                &&& Ok::<Function, ExportFault>(final(env).spec_fn_new()->0) == exported_function(
                    *exports,
                    "__new"@,
                )
                &&& env_ready(*final(env))
                &&& final(env).spec_fn_unpin() == old(env).spec_fn_unpin()
            },
            Err(e) => {
                &&& *final(env) == *old(env)
                &&& if !unbound(*old(env)) {
                    e == HostError::AlreadySet(first_bound(*old(env)))
                } else {
                    first_export_error(*exports) == Some(e)
                }
            },
        },
{
    if env.try_memory().is_ok() {
        return Err(HostError::AlreadySet(Slot::Memory));
    }
    if env.try_fn_pin().is_ok() {
        return Err(HostError::AlreadySet(Slot::Pin));
    }
    if env.try_fn_new().is_ok() {
        return Err(HostError::AlreadySet(Slot::Allocate));
    }
    let memory = match export_memory(exports, "memory") {
        Ok(memory) => memory,
        Err(fault) => {
            return Err(export_error(Slot::Memory, fault));
        },
    };
    let fn_pin = match export_function(exports, "__pin") {
        Ok(function) => function,
        Err(fault) => {
            return Err(export_error(Slot::Pin, fault));
        },
    };
    let fn_new = match export_function(exports, "__new") {
        Ok(function) => function,
        Err(fault) => {
            return Err(export_error(Slot::Allocate, fault));
        },
    };
    bind_exports(env, memory, fn_new, fn_pin)
}

/// Calls a guest function from string to string: makes a guest string of
/// the input, calls the function with its pointer, and reads the string at
/// the pointer that comes back. The guest is called only if nothing was
/// refused before; a text that comes back is the string at some pointer in
/// the memory as the guest left it.
pub fn invoke(env: &Env, store: &mut Store, entry: &Function, input: &str) -> (r: Result<
    String,
    HostError,
>)
    ensures
        refused_before_call(*env, *old(store), input@) matches Some(e) ==> r == Err::<
            String,
            HostError,
        >(e) && *final(store) == *old(store),
        match r {
            Ok(text) => {
                &&& refused_before_call(*env, *old(store), input@) is None
                &&& exists|ptr: i32|
                    lifted(*env, *final(store), ptr) == Ok::<Seq<char>, HostError>(text@)
            },
            Err(e) => {
                ||| refused_before_call(*env, *old(store), input@) == Some(e)
                ||| e is GuestTrap
                ||| e == HostError::MissingPointer
                ||| e == HostError::OutOfBounds
                ||| e == HostError::ForeignStore
            },
        },
{
    let ptr = match alloc_string(env, store, input) {
        Ok(ptr) => ptr,
        Err(e) => {
            return Err(e);
        },
    };
    let mut args: Vec<i32> = Vec::new();
    args.push(ptr);
    let results = match call_export(entry, store, &args) {
        Ok(results) => results,
        Err(e) => {
            return Err(e);
        },
    };
    let out = match returned_pointer(&results) {
        Ok(out) => out,
        Err(e) => {
            return Err(e);
        },
    };
    lift_string(env, store, out)
}

} // verus!
