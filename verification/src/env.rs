//! The shared environment: the guest's memory and the functions it exports
//! for allocation, each bound once, after the guest was instantiated.
use crate::error::{HostError, Slot};
use crate::guest::{
    clone_memory, memory_bytes, memory_in_store, memory_is_from, memory_view_of, view_bytes,
};
use vstd::prelude::*;
use wasmer::{Function, Memory, MemoryView, Store};

verus! {

#[derive(Clone)]
pub struct Env {
    memory: Option<Memory>,
    pub fn_new: Option<Function>,
    pub fn_pin: Option<Function>,
    pub fn_unpin: Option<Function>,
}

impl Env {
    /// The memory that the environment holds, if it was set.
    pub closed spec fn spec_memory(&self) -> Option<Memory> {
        self.memory
    }

    /// The guest's allocator, if it was set.
    pub closed spec fn spec_fn_new(&self) -> Option<Function> {
        self.fn_new
    }

    /// The guest's pin function, if it was set.
    pub closed spec fn spec_fn_pin(&self) -> Option<Function> {
        self.fn_pin
    }

    /// The guest's unpin function, if it was set.
    pub closed spec fn spec_fn_unpin(&self) -> Option<Function> {
        self.fn_unpin
    }

    /// An environment in which nothing is set yet.
    pub fn new() -> (env: Env)
        ensures
            env.spec_memory() is None,
            env.spec_fn_new() is None,
            env.spec_fn_pin() is None,
            env.spec_fn_unpin() is None,
    {
        Env { memory: None, fn_new: None, fn_pin: None, fn_unpin: None }
    }

    /// A second handle to the memory, if it was set.
    pub fn memory_clone(&self) -> (memory: Option<Memory>)
        ensures
            memory == self.spec_memory(),
    {
        match &self.memory {
            Some(memory) => Some(clone_memory(memory)),
            None => None,
        }
    }

    /// Sets the memory. It can be set once.
    pub fn set_memory(&mut self, memory: Memory)
        requires
            old(self).spec_memory() is None,
        ensures
            final(self).spec_memory() == Some(memory),
            final(self).spec_fn_new() == old(self).spec_fn_new(),
            final(self).spec_fn_pin() == old(self).spec_fn_pin(),
            final(self).spec_fn_unpin() == old(self).spec_fn_unpin(),
    {
        self.memory = Some(memory);
    }

    /// Sets the memory, unless it was set before: then nothing changes.
    pub fn try_set_memory(&mut self, memory: Memory) -> (r: Result<(), HostError>)
        ensures
            old(self).spec_memory() is None ==> r is Ok && final(self).spec_memory() == Some(
                memory,
            ),
            old(self).spec_memory() is Some ==> r == Err::<(), HostError>(
                HostError::AlreadySet(Slot::Memory),
            ) && final(self).spec_memory() == old(self).spec_memory(),
            final(self).spec_fn_new() == old(self).spec_fn_new(),
            final(self).spec_fn_pin() == old(self).spec_fn_pin(),
            final(self).spec_fn_unpin() == old(self).spec_fn_unpin(),
    {
        if self.memory.is_some() {
            return Err(HostError::AlreadySet(Slot::Memory));
        }
        self.set_memory(memory);
        Ok(())
    }

    /// A view of the memory. The memory must have been set, and belong to
    /// the store.
    pub fn memory_view<'a>(&'a self, store: &'a Store) -> (view: MemoryView<'a>)
        requires
            self.spec_memory() is Some,
            memory_in_store(self.spec_memory()->0, *store),
        ensures
            view_bytes(view) == memory_bytes(self.spec_memory()->0, *store),
    {
        memory_view_of(self.memory(), store)
    }

    /// A view of the memory, or the reason why there is none.
    pub fn try_memory_view<'a>(&'a self, store: &'a Store) -> (r: Result<MemoryView<'a>, HostError>)
        ensures
            match r {
                Ok(view) => {
                    &&& self.spec_memory() is Some
                    &&& memory_in_store(self.spec_memory()->0, *store)
                    &&& view_bytes(view) == memory_bytes(self.spec_memory()->0, *store)
                },
                Err(e) => if self.spec_memory() is None {
                    e == HostError::NotReady(Slot::Memory)
                } else {
                    e == HostError::ForeignStore && !memory_in_store(
                        self.spec_memory()->0,
                        *store,
                    )
                },
            },
    {
        match &self.memory {
            None => Err(HostError::NotReady(Slot::Memory)),
            Some(memory) => {
                if memory_is_from(memory, store) {
                    Ok(memory_view_of(memory, store))
                } else {
                    Err(HostError::ForeignStore)
                }
            },
        }
    }

    /// The memory, which must have been set.
    pub fn memory(&self) -> (memory: &Memory)
        requires
            self.spec_memory() is Some,
        ensures
            *memory == self.spec_memory()->0,
    {
        self.memory.as_ref().unwrap()
    }

    /// The guest's allocator, which must have been set.
    pub fn fn_new(&self) -> (function: &Function)
        requires
            self.spec_fn_new() is Some,
        ensures
            *function == self.spec_fn_new()->0,
    {
        self.fn_new.as_ref().unwrap()
    }

    /// The guest's pin function, which must have been set.
    pub fn fn_pin(&self) -> (function: &Function)
        requires
            self.spec_fn_pin() is Some,
        ensures
            *function == self.spec_fn_pin()->0,
    {
        self.fn_pin.as_ref().unwrap()
    }

    /// The memory, or that it is not set yet.
    pub fn try_memory(&self) -> (r: Result<&Memory, HostError>)
        ensures
            match r {
                Ok(memory) => self.spec_memory() == Some(*memory),
                Err(e) => self.spec_memory() is None && e == HostError::NotReady(Slot::Memory),
            },
    {
        match &self.memory {
            Some(memory) => Ok(memory),
            None => Err(HostError::NotReady(Slot::Memory)),
        }
    }

    /// The guest's allocator, or that it is not set yet.
    pub fn try_fn_new(&self) -> (r: Result<&Function, HostError>)
        ensures
            match r {
                Ok(function) => self.spec_fn_new() == Some(*function),
                Err(e) => self.spec_fn_new() is None && e == HostError::NotReady(Slot::Allocate),
            },
    {
        match &self.fn_new {
            Some(function) => Ok(function),
            None => Err(HostError::NotReady(Slot::Allocate)),
        }
    }

    /// The guest's pin function, or that it is not set yet.
    pub fn try_fn_pin(&self) -> (r: Result<&Function, HostError>)
        ensures
            match r {
                Ok(function) => self.spec_fn_pin() == Some(*function),
                Err(e) => self.spec_fn_pin() is None && e == HostError::NotReady(Slot::Pin),
            },
    {
        match &self.fn_pin {
            Some(function) => Ok(function),
            None => Err(HostError::NotReady(Slot::Pin)),
        }
    }

    /// Sets the guest's allocator, unless it was set before: then nothing
    /// changes.
    pub fn try_set_fn_new(&mut self, fn_new: Function) -> (r: Result<(), HostError>)
        ensures
            old(self).spec_fn_new() is None ==> r is Ok && final(self).spec_fn_new() == Some(
                fn_new,
            ),
            old(self).spec_fn_new() is Some ==> r == Err::<(), HostError>(
                HostError::AlreadySet(Slot::Allocate),
            ) && final(self).spec_fn_new() == old(self).spec_fn_new(),
            final(self).spec_memory() == old(self).spec_memory(),
            final(self).spec_fn_pin() == old(self).spec_fn_pin(),
            final(self).spec_fn_unpin() == old(self).spec_fn_unpin(),
    {
        if self.fn_new.is_some() {
            return Err(HostError::AlreadySet(Slot::Allocate));
        }
        self.set_fn_new(fn_new);
        Ok(())
    }

    /// Sets the guest's pin function, unless it was set before: then nothing
    /// changes.
    pub fn try_set_fn_pin(&mut self, fn_pin: Function) -> (r: Result<(), HostError>)
        ensures
            old(self).spec_fn_pin() is None ==> r is Ok && final(self).spec_fn_pin() == Some(
                fn_pin,
            ),
            old(self).spec_fn_pin() is Some ==> r == Err::<(), HostError>(
                HostError::AlreadySet(Slot::Pin),
            ) && final(self).spec_fn_pin() == old(self).spec_fn_pin(),
            final(self).spec_memory() == old(self).spec_memory(),
            final(self).spec_fn_new() == old(self).spec_fn_new(),
            final(self).spec_fn_unpin() == old(self).spec_fn_unpin(),
    {
        if self.fn_pin.is_some() {
            return Err(HostError::AlreadySet(Slot::Pin));
        }
        self.set_fn_pin(fn_pin);
        Ok(())
    }

    /// Sets the guest's allocator. It can be set once.
    pub fn set_fn_new(&mut self, fn_new: Function)
        requires
            old(self).spec_fn_new() is None,
        ensures
            final(self).spec_fn_new() == Some(fn_new),
            final(self).spec_memory() == old(self).spec_memory(),
            final(self).spec_fn_pin() == old(self).spec_fn_pin(),
            final(self).spec_fn_unpin() == old(self).spec_fn_unpin(),
    {
        self.fn_new = Some(fn_new);
    }

    /// Sets the guest's pin function. It can be set once.
    pub fn set_fn_pin(&mut self, fn_pin: Function)
        requires
            old(self).spec_fn_pin() is None,
        ensures
            final(self).spec_fn_pin() == Some(fn_pin),
            final(self).spec_memory() == old(self).spec_memory(),
            final(self).spec_fn_new() == old(self).spec_fn_new(),
            final(self).spec_fn_unpin() == old(self).spec_fn_unpin(),
    {
        self.fn_pin = Some(fn_pin);
    }

    /// Sets the guest's unpin function. It can be set once.
    pub fn set_fn_unpin(&mut self, fn_unpin: Function)
        requires
            old(self).spec_fn_unpin() is None,
        ensures
            final(self).spec_fn_unpin() == Some(fn_unpin),
            final(self).spec_memory() == old(self).spec_memory(),
            final(self).spec_fn_new() == old(self).spec_fn_new(),
            final(self).spec_fn_pin() == old(self).spec_fn_pin(),
    {
        self.fn_unpin = Some(fn_unpin);
    }
}

impl Default for Env {
    /// An environment in which nothing is set yet.
    fn default() -> (env: Env)
        ensures
            env.spec_memory() is None,
            env.spec_fn_new() is None,
            env.spec_fn_pin() is None,
            env.spec_fn_unpin() is None,
    {
        Env::new()
    }
}

} // verus!
