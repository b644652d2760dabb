//! Configuration of a thread before it is spawned.

use vstd::prelude::*;
use vstd::utf8::encode_utf8;

verus! {

/// Stack size, in bytes, of a thread whose builder set none.
pub const MIN_STACK_SIZE: usize = 1024;

/// The bytes of a name, as the OS receives them (without the terminator).
pub open spec fn name_bytes(name: Seq<char>) -> Seq<u8> {
    encode_utf8(name)
}

/// Whether a name can be handed to the OS: it holds no null byte.
pub open spec fn name_is_valid(name: Seq<char>) -> bool {
    !name_bytes(name).contains(0u8)
}

/// Index of the first null byte of `bytes`, if any.
pub open spec fn first_nul(bytes: Seq<u8>) -> int {
    choose|i: int| 0 <= i < bytes.len() && bytes[i] == 0u8 && forall|j: int| 0 <= j < i ==> bytes[j] != 0u8
}

/// The view of an optional string.
pub open spec fn opt_chars(s: Option<String>) -> Option<Seq<char>> {
    match s {
        Some(s) => Some(s@),
        None => None,
    }
}

/// A name was rejected because it holds a null byte.
#[derive(Clone, Debug)]
pub struct NulError {
    position: usize,
    bytes: Vec<u8>,
}

impl NulError {
    /// Byte index of the first null byte of the rejected name.
    pub closed spec fn spec_position(&self) -> usize {
        self.position
    }

    /// The bytes of the rejected name.
    pub closed spec fn spec_bytes(&self) -> Seq<u8> {
        self.bytes@
    }

    /// Byte index of the first null byte of the rejected name.
    pub fn nul_position(&self) -> (r: usize)
        ensures
            r == self.spec_position(),
    {
        self.position
    }

    /// The bytes of the rejected name.
    pub fn into_vec(self) -> (r: Vec<u8>)
        ensures
            r@ == self.spec_bytes(),
    {
        self.bytes
    }
}

/// Searches `name` for a null byte: `None` if it holds none, else the error
/// that names the first one.
fn find_nul(name: &String) -> (r: Option<NulError>)
    ensures
        r is None <==> name_is_valid(name@),
        r matches Some(e) ==> e.spec_bytes() == name_bytes(name@) && e.spec_position()
            == first_nul(name_bytes(name@)),
{
    let bytes = name.as_str().as_bytes();
    let ghost b = name_bytes(name@);
    assert(bytes@ == b);
    let mut i: usize = 0;
    while i < bytes.len()
        invariant
            bytes@ == b,
            b == name_bytes(name@),
            i <= b.len(),
            forall|j: int| 0 <= j < i ==> b[j] != 0u8,
        decreases b.len() - i,
    {
        if bytes[i] == 0u8 {
            assert(b[i as int] == 0u8);
            assert(b.contains(0u8));
            assert(exists|k: int| 0 <= k < b.len() && b[k] == 0u8 && forall|j: int| 0 <= j < k ==> b[j] != 0u8) by {
                assert(0 <= i < b.len() && b[i as int] == 0u8 && forall|j: int| 0 <= j < i ==> b[j] != 0u8);
            }
            let ghost p = first_nul(b);
            assert(p == i as int) by {
                if p < i {
                    assert(b[p] != 0u8);
                } else if p > i {
                    assert(b[i as int] != 0u8);
                }
            }
            let e = NulError { position: i, bytes: vstd::slice::slice_to_vec(bytes) };
            return Some(e);
        }
        i = i + 1;
    }
    assert(!b.contains(0u8)) by {
        if b.contains(0u8) {
            let k = choose|k: int| 0 <= k < b.len() && b[k] == 0u8;
            assert(b[k] != 0u8);
        }
    }
    None
}

/// What a thread is created with, once its builder's defaults are applied.
#[derive(Clone, Debug)]
pub struct ThreadConfig {
    /// The thread's name, if one was set.
    pub name: Option<String>,
    /// Stack size in bytes.
    pub stack_size: usize,
    /// Whether heap tracing is switched on explicitly; when false the OS's own
    /// policy decides.
    pub enable_heap_trace: bool,
}

impl ThreadConfig {
    /// The name as a null-terminated byte string, ready for the OS.
    pub fn c_name(&self) -> (r: Option<Vec<u8>>)
        requires
            self.name matches Some(n) ==> name_is_valid(n@),
        ensures
            self.name is None <==> r is None,
            r matches Some(v) ==> (self.name matches Some(n) && v@ == name_bytes(n@).push(0u8)),
    {
        match &self.name {
            None => None,
            Some(n) => {
                let mut v = vstd::slice::slice_to_vec(n.as_str().as_bytes());
                v.push(0u8);
                Some(v)
            },
        }
    }
}

/// Thread factory: accumulates the properties of a thread to be spawned.
pub struct Builder {
    name: Option<String>,
    stack_size: Option<usize>,
    heap_trace_enabled: Option<bool>,
}

impl Builder {
    /// The name set so far.
    pub closed spec fn spec_name(&self) -> Option<Seq<char>> {
        opt_chars(self.name)
    }

    /// The stack size set so far.
    pub closed spec fn spec_stack_size(&self) -> Option<usize> {
        self.stack_size
    }

    /// The heap tracing choice made so far.
    pub closed spec fn spec_heap_trace(&self) -> Option<bool> {
        self.heap_trace_enabled
    }

    /// A name, once set, is one the OS accepts.
    pub open spec fn wf(&self) -> bool {
        self.spec_name() matches Some(n) ==> name_is_valid(n)
    }

    /// The base configuration: no name, default stack size, heap tracing left
    /// to the OS's policy.
    pub fn new() -> (r: Builder)
        ensures
            r.wf(),
            r.spec_name() is None,
            r.spec_stack_size() is None,
            r.spec_heap_trace() is None,
    {
        Builder { name: None, stack_size: None, heap_trace_enabled: None }
    }

    /// Names the thread-to-be. A name that holds a null byte is rejected and
    /// leaves the builder as it was.
    pub fn set_name(&mut self, name: String) -> (r: Result<(), NulError>)
        ensures
            r is Ok <==> name_is_valid(name@),
            r is Ok ==> final(self).spec_name() == Some(name@) && final(self).spec_stack_size()
                == old(self).spec_stack_size() && final(self).spec_heap_trace()
                == old(self).spec_heap_trace(),
            r is Err ==> *final(self) == *old(self),
            r matches Err(e) ==> e.spec_bytes() == name_bytes(name@) && e.spec_position()
                == first_nul(name_bytes(name@)),
            old(self).wf() ==> final(self).wf(),
    {
        match find_nul(&name) {
            Some(e) => Err(e),
            None => {
                self.name = Some(name);
                Ok(())
            },
        }
    }

    /// Names the thread-to-be; fails if the name holds a null byte.
    pub fn name(self, name: String) -> (r: Result<Builder, NulError>)
        ensures
            r is Ok <==> name_is_valid(name@),
            r matches Ok(b) ==> b.spec_name() == Some(name@) && b.spec_stack_size()
                == self.spec_stack_size() && b.spec_heap_trace() == self.spec_heap_trace(),
            r matches Err(e) ==> e.spec_bytes() == name_bytes(name@) && e.spec_position()
                == first_nul(name_bytes(name@)),
            r matches Ok(b) ==> (self.wf() ==> b.wf()),
    {
        let mut b = self;
        match b.set_name(name) {
            Ok(()) => Ok(b),
            Err(e) => Err(e),
        }
    }

    /// Sets the size of the new thread's stack, in bytes.
    pub fn stack_size(self, size: usize) -> (r: Builder)
        ensures
            r.spec_stack_size() == Some(size),
            r.spec_name() == self.spec_name(),
            r.spec_heap_trace() == self.spec_heap_trace(),
            self.wf() ==> r.wf(),
    {
        Builder { name: self.name, stack_size: Some(size), heap_trace_enabled: self.heap_trace_enabled }
    }

    /// Switches heap tracing on for the new thread.
    pub fn enable_heap_trace(self) -> (r: Builder)
        ensures
            r.spec_heap_trace() == Some(true),
            r.spec_name() == self.spec_name(),
            r.spec_stack_size() == self.spec_stack_size(),
            self.wf() ==> r.wf(),
    {
        Builder { name: self.name, stack_size: self.stack_size, heap_trace_enabled: Some(true) }
    }

    /// Applies the defaults: the stack size falls back to `MIN_STACK_SIZE`, and
    /// heap tracing is switched on only where it was asked for.
    pub fn into_config(self) -> (r: ThreadConfig)
        ensures
            opt_chars(r.name) == self.spec_name(),
            r.stack_size == match self.spec_stack_size() {
                Some(s) => s,
                None => MIN_STACK_SIZE,
            },
            r.enable_heap_trace == (self.spec_heap_trace() == Some(true)),
    {
        let stack_size = match self.stack_size {
            Some(s) => s,
            None => MIN_STACK_SIZE,
        };
        let enable_heap_trace = match self.heap_trace_enabled {
            Some(t) => t,
            None => false,
        };
        ThreadConfig { name: self.name, stack_size, enable_heap_trace }
    }
}

impl Default for Builder {
    fn default() -> (r: Builder)
        ensures
            r.wf(),
            r.spec_name() is None,
            r.spec_stack_size() is None,
            r.spec_heap_trace() is None,
    {
        Builder::new()
    }
}

} // verus!
