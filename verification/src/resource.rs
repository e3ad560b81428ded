//! What one connection owns besides its engine: two buffers and the header
//! slots.

use crate::buf::{BufferView, ByteBuffer};
use crate::engine::{CANONICAL_500, canonical_500, fit};
use crate::request::{HeaderSlots, HeaderView};
use vstd::prelude::*;

verus! {

/// The capacity that the buffers of a connection start with, unless
/// configured otherwise.
pub const DEFAULT_BUFFER_CAPACITY: usize = 2048;

/// The resettable state of one live connection: an input buffer, an output
/// buffer and the header slots.
#[derive(Debug)]
pub struct Resource {
    pub input_buffer: ByteBuffer,
    pub output_buffer: ByteBuffer,
    pub headers: HeaderSlots,
}

/// A [`Resource`] as mathematics.
pub struct ResourceView {
    pub input: BufferView,
    pub output: BufferView,
    pub headers: Seq<HeaderView>,
}

impl ResourceView {
    /// Both buffers are empty and so is every header slot; the capacities
    /// stay.
    pub open spec fn reset(self) -> ResourceView {
        ResourceView {
            input: self.input.reset(),
            output: self.output.reset(),
            headers: Seq::empty(),
        }
    }

    /// The buffers are such that an engine can work with them.
    pub open spec fn wf(self) -> bool {
        fit(self.input, self.output)
    }
}

impl View for Resource {
    type V = ResourceView;

    open spec fn view(&self) -> ResourceView {
        ResourceView {
            input: self.input_buffer@,
            output: self.output_buffer@,
            headers: self.headers@,
        }
    }
}

impl Resource {
    /// Buffers of `capacity` bytes each, empty, and empty header slots.
    ///
    /// The capacity has to hold the canonical error response, which is the
    /// one response that the engine itself writes.
    pub fn new(capacity: usize) -> (resource: Resource)
        requires
            capacity > 0,
            capacity >= canonical_500().len(),
        ensures
            resource@.input == BufferView::fresh(capacity as nat),
            resource@.output == BufferView::fresh(capacity as nat),
            resource@.headers == Seq::<HeaderView>::empty(),
            resource@.wf(),
    {
        Resource {
            input_buffer: ByteBuffer::with_capacity(capacity),
            output_buffer: ByteBuffer::with_capacity(capacity),
            headers: HeaderSlots::new(),
        }
    }

    /// [`Resource::new`] where `capacity` allows it, and nothing where it is
    /// zero or too small for the canonical error response.
    pub fn try_new(capacity: usize) -> (resource: Option<Resource>)
        ensures
            resource is Some <==> capacity > 0 && capacity >= canonical_500().len(),
            resource matches Some(r) ==> {
                &&& r@.input == BufferView::fresh(capacity as nat)
                &&& r@.output == BufferView::fresh(capacity as nat)
                &&& r@.headers == Seq::<HeaderView>::empty()
                &&& r@.wf()
            },
    {
        if capacity > 0 && capacity >= CANONICAL_500.as_bytes().len() {
            Some(Resource::new(capacity))
        } else {
            None
        }
    }

    /// Whether the buffers are such that an engine can work with them: the
    /// input buffer has room to grow from, and the output buffer holds the
    /// canonical error response.
    pub fn is_fit(&self) -> (fits: bool)
        ensures
            fits == self@.wf(),
    {
        proof {
            use_type_invariant(&self.input_buffer);
            use_type_invariant(&self.output_buffer);
        }
        self.input_buffer.capacity() > 0 && self.output_buffer.capacity() >= CANONICAL_500.as_bytes().len()
    }

    /// Clears both buffers and every header slot, for the next request on
    /// the connection. The capacities stay.
    pub fn reset(&mut self)
        ensures
            final(self)@ == old(self)@.reset(),
            old(self)@.wf() ==> final(self)@.wf(),
    {
        self.input_buffer.reset();
        self.output_buffer.reset();
        self.headers.reset();
    }
}

} // verus!
