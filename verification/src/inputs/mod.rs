//! Inputs are the actual contents sent to a target for each execution.
use vstd::prelude::*;

verus! {

/// Something with a length.
pub trait HasLen {
    /// The length.
    spec fn spec_len(&self) -> nat;

    /// The length.
    fn len(&self) -> (r: usize)
        ensures
            r == self.spec_len(),
    ;

    /// Whether the length is zero.
    fn is_empty(&self) -> (r: bool)
        ensures
            r == (self.spec_len() == 0),
    ;
}

/// An input for the target.
pub trait Input {
    /// The bytes that identify this input; equal bytes give equal testcase ids.
    spec fn spec_id_bytes(&self) -> Seq<u8>;

    /// The bytes that identify this input.
    fn id_bytes(&self) -> (r: Vec<u8>)
        ensures
            r@ == self.spec_id_bytes(),
    ;
}

/// Contains mutable bytes.
pub trait HasMutatorBytes {
    /// The bytes.
    spec fn spec_mutator_bytes(&self) -> Seq<u8>;

    /// The bytes.
    fn mutator_bytes(&self) -> (r: &[u8])
        ensures
            r@ == self.spec_mutator_bytes(),
    ;
}

/// Turns an input into the bytes handed to the target.
pub trait InputContext {
    /// The input type.
    type Input;

    /// The bytes of `input`.
    spec fn spec_to_bytes(&self, input: &Self::Input) -> Seq<u8>;

    /// Turns this `input` into bytes.
    fn to_bytes(&mut self, input: &Self::Input) -> (r: Vec<u8>)
        ensures
            r@ == old(self).spec_to_bytes(input),
    ;

    /// The size of the `input` in bytes.
    fn len(&self, input: &Self::Input) -> (r: usize)
        ensures
            r == self.spec_to_bytes(input).len(),
    ;
}

/// An input made of bytes.
#[derive(Clone, Debug, PartialEq, Eq, Hash)]
pub struct BytesInput {
    bytes: Vec<u8>,
}

impl BytesInput {
    /// Creates a new input from its bytes.
    pub fn new(bytes: Vec<u8>) -> (r: Self)
        ensures
            r.spec_bytes() == bytes@,
    {
        BytesInput { bytes }
    }

    /// The bytes of this input.
    pub closed spec fn spec_bytes(&self) -> Seq<u8> {
        self.bytes@
    }

    /// The bytes of this input.
    pub fn bytes(&self) -> (r: &Vec<u8>)
        ensures
            r@ == self.spec_bytes(),
    {
        &self.bytes
    }

    /// Gives back the bytes of this input.
    pub fn into_bytes(self) -> (r: Vec<u8>)
        ensures
            r@ == self.spec_bytes(),
    {
        self.bytes
    }
}

impl From<Vec<u8>> for BytesInput {
    fn from(bytes: Vec<u8>) -> (r: Self)
        ensures
            r.spec_bytes() == bytes@,
    {
        BytesInput { bytes }
    }
}

impl vstd::std_specs::convert::FromSpecImpl<Vec<u8>> for BytesInput {
    open spec fn obeys_from_spec() -> bool {
        true
    }

    closed spec fn from_spec(bytes: Vec<u8>) -> Self {
        BytesInput { bytes }
    }
}

impl HasLen for BytesInput {
    open spec fn spec_len(&self) -> nat {
        self.spec_bytes().len()
    }

    fn len(&self) -> (r: usize) {
        self.bytes.len()
    }

    fn is_empty(&self) -> (r: bool) {
        self.bytes.len() == 0
    }
}

impl Input for BytesInput {
    open spec fn spec_id_bytes(&self) -> Seq<u8> {
        self.spec_bytes()
    }

    fn id_bytes(&self) -> (r: Vec<u8>) {
        self.bytes.clone()
    }
}

impl HasMutatorBytes for BytesInput {
    open spec fn spec_mutator_bytes(&self) -> Seq<u8> {
        self.spec_bytes()
    }

    fn mutator_bytes(&self) -> (r: &[u8]) {
        self.bytes.as_slice()
    }
}

/// Turns a [`BytesInput`] into its bytes.
#[derive(Default, Debug, Clone)]
pub struct BytesContext;

impl InputContext for BytesContext {
    type Input = BytesInput;

    open spec fn spec_to_bytes(&self, input: &BytesInput) -> Seq<u8> {
        input.spec_bytes()
    }

    fn to_bytes(&mut self, input: &BytesInput) -> (r: Vec<u8>) {
        input.bytes.clone()
    }

    fn len(&self, input: &BytesInput) -> (r: usize) {
        input.bytes.len()
    }
}

/// An input for tests, mainly. It holds nothing.
#[derive(Clone, Debug, Default, Hash)]
pub struct NopInput;

impl NopInput {
    /// Creates a new [`NopInput`].
    pub fn new() -> (r: Self) {
        NopInput
    }
}

impl HasLen for NopInput {
    open spec fn spec_len(&self) -> nat {
        0
    }

    fn len(&self) -> (r: usize) {
        0
    }

    fn is_empty(&self) -> (r: bool) {
        true
    }
}

impl Input for NopInput {
    open spec fn spec_id_bytes(&self) -> Seq<u8> {
        Seq::empty()
    }

    fn id_bytes(&self) -> (r: Vec<u8>) {
        Vec::new()
    }
}

/// Turns a [`NopInput`] into no bytes at all.
#[derive(Default, Debug, Clone)]
pub struct NopContext;

impl InputContext for NopContext {
    type Input = NopInput;

    open spec fn spec_to_bytes(&self, input: &NopInput) -> Seq<u8> {
        Seq::empty()
    }

    fn to_bytes(&mut self, _input: &NopInput) -> (r: Vec<u8>) {
        Vec::new()
    }

    fn len(&self, _input: &NopInput) -> (r: usize) {
        0
    }
}

impl HasLen for Vec<u8> {
    open spec fn spec_len(&self) -> nat {
        self@.len()
    }

    fn len(&self) -> (r: usize) {
        Vec::len(self)
    }

    fn is_empty(&self) -> (r: bool) {
        Vec::len(self) == 0
    }
}

impl HasMutatorBytes for Vec<u8> {
    open spec fn spec_mutator_bytes(&self) -> Seq<u8> {
        self@
    }

    fn mutator_bytes(&self) -> (r: &[u8]) {
        self.as_slice()
    }
}

/// Contents that can grow and shrink.
pub trait ResizableMutator<T> {
    /// The contents.
    spec fn spec_contents(&self) -> Seq<T>;

    /// Resizes the contents to `new_len`, filling new slots with `value`.
    fn resize(&mut self, new_len: usize, value: T)
        ensures
            final(self).spec_contents().len() == new_len,
            forall|i: int|
                0 <= i < new_len && i < old(self).spec_contents().len()
                    ==> #[trigger] final(self).spec_contents()[i] == old(self).spec_contents()[i],
            forall|i: int|
                old(self).spec_contents().len() <= i < new_len
                    ==> #[trigger] final(self).spec_contents()[i] == value,
    ;

    /// Appends the given values.
    fn extend(&mut self, values: &[T])
        requires
            old(self).spec_contents().len() + values@.len() <= usize::MAX,
        ensures
            final(self).spec_contents() == old(self).spec_contents() + values@,
    ;

    /// Removes the values in `start..end` and gives them back.
    fn drain(&mut self, start: usize, end: usize) -> (r: Vec<T>)
        requires
            start <= end <= old(self).spec_contents().len(),
        ensures
            r@ == old(self).spec_contents().subrange(start as int, end as int),
            final(self).spec_contents() == old(self).spec_contents().take(start as int)
                + old(self).spec_contents().skip(end as int),
    ;
}

impl ResizableMutator<u8> for Vec<u8> {
    open spec fn spec_contents(&self) -> Seq<u8> {
        self@
    }

    fn resize(&mut self, new_len: usize, value: u8) {
        let ghost before = self@;
        if new_len <= self.len() {
            self.truncate(new_len);
        } else {
            while self.len() < new_len
                invariant
                    before.len() <= self@.len() <= new_len,
                    forall|i: int| 0 <= i < before.len() ==> #[trigger] self@[i] == before[i],
                    forall|i: int| before.len() <= i < self@.len() ==> #[trigger] self@[i] == value,
                decreases new_len - self@.len(),
            {
                self.push(value);
            }
        }
    }

    fn extend(&mut self, values: &[u8]) {
        let ghost before = self@;
        let mut i: usize = 0;
        while i < values.len()
            invariant
                0 <= i <= values@.len(),
                before.len() + values@.len() <= usize::MAX,
                self@ == before + values@.take(i as int),
            decreases values@.len() - i,
        {
            self.push(values[i]);
            i = i + 1;
            assert(self@ =~= before + values@.take(i as int));
        }
        assert(values@.take(values@.len() as int) =~= values@);
    }

    fn drain(&mut self, start: usize, end: usize) -> (r: Vec<u8>) {
        let ghost before = self@;
        let n = self.len();
        let mut removed: Vec<u8> = Vec::new();
        let mut kept: Vec<u8> = Vec::new();
        let mut i: usize = 0;
        while i < start
            invariant
                0 <= i <= start,
                start <= end <= n,
                n == before.len(),
                self@ == before,
                kept@ == before.take(i as int),
            decreases start - i,
        {
            kept.push(self[i]);
            i = i + 1;
            assert(kept@ =~= before.take(i as int));
        }
        while i < end
            invariant
                start <= i <= end,
                end <= n,
                n == before.len(),
                self@ == before,
                kept@ == before.take(start as int),
                removed@ == before.subrange(start as int, i as int),
            decreases end - i,
        {
            removed.push(self[i]);
            i = i + 1;
            assert(removed@ =~= before.subrange(start as int, i as int));
        }
        while i < n
            invariant
                end <= i <= n,
                n == before.len(),
                self@ == before,
                kept@ == before.take(start as int) + before.subrange(end as int, i as int),
            decreases n - i,
        {
            kept.push(self[i]);
            i = i + 1;
            assert(kept@ =~= before.take(start as int) + before.subrange(end as int, i as int));
        }
        *self = kept;
        proof {
            assert(before.subrange(end as int, n as int) =~= before.skip(end as int));
        }
        removed
    }
}

} // verus!
