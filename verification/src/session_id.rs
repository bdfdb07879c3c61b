//! Session identifiers.

use vstd::prelude::*;

verus! {

/// The largest number of bytes a session identifier can hold.
pub const MAX_SESSION_ID_LEN: usize = 32;

/// An opaque session identifier of at most 32 bytes.
///
/// The empty identifier stands for "no resumable session". Two identifiers
/// are equal when they hold the same bytes.
#[derive(Debug, Clone, Copy)]
pub struct SessionID {
    len: usize,
    data: [u8; 32],
}

impl View for SessionID {
    type V = Seq<u8>;

    closed spec fn view(&self) -> Seq<u8> {
        self.data@.subrange(0, self.len as int)
    }
}

impl SessionID {
    #[verifier::type_invariant]
    spec fn in_bounds(self) -> bool {
        self.len <= 32
    }

    /// The identifier that holds exactly `bytes`.
    pub fn new(bytes: &[u8]) -> (id: SessionID)
        requires
            bytes@.len() <= MAX_SESSION_ID_LEN,
        ensures
            id@ == bytes@,
    {
        let mut data = [0u8; 32];
        let mut i: usize = 0;
        while i < bytes.len()
            invariant
                i <= bytes@.len() <= 32,
                forall|j: int| 0 <= j < i ==> data@[j] == bytes@[j],
            decreases bytes@.len() - i,
        {
            data[i] = bytes[i];
            i += 1;
        }
        SessionID { len: bytes.len(), data }
    }

    /// The empty identifier.
    pub fn empty() -> (id: SessionID)
        ensures
            id@ == Seq::<u8>::empty(),
    {
        SessionID { len: 0, data: [0u8; 32] }
    }

    /// The number of bytes held.
    pub fn len(&self) -> (n: usize)
        ensures
            n == self@.len(),
            n <= MAX_SESSION_ID_LEN,
    {
        proof {
            use_type_invariant(self);
        }
        self.len
    }

    /// Whether this is the empty identifier.
    pub fn is_empty(&self) -> (b: bool)
        ensures
            b == (self@.len() == 0),
    {
        proof {
            use_type_invariant(self);
        }
        self.len == 0
    }

    /// A copy of the bytes held, for use as a key in a session store.
    pub fn to_vec(&self) -> (bytes: Vec<u8>)
        ensures
            bytes@ == self@,
    {
        proof {
            use_type_invariant(self);
        }
        let mut bytes: Vec<u8> = Vec::new();
        let mut i: usize = 0;
        while i < self.len
            invariant
                i <= self.len <= 32,
                bytes@ == self.data@.subrange(0, i as int),
            decreases self.len - i,
        {
            bytes.push(self.data[i]);
            i += 1;
        }
        bytes
    }
}

impl PartialEq for SessionID {
    fn eq(&self, other: &SessionID) -> (same: bool) {
        proof {
            use_type_invariant(self);
            use_type_invariant(other);
        }
        if self.len != other.len {
            assert(self@.len() != other@.len());
            return false;
        }
        let mut i: usize = 0;
        while i < self.len
            invariant
                i <= self.len <= 32,
                self.len == other.len,
                forall|j: int| 0 <= j < i ==> self.data@[j] == other.data@[j],
            decreases self.len - i,
        {
            if self.data[i] != other.data[i] {
                assert(self@[i as int] != other@[i as int]);
                return false;
            }
            i += 1;
        }
        assert(self@ =~= other@);
        true
    }
}

impl vstd::std_specs::cmp::PartialEqSpecImpl for SessionID {
    open spec fn obeys_eq_spec() -> bool {
        true
    }

    open spec fn eq_spec(&self, other: &SessionID) -> bool {
        self@ == other@
    }
}

impl Eq for SessionID {}

} // verus!
