//! Unix-domain socket addresses.
//!
//! An address is up to 107 bytes of path stored in a 108-byte field, with a
//! recorded significant length. A pathname address is the path bytes
//! followed by a terminating zero; an abstract-namespace address starts
//! with a zero byte; a zero length means the address is unnamed. On this
//! platform only pathname addresses behave as on Unix proper; abstract
//! addresses are carried on a best-effort basis.

use vstd::prelude::*;

use crate::IoError;
use crate::net::sockaddr::AF_UNIX;
use crate::net::sockaddr::spec_u16_at;

verus! {

/// The size of the path field of a Unix-domain address record.
pub const UNIX_MAX_PATH: usize = 108;

/// An address associated with a Unix-domain socket.
#[derive(Debug, Clone)]
pub struct UnixSocketAddr {
    /// The path field, always `UNIX_MAX_PATH` bytes.
    pub path: Vec<u8>,
    /// How many leading bytes of `path` are significant.
    pub len: usize,
}

impl UnixSocketAddr {
    /// The path field is full-size and the significant length lies inside
    /// it.
    pub open spec fn wf(&self) -> bool {
        &&& self.path@.len() == UNIX_MAX_PATH
        &&& self.len <= UNIX_MAX_PATH
    }

    /// Whether this is a pathname address.
    pub open spec fn spec_is_pathname(&self) -> bool {
        self.len > 0 && self.path@[0] != 0
    }

    /// The path bytes of a pathname address, without the terminating zero.
    pub open spec fn spec_pathname(&self) -> Seq<u8> {
        self.path@.subrange(0, self.len - 1)
    }

    /// Whether this is an abstract-namespace address.
    pub open spec fn spec_is_abstract(&self) -> bool {
        self.len > 0 && self.path@[0] == 0
    }

    /// The name of an abstract-namespace address, without the leading zero
    /// byte.
    pub open spec fn spec_abstract_name(&self) -> Seq<u8> {
        self.path@.subrange(1, self.len as int)
    }

    /// Creates an unnamed address.
    pub fn unnamed() -> (r: Self)
        ensures
            r.wf(),
            r.len == 0,
            !r.spec_is_pathname(),
            !r.spec_is_abstract(),
    {
        let mut path: Vec<u8> = Vec::new();
        path.resize(UNIX_MAX_PATH, 0u8);
        UnixSocketAddr { path, len: 0 }
    }

    /// Creates a pathname address from path bytes.
    ///
    /// The path is rejected, before any kernel is involved, exactly when it
    /// contains a zero byte or does not fit the record: it must be shorter
    /// than 107 bytes.
    pub fn from_pathname(path: &[u8]) -> (r: Result<Self, IoError>)
        ensures
            r is Err <==> (path@.contains(0u8) || path@.len() >= UNIX_MAX_PATH - 1),
            r is Err ==> r == Err::<Self, IoError>(IoError::InvalidInput),
            r is Ok ==> {
                let a = r.unwrap();
                &&& a.wf()
                &&& a.len == path@.len() + 1
                &&& a.spec_is_pathname() == (path@.len() > 0)
                &&& a.spec_pathname() == path@
                &&& a.path@.subrange(0, path@.len() as int) == path@
                &&& a.path@[path@.len() as int] == 0
            },
    {
        let n = path.len();
        let mut i: usize = 0;
        while i < n
            invariant
                i <= n,
                n == path@.len(),
                forall|j: int| 0 <= j < i ==> path@[j] != 0,
            decreases n - i,
        {
            if path[i] == 0 {
                assert(path@.contains(0u8));
                return Err(IoError::InvalidInput);
            }
            i = i + 1;
        }
        if n >= UNIX_MAX_PATH - 1 {
            return Err(IoError::InvalidInput);
        }
        assert(!path@.contains(0u8)) by {
            if path@.contains(0u8) {
                let w = choose|w: int| 0 <= w < path@.len() && path@[w] == 0u8;
                assert(path@[w] != 0);
            }
        }
        let mut field: Vec<u8> = Vec::new();
        let mut k: usize = 0;
        while k < n
            invariant
                k <= n,
                n == path@.len(),
                n < UNIX_MAX_PATH,
                field@.len() == k,
                forall|j: int| 0 <= j < k ==> field@[j] == path@[j],
            decreases n - k,
        {
            field.push(path[k]);
            k = k + 1;
        }
        while field.len() < UNIX_MAX_PATH
            invariant
                n == path@.len(),
                n <= field@.len() <= UNIX_MAX_PATH,
                forall|j: int| 0 <= j < n ==> field@[j] == path@[j],
                forall|j: int| n <= j < field@.len() ==> field@[j] == 0u8,
            decreases UNIX_MAX_PATH - field@.len(),
        {
            field.push(0u8);
        }
        let r = UnixSocketAddr { path: field, len: n + 1 };
        proof {
            assert(r.spec_pathname() =~= path@);
            assert(r.path@.subrange(0, path@.len() as int) =~= path@);
        }
        Ok(r)
    }

    /// Creates an abstract-namespace address.
    ///
    /// The name is rejected exactly when it does not fit the record behind
    /// its leading zero byte: it must be shorter than 107 bytes.
    pub fn from_abstract_namespace(namespace: &[u8]) -> (r: Result<Self, IoError>)
        ensures
            r is Err <==> namespace@.len() >= UNIX_MAX_PATH - 1,
            r is Err ==> r == Err::<Self, IoError>(IoError::InvalidInput),
            r is Ok ==> {
                let a = r.unwrap();
                &&& a.wf()
                &&& a.len == namespace@.len() + 1
                &&& a.spec_is_abstract()
                &&& !a.spec_is_pathname()
                &&& a.spec_abstract_name() == namespace@
            },
    {
        let n = namespace.len();
        if n >= UNIX_MAX_PATH - 1 {
            return Err(IoError::InvalidInput);
        }
        let mut field: Vec<u8> = Vec::new();
        field.push(0u8);
        let mut k: usize = 0;
        while k < n
            invariant
                k <= n,
                n == namespace@.len(),
                n < UNIX_MAX_PATH - 1,
                field@.len() == k + 1,
                field@[0] == 0u8,
                forall|j: int| 0 <= j < k ==> field@[j + 1] == namespace@[j],
            decreases n - k,
        {
            field.push(namespace[k]);
            k = k + 1;
        }
        while field.len() < UNIX_MAX_PATH
            invariant
                n == namespace@.len(),
                n + 1 <= field@.len() <= UNIX_MAX_PATH,
                field@[0] == 0u8,
                forall|j: int| 0 <= j < n ==> field@[j + 1] == namespace@[j],
                forall|j: int| n + 1 <= j < field@.len() ==> field@[j] == 0u8,
            decreases UNIX_MAX_PATH - field@.len(),
        {
            field.push(0u8);
        }
        let r = UnixSocketAddr { path: field, len: n + 1 };
        proof {
            assert(r.spec_abstract_name() =~= namespace@);
        }
        Ok(r)
    }

    /// Returns `true` if the address is unnamed.
    pub fn is_unnamed(&self) -> (r: bool)
        ensures
            r == (self.len == 0),
    {
        self.len == 0
    }

    /// Returns the path bytes if this is a pathname address.
    pub fn as_pathname(&self) -> (r: Option<Vec<u8>>)
        requires
            self.wf(),
        ensures
            r is Some <==> self.spec_is_pathname(),
            r is Some ==> r.unwrap()@ == self.spec_pathname(),
    {
        if self.len == 0 {
            return None;
        }
        if self.path[0] == 0 {
            return None;
        }
        let end = self.len - 1;
        let mut out: Vec<u8> = Vec::new();
        let mut k: usize = 0;
        while k < end
            invariant
                k <= end,
                end < self.path@.len(),
                out@ == self.path@.subrange(0, k as int),
            decreases end - k,
        {
            out.push(self.path[k]);
            proof {
                assert(out@ =~= self.path@.subrange(0, k + 1));
            }
            k = k + 1;
        }
        Some(out)
    }

    /// Returns the name if this is an abstract-namespace address, without
    /// the leading zero byte.
    pub fn as_abstract_namespace(&self) -> (r: Option<Vec<u8>>)
        requires
            self.wf(),
        ensures
            r is Some <==> self.spec_is_abstract(),
            r is Some ==> r.unwrap()@ == self.spec_abstract_name(),
    {
        if self.len == 0 {
            return None;
        }
        if self.path[0] != 0 {
            return None;
        }
        let end = self.len;
        let mut out: Vec<u8> = Vec::new();
        let mut k: usize = 1;
        while k < end
            invariant
                1 <= k <= end,
                end <= self.path@.len(),
                out@ == self.path@.subrange(1, k as int),
            decreases end - k,
        {
            out.push(self.path[k]);
            proof {
                assert(out@ =~= self.path@.subrange(1, k + 1));
            }
            k = k + 1;
        }
        Some(out)
    }

    /// The length handed to the kernel with the address record: the
    /// significant bytes plus the two-byte family field.
    pub fn native_len(&self) -> (r: usize)
        requires
            self.wf(),
        ensures
            r == self.len + 2,
    {
        self.len + 2
    }

    /// The address record's byte image: the family field, then the path
    /// field.
    pub fn to_native_bytes(&self) -> (r: Vec<u8>)
        requires
            self.wf(),
        ensures
            r@.len() == UNIX_MAX_PATH + 2,
            spec_u16_at(r@, 0) == AF_UNIX as int,
            r@.subrange(2, r@.len() as int) == self.path@,
    {
        let mut r: Vec<u8> = Vec::new();
        r.push((AF_UNIX % 256) as u8);
        r.push((AF_UNIX / 256) as u8);
        let mut k: usize = 0;
        while k < UNIX_MAX_PATH
            invariant
                k <= UNIX_MAX_PATH,
                self.path@.len() == UNIX_MAX_PATH,
                r@.len() == k + 2,
                r@[0] == (AF_UNIX % 256) as u8,
                r@[1] == (AF_UNIX / 256) as u8,
                r@.subrange(2, r@.len() as int) == self.path@.subrange(0, k as int),
            decreases UNIX_MAX_PATH - k,
        {
            r.push(self.path[k]);
            proof {
                assert(r@.subrange(2, r@.len() as int) =~= self.path@.subrange(0, k + 1));
            }
            k = k + 1;
        }
        proof {
            assert(r@.subrange(2, r@.len() as int) =~= self.path@);
        }
        r
    }

    /// Reads an address out of a record image and the length the kernel
    /// reported with it. The read succeeds exactly when the image declares
    /// the Unix-domain family.
    pub fn from_native_bytes(bytes: &Vec<u8>, stated_len: usize) -> (r: Option<Self>)
        requires
            bytes@.len() >= UNIX_MAX_PATH + 2,
            2 <= stated_len <= UNIX_MAX_PATH + 2,
        ensures
            r is Some <==> spec_u16_at(bytes@, 0) == AF_UNIX as int,
            r is Some ==> {
                let a = r.unwrap();
                &&& a.wf()
                &&& a.path@ == bytes@.subrange(2, 2 + UNIX_MAX_PATH as int)
                &&& a.len == stated_len - 2
            },
    {
        let family: u16 = bytes[0] as u16 + bytes[1] as u16 * 256;
        if family != AF_UNIX {
            return None;
        }
        let mut field: Vec<u8> = Vec::new();
        let mut k: usize = 2;
        while k < UNIX_MAX_PATH + 2
            invariant
                2 <= k <= UNIX_MAX_PATH + 2,
                bytes@.len() >= UNIX_MAX_PATH + 2,
                field@ == bytes@.subrange(2, k as int),
            decreases UNIX_MAX_PATH + 2 - k,
        {
            field.push(bytes[k]);
            proof {
                assert(field@ =~= bytes@.subrange(2, k + 1));
            }
            k = k + 1;
        }
        Some(UnixSocketAddr { path: field, len: stated_len - 2 })
    }
}

} // verus!
