//! Validation and representation of the relative paths carried by open,
//! link and unlink requests.
//!
//! A path names entries separated by `/`.  A trailing slash only records
//! that the caller insists on a directory.  Validation rejects absolute
//! paths, empty components, and `.` or `..` components: traversal through
//! the current or parent directory is handled before a path reaches a
//! node, never inside one.

use vstd::prelude::*;

use crate::status::Status;

verus! {

/// The path separator byte, `/`.
pub const SEPARATOR: u8 = 47;

/// The `.` byte.
pub const DOT: u8 = 46;

/// True when position `i` of `s` starts a whole component that is exactly
/// `.`.
pub open spec fn dot_component_at(s: Seq<u8>, i: int) -> bool {
    &&& 0 <= i < s.len()
    &&& s[i] == DOT
    &&& (i == 0 || s[i - 1] == SEPARATOR)
    &&& (i + 1 == s.len() || s[i + 1] == SEPARATOR)
}

/// True when position `i` of `s` starts a whole component that is exactly
/// `..`.
pub open spec fn dot_dot_component_at(s: Seq<u8>, i: int) -> bool {
    &&& 0 <= i && i + 1 < s.len()
    &&& s[i] == DOT
    &&& s[i + 1] == DOT
    &&& (i == 0 || s[i - 1] == SEPARATOR)
    &&& (i + 2 == s.len() || s[i + 2] == SEPARATOR)
}

/// A well-formed nonempty path body: it neither starts nor ends with a
/// separator, has no empty component, and has no `.` or `..` component.
pub open spec fn path_body_wf(s: Seq<u8>) -> bool {
    &&& s.len() > 0
    &&& s[0] != SEPARATOR
    &&& s[s.len() - 1] != SEPARATOR
    &&& forall|i: int| 1 <= i < s.len() ==> !(s[i - 1] == SEPARATOR && #[trigger] s[i] == SEPARATOR)
    &&& forall|i: int| !dot_component_at(s, i)
    &&& forall|i: int| !dot_dot_component_at(s, i)
}

/// What `Path::validate_and_split` returns for every input: the directory
/// insistence and the path body, or the error.  The empty path and the
/// root path name no entry and are bad paths; a malformed body is an
/// invalid argument.
pub open spec fn spec_validate_and_split(path: Seq<u8>) -> Result<(bool, Seq<u8>), Status> {
    if path.len() == 0 {
        Err(Status::BadPath)
    } else {
        let is_dir = path[path.len() - 1] == SEPARATOR;
        let body = if is_dir {
            path.take(path.len() - 1)
        } else {
            path
        };
        if body.len() == 0 {
            Err(Status::BadPath)
        } else if path_body_wf(body) {
            Ok((is_dir, body))
        } else {
            Err(Status::InvalidArgs)
        }
    }
}

/// True when some byte of `s` is the separator, i.e. `s` spells more than
/// one component.
pub open spec fn has_separator(s: Seq<u8>) -> bool {
    exists|i: int| 0 <= i < s.len() && s[i] == SEPARATOR
}

/// A validated relative path: the component bytes without any trailing
/// separator, and whether the caller insisted on a directory.  The empty
/// body is the path of the node itself, as used when cloning.
#[derive(Debug)]
pub struct Path {
    is_dir: bool,
    body: Vec<u8>,
}

impl Path {
    /// Whether the path insists on a directory.
    pub closed spec fn spec_is_dir(&self) -> bool {
        self.is_dir
    }

    /// The component bytes, `/`-separated, without a trailing separator.
    pub closed spec fn spec_body(&self) -> Seq<u8> {
        self.body@
    }

    /// Every path is either the empty self-path or a well-formed body.
    pub open spec fn wf(&self) -> bool {
        self.spec_body().len() == 0 || path_body_wf(self.spec_body())
    }

    /// The path of the node itself, with no components.
    pub fn dot() -> (r: Self)
        ensures
            r.spec_body().len() == 0,
            !r.spec_is_dir(),
            r.wf(),
    {
        Path { is_dir: false, body: Vec::new() }
    }

    /// Validates a raw request path and splits off the trailing-slash
    /// directory marker.  Empty and root paths are bad paths; absolute
    /// paths and paths with empty, `.` or `..` components are invalid
    /// arguments.
    pub fn validate_and_split(path: Vec<u8>) -> (r: Result<Self, Status>)
        ensures
            match r {
                Ok(p) => {
                    &&& spec_validate_and_split(path@) == Ok::<_, Status>(
                        (p.spec_is_dir(), p.spec_body()),
                    )
                    &&& p.wf()
                },
                Err(e) => spec_validate_and_split(path@) == Err::<(bool, Seq<u8>), _>(e),
            },
    {
        let mut body = path;
        if body.len() == 0 {
            return Err(Status::BadPath);
        }
        let is_dir = body[body.len() - 1] == SEPARATOR;
        if is_dir {
            body.pop();
            proof {
                assert(body@ =~= path@.take(path@.len() - 1));
            }
        }
        if body.len() == 0 {
            return Err(Status::BadPath);
        }
        if body[0] == SEPARATOR || body[body.len() - 1] == SEPARATOR {
            return Err(Status::InvalidArgs);
        }
        let n = body.len();
        let mut i: usize = 0;
        while i < n
            invariant
                path@.len() > 0,
                is_dir == (path@[path@.len() - 1] == SEPARATOR),
                body@ == if is_dir {
                    path@.take(path@.len() - 1)
                } else {
                    path@
                },
                n == body@.len(),
                0 < n,
                body@[0] != SEPARATOR,
                body@[n - 1] != SEPARATOR,
                i <= n,
                forall|j: int|
                    1 <= j < i + 1 && j < n ==> !(body@[j - 1] == SEPARATOR && #[trigger] body@[j]
                        == SEPARATOR),
                forall|j: int| j < i ==> !dot_component_at(body@, j),
                forall|j: int| j < i ==> !dot_dot_component_at(body@, j),
            decreases n - i,
        {
            let b = body[i];
            if i + 1 < n && b == SEPARATOR && body[i + 1] == SEPARATOR {
                return Err(Status::InvalidArgs);
            }
            if b == DOT && (i == 0 || body[i - 1] == SEPARATOR) {
                if i + 1 == n || body[i + 1] == SEPARATOR {
                    proof {
                        assert(dot_component_at(body@, i as int));
                    }
                    return Err(Status::InvalidArgs);
                }
                if i + 2 == n || body[i + 2] == SEPARATOR {
                    if body[i + 1] == DOT {
                        proof {
                            assert(dot_dot_component_at(body@, i as int));
                        }
                        return Err(Status::InvalidArgs);
                    }
                }
            }
            i = i + 1;
        }
        proof {
            assert(forall|j: int| j >= n ==> !dot_component_at(body@, j));
            assert(forall|j: int| j >= n ==> !dot_dot_component_at(body@, j));
        }
        Ok(Path { is_dir, body })
    }

    /// Whether the caller insisted on a directory (the request path ended
    /// in a separator).
    pub fn is_dir(&self) -> (r: bool)
        ensures
            r == self.spec_is_dir(),
    {
        self.is_dir
    }

    /// Whether this is the empty self-path.
    pub fn is_empty(&self) -> (r: bool)
        ensures
            r == (self.spec_body().len() == 0),
    {
        self.body.len() == 0
    }

    /// The single entry name this path spells, if it spells exactly one:
    /// nothing when the path is empty or names more than one level.
    pub fn as_single_component(&self) -> (r: Option<Vec<u8>>)
        ensures
            match r {
                Some(name) => {
                    &&& name@ == self.spec_body()
                    &&& self.spec_body().len() > 0
                    &&& !has_separator(self.spec_body())
                },
                None => self.spec_body().len() == 0 || has_separator(self.spec_body()),
            },
    {
        if self.body.len() == 0 {
            return None;
        }
        let n = self.body.len();
        let mut i: usize = 0;
        while i < n
            invariant
                n == self.spec_body().len(),
                i <= n,
                forall|j: int| 0 <= j < i ==> self.spec_body()[j] != SEPARATOR,
            decreases n - i,
        {
            if self.body[i] == SEPARATOR {
                return None;
            }
            i = i + 1;
        }
        let mut name: Vec<u8> = Vec::new();
        let mut k: usize = 0;
        while k < n
            invariant
                n == self.spec_body().len(),
                k <= n,
                name@ == self.spec_body().subrange(0, k as int),
            decreases n - k,
        {
            name.push(self.body[k]);
            proof {
                assert(name@ =~= self.spec_body().subrange(0, k + 1));
            }
            k = k + 1;
        }
        proof {
            assert(name@ =~= self.spec_body());
        }
        Some(name)
    }

    /// The raw bytes of the path, with the trailing separator restored
    /// when the caller insisted on a directory.
    pub fn into_bytes(self) -> (r: Vec<u8>)
        ensures
            r@ == if self.spec_is_dir() {
                self.spec_body() + seq![SEPARATOR]
            } else {
                self.spec_body()
            },
    {
        let mut body = self.body;
        if self.is_dir {
            body.push(SEPARATOR);
        }
        body
    }
}

} // verus!
