//! Absolute shape identifiers, written `namespace#name`.

use crate::text::{debug_quoted, quoted};
use vstd::prelude::*;
use vstd::string::*;

verus! {

/// An absolute shape identifier.
#[derive(Debug, Clone, PartialEq, Eq, Hash, PartialOrd, Ord)]
pub struct ShapeId {
    pub namespace: String,
    pub name: String,
}

/// Why a string is not a shape identifier.
#[derive(Debug, Clone, PartialEq, Eq)]
pub enum ShapeIdError {
    /// The string holds a `$`, as member references do.
    UnexpectedDollar(String),
    /// The string has no `#` between namespace and name.
    MissingHash(String),
}

/// Whether `s` holds the character `c`.
pub open spec fn has_char(s: Seq<char>, c: char) -> bool {
    exists|i: int| 0 <= i < s.len() && s[i] == c
}

/// The text of an identifier.
pub open spec fn shape_id_str(namespace: Seq<char>, name: Seq<char>) -> Seq<char> {
    namespace + "#"@ + name
}

impl ShapeId {
    /// Parses `namespace#name`, splitting at the first `#`.
    pub fn parse(source: &str) -> (r: Result<ShapeId, ShapeIdError>)
        ensures
            has_char(source@, '$') ==> (r matches Err(ShapeIdError::UnexpectedDollar(s)) && s@
                == source@),
            !has_char(source@, '$') && !has_char(source@, '#') ==> (r matches Err(
                ShapeIdError::MissingHash(s),
            ) && s@ == source@),
            !has_char(source@, '$') && has_char(source@, '#') ==> (r matches Ok(id) && source@
                == id.namespace@ + seq!['#'] + id.name@ && !has_char(id.namespace@, '#')),
    {
        let n = source.unicode_len();
        let mut i: usize = 0;
        let mut hash: Option<usize> = None;
        while i < n
            invariant
                n == source@.len(),
                i <= n,
                forall|j: int| 0 <= j < i ==> source@[j] != '$',
                hash is None ==> forall|j: int| 0 <= j < i ==> source@[j] != '#',
                hash matches Some(h) ==> h < i && source@[h as int] == '#' && forall|j: int|
                    0 <= j < h ==> source@[j] != '#',
            decreases n - i,
        {
            let c = source.get_char(i);
            if c == '$' {
                return Err(ShapeIdError::UnexpectedDollar(source.to_owned()));
            }
            if c == '#' && hash.is_none() {
                hash = Some(i);
            }
            i += 1;
        }
        match hash {
            None => Err(ShapeIdError::MissingHash(source.to_owned())),
            Some(h) => {
                let namespace = source.substring_char(0, h).to_owned();
                let name = source.substring_char(h + 1, n).to_owned();
                proof {
                    assert(source@ =~= namespace@ + seq!['#'] + name@);
                    assert(!has_char(namespace@, '#')) by {
                        assert forall|j: int| 0 <= j < namespace@.len() implies namespace@[j] != '#' by {
                            assert(namespace@[j] == source@[j]);
                        }
                    }
                }
                Ok(ShapeId { namespace, name })
            },
        }
    }

    /// `namespace#name`.
    pub fn to_string(&self) -> (r: String)
        ensures
            r@ == shape_id_str(self.namespace@, self.name@),
    {
        let mut out = self.namespace.clone();
        out.append("#");
        out.append(self.name.as_str());
        out
    }
}

impl ShapeIdError {
    /// A message that names the offending string.
    pub fn message(&self) -> (r: String)
        ensures
            self matches ShapeIdError::UnexpectedDollar(s) ==> r@ == "Unexpected '$' "@ + s@,
            self matches ShapeIdError::MissingHash(s) ==> r@ == "Missing '#': "@ + debug_quoted(s@),
    {
        match self {
            ShapeIdError::UnexpectedDollar(s) => {
                let mut out = String::from_str("Unexpected '$' ");
                out.append(s.as_str());
                out
            },
            ShapeIdError::MissingHash(s) => {
                let mut out = String::from_str("Missing '#': ");
                let q = quoted(s);
                out.append(q.as_str());
                out
            },
        }
    }
}

} // verus!
