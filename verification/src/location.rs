use vstd::prelude::*;

use vstd::string::StringExecFns;

use crate::error::H5Error;

verus! {

/// A handle to a live named object inside an open store: a file, group,
/// dataset, named datatype or attribute.  The wrapped identifier comes from
/// the native library's registry, which reports failure as a negative value
/// and never issues a negative identifier for a live object.
pub struct Location {
    id: i32,
}

/// A handle to an open store.  The owning-file query on any location yields
/// one of these.
pub struct File {
    id: i32,
}

/// The quoted form a location renders as: the display name between double
/// quotes.
pub open spec fn quoted(name: Seq<char>) -> Seq<char> {
    seq!['"'] + name + seq!['"']
}

/// True of the control characters that a rendered representation must not
/// carry unescaped.
pub open spec fn is_control_char(c: char) -> bool {
    (c as u32) < 32 || (c as u32) == 127
}

impl Location {
    /// The identifier the handle wraps.
    pub closed spec fn spec_id(&self) -> i32 {
        self.id
    }

    /// A well-formed handle wraps a non-negative identifier.
    pub open spec fn wf(&self) -> bool {
        self.spec_id() >= 0
    }

    /// Wraps a raw identifier returned by the native library, rejecting the
    /// negative values the library uses to signal failure.
    pub fn from_id(id: i32) -> (r: Result<Location, H5Error>)
        ensures
            id >= 0 ==> r is Ok && r->Ok_0.spec_id() == id,
            id < 0 ==> r == Err::<Location, H5Error>(H5Error::LibraryFailure),
            r is Ok ==> r->Ok_0.wf(),
    {
        if id < 0 {
            Err(H5Error::LibraryFailure)
        } else {
            Ok(Location { id })
        }
    }

    /// The raw identifier, for handing back to the native library.
    pub fn id(&self) -> (r: i32)
        ensures
            r == self.spec_id(),
    {
        self.id
    }

    /// The masking policy shared by the name and owning-file-path queries: a
    /// failed query is reported as an empty string rather than an error, so
    /// an anonymous object and a failed lookup read the same.
    pub fn name_text(queried: Result<String, H5Error>) -> (r: String)
        ensures
            queried is Ok ==> r@ == queried->Ok_0@,
            queried is Err ==> r@ == Seq::<char>::empty(),
    {
        match queried {
            Ok(s) => s,
            Err(_) => String::new(),
        }
    }

    /// The masking policy of the comment query: a failed query reads as no
    /// comment, and the empty string the native library reports for an
    /// object without a comment is normalized to absence as well.
    pub fn comment_text(queried: Result<String, H5Error>) -> (r: Option<String>)
        ensures
            r is Some <==> queried is Ok && queried->Ok_0@.len() > 0,
            r is Some ==> r->Some_0@ == queried->Ok_0@,
    {
        match queried {
            Ok(s) => {
                if s.as_str().is_empty() {
                    None
                } else {
                    Some(s)
                }
            },
            Err(_) => None,
        }
    }

    /// Renders the one-line representation of an object from its display
    /// name: the name between double quotes.  Total: an anonymous object's
    /// empty name renders as a bare pair of quotes.
    pub fn repr(name: &str) -> (r: String)
        ensures
            r@ == quoted(name@),
    {
        proof {
            reveal_strlit("\"");
        }
        let mut r = String::from_str("\"");
        r.append(name);
        r.append("\"");
        proof {
            assert(r@ =~= quoted(name@));
        }
        r
    }
}

impl File {
    /// The identifier the handle wraps.
    pub closed spec fn spec_id(&self) -> i32 {
        self.id
    }

    /// A well-formed handle wraps a non-negative identifier.
    pub open spec fn wf(&self) -> bool {
        self.spec_id() >= 0
    }

    /// Wraps the raw identifier that the native owning-file query returns.
    /// The query reports failure as a negative identifier, which is
    /// propagated as a typed error rather than masked.
    pub fn from_id(id: i32) -> (r: Result<File, H5Error>)
        ensures
            id >= 0 ==> r is Ok && r->Ok_0.spec_id() == id,
            id < 0 ==> r == Err::<File, H5Error>(H5Error::LibraryFailure),
            r is Ok ==> r->Ok_0.wf(),
    {
        if id < 0 {
            Err(H5Error::LibraryFailure)
        } else {
            Ok(File { id })
        }
    }

    /// The raw identifier, for handing back to the native library.
    pub fn id(&self) -> (r: i32)
        ensures
            r == self.spec_id(),
    {
        self.id
    }
}

/// Translates a native status code into a typed result: the library reports
/// success as a non-negative value and failure as a negative one.
pub fn check_status(code: i32) -> (r: Result<(), H5Error>)
    ensures
        r is Ok <==> code >= 0,
        r is Err ==> r == Err::<(), H5Error>(H5Error::LibraryFailure),
{
    if code >= 0 {
        Ok(())
    } else {
        Err(H5Error::LibraryFailure)
    }
}

/// Law: rendering never fails and never introduces an unescaped control
/// character: for a display name free of control characters, the quoted
/// form is free of them too.
pub proof fn lemma_repr_printable(name: Seq<char>)
    requires
        forall|i: int| 0 <= i < name.len() ==> !is_control_char(name[i]),
    ensures
        forall|i: int| 0 <= i < quoted(name).len() ==> !is_control_char(quoted(name)[i]),
{
    let q = quoted(name);
    assert forall|i: int| 0 <= i < q.len() implies !is_control_char(q[i]) by {
        if i == 0 || i == q.len() - 1 {
            assert(q[i] == '"');
        } else {
            assert(q[i] == name[i - 1]);
        }
    }
}

} // verus!
