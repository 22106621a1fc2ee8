//! A schema-free document model for the firmware's loosely-typed status
//! payload. Numbers carry thousandths (fixed point), so that a fractional
//! reading survives as a plain value. Every accessor is total: a missing
//! key or an unexpected shape yields `None`, never an error.

use vstd::prelude::*;
use crate::text::str_eq;

verus! {

/// One node of a loosely-structured document.
pub enum DocValue {
    /// An explicit null, or a stand-in for a body that did not parse.
    Null,
    /// A boolean leaf.
    Bool(bool),
    /// A numeric leaf, in thousandths of the source unit.
    Num(i64),
    /// A text leaf.
    Text(String),
    /// An ordered list of nodes.
    List(Vec<DocValue>),
    /// An object: key/value pairs in document order.
    Object(Vec<(String, DocValue)>),
}

/// The first value bound to `key` in a run of object fields.
pub open spec fn first_match(fields: Seq<(String, DocValue)>, key: Seq<char>) -> Option<
    DocValue,
>
    decreases fields.len(),
{
    if fields.len() == 0 {
        None
    } else if fields[0].0@ == key {
        Some(fields[0].1)
    } else {
        first_match(fields.drop_first(), key)
    }
}

/// The value bound to `key`: the first matching field of an object,
/// `None` for any other node shape.
pub open spec fn spec_get(doc: DocValue, key: Seq<char>) -> Option<DocValue> {
    match doc {
        DocValue::Object(fields) => first_match(fields@, key),
        _ => None,
    }
}

/// The numeric content of a node, if it is a number.
pub open spec fn spec_as_num(doc: Option<DocValue>) -> Option<i64> {
    match doc {
        Some(DocValue::Num(n)) => Some(n),
        _ => None,
    }
}

/// The text content of a node, if it is text.
pub open spec fn spec_as_text(doc: Option<DocValue>) -> Option<Seq<char>> {
    match doc {
        Some(DocValue::Text(s)) => Some(s@),
        _ => None,
    }
}

/// The value two object lookups deep: `doc[outer][inner]`.
pub open spec fn spec_get2(doc: DocValue, outer: Seq<char>, inner: Seq<char>) -> Option<
    DocValue,
> {
    match spec_get(doc, outer) {
        Some(child) => spec_get(child, inner),
        None => None,
    }
}

impl DocValue {
    /// Look a key up in this node; `None` unless this node is an object
    /// holding the key.
    pub fn get<'a>(&'a self, key: &str) -> (r: Option<&'a DocValue>)
        ensures
            match r {
                Some(v) => spec_get(*self, key@) == Some(*v),
                None => spec_get(*self, key@) is None,
            },
    {
        match self {
            DocValue::Object(fields) => {
                let n = fields.len();
                let mut i: usize = 0;
                proof {
                    assert(fields@.subrange(0, n as int) =~= fields@);
                }
                while i < n
                    invariant
                        n == fields@.len(),
                        i <= n,
                        spec_get(*self, key@) == first_match(fields@, key@),
                        first_match(fields@, key@) == first_match(
                            fields@.subrange(i as int, n as int),
                            key@,
                        ),
                    decreases n - i,
                {
                    proof {
                        let rest = fields@.subrange(i as int, n as int);
                        assert(rest[0] == fields@[i as int]);
                        assert(rest.drop_first() =~= fields@.subrange(i + 1, n as int));
                    }
                    if str_eq(fields[i].0.as_str(), key) {
                        proof {
                            let rest = fields@.subrange(i as int, n as int);
                            assert(first_match(rest, key@) == Some(fields@[i as int].1));
                            assert(spec_get(*self, key@) == first_match(fields@, key@));
                            assert(spec_get(*self, key@) == Some(fields@[i as int].1));
                        }
                        return Some(&fields[i].1);
                    }
                    i += 1;
                }
                proof {
                    assert(fields@.subrange(n as int, n as int) =~= Seq::<(
                        String,
                        DocValue,
                    )>::empty());
                }
                None
            },
            _ => None,
        }
    }

    /// Look up `outer`, then `inner`, treating any missing step as absent.
    pub fn get2<'a>(&'a self, outer: &str, inner: &str) -> (r: Option<&'a DocValue>)
        ensures
            match r {
                Some(v) => spec_get2(*self, outer@, inner@) == Some(*v),
                None => spec_get2(*self, outer@, inner@) is None,
            },
    {
        match self.get(outer) {
            Some(child) => child.get(inner),
            None => None,
        }
    }

    /// The numeric content of this node, if it is a number.
    pub fn as_num(&self) -> (r: Option<i64>)
        ensures
            r == spec_as_num(Some(*self)),
    {
        match self {
            DocValue::Num(n) => Some(*n),
            _ => None,
        }
    }

    /// A copy of the text content of this node, if it is text.
    pub fn as_text(&self) -> (r: Option<String>)
        ensures
            match r {
                Some(s) => spec_as_text(Some(*self)) == Some(s@),
                None => spec_as_text(Some(*self)) is None,
            },
    {
        match self {
            DocValue::Text(s) => Some(s.clone()),
            _ => None,
        }
    }
}

/// The numeric leaf at `doc[outer][inner]`, if the path leads to a number.
pub open spec fn spec_num_at(doc: DocValue, outer: Seq<char>, inner: Seq<char>) -> Option<i64> {
    spec_as_num(spec_get2(doc, outer, inner))
}

/// The text leaf at `doc[outer][inner]`, if the path leads to text.
pub open spec fn spec_text_at(doc: DocValue, outer: Seq<char>, inner: Seq<char>) -> Option<
    Seq<char>,
> {
    spec_as_text(spec_get2(doc, outer, inner))
}

/// Fetch the numeric leaf at `doc[outer][inner]`.
pub fn num_at(doc: &DocValue, outer: &str, inner: &str) -> (r: Option<i64>)
    ensures
        r == spec_num_at(*doc, outer@, inner@),
{
    match doc.get2(outer, inner) {
        Some(v) => v.as_num(),
        None => None,
    }
}

/// Fetch a copy of the text leaf at `doc[outer][inner]`.
pub fn text_at(doc: &DocValue, outer: &str, inner: &str) -> (r: Option<String>)
    ensures
        match r {
            Some(s) => spec_text_at(*doc, outer@, inner@) == Some(s@),
            None => spec_text_at(*doc, outer@, inner@) is None,
        },
{
    match doc.get2(outer, inner) {
        Some(v) => v.as_text(),
        None => None,
    }
}

} // verus!
