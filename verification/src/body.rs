use vstd::prelude::*;

verus! {

/// The mathematical value of a protocol frame: one variant active at a time,
/// with text as a sequence of characters and a binary payload as a sequence
/// of bytes.
pub enum BodyView {
    String(Seq<char>),
    Error(Seq<char>),
    Number(u64),
    Bulk(Seq<u8>),
    Null,
}

/// A frame of protocol data: the unit carried inside request and response
/// envelopes. Pure data — constructed by a decoder or a handler, never
/// mutated in place.
#[derive(Debug)]
pub enum Body {
    String(String),
    Error(String),
    Number(u64),
    Bulk(Vec<u8>),
    Null,
}

impl View for Body {
    type V = BodyView;

    open spec fn view(&self) -> BodyView {
        match self {
            Body::String(s) => BodyView::String(s@),
            Body::Error(s) => BodyView::Error(s@),
            Body::Number(n) => BodyView::Number(*n),
            Body::Bulk(b) => BodyView::Bulk(b@),
            Body::Null => BodyView::Null,
        }
    }
}

impl Clone for Body {
    /// Duplicates the frame by value; the copy carries the same content.
    fn clone(&self) -> (r: Body)
        ensures
            r@ == self@,
    {
        match self {
            Body::String(s) => Body::String(s.clone()),
            Body::Error(s) => Body::Error(s.clone()),
            Body::Number(n) => Body::Number(*n),
            Body::Bulk(b) => {
                let c = b.clone();
                proof {
                    assert(c@ =~= b@);
                }
                Body::Bulk(c)
            },
            Body::Null => Body::Null,
        }
    }
}

} // verus!
