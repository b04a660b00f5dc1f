//! The rendering trait and a small joining helper.

use vstd::prelude::*;
use vstd::string::StringExecFns;

verus! {

/// A type that can be rendered as an XML string.
pub trait Render {
    /// The exact character sequence that rendering produces.
    spec fn rendered(&self) -> Seq<char>;

    /// Render the type as an XML string.
    fn render(&self) -> (r: String)
        ensures
            r@ == self.rendered(),
    ;
}

/// The parts laid end to end, with the separator between consecutive parts
/// and nowhere else.
pub open spec fn join_spec(parts: Seq<Seq<char>>, sep: Seq<char>) -> Seq<char>
    decreases parts.len(),
{
    if parts.len() == 0 {
        Seq::empty()
    } else if parts.len() == 1 {
        parts[0]
    } else {
        parts[0] + sep + join_spec(parts.drop_first(), sep)
    }
}

/// Appending one more part to a join appends a separator first, unless the
/// join was empty.
pub proof fn lemma_join_push(parts: Seq<Seq<char>>, sep: Seq<char>, p: Seq<char>)
    ensures
        join_spec(parts.push(p), sep) == if parts.len() == 0 {
            p
        } else {
            join_spec(parts, sep) + sep + p
        },
    decreases parts.len(),
{
    if parts.len() == 0 {
        assert(parts.push(p) =~= seq![p]);
    } else {
        assert(parts.push(p).drop_first() =~= parts.drop_first().push(p));
        lemma_join_push(parts.drop_first(), sep, p);
        if parts.len() == 1 {
            assert(join_spec(parts.push(p), sep) =~= join_spec(parts, sep) + sep + p);
        } else {
            assert(join_spec(parts.push(p), sep) =~= join_spec(parts, sep) + sep + p);
        }
    }
}

/// A collection whose elements can be joined into one string.
pub trait IteratorExt {
    /// The views of the parts to be joined.
    spec fn parts(&self) -> Seq<Seq<char>>;

    /// The parts joined with `sep` between consecutive parts.
    fn join(&self, sep: &str) -> (r: String)
        ensures
            r@ == join_spec(self.parts(), sep@),
    ;
}

impl IteratorExt for Vec<String> {
    open spec fn parts(&self) -> Seq<Seq<char>> {
        self.deep_view()
    }

    fn join(&self, sep: &str) -> (r: String) {
        let mut out = String::new();
        let mut i: usize = 0;
        while i < self.len()
            invariant
                i <= self@.len(),
                out@ == join_spec(self.deep_view().take(i as int), sep@),
            decreases self@.len() - i,
        {
            if i > 0 {
                out.append(sep);
            }
            out.append(self[i].as_str());
            proof {
                assert(self.deep_view().take(i + 1) =~= self.deep_view().take(i as int).push(
                    self@[i as int]@,
                ));
                lemma_join_push(self.deep_view().take(i as int), sep@, self@[i as int]@);
            }
            i = i + 1;
        }
        proof {
            assert(self.deep_view().take(self@.len() as int) =~= self.deep_view());
        }
        out
    }
}

} // verus!
