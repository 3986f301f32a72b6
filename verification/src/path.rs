//! Paths of the file system, as the parts that they are joined from.

use vstd::prelude::*;

verus! {

/// The path that comes from joining some parts to a root, one after the other.
#[derive(Debug)]
pub struct PathParts {
    pub root: String,
    pub parts: Vec<String>,
}

#[verifier::ext_equal]
pub struct PathView {
    pub root: Seq<char>,
    pub parts: Seq<Seq<char>>,
}

impl View for PathParts {
    type V = PathView;

    open spec fn view(&self) -> PathView {
        PathView { root: self.root@, parts: self.parts.deep_view() }
    }
}

impl DeepView for PathParts {
    type V = PathView;

    open spec fn deep_view(&self) -> PathView {
        self.view()
    }
}

impl PathView {
    pub open spec fn of_root(root: Seq<char>) -> PathView {
        PathView { root, parts: Seq::empty() }
    }

    pub open spec fn join(self, part: Seq<char>) -> PathView {
        PathView { root: self.root, parts: self.parts.push(part) }
    }
}

impl PathParts {
    pub fn of_root(root: String) -> (res: Self)
        ensures
            res@ == PathView::of_root(root@),
    {
        let res = PathParts { root, parts: Vec::new() };
        assert(res@.parts =~= Seq::empty());
        res
    }

    /// The path with one more part.
    pub fn join(&self, part: &str) -> (res: Self)
        ensures
            res@ == self@.join(part@),
    {
        let mut parts = self.parts.clone();
        assert(parts@ =~= self.parts@);
        parts.push(part.to_owned());
        let res = PathParts { root: self.root.clone(), parts };
        assert(res@.parts =~= self@.parts.push(part@));
        res
    }
}

impl Clone for PathParts {
    fn clone(&self) -> (res: Self)
        ensures
            res@ == self@,
    {
        let parts = self.parts.clone();
        assert(parts@ =~= self.parts@);
        PathParts { root: self.root.clone(), parts }
    }
}

/// A path keeps its root and its parts where one more part is joined to it.
pub proof fn law_parts_are_joined_at_the_end(
    root: String,
    bare: PathParts,
    path: PathParts,
    part: &str,
    longer: PathParts,
)
    requires
        call_ensures(PathParts::of_root, (root,), bare),
        call_ensures(PathParts::join, (&path, part), longer),
    ensures
        bare.root@ == root@,
        bare.parts@.len() == 0,
        longer.root@ == path.root@,
        longer.parts@.len() == path.parts@.len() + 1,
        longer.parts@.last()@ == part@,
        forall|i: int|
            0 <= i < path.parts@.len() ==> longer.parts@[i]@ == (#[trigger] path.parts@[i])@,
{
    assert(bare.parts.deep_view().len() == bare.parts@.len());
    let before = path.parts.deep_view();
    let after = longer.parts.deep_view();
    assert(before.len() == path.parts@.len());
    assert(after.len() == longer.parts@.len());
    assert(after[before.len() as int] == longer.parts@[before.len() as int]@);
    assert forall|i: int| 0 <= i < path.parts@.len() implies longer.parts@[i]@ == (
    #[trigger] path.parts@[i])@ by {
        assert(before[i] == path.parts@[i]@);
        assert(after[i] == longer.parts@[i]@);
    }
}

} // verus!
