//! The route: the files that are being evaluated on the current chain of
//! imports.

use vstd::prelude::*;
use crate::file::{FileIdentity, FileIdentityView};

verus! {

/// The identities as contracts see them.
pub open spec fn identities(files: Seq<FileIdentity>) -> Seq<FileIdentityView> {
    Seq::new(files.len(), |i: int| files[i]@)
}

/// The files under evaluation, outermost first. No file is on the route
/// twice: a file that is imported while it is on the route imports itself.
#[derive(Debug, PartialEq)]
pub struct Route {
    files: Vec<FileIdentity>,
}

impl View for Route {
    type V = Seq<FileIdentityView>;

    closed spec fn view(&self) -> Seq<FileIdentityView> {
        identities(self.files@)
    }
}

impl Route {
    /// No file is on the route twice.
    #[verifier::type_invariant]
    pub open spec fn wf(self) -> bool {
        self@.no_duplicates()
    }

    /// The empty route.
    pub fn root() -> (route: Self)
        ensures
            route@ == Seq::<FileIdentityView>::empty(),
            route.wf(),
    {
        Route { files: Vec::new() }
    }

    /// The number of files under evaluation.
    pub fn len(&self) -> (len: usize)
        ensures
            len == self@.len(),
    {
        self.files.len()
    }

    /// Whether the file is under evaluation.
    pub fn contains(&self, id: &FileIdentity) -> (found: bool)
        ensures
            found == self@.contains(id@),
    {
        let mut i: usize = 0;
        while i < self.files.len()
            invariant
                i <= self.files.len(),
                forall|j: int| 0 <= j < i ==> self@[j] != id@,
            decreases self.files.len() - i,
        {
            if self.files[i].same(id) {
                assert(self@[i as int] == id@);
                return true;
            }
            i += 1;
        }
        false
    }

    /// Enters the evaluation of a file, unless the file is under
    /// evaluation already. Says whether it was entered.
    pub fn enter(&mut self, id: FileIdentity) -> (entered: bool)
        ensures
            entered == !old(self)@.contains(id@),
            entered ==> final(self)@ == old(self)@.push(id@),
            !entered ==> final(self)@ == old(self)@,
            final(self).wf(),
    {
        proof {
            use_type_invariant(&*self);
        }
        if self.contains(&id) {
            return false;
        }
        let mut taken = Route::root();
        std::mem::swap(self, &mut taken);
        let mut files = taken.files;
        files.push(id);
        assert(identities(files@) =~= old(self)@.push(id@));
        *self = Route { files };
        true
    }

    /// Leaves the evaluation that was entered last, and says which file it
    /// was.
    pub fn leave(&mut self) -> (left: Option<FileIdentity>)
        ensures
            old(self)@.len() == 0 ==> left is None && final(self)@ == old(self)@,
            old(self)@.len() > 0 ==> left is Some && left->0@ == old(self)@.last() && final(self)@
                == old(self)@.drop_last(),
            final(self).wf(),
    {
        proof {
            use_type_invariant(&*self);
        }
        let mut taken = Route::root();
        std::mem::swap(self, &mut taken);
        let mut files = taken.files;
        let left = files.pop();
        assert(identities(files@) =~= if old(self)@.len() > 0 {
            old(self)@.drop_last()
        } else {
            old(self)@
        });
        *self = Route { files };
        left
    }
}

/// Leaving after entering gives the route back as it was.
pub proof fn lemma_enter_leave(route: Seq<FileIdentityView>, id: FileIdentityView)
    ensures
        route.push(id).drop_last() == route,
        route.push(id).last() == id,
{
    assert(route.push(id).drop_last() =~= route);
}

} // verus!
