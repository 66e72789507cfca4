use vstd::prelude::*;

use crate::errors::CustomErrors;
use crate::identity::Identity;
use crate::launch::{create_token, fresh_launch, TokenInfo};
use crate::platform::Platform;

verus! {

/// The launches, at most one per token, in the order they were created.
pub struct Registry {
    launches: Vec<TokenInfo>,
}

impl View for Registry {
    type V = Seq<TokenInfo>;

    closed spec fn view(&self) -> Seq<TokenInfo> {
        self.launches@
    }
}

impl Registry {
    /// No two launches are for the same token.
    pub open spec fn wf(&self) -> bool {
        forall|i: int, j: int|
            0 <= i < j < self@.len() ==> (#[trigger] self@[i]).token@ != (#[trigger] self@[j]).token@
    }

    /// Whether a launch exists for the token with these key bytes.
    pub open spec fn registered(&self, token: Seq<u8>) -> bool {
        exists|i: int| 0 <= i < self@.len() && (#[trigger] self@[i]).token@ == token
    }

    /// A registry with no launches.
    pub fn new() -> (r: Registry)
        ensures
            r@ == Seq::<TokenInfo>::empty(),
            r.wf(),
    {
        Registry { launches: Vec::new() }
    }

    pub fn len(&self) -> (r: usize)
        ensures
            r == self@.len(),
    {
        self.launches.len()
    }

    /// Where the launch of `token` stands, if there is one.
    pub fn find(&self, token: &Identity) -> (r: Option<usize>)
        ensures
            r matches Some(i) ==> i < self@.len() && self@[i as int].token@ == token@,
            r is None ==> !self.registered(token@),
    {
        let mut i: usize = 0;
        while i < self.launches.len()
            invariant
                0 <= i <= self@.len(),
                self@ == self.launches@,
                forall|k: int| 0 <= k < i ==> (#[trigger] self@[k]).token@ != token@,
            decreases self@.len() - i,
        {
            if self.launches[i].token.same_as(token) {
                return Some(i);
            }
            i = i + 1;
        }
        None
    }

    /// Creates the launch of `token` from the platform's current defaults and
    /// returns where it stands; refuses with `DuplicateLaunch`, changing
    /// nothing, where the token already has one.
    pub fn create_token(&mut self, platform: &Platform, token: Identity, creator: Identity) -> (r:
        Result<usize, CustomErrors>)
        requires
            old(self).wf(),
        ensures
            final(self).wf(),
            final(self).registered(token@),
            old(self).registered(token@) ==> r == Err::<usize, CustomErrors>(
                CustomErrors::DuplicateLaunch,
            ) && final(self)@ == old(self)@,
            !old(self).registered(token@) ==> r == Ok::<usize, CustomErrors>(
                old(self)@.len() as usize,
            ) && final(self)@ == old(self)@.push(fresh_launch(*platform, token, creator)),
    {
        match self.find(&token) {
            Some(_) => Err(CustomErrors::DuplicateLaunch),
            None => {
                let index = self.launches.len();
                self.launches.push(create_token(platform, token, creator));
                assert(forall|k: int| 0 <= k < index ==> self@[k] == old(self)@[k]);
                assert(self@[index as int].token@ == token@);
                Ok(index)
            },
        }
    }

    /// The launch at `index`.
    pub fn get(&self, index: usize) -> (r: TokenInfo)
        requires
            index < self@.len(),
        ensures
            r == self@[index as int],
    {
        self.launches[index]
    }

    /// Puts back the launch at `index` after an operation on it; the token it
    /// belongs to may not change.
    pub fn store(&mut self, index: usize, launch: TokenInfo)
        requires
            old(self).wf(),
            index < old(self)@.len(),
            launch.token@ == old(self)@[index as int].token@,
        ensures
            final(self).wf(),
            final(self)@ == old(self)@.update(index as int, launch),
    {
        self.launches.set(index, launch);
    }
}

} // verus!
