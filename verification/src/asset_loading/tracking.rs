//! The handles of the resources that have been asked for, from the request
//! until the asset behind each is loaded.

use vstd::prelude::*;
use std::collections::VecDeque;
use crate::sequences::lemma_filter_step;

verus! {

/// The resources that were asked for: those still waiting for their asset, in
/// the order in which they are looked at, and those that are done.
pub struct ResourceHandles {
    waiting: VecDeque<u64>,
    finished: Vec<u64>,
}

/// The handles among `handles` that are, or are not, among the loaded ones.
pub open spec fn handles_where(handles: Seq<u64>, loaded: Seq<u64>, is_loaded: bool) -> Seq<u64> {
    handles.filter(|h: u64| loaded.contains(h) == is_loaded)
}

fn is_among(handle: u64, loaded: &Vec<u64>) -> (r: bool)
    ensures
        r == loaded@.contains(handle),
{
    let mut i: usize = 0;
    while i < loaded.len()
        invariant
            i <= loaded.len(),
            forall|k: int| 0 <= k < i ==> loaded@[k] != handle,
        decreases loaded.len() - i,
    {
        if loaded[i] == handle {
            return true;
        }
        i = i + 1;
    }
    false
}

impl ResourceHandles {
    /// The handles that wait for their asset, the next to be looked at first.
    pub closed spec fn waiting(&self) -> Seq<u64> {
        self.waiting@
    }

    /// The handles whose asset has been loaded, in the order in which that was
    /// found out.
    pub closed spec fn finished(&self) -> Seq<u64> {
        self.finished@
    }

    /// No resource has been asked for yet.
    pub fn new() -> (r: Self)
        ensures
            r.waiting() == Seq::<u64>::empty(),
            r.finished() == Seq::<u64>::empty(),
    {
        ResourceHandles { waiting: VecDeque::new(), finished: Vec::new() }
    }

    /// Whether every resource that was asked for has its asset.
    pub fn is_all_done(&self) -> (r: bool)
        ensures
            r == (self.waiting().len() == 0),
    {
        self.waiting.len() == 0
    }

    /// Starts to track `handle`: it waits behind those that wait already.
    pub fn push_handle(&mut self, handle: u64)
        ensures
            final(self).waiting() == old(self).waiting().push(handle),
            final(self).finished() == old(self).finished(),
    {
        self.waiting.push_back(handle);
    }

    /// The handles that are done, oldest first.
    pub fn finished_handles(&self) -> (r: Vec<u64>)
        ensures
            r@ == self.finished(),
    {
        self.finished.clone()
    }
}

impl Default for ResourceHandles {
    fn default() -> (r: Self)
        ensures
            r.waiting() == Seq::<u64>::empty(),
            r.finished() == Seq::<u64>::empty(),
    {
        ResourceHandles::new()
    }
}

/// Looks once at every waiting handle. Those that are among `loaded`, the
/// handles whose asset and all it depends on are there, move to the finished
/// ones and are returned, so that their resources can be put in place; the
/// others go on waiting, in the order they had.
pub fn load_resource_assets(resource_handles: &mut ResourceHandles, loaded: &Vec<u64>) -> (done:
    Vec<u64>)
    ensures
        done@ == handles_where(old(resource_handles).waiting(), loaded@, true),
        final(resource_handles).waiting() == handles_where(
            old(resource_handles).waiting(),
            loaded@,
            false,
        ),
        final(resource_handles).finished() == old(resource_handles).finished() + done@,
{
    let mut done: Vec<u64> = Vec::new();
    let n: usize = resource_handles.waiting.len();
    let ghost before = resource_handles.waiting@;
    let ghost yes = |h: u64| loaded@.contains(h) == true;
    let ghost no = |h: u64| loaded@.contains(h) == false;
    let mut i: usize = 0;
    proof {
        assert(before.take(0) =~= Seq::<u64>::empty());
        assert(before.take(0).filter(yes) =~= Seq::<u64>::empty());
        assert(before.take(0).filter(no) =~= Seq::<u64>::empty());
        assert(before.skip(0) =~= before);
        assert(before + Seq::<u64>::empty() =~= before);
        assert(old(resource_handles).finished@ + Seq::<u64>::empty() =~= old(
            resource_handles,
        ).finished@);
    }
    while i < n
        invariant
            i <= n,
            n == before.len(),
            before == old(resource_handles).waiting@,
            yes == (|h: u64| loaded@.contains(h) == true),
            no == (|h: u64| loaded@.contains(h) == false),
            done@ == before.take(i as int).filter(yes),
            resource_handles.waiting@ == before.skip(i as int) + before.take(i as int).filter(no),
            resource_handles.finished@ == old(resource_handles).finished@ + done@,
        decreases n - i,
    {
        proof {
            lemma_filter_step(before, yes, i as int);
            lemma_filter_step(before, no, i as int);
            assert(before.skip(i as int)[0] == before[i as int]);
        }
        let handle: u64 = match resource_handles.waiting.pop_front() {
            Some(h) => h,
            None => {
                return done;
            },
        };
        if is_among(handle, loaded) {
            done.push(handle);
            resource_handles.finished.push(handle);
            proof {
                assert(resource_handles.waiting@ =~= before.skip(i + 1) + before.take(
                    i as int,
                ).filter(no));
                assert(resource_handles.finished@ =~= old(resource_handles).finished@ + done@);
            }
        } else {
            resource_handles.waiting.push_back(handle);
            proof {
                assert(resource_handles.waiting@ =~= before.skip(i + 1) + before.take(
                    i as int,
                ).filter(no).push(handle));
            }
        }
        i = i + 1;
    }
    proof {
        assert(before.take(n as int) =~= before);
        assert(before.skip(n as int) =~= Seq::<u64>::empty());
        assert(Seq::<u64>::empty() + before.filter(no) =~= before.filter(no));
    }
    done
}

} // verus!
