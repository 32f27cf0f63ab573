use vstd::prelude::*;

use crate::generic_server::GenericServer;
use crate::poll::Async;
use crate::stream_of_future_results::StreamOfFutureResults;

verus! {

/// Multi-connection acceptor core: freshly produced services and freshly
/// accepted transports are positionally paired, and each pair gets a
/// connection server of its own, driven concurrently with the others. Pairs
/// keep being accepted until the pairing source ends; the already-active
/// servers are driven to completion either way.
pub struct GenericListeningServer<T, H> {
    active_servers: Vec<GenericServer<T, H>>,
    listening: bool,
}

impl<T, H: StreamOfFutureResults<T>> GenericListeningServer<T, H> {
    /// The connection servers spawned so far, in accept order.
    pub closed spec fn servers(&self) -> Seq<GenericServer<T, H>> {
        self.active_servers@
    }

    /// Whether new (service, transport) pairs are still being accepted.
    pub closed spec fn listening(&self) -> bool {
        self.listening
    }

    pub closed spec fn wf(&self) -> bool {
        forall|i: int| 0 <= i < self.active_servers@.len() ==> (#[trigger] self.active_servers@[i]).wf()
    }

    pub fn new() -> (r: Self)
        ensures
            r.wf(),
            r.servers().len() == 0,
            r.listening(),
    {
        GenericListeningServer { active_servers: Vec::new(), listening: true }
    }

    /// How many connection servers were spawned so far.
    pub fn server_count(&self) -> (r: usize)
        ensures
            r as nat == self.servers().len(),
    {
        self.active_servers.len()
    }

    /// A freshly produced service was positionally paired with a freshly
    /// accepted transport: spawn a connection server for the pair and hand
    /// back its index.
    pub fn spawn_server(&mut self) -> (index: usize)
        requires
            old(self).wf(),
            old(self).servers().len() < usize::MAX,
        ensures
            final(self).wf(),
            final(self).listening() == old(self).listening(),
            index == old(self).servers().len(),
            final(self).servers().len() == old(self).servers().len() + 1,
            forall|i: int|
                0 <= i < old(self).servers().len() ==> final(self).servers()[i] == old(
                    self,
                ).servers()[i],
            final(self).servers()[index as int].completions().submitted() == 0,
            final(self).servers()[index as int].completions().is_ended(),
            final(self).servers()[index as int].sent() == Seq::<T>::empty(),
            final(self).servers()[index as int].queued() == Seq::<T>::empty(),
            !final(self).servers()[index as int].queue_closed(),
            !final(self).servers()[index as int].input_ended(),
    {
        let index = self.active_servers.len();
        self.active_servers.push(GenericServer::new());
        index
    }

    /// The pairing source has ended: accept no further pairs.
    pub fn stop_listening(&mut self)
        requires
            old(self).wf(),
        ensures
            final(self).wf(),
            !final(self).listening(),
            final(self).servers() == old(self).servers(),
    {
        self.listening = false;
    }

    /// Borrow one active server, to advance it with its own connection's
    /// events.
    pub fn server_at(&mut self, index: usize) -> (server: &mut GenericServer<T, H>)
        requires
            old(self).wf(),
            index < old(self).servers().len(),
        ensures
            *server == old(self).servers()[index as int],
            final(self).servers() == old(self).servers().update(index as int, *final(server)),
            final(self).listening() == old(self).listening(),
            final(server).wf() ==> final(self).wf(),
    {
        &mut self.active_servers[index]
    }

    /// One activation: spawn a server for every pair accepted during it,
    /// record the end of the pairing source once it is reached, and report
    /// completion once no further pairs will arrive and every active server
    /// has finished.
    pub fn poll(&mut self, new_pairs: usize, pairing_ended: bool) -> (r: (Vec<usize>, Async<()>))
        requires
            old(self).wf(),
            old(self).listening() || new_pairs == 0,
            old(self).servers().len() + new_pairs <= usize::MAX,
        ensures
            final(self).wf(),
            r.0@.len() == new_pairs,
            forall|k: int| 0 <= k < new_pairs ==> r.0@[k] == old(self).servers().len() + k,
            final(self).servers().len() == old(self).servers().len() + new_pairs,
            forall|i: int|
                0 <= i < old(self).servers().len() ==> final(self).servers()[i] == old(
                    self,
                ).servers()[i],
            forall|k: int|
                old(self).servers().len() <= k < final(self).servers().len() ==> {
                    &&& !(#[trigger] final(self).servers()[k]).input_ended()
                    &&& !final(self).servers()[k].queue_closed()
                    &&& final(self).servers()[k].completions().submitted() == 0
                    &&& final(self).servers()[k].completions().is_ended()
                    &&& final(self).servers()[k].sent() == Seq::<T>::empty()
                    &&& final(self).servers()[k].queued() == Seq::<T>::empty()
                },
            final(self).listening() == (old(self).listening() && !pairing_ended),
            match r.1 {
                Async::Ready(_) => !final(self).listening() && forall|i: int|
                    0 <= i < final(self).servers().len() ==> (#[trigger] final(self).servers()[i]).is_finished(),
                Async::NotReady => final(self).listening() || exists|i: int|
                    0 <= i < final(self).servers().len() && !(#[trigger] final(self).servers()[i]).is_finished(),
            },
    {
        let mut indices: Vec<usize> = Vec::new();
        let mut spawned: usize = 0;
        while spawned < new_pairs
            invariant
                spawned <= new_pairs,
                self.wf(),
                self.listening == old(self).listening,
                old(self).servers().len() + new_pairs <= usize::MAX,
                self.active_servers@.len() == old(self).servers().len() + spawned,
                indices@.len() == spawned,
                forall|k: int| 0 <= k < spawned ==> indices@[k] == old(self).servers().len() + k,
                forall|i: int|
                    0 <= i < old(self).servers().len() ==> self.active_servers@[i] == old(
                        self,
                    ).servers()[i],
                forall|k: int|
                    old(self).servers().len() <= k < self.active_servers@.len() ==> {
                        &&& !(#[trigger] self.active_servers@[k]).input_ended()
                        &&& !self.active_servers@[k].queue_closed()
                        &&& self.active_servers@[k].completions().submitted() == 0
                        &&& self.active_servers@[k].completions().is_ended()
                        &&& self.active_servers@[k].sent() == Seq::<T>::empty()
                        &&& self.active_servers@[k].queued() == Seq::<T>::empty()
                    },
            decreases new_pairs - spawned,
        {
            let index = self.spawn_server();
            indices.push(index);
            spawned = spawned + 1;
        }
        if pairing_ended {
            self.listening = false;
        }
        if self.listening {
            return (indices, Async::NotReady);
        }
        let mut i: usize = 0;
        let mut all_finished = true;
        while i < self.active_servers.len()
            invariant
                self.wf(),
                i <= self.active_servers@.len(),
                all_finished ==> forall|k: int|
                    0 <= k < i ==> (#[trigger] self.active_servers@[k]).is_finished(),
                !all_finished ==> exists|k: int|
                    0 <= k < i && !(#[trigger] self.active_servers@[k]).is_finished(),
            decreases self.active_servers@.len() - i,
        {
            if !self.active_servers[i].is_finished_now() {
                all_finished = false;
            }
            i = i + 1;
        }
        if all_finished {
            (indices, Async::Ready(()))
        } else {
            (indices, Async::NotReady)
        }
    }
}

} // verus!
