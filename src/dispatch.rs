use vstd::prelude::*;

verus! {

/// Socket start-up for a list of destinations, in list order: one socket per
/// destination, and the first failure aborts the whole start-up.
pub struct SocketSetup<S, E> {
    pub destinations: usize,
    pub sockets: Vec<S>,
    pub failure: Option<E>,
}

impl<S, E> SocketSetup<S, E> {
    pub open spec fn wf(&self) -> bool {
        self.sockets.len() <= self.destinations
    }

    /// Start-up has ended, by a failure or with a socket for every destination.
    pub open spec fn finished(&self) -> bool {
        self.failure is Some || self.sockets.len() == self.destinations
    }

    pub fn new(destinations: usize) -> (r: SocketSetup<S, E>)
        ensures
            r.wf(),
            r.destinations == destinations,
            r.sockets@.len() == 0,
            r.failure is None,
    {
        SocketSetup { destinations, sockets: Vec::new(), failure: None }
    }

    /// The index of the destination whose socket is to be made next, or
    /// `None` once start-up has ended.
    pub fn next_destination(&self) -> (r: Option<usize>)
        requires
            self.wf(),
        ensures
            r is None <==> self.finished(),
            r is Some ==> r->Some_0 == self.sockets.len(),
    {
        match self.failure {
            Some(_) => None,
            None => if self.sockets.len() < self.destinations {
                Some(self.sockets.len())
            } else {
                None
            },
        }
    }

    /// Keeps the socket made for the next destination.
    pub fn record_socket(&mut self, socket: S)
        requires
            old(self).wf(),
            !old(self).finished(),
        ensures
            final(self).wf(),
            final(self).destinations == old(self).destinations,
            final(self).sockets@ == old(self).sockets@.push(socket),
            final(self).failure is None,
    {
        self.sockets.push(socket);
    }

    /// Records that the socket for the next destination could not be made:
    /// start-up ends here.
    pub fn record_failure(&mut self, error: E)
        requires
            old(self).wf(),
            !old(self).finished(),
        ensures
            final(self).wf(),
            final(self).finished(),
            final(self).destinations == old(self).destinations,
            final(self).sockets@ == old(self).sockets@,
            final(self).failure == Some(error),
    {
        self.failure = Some(error);
    }

    /// The sockets to start one worker on each, or the failure that stopped
    /// start-up, in which case no socket is handed out.
    pub fn finish(self) -> (r: Result<Vec<S>, E>)
        requires
            self.wf(),
            self.finished(),
        ensures
            self.failure is Some ==> r == Err::<Vec<S>, E>(self.failure->Some_0),
            self.failure is None ==> r is Ok && r->Ok_0@ == self.sockets@,
            r is Ok ==> r->Ok_0@.len() == self.destinations,
    {
        match self.failure {
            Some(error) => Err(error),
            None => Ok(self.sockets),
        }
    }
}

} // verus!
