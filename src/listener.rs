use vstd::prelude::*;

verus! {

/// Why a listener could not start.
#[derive(Clone, Copy, Debug, PartialEq, Eq, Structural)]
pub enum ListenError {
    /// The peer-transport endpoint could not be bound.
    Bind,
}

/// A logical stream forwarded over a TCP connection of its own.
#[derive(Clone, Copy, Debug, PartialEq, Eq, Structural)]
pub struct Pair {
    pub stream: u64,
    pub connection: u64,
}

/// What the accept loop and the forwarding tasks report to the listener.
#[derive(Clone, Copy, Debug, PartialEq, Eq, Structural)]
pub enum ListenerEvent {
    /// A new logical stream came in on some session.
    StreamAccepted,
    /// The TCP dial for the stream succeeded with the given connection.
    Dialed { stream: u64, connection: u64 },
    /// The TCP dial for the stream failed.
    DialFailed { stream: u64 },
    /// The forwarding task of the stream has ended.
    PairDone { stream: u64 },
    /// The process is shutting down.
    Shutdown,
}

/// What the listener asks of the I/O around it.
#[derive(Clone, Copy, Debug, PartialEq, Eq, Structural)]
pub enum ListenerAction {
    /// Open a TCP connection to the target for the stream with this number.
    Dial { stream: u64 },
    /// Forward the stream over the connection, in a task of its own.
    Forward { stream: u64, connection: u64 },
    /// Abort the stream with a reset; its session and the other streams stay.
    ResetStream { stream: u64 },
    /// Abort the stream and close the connection: they are not a pair.
    Discard { stream: u64, connection: u64 },
    /// Refuse a stream that came in while the listener is not accepting.
    Refuse,
    /// Release the resources of the stream that ended.
    Release { stream: u64 },
    /// Stop accepting, and close every stream and connection now.
    CloseAll,
    /// Nothing to do.
    Nothing,
}

/// The decisions of the listener: which streams wait for their TCP dial, and
/// which stream is paired with which connection.
#[derive(Clone, Debug)]
pub struct Listener {
    pub accepting: bool,
    pub next_stream: u64,
    pub dialing: Vec<u64>,
    pub pairs: Vec<Pair>,
}

impl Listener {
    pub open spec fn is_dialing(&self, s: u64) -> bool {
        self.dialing@.contains(s)
    }

    pub open spec fn stream_paired(&self, s: u64) -> bool {
        exists|i: int| 0 <= i < self.pairs@.len() && #[trigger] self.pairs@[i].stream == s
    }

    pub open spec fn connection_paired(&self, c: u64) -> bool {
        exists|i: int| 0 <= i < self.pairs@.len() && #[trigger] self.pairs@[i].connection == c
    }

    /// Each stream is dialed or paired at most once, never both, and two pairs
    /// never share a stream or a connection.
    pub open spec fn wf(&self) -> bool {
        &&& forall|i: int, j: int|
            0 <= i < j < self.dialing@.len() ==> self.dialing@[i] != self.dialing@[j]
        &&& forall|i: int| 0 <= i < self.dialing@.len() ==> #[trigger] self.dialing@[i] < self.next_stream
        &&& forall|i: int, j: int|
            #![trigger self.pairs@[i], self.pairs@[j]]
            0 <= i < j < self.pairs@.len() ==> self.pairs@[i].stream != self.pairs@[j].stream
                && self.pairs@[i].connection != self.pairs@[j].connection
        &&& forall|i: int|
            0 <= i < self.pairs@.len() ==> !self.dialing@.contains(#[trigger] self.pairs@[i].stream)
        &&& forall|i: int| 0 <= i < self.pairs@.len() ==> #[trigger] self.pairs@[i].stream < self.next_stream
    }

    /// A listener that accepts, with no stream yet.
    pub fn new() -> (r: Listener)
        ensures
            r.wf(),
            r.accepting,
            r.dialing@.len() == 0,
            r.pairs@.len() == 0,
    {
        Listener { accepting: true, next_stream: 0, dialing: Vec::new(), pairs: Vec::new() }
    }

    fn find_dialing(&self, s: u64) -> (r: Option<usize>)
        ensures
            match r {
                Some(i) => i < self.dialing@.len() && self.dialing@[i as int] == s,
                None => !self.dialing@.contains(s),
            },
    {
        let mut i: usize = 0;
        while i < self.dialing.len()
            invariant
                i <= self.dialing@.len(),
                forall|j: int| 0 <= j < i ==> self.dialing@[j] != s,
            decreases self.dialing@.len() - i,
        {
            if self.dialing[i] == s {
                return Some(i);
            }
            i = i + 1;
        }
        None
    }

    fn find_stream(&self, s: u64) -> (r: Option<usize>)
        ensures
            match r {
                Some(i) => i < self.pairs@.len() && self.pairs@[i as int].stream == s,
                None => !self.stream_paired(s),
            },
    {
        let mut i: usize = 0;
        while i < self.pairs.len()
            invariant
                i <= self.pairs@.len(),
                forall|j: int| 0 <= j < i ==> self.pairs@[j].stream != s,
            decreases self.pairs@.len() - i,
        {
            if self.pairs[i].stream == s {
                return Some(i);
            }
            i = i + 1;
        }
        None
    }

    fn connection_in_use(&self, c: u64) -> (r: bool)
        ensures
            r == self.connection_paired(c),
    {
        let mut i: usize = 0;
        while i < self.pairs.len()
            invariant
                i <= self.pairs@.len(),
                forall|j: int| 0 <= j < i ==> self.pairs@[j].connection != c,
            decreases self.pairs@.len() - i,
        {
            if self.pairs[i].connection == c {
                return true;
            }
            i = i + 1;
        }
        false
    }

    /// Takes one event and says what to do about it. A failed dial or an ended
    /// pair touches that stream alone; every other pair stays as it was.
    pub fn step(&mut self, e: ListenerEvent) -> (r: ListenerAction)
        requires
            old(self).wf(),
        ensures
            final(self).wf(),
            match e {
                ListenerEvent::StreamAccepted => if old(self).accepting && old(self).next_stream
                    < u64::MAX {
                    &&& r == ListenerAction::Dial { stream: old(self).next_stream }
                    &&& final(self).next_stream == old(self).next_stream + 1
                    &&& final(self).dialing@ == old(self).dialing@.push(old(self).next_stream)
                    &&& final(self).pairs@ == old(self).pairs@
                    &&& final(self).accepting
                } else {
                    &&& r == ListenerAction::Refuse
                    &&& final(self).accepting == old(self).accepting
                    &&& final(self).next_stream == old(self).next_stream
                    &&& final(self).dialing@ == old(self).dialing@
                    &&& final(self).pairs@ == old(self).pairs@
                },
                ListenerEvent::Dialed { stream, connection } => {
                    &&& final(self).accepting == old(self).accepting
                    &&& final(self).next_stream == old(self).next_stream
                    &&& forall|x: u64| #[trigger]
                        final(self).is_dialing(x) <==> old(self).is_dialing(x) && x != stream
                    &&& if old(self).is_dialing(stream) && !old(self).connection_paired(connection) {
                        &&& r == ListenerAction::Forward { stream, connection }
                        &&& final(self).pairs@ == old(self).pairs@.push(Pair { stream, connection })
                    } else {
                        &&& r == ListenerAction::Discard { stream, connection }
                        &&& final(self).pairs@ == old(self).pairs@
                    }
                },
                ListenerEvent::DialFailed { stream } => {
                    &&& r == ListenerAction::ResetStream { stream }
                    &&& final(self).accepting == old(self).accepting
                    &&& final(self).next_stream == old(self).next_stream
                    &&& forall|x: u64| #[trigger]
                        final(self).is_dialing(x) <==> old(self).is_dialing(x) && x != stream
                    &&& final(self).pairs@ == old(self).pairs@
                },
                ListenerEvent::PairDone { stream } => {
                    &&& final(self).accepting == old(self).accepting
                    &&& final(self).next_stream == old(self).next_stream
                    &&& final(self).dialing@ == old(self).dialing@
                    &&& if old(self).stream_paired(stream) {
                        &&& r == ListenerAction::Release { stream }
                        &&& forall|p: Pair|
                            #![trigger final(self).pairs@.contains(p)]
                            final(self).pairs@.contains(p) <==> old(self).pairs@.contains(p)
                                && p.stream != stream
                    } else {
                        r == ListenerAction::Nothing && final(self).pairs@ == old(self).pairs@
                    }
                },
                ListenerEvent::Shutdown => {
                    &&& r == ListenerAction::CloseAll
                    &&& !final(self).accepting
                    &&& final(self).next_stream == old(self).next_stream
                    &&& final(self).dialing@.len() == 0
                    &&& final(self).pairs@.len() == 0
                },
            },
    {
        match e {
            ListenerEvent::StreamAccepted => {
                if self.accepting && self.next_stream < u64::MAX {
                    let s = self.next_stream;
                    self.dialing.push(s);
                    self.next_stream = s + 1;
                    proof {
                        assert(self.dialing@[self.dialing@.len() - 1] == s);
                        assert forall|k: int| 0 <= k < self.pairs@.len() implies !self.dialing@.contains(
                            #[trigger] self.pairs@[k].stream,
                        ) by {
                            let x = self.pairs@[k].stream;
                            if self.dialing@.contains(x) {
                                let m = choose|m: int| 0 <= m < self.dialing@.len() && self.dialing@[m] == x;
                                if m < self.dialing@.len() - 1 {
                                    assert(old(self).dialing@[m] == x);
                                }
                            }
                        }
                    }
                    ListenerAction::Dial { stream: s }
                } else {
                    ListenerAction::Refuse
                }
            },
            ListenerEvent::Dialed { stream, connection } => {
                match self.find_dialing(stream) {
                    Some(i) => {
                        let ghost before = self.dialing@;
                        self.dialing.remove(i);
                        proof {
                            self.lemma_removed(before, i as int);
                        }
                        if self.connection_in_use(connection) {
                            ListenerAction::Discard { stream, connection }
                        } else {
                            let ghost pb = self.pairs@;
                            self.pairs.push(Pair { stream, connection });
                            proof {
                                assert(self.pairs@[pb.len() as int] == Pair { stream, connection });
                                assert(before[i as int] == stream);
                                assert(before.contains(stream));
                                assert forall|k: int| 0 <= k < pb.len() implies #[trigger] pb[k].stream
                                    != stream by {
                                    assert(!before.contains(pb[k].stream));
                                }
                            }
                            ListenerAction::Forward { stream, connection }
                        }
                    },
                    None => {
                        assert(forall|x: u64| #[trigger] self.is_dialing(x) ==> x != stream);
                        ListenerAction::Discard { stream, connection }
                    },
                }
            },
            ListenerEvent::DialFailed { stream } => {
                match self.find_dialing(stream) {
                    Some(i) => {
                        let ghost before = self.dialing@;
                        self.dialing.remove(i);
                        proof {
                            self.lemma_removed(before, i as int);
                        }
                    },
                    None => {
                        assert(forall|x: u64| #[trigger] self.is_dialing(x) ==> x != stream);
                    },
                }
                ListenerAction::ResetStream { stream }
            },
            ListenerEvent::PairDone { stream } => {
                match self.find_stream(stream) {
                    Some(i) => {
                        let ghost before = self.pairs@;
                        self.pairs.remove(i);
                        proof {
                            assert forall|p: Pair| #![trigger self.pairs@.contains(p)]
                                self.pairs@.contains(p) <==> before.contains(p) && p.stream
                                    != stream by {
                                if self.pairs@.contains(p) {
                                    let k = choose|k: int| 0 <= k < self.pairs@.len() && self.pairs@[k] == p;
                                    if k < i {
                                        assert(before[k] == p);
                                    } else {
                                        assert(before[k + 1] == p);
                                    }
                                }
                                if before.contains(p) && p.stream != stream {
                                    let k = choose|k: int| 0 <= k < before.len() && before[k] == p;
                                    if k < i {
                                        assert(self.pairs@[k] == p);
                                    } else {
                                        assert(k != i);
                                        assert(self.pairs@[k - 1] == p);
                                    }
                                }
                            }
                            assert forall|a: int, b: int|
                                #![trigger self.pairs@[a], self.pairs@[b]]
                                0 <= a < b < self.pairs@.len() implies self.pairs@[a].stream
                                    != self.pairs@[b].stream && self.pairs@[a].connection
                                    != self.pairs@[b].connection by {
                                let a2 = if a < i { a } else { a + 1 };
                                let b2 = if b < i { b } else { b + 1 };
                                assert(self.pairs@[a] == before[a2]);
                                assert(self.pairs@[b] == before[b2]);
                                assert(before[a2] == before[a2] && before[b2] == before[b2]);
                            }
                            assert forall|k: int| 0 <= k < self.pairs@.len() implies !self.dialing@.contains(
                                #[trigger] self.pairs@[k].stream,
                            ) && self.pairs@[k].stream < self.next_stream by {
                                let k2 = if k < i { k } else { k + 1 };
                                assert(self.pairs@[k] == before[k2]);
                            }
                        }
                        ListenerAction::Release { stream }
                    },
                    None => ListenerAction::Nothing,
                }
            },
            ListenerEvent::Shutdown => {
                self.accepting = false;
                self.dialing = Vec::new();
                self.pairs = Vec::new();
                ListenerAction::CloseAll
            },
        }
    }

    proof fn lemma_removed(&self, before: Seq<u64>, i: int)
        requires
            0 <= i < before.len(),
            self.dialing@ == before.remove(i),
            forall|a: int, b: int| 0 <= a < b < before.len() ==> before[a] != before[b],
            forall|a: int| 0 <= a < before.len() ==> #[trigger] before[a] < self.next_stream,
        ensures
            forall|x: u64| #[trigger]
                self.dialing@.contains(x) <==> before.contains(x) && x != before[i],
            forall|a: int, b: int|
                0 <= a < b < self.dialing@.len() ==> self.dialing@[a] != self.dialing@[b],
            forall|a: int| 0 <= a < self.dialing@.len() ==> #[trigger] self.dialing@[a] < self.next_stream,
    {
        assert forall|x: u64| #[trigger]
            self.dialing@.contains(x) <==> before.contains(x) && x != before[i] by {
            if self.dialing@.contains(x) {
                let k = choose|k: int| 0 <= k < self.dialing@.len() && self.dialing@[k] == x;
                if k < i {
                    assert(before[k] == x);
                } else {
                    assert(before[k + 1] == x);
                }
            }
            if before.contains(x) && x != before[i] {
                let k = choose|k: int| 0 <= k < before.len() && before[k] == x;
                if k < i {
                    assert(self.dialing@[k] == x);
                } else {
                    assert(self.dialing@[k - 1] == x);
                }
            }
        }
        assert forall|a: int, b: int|
            0 <= a < b < self.dialing@.len() implies self.dialing@[a] != self.dialing@[b] by {
            let a2 = if a < i { a } else { a + 1 };
            let b2 = if b < i { b } else { b + 1 };
            assert(self.dialing@[a] == before[a2]);
            assert(self.dialing@[b] == before[b2]);
        }
        assert forall|a: int| 0 <= a < self.dialing@.len() implies #[trigger] self.dialing@[a] < self.next_stream by {
            let a2 = if a < i { a } else { a + 1 };
            assert(self.dialing@[a] == before[a2]);
        }
    }
}

} // verus!
