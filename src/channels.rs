use vstd::prelude::*;

use crate::message::{RustRequestUnique, RustResponseUnique, RustSignal};

verus! {

/// Why a message was not handed to the host. The message is dropped.
#[derive(Clone, Copy, Debug, PartialEq, Eq, Structural)]
pub enum EmitError {
    /// The host has not yet attached a listener for this stream.
    SinkNotReady,
    /// No request with this id awaits a response: it was never submitted,
    /// or it has been answered already.
    UnknownId(i32),
}

/// Why the application logic was not started.
#[derive(Clone, Copy, Debug, PartialEq, Eq, Structural)]
pub enum StartError {
    AlreadyStarted,
}

/// A message to be sent on the sink that the host attached.
pub struct Delivery<S, M> {
    pub sink: S,
    pub message: M,
}

/// The process-wide state of the channels: the two sinks, the setup flags,
/// and the ids of the requests that still await their response.
pub struct Channels<S> {
    signal_sink: Option<S>,
    response_sink: Option<S>,
    prepared: bool,
    started: bool,
    pending: Vec<i32>,
}

pub struct ChannelsView<S> {
    pub signal_sink: Option<S>,
    pub response_sink: Option<S>,
    pub prepared: bool,
    pub started: bool,
    pub pending: Set<i32>,
}

impl<S> ChannelsView<S> {
    /// No sink attached, nothing prepared or started, nothing pending.
    pub open spec fn initial() -> Self {
        ChannelsView {
            signal_sink: None,
            response_sink: None,
            prepared: false,
            started: false,
            pending: Set::empty(),
        }
    }

    /// Both streams have a listener.
    pub open spec fn ready(self) -> bool {
        self.signal_sink is Some && self.response_sink is Some
    }

    /// The first sink attached to the signal stream stays.
    pub open spec fn with_signal_sink(self, s: S) -> Self {
        if self.signal_sink is Some {
            self
        } else {
            ChannelsView { signal_sink: Some(s), ..self }
        }
    }

    /// The first sink attached to the response stream stays.
    pub open spec fn with_response_sink(self, s: S) -> Self {
        if self.response_sink is Some {
            self
        } else {
            ChannelsView { response_sink: Some(s), ..self }
        }
    }

    pub open spec fn with_prepared(self) -> Self {
        ChannelsView { prepared: true, ..self }
    }

    pub open spec fn with_started(self) -> Self {
        ChannelsView { started: true, ..self }
    }

    /// A request with this id now awaits its response.
    pub open spec fn submitted(self, id: i32) -> Self {
        ChannelsView { pending: self.pending.insert(id), ..self }
    }

    /// Where a signal goes, or why it is dropped.
    pub open spec fn signal_outcome(self) -> Result<S, EmitError> {
        match self.signal_sink {
            Some(s) => Ok(s),
            None => Err(EmitError::SinkNotReady),
        }
    }

    /// Where a response with this id goes, or why it is dropped.
    pub open spec fn response_outcome(self, id: i32) -> Result<S, EmitError> {
        match self.response_sink {
            None => Err(EmitError::SinkNotReady),
            Some(s) => if self.pending.contains(id) {
                Ok(s)
            } else {
                Err(EmitError::UnknownId(id))
            },
        }
    }

    /// The state after a response with this id was emitted: a delivered
    /// response closes its request, a dropped one changes nothing.
    pub open spec fn after_response(self, id: i32) -> Self {
        match self.response_outcome(id) {
            Ok(_) => ChannelsView { pending: self.pending.remove(id), ..self },
            Err(_) => self,
        }
    }
}

impl<S> View for Channels<S> {
    type V = ChannelsView<S>;

    closed spec fn view(&self) -> ChannelsView<S> {
        ChannelsView {
            signal_sink: self.signal_sink,
            response_sink: self.response_sink,
            prepared: self.prepared,
            started: self.started,
            pending: self.pending@.to_set(),
        }
    }
}

proof fn lemma_push_to_set(s: Seq<i32>, x: i32)
    requires
        s.no_duplicates(),
        !s.contains(x),
    ensures
        s.push(x).to_set() =~= s.to_set().insert(x),
        s.push(x).no_duplicates(),
{
    assert forall|y: i32| s.push(x).to_set().contains(y) <==> s.to_set().insert(x).contains(y) by {
        if y == x {
            assert(s.push(x)[s.len() as int] == x);
        } else if s.contains(y) {
            let j = choose|j: int| 0 <= j < s.len() && s[j] == y;
            assert(s.push(x)[j] == y);
        }
    }
}

proof fn lemma_remove_to_set(s: Seq<i32>, i: int)
    requires
        s.no_duplicates(),
        0 <= i < s.len(),
    ensures
        s.remove(i).to_set() =~= s.to_set().remove(s[i]),
        s.remove(i).no_duplicates(),
{
    let r = s.remove(i);
    assert forall|y: i32| r.to_set().contains(y) <==> s.to_set().remove(s[i]).contains(y) by {
        if r.contains(y) {
            let j = choose|j: int| 0 <= j < r.len() && r[j] == y;
            if j < i {
                assert(s[j] == y);
            } else {
                assert(s[j + 1] == y);
            }
        }
        if y != s[i] && s.contains(y) {
            let j = choose|j: int| 0 <= j < s.len() && s[j] == y;
            if j < i {
                assert(r[j] == y);
            } else {
                assert(r[j - 1] == y);
            }
        }
    }
}

/// The place of `id` in `ids`, if it is there.
fn position_of(ids: &Vec<i32>, id: i32) -> (r: Option<usize>)
    ensures
        match r {
            Some(i) => i < ids@.len() && ids@[i as int] == id,
            None => !ids@.contains(id),
        },
{
    let mut i: usize = 0;
    while i < ids.len()
        invariant
            i <= ids@.len(),
            forall|j: int| 0 <= j < i ==> ids@[j] != id,
        decreases ids@.len() - i,
    {
        if ids[i] == id {
            return Some(i);
        }
        i = i + 1;
    }
    None
}

impl<S: Copy> Channels<S> {
    /// The pending ids are held once each.
    pub closed spec fn wf(&self) -> bool {
        self.pending@.no_duplicates()
    }

    /// Channels with no listener attached and no request pending.
    pub fn new() -> (r: Channels<S>)
        ensures
            r.wf(),
            r@ == ChannelsView::<S>::initial(),
    {
        let r = Channels {
            signal_sink: None,
            response_sink: None,
            prepared: false,
            started: false,
            pending: Vec::new(),
        };
        assert(r.pending@.to_set() =~= Set::<i32>::empty());
        r
    }

    /// Attaches the host's listener for signals. A listener that is already
    /// attached stays, and the new one is ignored.
    pub fn prepare_signal_stream(&mut self, sink: S)
        requires
            old(self).wf(),
        ensures
            final(self).wf(),
            final(self)@ == old(self)@.with_signal_sink(sink),
    {
        if self.signal_sink.is_none() {
            self.signal_sink = Some(sink);
        }
    }

    /// Attaches the host's listener for responses. A listener that is already
    /// attached stays, and the new one is ignored.
    pub fn prepare_response_stream(&mut self, sink: S)
        requires
            old(self).wf(),
        ensures
            final(self).wf(),
            final(self)@ == old(self)@.with_response_sink(sink),
    {
        if self.response_sink.is_none() {
            self.response_sink = Some(sink);
        }
    }

    /// Marks the wiring for incoming requests as done; calling it again
    /// changes nothing.
    pub fn prepare_channels(&mut self)
        requires
            old(self).wf(),
        ensures
            final(self).wf(),
            final(self)@ == old(self)@.with_prepared(),
    {
        self.prepared = true;
    }

    /// Both listeners are attached.
    pub fn channels_ready(&self) -> (r: bool)
        ensures
            r == self@.ready(),
    {
        self.signal_sink.is_some() && self.response_sink.is_some()
    }

    /// The setup of incoming requests is done.
    pub fn channels_prepared(&self) -> (r: bool)
        ensures
            r == self@.prepared,
    {
        self.prepared
    }

    /// The ids of the requests that still await their response.
    pub fn pending_ids(&self) -> (r: Vec<i32>)
        requires
            self.wf(),
        ensures
            r@.to_set() == self@.pending,
            r@.no_duplicates(),
    {
        self.pending.clone()
    }

    /// Takes a request from the host and hands it on, unchanged, to the
    /// application logic; its id now awaits a response. An id that is
    /// already pending stays pending once.
    pub fn submit(&mut self, envelope: RustRequestUnique) -> (r: RustRequestUnique)
        requires
            old(self).wf(),
        ensures
            final(self).wf(),
            final(self)@ == old(self)@.submitted(envelope.id),
            r == envelope,
    {
        if position_of(&self.pending, envelope.id).is_none() {
            proof {
                lemma_push_to_set(self.pending@, envelope.id);
            }
            self.pending.push(envelope.id);
        } else {
            assert(self.pending@.to_set().contains(envelope.id));
            assert(self.pending@.to_set().insert(envelope.id) =~= self.pending@.to_set());
        }
        envelope
    }

    /// Routes a response to the response listener. It is delivered only when
    /// the listener is attached and its id awaits a response; that id is then
    /// closed, so each id is delivered at most once. Otherwise the response is
    /// dropped and the error says why.
    pub fn emit_response(&mut self, envelope: RustResponseUnique) -> (r: Result<
        Delivery<S, RustResponseUnique>,
        EmitError,
    >)
        requires
            old(self).wf(),
        ensures
            final(self).wf(),
            final(self)@ == old(self)@.after_response(envelope.id),
            match old(self)@.response_outcome(envelope.id) {
                Ok(s) => r == Ok::<Delivery<S, RustResponseUnique>, EmitError>(
                    (Delivery { sink: s, message: envelope }),
                ),
                Err(e) => r == Err::<Delivery<S, RustResponseUnique>, EmitError>(e),
            },
    {
        let sink = match self.response_sink {
            Some(s) => s,
            None => return Err(EmitError::SinkNotReady),
        };
        match position_of(&self.pending, envelope.id) {
            None => {
                assert(!self.pending@.to_set().contains(envelope.id));
                Err(EmitError::UnknownId(envelope.id))
            },
            Some(i) => {
                proof {
                    lemma_remove_to_set(self.pending@, i as int);
                    assert(self.pending@.to_set().contains(envelope.id));
                }
                self.pending.remove(i);
                Ok(Delivery { sink, message: envelope })
            },
        }
    }

    /// Routes a signal to the signal listener. Without a listener the signal
    /// is dropped and the call returns at once.
    pub fn emit_signal(&self, signal: RustSignal) -> (r: Result<Delivery<S, RustSignal>, EmitError>)
        ensures
            match self@.signal_outcome() {
                Ok(s) => r == Ok::<Delivery<S, RustSignal>, EmitError>(
                    (Delivery { sink: s, message: signal }),
                ),
                Err(e) => r == Err::<Delivery<S, RustSignal>, EmitError>(e),
            },
    {
        match self.signal_sink {
            Some(sink) => Ok(Delivery { sink, message: signal }),
            None => Err(EmitError::SinkNotReady),
        }
    }
}

/// Lets the application's entry point run once: the first call hands
/// `main_future` back to be run, every later call refuses it.
pub fn start_rust_logic<S: Copy, F>(channels: &mut Channels<S>, main_future: F) -> (r: Result<
    F,
    StartError,
>)
    requires
        old(channels).wf(),
    ensures
        final(channels).wf(),
        old(channels)@.started ==> r == Err::<F, StartError>(StartError::AlreadyStarted)
            && final(channels)@ == old(channels)@,
        !old(channels)@.started ==> r == Ok::<F, StartError>(main_future) && final(channels)@
            == old(channels)@.with_started(),
{
    if channels.started {
        Err(StartError::AlreadyStarted)
    } else {
        channels.started = true;
        Ok(main_future)
    }
}

/// Readiness needs both listeners: it is false from the start and after
/// either one alone, and true once both are attached, in either order.
pub proof fn lemma_ready_after_both_streams<S>(v: ChannelsView<S>, a: S, b: S)
    ensures
        !ChannelsView::<S>::initial().ready(),
        !ChannelsView::<S>::initial().with_signal_sink(a).ready(),
        !ChannelsView::<S>::initial().with_response_sink(b).ready(),
        v.with_signal_sink(a).with_response_sink(b).ready(),
        v.with_response_sink(b).with_signal_sink(a).ready(),
{
}

/// A second signal listener replaces nothing: a signal emitted afterwards
/// has exactly one destination, the first listener.
pub proof fn lemma_first_signal_sink_stays<S>(v: ChannelsView<S>, first: S, second: S)
    requires
        v.signal_sink is None,
    ensures
        v.with_signal_sink(first).with_signal_sink(second).signal_sink == Some(first),
        v.with_signal_sink(first).with_signal_sink(second).signal_outcome() == Ok::<
            S,
            EmitError,
        >(first),
{
}

/// A signal emitted before any listener is attached is dropped.
pub proof fn lemma_signal_without_sink_dropped<S>(v: ChannelsView<S>)
    requires
        v.signal_sink is None,
    ensures
        v.signal_outcome() == Err::<S, EmitError>(EmitError::SinkNotReady),
{
}

/// Once the response listener is attached, a submitted request gets exactly
/// one response through: the first response with its id is delivered, a
/// second one with that id is refused.
pub proof fn lemma_one_response_per_request<S>(v: ChannelsView<S>, id: i32)
    requires
        v.response_sink is Some,
    ensures
        v.submitted(id).response_outcome(id) == Ok::<S, EmitError>(v.response_sink->0),
        v.submitted(id).after_response(id).response_outcome(id) == Err::<S, EmitError>(
            EmitError::UnknownId(id),
        ),
{
}

/// Emits responses with the given ids one after another: the final state
/// and the ids that were delivered, in order.
pub open spec fn emit_responses<S>(v: ChannelsView<S>, ids: Seq<i32>) -> (ChannelsView<S>, Seq<i32>)
    decreases ids.len(),
{
    if ids.len() == 0 {
        (v, Seq::empty())
    } else {
        let (w, delivered) = emit_responses(v, ids.drop_last());
        let id = ids.last();
        match w.response_outcome(id) {
            Ok(_) => (w.after_response(id), delivered.push(id)),
            Err(_) => (w, delivered),
        }
    }
}

/// However responses are emitted, no id is delivered twice, and a delivered
/// id no longer awaits a response.
pub proof fn lemma_no_duplicate_deliveries<S>(v: ChannelsView<S>, ids: Seq<i32>)
    ensures
        emit_responses(v, ids).1.no_duplicates(),
        forall|x: i32| #[trigger]
            emit_responses(v, ids).1.contains(x) ==> !emit_responses(v, ids).0.pending.contains(x),
        emit_responses(v, ids).0.response_sink == v.response_sink,
    decreases ids.len(),
{
    if ids.len() > 0 {
        lemma_no_duplicate_deliveries(v, ids.drop_last());
        let (w, d) = emit_responses(v, ids.drop_last());
        let id = ids.last();
        if w.response_outcome(id) is Ok {
            assert(!d.contains(id));
            let d2 = d.push(id);
            assert forall|x: i32| d2.contains(x) implies !w.after_response(id).pending.contains(x) by {
                assert(w.after_response(id).pending == w.pending.remove(id));
                if x != id {
                    let j = choose|j: int| 0 <= j < d2.len() && d2[j] == x;
                    assert(j < d.len());
                    assert(d[j] == x);
                    assert(d.contains(x));
                }
            }
            assert forall|i: int, j: int| 0 <= i < d2.len() && 0 <= j < d2.len() && i != j
                implies d2[i] != d2[j] by {
                if i < d.len() && j < d.len() {
                } else if i < d.len() {
                    assert(d.contains(d2[i]));
                } else if j < d.len() {
                    assert(d.contains(d2[j]));
                }
            }
        }
    }
}

/// With the response listener attached, responses for distinct pending ids
/// are each delivered exactly once, in the order emitted.
pub proof fn lemma_all_distinct_responses_delivered<S>(v: ChannelsView<S>, ids: Seq<i32>)
    requires
        v.response_sink is Some,
        ids.no_duplicates(),
        forall|i: int| 0 <= i < ids.len() ==> v.pending.contains(#[trigger] ids[i]),
    ensures
        emit_responses(v, ids).1 == ids,
        forall|x: i32| v.pending.contains(x) && !ids.contains(x)
            ==> #[trigger] emit_responses(v, ids).0.pending.contains(x),
        emit_responses(v, ids).0.response_sink == v.response_sink,
    decreases ids.len(),
{
    if ids.len() > 0 {
        let rest = ids.drop_last();
        assert(rest.no_duplicates());
        assert forall|i: int| 0 <= i < rest.len() implies v.pending.contains(#[trigger] rest[i]) by {
            assert(rest[i] == ids[i]);
        }
        lemma_all_distinct_responses_delivered(v, rest);
        let id = ids.last();
        assert(!rest.contains(id)) by {
            if rest.contains(id) {
                let j = choose|j: int| 0 <= j < rest.len() && rest[j] == id;
                assert(ids[j] == ids[ids.len() - 1]);
            }
        }
        assert(v.pending.contains(ids[ids.len() - 1]));
        assert(ids =~= rest.push(id));
        assert forall|x: i32| v.pending.contains(x) && !ids.contains(x)
            implies #[trigger] emit_responses(v, ids).0.pending.contains(x) by {
            if rest.contains(x) {
                let j = choose|j: int| 0 <= j < rest.len() && rest[j] == x;
                assert(ids[j] == x);
            }
            assert(x != id);
        }
    }
}

} // verus!
