use vstd::prelude::*;
use crate::event::{role_of, EventRole, RawEvent};
use crate::eventprocessor::{translate_spec, CmdMap, MappingView, TranslationOutcome};

verus! {

/// What the writer hands to the synthetic device for one received event, and the code to
/// report when the mapping lacked it.
#[derive(Clone, Copy, Debug, PartialEq, Eq, Structural)]
pub struct Emission {
    pub event: RawEvent,
    pub unmapped: Option<u16>,
}

/// The writer's decision for one event: the translated event, or the original one with a
/// notice where the mapping lacks its code.
pub open spec fn route_spec(m: MappingView, e: RawEvent) -> Emission {
    match translate_spec(m, e) {
        TranslationOutcome::Passthrough(x) => Emission { event: x, unmapped: None },
        TranslationOutcome::Remapped(x) => Emission { event: x, unmapped: None },
        TranslationOutcome::Unmapped(c) => Emission { event: e, unmapped: Some(c) },
    }
}

/// The events that the writer hands on for a stream of received events.
pub open spec fn emitted_stream(m: MappingView, s: Seq<RawEvent>) -> Seq<RawEvent> {
    s.map_values(|e: RawEvent| route_spec(m, e).event)
}

/// A state event whose code the mapping lacks translates to `Unmapped` of that code, and the
/// writer hands on the original event unchanged, with a notice of the code.
pub proof fn lemma_unmapped_state_event_forwarded(m: MappingView, e: RawEvent)
    requires
        !e.is_motion_or_sync(),
        role_of(e.code) == EventRole::Direct,
        !m.buttons.contains_key(e.code),
    ensures
        translate_spec(m, e) == TranslationOutcome::Unmapped(e.code),
        route_spec(m, e) == (Emission { event: e, unmapped: Some(e.code) }),
{
}

/// The writer hands on exactly one event for each event received, at the same position:
/// nothing is reordered, dropped or repeated, and a stream taken in two parts gives the same
/// output as taken whole.
pub proof fn lemma_stream_keeps_order(m: MappingView, a: Seq<RawEvent>, b: Seq<RawEvent>)
    ensures
        emitted_stream(m, a).len() == a.len(),
        forall|i: int| 0 <= i < a.len() ==> #[trigger] emitted_stream(m, a)[i] == route_spec(m, a[i]).event,
        emitted_stream(m, a + b) == emitted_stream(m, a) + emitted_stream(m, b),
{
    assert(emitted_stream(m, a + b) =~= emitted_stream(m, a) + emitted_stream(m, b));
}

impl CmdMap {
    /// Decides what the writer emits for one received event.
    pub fn route_event(&self, ev: RawEvent) -> (r: Emission)
        ensures
            r == route_spec(self@, ev),
    {
        match self.translate(ev) {
            TranslationOutcome::Passthrough(x) => Emission { event: x, unmapped: None },
            TranslationOutcome::Remapped(x) => Emission { event: x, unmapped: None },
            TranslationOutcome::Unmapped(c) => Emission { event: ev, unmapped: Some(c) },
        }
    }
}

/// The consuming end of the pipeline: it owns the mapping and decides, event by event and in
/// the order received, what goes to the synthetic device.
pub struct EventWriter {
    map: CmdMap,
    received: Ghost<Seq<RawEvent>>,
    emitted: Ghost<Seq<RawEvent>>,
}

impl EventWriter {
    pub closed spec fn mapping(&self) -> MappingView {
        self.map@
    }

    /// The events received so far, in order.
    pub closed spec fn received(&self) -> Seq<RawEvent> {
        self.received@
    }

    /// The events handed on so far, in order.
    pub closed spec fn emitted(&self) -> Seq<RawEvent> {
        self.emitted@
    }

    pub open spec fn wf(&self) -> bool {
        self.emitted() == emitted_stream(self.mapping(), self.received())
    }

    pub fn new(map: CmdMap) -> (r: EventWriter)
        ensures
            r.wf(),
            r.mapping() == map@,
            r.received() == Seq::<RawEvent>::empty(),
            r.emitted() == Seq::<RawEvent>::empty(),
    {
        let r = EventWriter { map, received: Ghost(Seq::empty()), emitted: Ghost(Seq::empty()) };
        assert(emitted_stream(map@, Seq::empty()) =~= Seq::<RawEvent>::empty());
        r
    }

    pub fn cmd_map(&self) -> (r: &CmdMap)
        ensures
            r@ == self.mapping(),
    {
        &self.map
    }

    /// Takes the next event from the channel and decides what to emit for it.
    pub fn on_event(&mut self, ev: RawEvent) -> (r: Emission)
        requires
            old(self).wf(),
        ensures
            final(self).wf(),
            r == route_spec(old(self).mapping(), ev),
            final(self).mapping() == old(self).mapping(),
            final(self).received() == old(self).received().push(ev),
            final(self).emitted() == old(self).emitted().push(r.event),
    {
        let r = self.map.route_event(ev);
        let ghost m = self.map@;
        let ghost prev = self.received@;
        self.received = Ghost(self.received@.push(ev));
        self.emitted = Ghost(self.emitted@.push(r.event));
        assert(emitted_stream(m, prev.push(ev)) =~= emitted_stream(m, prev).push(r.event));
        r
    }
}

} // verus!
