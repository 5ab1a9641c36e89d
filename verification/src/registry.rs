//! The signal sink registry: one write endpoint per event category.
//!
//! Each endpoint is backed by a reactive sink whose stream is folded into a
//! signal holding the full event history of that category, in submission
//! order. The registry owns one endpoint per category plus a merged endpoint
//! that records every classified event in dispatch order; the merged history
//! is what composite projections are computed from.

use vstd::prelude::*;
use crate::classify::classify;
use crate::classify::spec_classify;
use crate::classify::InputEvent;
use crate::classify::RawEvent;
use crate::project::lemma_projections_push;
use crate::project::spec_buttons_of;
use crate::project::spec_focuses_of;
use crate::project::spec_motions_of;
use crate::project::spec_positions_of;
use crate::project::spec_sizes_of;
use crate::project::spec_texts_of;
use crate::project::spec_wheels_of;

verus! {

/// One write endpoint: a sink for a discrete stream of classified events,
/// together with a signal that folds the stream into its full history.
#[verifier::external_body]
pub struct InputChannel {
    sink: carboxyl::Sink<InputEvent>,
    log: carboxyl::Signal<Vec<InputEvent>>,
}

/// The events sent to this endpoint so far, in submission order.
pub uninterp spec fn channel_log(c: InputChannel) -> Seq<InputEvent>;

/// Append one event to a recorded history. The channel's fold applies this
/// to its accumulated history for each event its stream fires.
pub(crate) fn record(history: Vec<InputEvent>, event: InputEvent) -> (r: Vec<InputEvent>)
    ensures
        r@ == history@.push(event),
{
    let mut history = history;
    history.push(event);
    history
}

impl InputChannel {
    /// Relies on carboxyl's Sink::new, Sink::stream and Stream::fold: a
    /// fresh sink's stream has fired nothing, and folding `record` over it
    /// accumulates, in submission order, exactly the events sent later.
    #[verifier::external_body]
    pub(crate) fn new() -> (c: InputChannel)
        ensures
            channel_log(c) == Seq::<InputEvent>::empty(),
    {
        let sink = carboxyl::Sink::new();
        let log = sink.stream().fold(Vec::new(), record);
        InputChannel { sink, log }
    }

    /// Relies on carboxyl's Sink::send: fires the event in all dependent
    /// streams exactly once, in submission order, without blocking.
    #[verifier::external_body]
    pub(crate) fn send(&mut self, event: InputEvent)
        ensures
            channel_log(*final(self)) == channel_log(*old(self)).push(event),
    {
        self.sink.send(event);
    }

    /// Relies on carboxyl's Signal::sample: the current value of the fold
    /// over the sink's stream is the history of every event sent so far.
    #[verifier::external_body]
    pub(crate) fn events(&self) -> (r: Vec<InputEvent>)
        ensures
            r@ == channel_log(*self),
    {
        self.log.sample()
    }
}

/// The write endpoints of the driver: one per event category, and a merged
/// endpoint recording every classified event in dispatch order.
pub struct EventSinks {
    all: InputChannel,
    button: InputChannel,
    motion: InputChannel,
    wheel: InputChannel,
    text: InputChannel,
    size: InputChannel,
    position: InputChannel,
    focus: InputChannel,
}

impl EventSinks {
    /// Every classified event dispatched so far, in order.
    pub closed spec fn log(&self) -> Seq<InputEvent> {
        channel_log(self.all)
    }

    /// The history of the button endpoint.
    pub closed spec fn button_log(&self) -> Seq<InputEvent> {
        channel_log(self.button)
    }

    /// The history of the pointer-motion endpoint.
    pub closed spec fn motion_log(&self) -> Seq<InputEvent> {
        channel_log(self.motion)
    }

    /// The history of the scroll endpoint.
    pub closed spec fn wheel_log(&self) -> Seq<InputEvent> {
        channel_log(self.wheel)
    }

    /// The history of the text endpoint.
    pub closed spec fn text_log(&self) -> Seq<InputEvent> {
        channel_log(self.text)
    }

    /// The history of the resize endpoint.
    pub closed spec fn size_log(&self) -> Seq<InputEvent> {
        channel_log(self.size)
    }

    /// The history of the reposition endpoint.
    pub closed spec fn position_log(&self) -> Seq<InputEvent> {
        channel_log(self.position)
    }

    /// The history of the focus endpoint.
    pub closed spec fn focus_log(&self) -> Seq<InputEvent> {
        channel_log(self.focus)
    }

    /// Every category endpoint carries exactly its category's payloads from
    /// the merged history: no event is lost, duplicated or misrouted.
    pub open spec fn wf(&self) -> bool {
        &&& spec_buttons_of(self.button_log()) == spec_buttons_of(self.log())
        &&& spec_motions_of(self.motion_log()) == spec_motions_of(self.log())
        &&& spec_wheels_of(self.wheel_log()) == spec_wheels_of(self.log())
        &&& spec_texts_of(self.text_log()) == spec_texts_of(self.log())
        &&& spec_sizes_of(self.size_log()) == spec_sizes_of(self.log())
        &&& spec_positions_of(self.position_log()) == spec_positions_of(self.log())
        &&& spec_focuses_of(self.focus_log()) == spec_focuses_of(self.log())
    }

    /// A registry of fresh endpoints that have seen no events.
    pub fn new() -> (s: EventSinks)
        ensures
            s.wf(),
            s.log() == Seq::<InputEvent>::empty(),
    {
        EventSinks {
            all: InputChannel::new(),
            button: InputChannel::new(),
            motion: InputChannel::new(),
            wheel: InputChannel::new(),
            text: InputChannel::new(),
            size: InputChannel::new(),
            position: InputChannel::new(),
            focus: InputChannel::new(),
        }
    }

    /// The merged history: every classified event dispatched so far.
    pub fn all_events(&self) -> (r: Vec<InputEvent>)
        ensures
            r@ == self.log(),
    {
        self.all.events()
    }

    /// The history of the button endpoint.
    pub fn button_events(&self) -> (r: Vec<InputEvent>)
        ensures
            r@ == self.button_log(),
    {
        self.button.events()
    }

    /// The history of the pointer-motion endpoint.
    pub fn motion_events(&self) -> (r: Vec<InputEvent>)
        ensures
            r@ == self.motion_log(),
    {
        self.motion.events()
    }

    /// The history of the scroll endpoint.
    pub fn wheel_events(&self) -> (r: Vec<InputEvent>)
        ensures
            r@ == self.wheel_log(),
    {
        self.wheel.events()
    }

    /// The history of the text endpoint.
    pub fn text_events(&self) -> (r: Vec<InputEvent>)
        ensures
            r@ == self.text_log(),
    {
        self.text.events()
    }

    /// The history of the resize endpoint.
    pub fn size_events(&self) -> (r: Vec<InputEvent>)
        ensures
            r@ == self.size_log(),
    {
        self.size.events()
    }

    /// The history of the reposition endpoint.
    pub fn position_events(&self) -> (r: Vec<InputEvent>)
        ensures
            r@ == self.position_log(),
    {
        self.position.events()
    }

    /// The history of the focus endpoint.
    pub fn focus_events(&self) -> (r: Vec<InputEvent>)
        ensures
            r@ == self.focus_log(),
    {
        self.focus.events()
    }

    /// Classify one raw backend event and deliver the classified event to
    /// its category's endpoint and to the merged endpoint; an unrecognized
    /// event is dropped silently and nothing changes.
    pub fn dispatch(&mut self, event: &RawEvent)
        requires
            old(self).wf(),
        ensures
            final(self).wf(),
            match spec_classify(*event) {
                Some(e) => final(self).log() == old(self).log().push(e),
                None => final(self).log() == old(self).log(),
            },
    {
        let ghost pre = self.log();
        if let Some(e) = classify(event) {
            proof {
                lemma_projections_push(pre, e);
            }
            self.all.send(e.duplicate());
            match &e {
                InputEvent::Button(_) => self.button.send(e),
                InputEvent::Motion(_, _) => self.motion.send(e),
                InputEvent::Wheel(_, _) => self.wheel.send(e),
                InputEvent::Text(_) => self.text.send(e),
                InputEvent::Resize(_, _) => self.size.send(e),
                InputEvent::Reposition(_, _) => self.position.send(e),
                InputEvent::Focus(_) => self.focus.send(e),
            }
            proof {
                lemma_projections_push(old(self).button_log(), e);
                lemma_projections_push(old(self).motion_log(), e);
                lemma_projections_push(old(self).wheel_log(), e);
                lemma_projections_push(old(self).text_log(), e);
                lemma_projections_push(old(self).size_log(), e);
                lemma_projections_push(old(self).position_log(), e);
                lemma_projections_push(old(self).focus_log(), e);
            }
        }
    }
}

} // verus!
