//! The decisions of a background generation, apart from the waiting and the
//! storage: which pieces of a streamed reply go to the listener, when the
//! text that has come in is written out as a content chunk, what is done
//! with the finished reply, and how an empty reply is taken back.

use vstd::prelude::*;

use crate::models::message::{GenerationEvent, MessageNodeRecord, MessageVersionPatch, VersionMeta};
use crate::services::channel_service::opt_view;
use crate::error::{is_error, AppError, ErrorKind};
use crate::services::generation_engine::{
    TextSegment, ThinkingTagDetector, plus, segments_split, split_text, split_thinking_from_text, tag_names, chunking_safe,
};
use crate::services::message_service::{fallback_after_delete, last_other_version, utf8_len};
use crate::text::{is_blank, is_blank_seq, str_eq};

verus! {

/// The size in bytes at which the text waiting on a channel is written out.
pub const FLUSH_THRESHOLD_BYTES: usize = 2048;

/// The two channels of generated text.
#[derive(Debug, Clone, Copy, PartialEq, Eq, Structural)]
pub enum StreamChannel {
    /// The visible reply, stored as `text/plain`.
    Text,
    /// The thinking text, stored as `text/thinking`.
    Reasoning,
}

/// One step for the caller to carry out.
#[derive(Debug, Clone)]
pub struct StreamAction {
    /// `true`: append `text` to the version as a content chunk of the
    /// channel; `false`: send it to the listener as a chunk event.
    pub persist: bool,
    /// The channel the text belongs to.
    pub channel: StreamChannel,
    /// The text.
    pub text: String,
}

/// An action as plain values: whether it writes, the channel, the text.
pub type ActionView = (bool, StreamChannel, Seq<char>);

/// The plain form of an action.
pub open spec fn action_view(a: StreamAction) -> ActionView {
    (a.persist, a.channel, a.text@)
}

/// The plain form of a list of actions.
pub open spec fn actions_view(v: Seq<StreamAction>) -> Seq<ActionView> {
    v.map_values(|a: StreamAction| action_view(a))
}

/// The text waiting on each channel, and whether each channel has already
/// written a chunk.
#[derive(Debug, Clone)]
pub struct StreamBuffers {
    /// Visible text not written yet.
    pub text: String,
    /// Thinking text not written yet.
    pub reasoning: String,
    /// Whether a visible chunk was written.
    pub text_persisted: bool,
    /// Whether a thinking chunk was written.
    pub reasoning_persisted: bool,
}

/// The buffers as plain values, in the order of the fields.
pub type BuffersView = (Seq<char>, Seq<char>, bool, bool);

impl View for StreamBuffers {
    type V = BuffersView;

    open spec fn view(&self) -> BuffersView {
        (self.text@, self.reasoning@, self.text_persisted, self.reasoning_persisted)
    }
}

/// The buffers of a new generation.
pub open spec fn empty_buffers() -> BuffersView {
    (Seq::empty(), Seq::empty(), false, false)
}

/// The text waiting on a channel.
pub open spec fn pending_on(b: BuffersView, ch: StreamChannel) -> Seq<char> {
    match ch {
        StreamChannel::Text => b.0,
        StreamChannel::Reasoning => b.1,
    }
}

/// The buffers with the text waiting on `ch` replaced by `s`.
pub open spec fn with_pending(b: BuffersView, ch: StreamChannel, s: Seq<char>) -> BuffersView {
    match ch {
        StreamChannel::Text => (s, b.1, b.2, b.3),
        StreamChannel::Reasoning => (b.0, s, b.2, b.3),
    }
}

/// The buffers after a chunk of `ch` was written out.
pub open spec fn written_out(b: BuffersView, ch: StreamChannel) -> BuffersView {
    match ch {
        StreamChannel::Text => (Seq::empty(), b.1, true, b.3),
        StreamChannel::Reasoning => (b.0, Seq::empty(), b.2, true),
    }
}

/// Taking in one piece of a channel: when streaming and not empty it goes to
/// the listener; it joins the text waiting on the channel, and once that
/// text reaches the threshold it is written out as one chunk.
pub open spec fn absorb_piece(b: BuffersView, ch: StreamChannel, piece: Seq<char>, stream: bool) -> (BuffersView, Seq<ActionView>) {
    let emitted: Seq<ActionView> = if stream && piece.len() > 0 {
        seq![(false, ch, piece)]
    } else {
        Seq::empty()
    };
    let waiting = pending_on(b, ch) + piece;
    if byte_len(waiting) >= FLUSH_THRESHOLD_BYTES {
        (written_out(b, ch), emitted.push((true, ch, waiting)))
    } else {
        (with_pending(b, ch, waiting), emitted)
    }
}

/// The length in bytes of `s` in UTF-8, as `str::len` reports it.
pub open spec fn byte_len(s: Seq<char>) -> usize {
    utf8_len(s) as usize
}

/// The channel and the text of a segment.
pub open spec fn segment_piece(seg: TextSegment) -> (StreamChannel, Seq<char>) {
    match seg {
        TextSegment::Normal(t) => (StreamChannel::Text, t@),
        TextSegment::Thinking(t) => (StreamChannel::Reasoning, t@),
    }
}

/// Taking in segments one after the other.
pub open spec fn absorb_segments(b: BuffersView, segs: Seq<TextSegment>, stream: bool) -> (BuffersView, Seq<ActionView>)
    decreases segs.len(),
{
    if segs.len() == 0 {
        (b, Seq::empty())
    } else {
        let before = absorb_segments(b, segs.drop_last(), stream);
        let p = segment_piece(segs.last());
        let step = absorb_piece(before.0, p.0, p.1, stream);
        (step.0, before.1 + step.1)
    }
}

/// Writing out everything that waits: a visible chunk, then a thinking
/// chunk, each only when its channel holds text.
pub open spec fn flush_all(b: BuffersView) -> (BuffersView, Seq<ActionView>) {
    let t: Seq<ActionView> = if b.0.len() > 0 {
        seq![(true, StreamChannel::Text, b.0)]
    } else {
        Seq::empty()
    };
    let r: Seq<ActionView> = if b.1.len() > 0 {
        seq![(true, StreamChannel::Reasoning, b.1)]
    } else {
        Seq::empty()
    };
    ((Seq::empty(), Seq::empty(), b.2 || b.0.len() > 0, b.3 || b.1.len() > 0), t + r)
}

/// The text the actions write out on a channel, in order.
pub open spec fn written_on(acts: Seq<ActionView>, ch: StreamChannel) -> Seq<char>
    decreases acts.len(),
{
    if acts.len() == 0 {
        Seq::empty()
    } else {
        written_on(acts.drop_last(), ch) + if acts.last().0 && acts.last().1 == ch {
            acts.last().2
        } else {
            Seq::empty()
        }
    }
}

/// The text the actions send to the listener on a channel, in order.
pub open spec fn sent_on(acts: Seq<ActionView>, ch: StreamChannel) -> Seq<char>
    decreases acts.len(),
{
    if acts.len() == 0 {
        Seq::empty()
    } else {
        sent_on(acts.drop_last(), ch) + if !acts.last().0 && acts.last().1 == ch {
            acts.last().2
        } else {
            Seq::empty()
        }
    }
}

/// The text of a piece of `ch` as seen on channel `c`.
pub open spec fn on_channel(ch: StreamChannel, piece: Seq<char>, c: StreamChannel) -> Seq<char> {
    if ch == c {
        piece
    } else {
        Seq::empty()
    }
}

/// The text segments carry on a channel.
pub open spec fn segments_on(segs: Seq<TextSegment>, c: StreamChannel) -> Seq<char> {
    match c {
        StreamChannel::Text => segments_split(segs).0,
        StreamChannel::Reasoning => segments_split(segs).1,
    }
}

proof fn lemma_written_sent_append(a: Seq<ActionView>, b: Seq<ActionView>, c: StreamChannel)
    ensures
        written_on(a + b, c) == written_on(a, c) + written_on(b, c),
        sent_on(a + b, c) == sent_on(a, c) + sent_on(b, c),
    decreases b.len(),
{
    if b.len() == 0 {
        assert(a + b =~= a);
        assert(written_on(a, c) + written_on(b, c) =~= written_on(a, c));
        assert(sent_on(a, c) + sent_on(b, c) =~= sent_on(a, c));
    } else {
        lemma_written_sent_append(a, b.drop_last(), c);
        assert((a + b).drop_last() =~= a + b.drop_last());
        assert((a + b).last() == b.last());
        let w = if b.last().0 && b.last().1 == c { b.last().2 } else { Seq::<char>::empty() };
        let t = if !b.last().0 && b.last().1 == c { b.last().2 } else { Seq::<char>::empty() };
        assert(written_on(a, c) + written_on(b.drop_last(), c) + w =~= written_on(a, c) + (written_on(b.drop_last(), c) + w));
        assert(sent_on(a, c) + sent_on(b.drop_last(), c) + t =~= sent_on(a, c) + (sent_on(b.drop_last(), c) + t));
    }
}

proof fn lemma_single(x: ActionView, c: StreamChannel)
    ensures
        written_on(seq![x], c) == (if x.0 && x.1 == c { x.2 } else { Seq::<char>::empty() }),
        sent_on(seq![x], c) == (if !x.0 && x.1 == c { x.2 } else { Seq::<char>::empty() }),
{
    let e = seq![x].drop_last();
    assert(e =~= Seq::<ActionView>::empty());
    assert(e.len() == 0);
    assert(written_on(e, c) == Seq::<char>::empty());
    assert(sent_on(e, c) == Seq::<char>::empty());
    assert(seq![x].last() == x);
    assert(Seq::<char>::empty() + (if x.0 && x.1 == c { x.2 } else { Seq::<char>::empty() }) =~= (if x.0 && x.1 == c { x.2 } else { Seq::<char>::empty() }));
    assert(Seq::<char>::empty() + (if !x.0 && x.1 == c { x.2 } else { Seq::<char>::empty() }) =~= (if !x.0 && x.1 == c { x.2 } else { Seq::<char>::empty() }));
}

/// Taking in a piece loses and repeats nothing: on every channel, the text
/// written out followed by the text still waiting is the text that waited
/// before followed by the piece; when streaming, the listener gets the
/// piece itself on its channel, and otherwise nothing.
pub proof fn law_piece_conserved(b: BuffersView, ch: StreamChannel, piece: Seq<char>, stream: bool, c: StreamChannel)
    ensures
        written_on(absorb_piece(b, ch, piece, stream).1, c) + pending_on(absorb_piece(b, ch, piece, stream).0, c)
            == pending_on(b, c) + on_channel(ch, piece, c),
        sent_on(absorb_piece(b, ch, piece, stream).1, c) == (if stream { on_channel(ch, piece, c) } else { Seq::<char>::empty() }),
{
    let emitted: Seq<ActionView> = if stream && piece.len() > 0 {
        seq![(false, ch, piece)]
    } else {
        Seq::empty()
    };
    let waiting = pending_on(b, ch) + piece;
    lemma_single((false, ch, piece), c);
    lemma_single((true, ch, waiting), c);
    if stream && piece.len() > 0 {
    } else {
        assert(written_on(emitted, c) =~= Seq::<char>::empty());
        assert(sent_on(emitted, c) =~= Seq::<char>::empty());
        assert(piece.len() == 0 ==> piece =~= Seq::<char>::empty());
    }
    if byte_len(waiting) >= FLUSH_THRESHOLD_BYTES {
        lemma_written_sent_append(emitted, seq![(true, ch, waiting)], c);
        assert(emitted.push((true, ch, waiting)) =~= emitted + seq![(true, ch, waiting)]);
    }
    assert(pending_on(b, c) + Seq::<char>::empty() =~= pending_on(b, c));
    assert(Seq::<char>::empty() + pending_on(b, c) =~= pending_on(b, c));
    assert(Seq::<char>::empty() + Seq::<char>::empty() =~= Seq::<char>::empty());
    assert(Seq::<char>::empty() + (pending_on(b, c) + piece) =~= pending_on(b, c) + piece);
    assert(waiting + Seq::<char>::empty() =~= waiting);
}

/// Taking in segments loses and repeats nothing: on every channel, the
/// text written out followed by the text still waiting is the text that
/// waited before followed by the segments' text on that channel; when
/// streaming, the listener gets exactly the segments' text on each channel.
#[verifier::spinoff_prover]
#[verifier::rlimit(30)]
pub proof fn law_segments_conserved(b: BuffersView, segs: Seq<TextSegment>, stream: bool, c: StreamChannel)
    ensures
        written_on(absorb_segments(b, segs, stream).1, c) + pending_on(absorb_segments(b, segs, stream).0, c)
            == pending_on(b, c) + segments_on(segs, c),
        sent_on(absorb_segments(b, segs, stream).1, c) == (if stream { segments_on(segs, c) } else { Seq::<char>::empty() }),
    decreases segs.len(),
{
    if segs.len() == 0 {
        assert(pending_on(b, c) + segments_on(segs, c) =~= pending_on(b, c));
        assert(Seq::<char>::empty() + pending_on(b, c) =~= pending_on(b, c));
        assert(segments_on(segs, c) =~= Seq::<char>::empty());
    } else {
        let before = absorb_segments(b, segs.drop_last(), stream);
        let p = segment_piece(segs.last());
        let step = absorb_piece(before.0, p.0, p.1, stream);
        law_segments_conserved(b, segs.drop_last(), stream, c);
        law_piece_conserved(before.0, p.0, p.1, stream, c);
        lemma_written_sent_append(before.1, step.1, c);
        let seg_text = on_channel(p.0, p.1, c);
        assert(segments_on(segs, c) =~= segments_on(segs.drop_last(), c) + seg_text) by {
            match segs.last() {
                TextSegment::Normal(t) => {},
                TextSegment::Thinking(t) => {},
            }
        }
        assert(written_on(before.1, c) + written_on(step.1, c) + pending_on(step.0, c) =~= written_on(before.1, c)
            + (written_on(step.1, c) + pending_on(step.0, c)));
        assert(written_on(before.1, c) + (pending_on(before.0, c) + seg_text) =~= (written_on(before.1, c)
            + pending_on(before.0, c)) + seg_text);
        assert(pending_on(b, c) + segments_on(segs.drop_last(), c) + seg_text =~= pending_on(b, c) + segments_on(
            segs,
            c,
        ));
        if !stream {
            assert(Seq::<char>::empty() + Seq::<char>::empty() =~= Seq::<char>::empty());
        }
    }
}

/// Writing out empties both channels and writes each one's waiting text
/// whole, and sends nothing to the listener.
pub proof fn law_flush_writes_all(b: BuffersView, c: StreamChannel)
    ensures
        written_on(flush_all(b).1, c) == pending_on(b, c),
        pending_on(flush_all(b).0, c) == Seq::<char>::empty(),
        sent_on(flush_all(b).1, c) == Seq::<char>::empty(),
{
    let t: Seq<ActionView> = if b.0.len() > 0 {
        seq![(true, StreamChannel::Text, b.0)]
    } else {
        Seq::empty()
    };
    let r: Seq<ActionView> = if b.1.len() > 0 {
        seq![(true, StreamChannel::Reasoning, b.1)]
    } else {
        Seq::empty()
    };
    lemma_written_sent_append(t, r, c);
    lemma_single((true, StreamChannel::Text, b.0), c);
    lemma_single((true, StreamChannel::Reasoning, b.1), c);
    assert(b.0.len() == 0 ==> b.0 =~= Seq::<char>::empty());
    assert(b.1.len() == 0 ==> b.1 =~= Seq::<char>::empty());
    assert(written_on(Seq::<ActionView>::empty(), c) =~= Seq::<char>::empty());
    assert(sent_on(Seq::<ActionView>::empty(), c) =~= Seq::<char>::empty());
    assert(Seq::<char>::empty() + Seq::<char>::empty() =~= Seq::<char>::empty());
    assert(b.0 + Seq::<char>::empty() =~= b.0);
    assert(Seq::<char>::empty() + b.1 =~= b.1);
    assert(Seq::<char>::empty() + b.0 =~= b.0);
    assert(b.1 + Seq::<char>::empty() =~= b.1);
}

impl StreamBuffers {
    /// Empty buffers: nothing waits and nothing was written.
    pub fn new() -> (b: Self)
        ensures
            b@ == empty_buffers(),
    {
        StreamBuffers { text: String::new(), reasoning: String::new(), text_persisted: false, reasoning_persisted: false }
    }

    /// Takes in one piece of a channel and adds the resulting actions to `actions`.
    pub fn absorb(&mut self, channel: StreamChannel, piece: String, stream: bool, actions: &mut Vec<StreamAction>)
        ensures
            final(self)@ == absorb_piece(old(self)@, channel, piece@, stream).0,
            actions_view(final(actions)@) == actions_view(old(actions)@) + absorb_piece(
                old(self)@,
                channel,
                piece@,
                stream,
            ).1,
    {
        let ghost b0 = self@;
        let ghost a0 = actions@;
        let ghost spec_result = absorb_piece(b0, channel, piece@, stream);
        if stream && piece.as_str().unicode_len() > 0 {
            actions.push(StreamAction { persist: false, channel, text: piece.clone() });
        }
        let waiting_len = match channel {
            StreamChannel::Text => {
                self.text.append(piece.as_str());
                self.text.as_str().len()
            },
            StreamChannel::Reasoning => {
                self.reasoning.append(piece.as_str());
                self.reasoning.as_str().len()
            },
        };
        assert(waiting_len == byte_len(pending_on(b0, channel) + piece@));
        if waiting_len >= FLUSH_THRESHOLD_BYTES {
            let body = match channel {
                StreamChannel::Text => {
                    let body = self.text.clone();
                    self.text = String::new();
                    self.text_persisted = true;
                    body
                },
                StreamChannel::Reasoning => {
                    let body = self.reasoning.clone();
                    self.reasoning = String::new();
                    self.reasoning_persisted = true;
                    body
                },
            };
            actions.push(StreamAction { persist: true, channel, text: body });
        }
        proof {
            assert(actions_view(actions@) =~= actions_view(a0) + spec_result.1);
        }
    }

    /// Takes in the segments of a chunk of visible text, in order.
    pub fn on_segments(&mut self, segments: Vec<TextSegment>, stream: bool) -> (acts: Vec<StreamAction>)
        ensures
            (final(self)@, actions_view(acts@)) == absorb_segments(old(self)@, segments@, stream),
    {
        let ghost b0 = self@;
        let mut acts: Vec<StreamAction> = Vec::new();
        let mut i: usize = 0;
        assert(segments@.take(0) =~= Seq::<TextSegment>::empty());
        while i < segments.len()
            invariant
                i <= segments@.len(),
                (self@, actions_view(acts@)) == absorb_segments(b0, segments@.take(i as int), stream),
            decreases segments.len() - i,
        {
            assert(segments@.take(i + 1 as int).drop_last() =~= segments@.take(i as int));
            assert(segments@.take(i + 1 as int).last() == segments@[i as int]);
            let (channel, piece) = match &segments[i] {
                TextSegment::Normal(t) => (StreamChannel::Text, t.clone()),
                TextSegment::Thinking(t) => (StreamChannel::Reasoning, t.clone()),
            };
            self.absorb(channel, piece, stream, &mut acts);
            i = i + 1;
        }
        assert(segments@.take(segments@.len() as int) =~= segments@);
        acts
    }

    /// Takes in a chunk of thinking text sent apart from the reply.
    pub fn on_reasoning(&mut self, delta: String, stream: bool) -> (acts: Vec<StreamAction>)
        ensures
            (final(self)@, actions_view(acts@)) == absorb_piece(old(self)@, StreamChannel::Reasoning, delta@, stream),
    {
        let mut acts: Vec<StreamAction> = Vec::new();
        self.absorb(StreamChannel::Reasoning, delta, stream, &mut acts);
        assert(actions_view(Seq::<StreamAction>::empty()) =~= Seq::<ActionView>::empty());
        assert(Seq::<ActionView>::empty() + absorb_piece(old(self)@, StreamChannel::Reasoning, delta@, stream).1
            =~= absorb_piece(old(self)@, StreamChannel::Reasoning, delta@, stream).1);
        acts
    }

    /// Writes out everything that waits, as on the timer, on cancellation
    /// and at the end of the stream.
    pub fn flush(&mut self) -> (acts: Vec<StreamAction>)
        ensures
            (final(self)@, actions_view(acts@)) == flush_all(old(self)@),
    {
        let ghost b0 = self@;
        let mut acts: Vec<StreamAction> = Vec::new();
        if self.text.as_str().unicode_len() > 0 {
            acts.push(StreamAction { persist: true, channel: StreamChannel::Text, text: self.text.clone() });
            self.text = String::new();
            self.text_persisted = true;
        }
        if self.reasoning.as_str().unicode_len() > 0 {
            acts.push(StreamAction { persist: true, channel: StreamChannel::Reasoning, text: self.reasoning.clone() });
            self.reasoning = String::new();
            self.reasoning_persisted = true;
        }
        assert(actions_view(acts@) =~= flush_all(b0).1);
        acts
    }
}

/// The state of one streamed generation: the buffers, and the detector of
/// thinking tags when the channel names any.
#[derive(Debug, Clone)]
pub struct StreamState {
    /// What waits to be written.
    pub buffers: StreamBuffers,
    /// The detector of thinking tags, when the channel names any.
    pub detector: Option<ThinkingTagDetector>,
}

/// The visible text and the thinking text of a segment list, added to the buffers.
pub open spec fn append_split(b: BuffersView, segs: Seq<TextSegment>) -> BuffersView {
    (b.0 + segments_split(segs).0, b.1 + segments_split(segs).1, b.2, b.3)
}

impl StreamState {
    /// The detector of thinking tags, if any.
    pub open spec fn detector_view(&self) -> Option<ThinkingTagDetector> {
        self.detector
    }

    /// The detector, when there is one, keeps its own invariant.
    pub open spec fn wf(&self) -> bool {
        match self.detector_view() {
            Some(d) => d.wf(),
            None => true,
        }
    }

    /// The state at the start of a stream: empty buffers, and a detector
    /// for `thinking_tags` when there is at least one tag.
    pub fn new(thinking_tags: Vec<String>) -> (s: Self)
        requires
            forall|k: int| 0 <= k < thinking_tags@.len() ==> (#[trigger] thinking_tags@[k])@.len() + 2 <= usize::MAX,
        ensures
            s.wf(),
            s.buffers@ == empty_buffers(),
            (s.detector_view() is None) <==> thinking_tags@.len() == 0,
            s.detector_view() matches Some(d) ==> d.tags_view() == crate::services::generation_engine::tag_names(
                thinking_tags@,
            ) && (d.active_view() is None) && d.carry_view() == Seq::<char>::empty(),
    {
        let detector = if thinking_tags.len() == 0 {
            None
        } else {
            Some(ThinkingTagDetector::new(thinking_tags))
        };
        StreamState { buffers: StreamBuffers::new(), detector }
    }

    /// Takes in a chunk of the reply: the detector, if any, divides it into
    /// segments, which the buffers take in one after the other; without a
    /// detector the whole chunk is visible text.
    pub fn on_text(&mut self, delta: &str, stream: bool) -> (acts: Vec<StreamAction>)
        requires
            old(self).wf(),
        ensures
            final(self).wf(),
            old(self).detector_view() is None ==> (final(self).detector_view() is None) && (
            final(self).buffers@, actions_view(acts@)) == absorb_piece(
                old(self).buffers@,
                StreamChannel::Text,
                delta@,
                stream,
            ),
            old(self).detector_view() matches Some(d0) ==> exists|segs: Seq<TextSegment>|
                #![trigger absorb_segments(old(self).buffers@, segs, stream)]
                {
                    &&& final(self).detector_view() matches Some(d1)
                    &&& d1.tags_view() == d0.tags_view()
                    &&& chunking_safe(d0.tags_view()) ==> forall|x: Seq<char>|
                        #[trigger] d0.pending(delta@ + x) == plus(segments_split(segs), d1.pending(x))
                    &&& (final(self).buffers@, actions_view(acts@)) == absorb_segments(
                        old(self).buffers@,
                        segs,
                        stream,
                    )
                },
    {
        let detector = self.detector.take();
        match detector {
            Some(mut d) => {
                let segments = d.feed(delta);
                let ghost segs = segments@;
                self.detector = Some(d);
                let acts = self.buffers.on_segments(segments, stream);
                assert(absorb_segments(old(self).buffers@, segs, stream) == (self.buffers@, actions_view(acts@)));
                acts
            },
            None => {
                let mut acts: Vec<StreamAction> = Vec::new();
                self.buffers.absorb(StreamChannel::Text, String::from_str(delta), stream, &mut acts);
                assert(actions_view(acts@) =~= absorb_piece(old(self).buffers@, StreamChannel::Text, delta@, stream).1);
                acts
            },
        }
    }

    /// Takes in a chunk of thinking text sent apart from the reply.
    pub fn on_reasoning(&mut self, delta: String, stream: bool) -> (acts: Vec<StreamAction>)
        requires
            old(self).wf(),
        ensures
            final(self).wf(),
            final(self).detector_view() == old(self).detector_view(),
            (final(self).buffers@, actions_view(acts@)) == absorb_piece(
                old(self).buffers@,
                StreamChannel::Reasoning,
                delta@,
                stream,
            ),
    {
        self.buffers.on_reasoning(delta, stream)
    }

    /// Writes out everything that waits, on the timer or on cancellation.
    pub fn on_tick(&mut self) -> (acts: Vec<StreamAction>)
        requires
            old(self).wf(),
        ensures
            final(self).wf(),
            final(self).detector_view() == old(self).detector_view(),
            (final(self).buffers@, actions_view(acts@)) == flush_all(old(self).buffers@),
    {
        self.buffers.flush()
    }

    /// The end of the stream: what the detector still holds joins the
    /// buffers, on the channel of the tag that is open, and everything that
    /// waits is written out.
    pub fn on_end(&mut self) -> (acts: Vec<StreamAction>)
        requires
            old(self).wf(),
        ensures
            final(self).wf(),
            (final(self).buffers@, actions_view(acts@)) == flush_all(
                match old(self).detector_view() {
                    Some(d) => match d.active_view() {
                        Some(_) => (old(self).buffers@.0, old(self).buffers@.1 + d.carry_view(), old(self).buffers@.2, old(self).buffers@.3),
                        None => (old(self).buffers@.0 + d.carry_view(), old(self).buffers@.1, old(self).buffers@.2, old(self).buffers@.3),
                    },
                    None => old(self).buffers@,
                },
            ),
    {
        let detector = self.detector.take();
        match detector {
            Some(mut d) => {
                let segments = d.finish();
                self.detector = Some(d);
                let mut i: usize = 0;
                let ghost b0 = self.buffers@;
                assert(segments@.take(0) =~= Seq::<TextSegment>::empty());
                while i < segments.len()
                    invariant
                        i <= segments@.len(),
                        self.wf(),
                        self.buffers@ == append_split(b0, segments@.take(i as int)),
                    decreases segments.len() - i,
                {
                    assert(segments@.take(i + 1 as int).drop_last() =~= segments@.take(i as int));
                    assert(segments@.take(i + 1 as int).last() == segments@[i as int]);
                    match &segments[i] {
                        TextSegment::Normal(t) => self.buffers.text.append(t.as_str()),
                        TextSegment::Thinking(t) => self.buffers.reasoning.append(t.as_str()),
                    }
                    i = i + 1;
                    assert(self.buffers@.0 =~= b0.0 + segments_split(segments@.take(i as int)).0);
                    assert(self.buffers@.1 =~= b0.1 + segments_split(segments@.take(i as int)).1);
                }
                assert(segments@.take(segments@.len() as int) =~= segments@);
                assert(self.buffers@.0 =~= b0.0 + segments_split(segments@).0);
                assert(self.buffers@.1 =~= b0.1 + segments_split(segments@).1);
            },
            None => {},
        }
        self.buffers.flush()
    }
}

/// What a streamed generation receives, in order.
#[derive(Debug, Clone)]
pub enum GenerationInput {
    /// A chunk of the reply.
    Text(String),
    /// A chunk of reasoning the model sends apart from the reply.
    Reasoning(String),
    /// The flush timer fired.
    Tick,
    /// The model reports a failure.
    Failed(String),
    /// The model reports that the reply is incomplete.
    Incomplete(String),
    /// The user cancelled the generation.
    Cancelled,
}

/// How a streamed generation ended.
#[derive(Debug, Clone)]
pub enum GenerationEnd {
    /// The stream ran to its end: whether each channel wrote a chunk.
    Finished { text_persisted: bool, reasoning_persisted: bool },
    /// The user cancelled it; what was waiting has been written.
    Cancelled,
    /// The model failed.
    Failed(AppError),
}

/// A streamed generation: what was done, in order, and how it ended.
#[derive(Debug, Clone)]
pub struct GenerationRun {
    pub actions: Vec<StreamAction>,
    pub end: GenerationEnd,
}

/// Whether an input ends the stream before its end: a failure, an
/// incomplete reply, or a cancellation.
pub open spec fn stops_generation(input: GenerationInput) -> bool {
    input is Failed || input is Incomplete || input is Cancelled
}

/// Where the stream stops early among the inputs: the first that stops it.
pub open spec fn generation_stop(inputs: Seq<GenerationInput>) -> Option<int>
    decreases inputs.len(),
{
    if inputs.len() == 0 {
        None
    } else {
        match generation_stop(inputs.drop_last()) {
            Some(k) => Some(k),
            None => if stops_generation(inputs.last()) {
                Some(inputs.len() - 1)
            } else {
                None
            },
        }
    }
}

/// The text of the reply chunks, one after the other.
pub open spec fn reply_text(inputs: Seq<GenerationInput>) -> Seq<char>
    decreases inputs.len(),
{
    if inputs.len() == 0 {
        Seq::empty()
    } else {
        reply_text(inputs.drop_last()) + match inputs.last() {
            GenerationInput::Text(t) => t@,
            _ => Seq::empty(),
        }
    }
}

/// The visible part of the reply text `text`: all of it without thinking
/// tags, else the text outside them.
pub open spec fn visible_text(tags: Seq<Seq<char>>, text: Seq<char>) -> Seq<char> {
    if tags.len() == 0 {
        text
    } else {
        split_text(tags, None, text).0
    }
}

/// Whether every chunk the actions write holds some text.
pub open spec fn writes_nonempty(acts: Seq<ActionView>) -> bool {
    forall|k: int| 0 <= k < acts.len() && (#[trigger] acts[k]).0 ==> acts[k].2.len() > 0
}

proof fn lemma_piece_writes_nonempty(b: BuffersView, ch: StreamChannel, piece: Seq<char>, stream: bool)
    ensures
        writes_nonempty(absorb_piece(b, ch, piece, stream).1),
{
    let waiting = pending_on(b, ch) + piece;
    if waiting.len() == 0 {
        assert(waiting =~= Seq::<char>::empty());
        assert(vstd::utf8::encode_utf8(waiting).len() == 0);
    }
}

proof fn lemma_nonempty_append(a: Seq<ActionView>, b: Seq<ActionView>)
    requires
        writes_nonempty(a),
        writes_nonempty(b),
    ensures
        writes_nonempty(a + b),
{
    assert forall|k: int| 0 <= k < (a + b).len() && (#[trigger] (a + b)[k]).0 implies (a + b)[k].2.len() > 0 by {
        if k < a.len() {
            assert((a + b)[k] == a[k]);
        } else {
            assert((a + b)[k] == b[k - a.len()]);
        }
    }
}

proof fn lemma_segments_write_nonempty(b: BuffersView, segs: Seq<TextSegment>, stream: bool)
    ensures
        writes_nonempty(absorb_segments(b, segs, stream).1),
    decreases segs.len(),
{
    if segs.len() > 0 {
        let before = absorb_segments(b, segs.drop_last(), stream);
        let p = segment_piece(segs.last());
        lemma_segments_write_nonempty(b, segs.drop_last(), stream);
        lemma_piece_writes_nonempty(before.0, p.0, p.1, stream);
        lemma_nonempty_append(before.1, absorb_piece(before.0, p.0, p.1, stream).1);
    }
}

proof fn lemma_stop_kept_gen(inputs: Seq<GenerationInput>, k: int)
    requires
        0 <= k < inputs.len(),
        generation_stop(inputs.take(k + 1)) == Some(k),
    ensures
        generation_stop(inputs) == Some(k),
    decreases inputs.len() - k,
{
    if inputs.len() == k + 1 {
        assert(inputs.take(k + 1) =~= inputs);
    } else {
        assert(inputs.drop_last().take(k + 1) =~= inputs.take(k + 1));
        lemma_stop_kept_gen(inputs.drop_last(), k);
    }
}

/// Whether `end` is how a stream whose inputs are `inputs` ends: at the
/// first failure or incomplete reply, with that failure; at the first
/// cancellation, cancelled; else finished.
pub open spec fn generation_end_is(inputs: Seq<GenerationInput>, end: GenerationEnd) -> bool {
    match generation_stop(inputs) {
        Some(k) => match inputs[k] {
            GenerationInput::Failed(m) => end matches GenerationEnd::Failed(e) && is_error(
                e,
                ErrorKind::AiRequest,
                "AI_REQUEST_FAILED"@,
                m@,
            ),
            GenerationInput::Incomplete(m) => end matches GenerationEnd::Failed(e) && is_error(
                e,
                ErrorKind::AiRequest,
                "AI_REQUEST_FAILED"@,
                m@,
            ),
            _ => end is Cancelled,
        },
        None => end is Finished,
    }
}

/// Runs a whole streamed generation over its inputs. Every chunk it writes
/// holds some text; when the stream runs to its end, the visible chunks it
/// writes, one after the other, are exactly the visible text of the reply
/// (thinking text and reasoning go to the thinking channel only).
pub fn run_generation_stream(thinking_tags: Vec<String>, stream: bool, inputs: Vec<GenerationInput>) -> (run: GenerationRun)
    requires
        forall|k: int| 0 <= k < thinking_tags@.len() ==> (#[trigger] thinking_tags@[k])@.len() + 2 <= usize::MAX,
    ensures
        generation_end_is(inputs@, run.end),
        writes_nonempty(actions_view(run.actions@)),
        generation_stop(inputs@) is None && (thinking_tags@.len() == 0 || chunking_safe(tag_names(thinking_tags@)))
            ==> written_on(actions_view(run.actions@), StreamChannel::Text) == visible_text(
            tag_names(thinking_tags@),
            reply_text(inputs@),
        ),
{
    let ghost tags = tag_names(thinking_tags@);
    let ghost no_tags = thinking_tags@.len() == 0;
    let ghost all = inputs@;
    let mut state = StreamState::new(thinking_tags);
    let mut actions: Vec<StreamAction> = Vec::new();
    let n = inputs.len();
    let mut rest = inputs;
    let mut i: usize = 0;
    proof {
        assert(all.take(0) =~= Seq::<GenerationInput>::empty());
        assert(actions_view(actions@) =~= Seq::<ActionView>::empty());
        match state.detector_view() {
            Some(d) => {
                assert forall|x: Seq<char>| #[trigger] d.pending(x) == split_text(tags, None, Seq::<char>::empty() + x) by {
                    assert(d.carry_view() + x =~= Seq::<char>::empty() + x);
                }
            },
            None => {},
        }
    }
    while i < n
        invariant
            n == all.len(),
            all == inputs@,
            i <= n,
            rest@ == all.skip(i as int),
            state.wf(),
            (state.detector_view() is None) == no_tags,
            no_tags == (tags.len() == 0),
            tags == tag_names(thinking_tags@),
            state.detector_view() matches Some(d) ==> d.tags_view() == tags,
            generation_stop(all.take(i as int)) is None,
            writes_nonempty(actions_view(actions@)),
            no_tags ==> written_on(actions_view(actions@), StreamChannel::Text) + state.buffers@.0 == reply_text(
                all.take(i as int),
            ),
            state.detector_view() matches Some(d) ==> (chunking_safe(tags) ==> forall|x: Seq<char>|
                #[trigger] d.pending(x) == d.pending(x) && split_text(tags, None, reply_text(all.take(i as int)) + x).0
                    == written_on(actions_view(actions@), StreamChannel::Text) + state.buffers@.0 + d.pending(x).0),
        decreases n - i,
    {
        let ghost before = all.take(i as int);
        let ghost acts0 = actions_view(actions@);
        let ghost b0 = state.buffers@;
        let ghost d0 = state.detector_view();
        let input = rest.remove(0);
        proof {
            assert(input == all[i as int]);
            assert(all.take(i + 1 as int).drop_last() =~= before);
            assert(all.take(i + 1 as int).last() == input);
            assert(rest@ =~= all.skip(i + 1 as int));
        }
        let step = match input {
            GenerationInput::Text(delta) => {
                let ghost dv = delta@;
                let acts = state.on_text(delta.as_str(), stream);
                proof {
                    assert(reply_text(all.take(i + 1 as int)) == reply_text(before) + dv);
                    match d0 {
                        None => {
                            law_piece_conserved(b0, StreamChannel::Text, dv, stream, StreamChannel::Text);
                            lemma_piece_writes_nonempty(b0, StreamChannel::Text, dv, stream);
                            lemma_written_sent_append(acts0, actions_view(acts@), StreamChannel::Text);
                            assert(written_on(acts0, StreamChannel::Text) + written_on(actions_view(acts@), StreamChannel::Text)
                                + state.buffers@.0 =~= written_on(acts0, StreamChannel::Text) + (written_on(
                                actions_view(acts@),
                                StreamChannel::Text,
                            ) + state.buffers@.0));
                            assert(written_on(acts0, StreamChannel::Text) + (b0.0 + dv) =~= (written_on(acts0, StreamChannel::Text)
                                + b0.0) + dv);
                        },
                        Some(dd) => {
                            let segs = choose|segs: Seq<TextSegment>|
                                #![trigger absorb_segments(b0, segs, stream)]
                                {
                                    &&& state.detector_view() matches Some(d1)
                                    &&& d1.tags_view() == dd.tags_view()
                                    &&& chunking_safe(dd.tags_view()) ==> forall|x: Seq<char>|
                                        #[trigger] dd.pending(dv + x) == plus(segments_split(segs), d1.pending(x))
                                    &&& (state.buffers@, actions_view(acts@)) == absorb_segments(b0, segs, stream)
                                };
                            lemma_segments_write_nonempty(b0, segs, stream);
                            if chunking_safe(tags) {
                                let d1 = state.detector_view()->Some_0;
                                law_segments_conserved(b0, segs, stream, StreamChannel::Text);
                                lemma_written_sent_append(acts0, actions_view(acts@), StreamChannel::Text);
                                assert forall|x: Seq<char>| #[trigger] d1.pending(x) == d1.pending(x) && split_text(
                                    tags,
                                    None,
                                    reply_text(all.take(i + 1 as int)) + x,
                                ).0 == written_on(acts0 + actions_view(acts@), StreamChannel::Text) + state.buffers@.0
                                    + d1.pending(x).0 by {
                                    assert(dd.pending(dv + x) == dd.pending(dv + x));
                                    assert(reply_text(before) + dv + x =~= reply_text(before) + (dv + x));
                                    let w0 = written_on(acts0, StreamChannel::Text);
                                    let w1 = written_on(actions_view(acts@), StreamChannel::Text);
                                    assert(w0 + w1 + state.buffers@.0 + d1.pending(x).0 =~= w0 + (w1 + state.buffers@.0)
                                        + d1.pending(x).0);
                                    assert(w0 + (b0.0 + segments_on(segs, StreamChannel::Text)) + d1.pending(x).0
                                        =~= w0 + b0.0 + (segments_split(segs).0 + d1.pending(x).0));
                                }
                            }
                        },
                    }
                }
                acts
            },
            GenerationInput::Reasoning(delta) => {
                let ghost dv = delta@;
                let acts = state.on_reasoning(delta, stream);
                proof {
                    assert(reply_text(all.take(i + 1 as int)) =~= reply_text(before));
                    law_piece_conserved(b0, StreamChannel::Reasoning, dv, stream, StreamChannel::Text);
                    lemma_piece_writes_nonempty(b0, StreamChannel::Reasoning, dv, stream);
                    lemma_written_sent_append(acts0, actions_view(acts@), StreamChannel::Text);
                    let w0 = written_on(acts0, StreamChannel::Text);
                    let w1 = written_on(actions_view(acts@), StreamChannel::Text);
                    assert(w0 + w1 + state.buffers@.0 =~= w0 + (w1 + state.buffers@.0));
                    assert(b0.0 + on_channel(StreamChannel::Reasoning, dv, StreamChannel::Text) =~= b0.0);
                }
                acts
            },
            GenerationInput::Tick => {
                let acts = state.on_tick();
                proof {
                    assert(reply_text(all.take(i + 1 as int)) =~= reply_text(before));
                    law_flush_writes_all(b0, StreamChannel::Text);
                    lemma_written_sent_append(acts0, actions_view(acts@), StreamChannel::Text);
                    let w0 = written_on(acts0, StreamChannel::Text);
                    let w1 = written_on(actions_view(acts@), StreamChannel::Text);
                    assert(w0 + w1 + state.buffers@.0 =~= w0 + b0.0);
                    assert(writes_nonempty(actions_view(acts@))) by {
                        assert(b0.0.len() > 0 || b0.0.len() == 0);
                    }
                }
                acts
            },
            GenerationInput::Failed(message) => {
                proof {
                    assert(generation_stop(all.take(i + 1 as int)) == Some(i as int));
                    lemma_stop_kept_gen(all, i as int);
                }
                return GenerationRun { actions, end: GenerationEnd::Failed(AppError::ai_request_failed(message.as_str())) };
            },
            GenerationInput::Incomplete(message) => {
                proof {
                    assert(generation_stop(all.take(i + 1 as int)) == Some(i as int));
                    lemma_stop_kept_gen(all, i as int);
                }
                return GenerationRun { actions, end: GenerationEnd::Failed(AppError::ai_request_failed(message.as_str())) };
            },
            GenerationInput::Cancelled => {
                let mut acts = state.on_tick();
                proof {
                    assert(generation_stop(all.take(i + 1 as int)) == Some(i as int));
                    lemma_stop_kept_gen(all, i as int);
                    lemma_nonempty_append(acts0, actions_view(acts@));
                }
                let ghost a1 = actions_view(acts@);
                actions.append(&mut acts);
                proof {
                    assert(actions_view(actions@) =~= acts0 + a1);
                }
                return GenerationRun { actions, end: GenerationEnd::Cancelled };
            },
        };
        let mut step = step;
        let ghost a1 = actions_view(step@);
        proof {
            lemma_nonempty_append(acts0, a1);
        }
        actions.append(&mut step);
        proof {
            assert(actions_view(actions@) =~= acts0 + a1);
        }
        i = i + 1;
    }
    proof {
        assert(all.take(n as int) =~= all);
    }
    let ghost acts0 = actions_view(actions@);
    let ghost b0 = state.buffers@;
    let ghost d0 = state.detector_view();
    proof {
        match d0 {
            Some(d) => {
                d.lemma_owed_at_end();
            },
            None => {},
        }
    }
    let mut last = state.on_end();
    let ghost a1 = actions_view(last@);
    proof {
        let b1 = match d0 {
            Some(d) => match d.active_view() {
                Some(_) => (b0.0, b0.1 + d.carry_view(), b0.2, b0.3),
                None => (b0.0 + d.carry_view(), b0.1, b0.2, b0.3),
            },
            None => b0,
        };
        law_flush_writes_all(b1, StreamChannel::Text);
        lemma_written_sent_append(acts0, a1, StreamChannel::Text);
        lemma_nonempty_append(acts0, a1);
        if generation_stop(all) is None && (no_tags || chunking_safe(tags)) {
            match d0 {
                Some(d) => {
                    assert(d.pending(Seq::empty()) == d.pending(Seq::empty()));
                    assert(reply_text(all) + Seq::<char>::empty() =~= reply_text(all));
                    match d.active_view() {
                        Some(_) => {
                            assert(b0.0 + Seq::<char>::empty() =~= b0.0);
                        },
                        None => {
                            assert(written_on(acts0, StreamChannel::Text) + b0.0 + d.carry_view() =~= written_on(
                                acts0,
                                StreamChannel::Text,
                            ) + (b0.0 + d.carry_view()));
                        },
                    }
                },
                None => {},
            }
        }
    }
    actions.append(&mut last);
    proof {
        assert(actions_view(actions@) =~= acts0 + a1);
    }
    GenerationRun {
        actions,
        end: GenerationEnd::Finished {
            text_persisted: state.buffers.text_persisted,
            reasoning_persisted: state.buffers.reasoning_persisted,
        },
    }
}

/// A content chunk to append to the version being generated.
#[derive(Debug, Clone, PartialEq, Eq)]
pub struct ContentChunk {
    pub chunk_index: i64,
    pub channel: StreamChannel,
    pub body: String,
}

/// The chunks that actions write, in order: channel and text.
pub open spec fn written_chunks(acts: Seq<ActionView>) -> Seq<(StreamChannel, Seq<char>)>
    decreases acts.len(),
{
    if acts.len() == 0 {
        Seq::empty()
    } else {
        let before = written_chunks(acts.drop_last());
        if acts.last().0 {
            before.push((acts.last().1, acts.last().2))
        } else {
            before
        }
    }
}

/// The text of the chunks of channel `c`, one after the other.
pub open spec fn chunks_text(chunks: Seq<(StreamChannel, Seq<char>)>, c: StreamChannel) -> Seq<char>
    decreases chunks.len(),
{
    if chunks.len() == 0 {
        Seq::empty()
    } else {
        chunks_text(chunks.drop_last(), c) + if chunks.last().0 == c {
            chunks.last().1
        } else {
            Seq::empty()
        }
    }
}

/// The chunks written on a channel hold, one after the other, exactly the
/// text the actions write on it; and when every write holds text, so does
/// every chunk.
pub proof fn law_chunks_are_the_writes(acts: Seq<ActionView>, c: StreamChannel)
    ensures
        chunks_text(written_chunks(acts), c) == written_on(acts, c),
        writes_nonempty(acts) ==> forall|k: int|
            0 <= k < written_chunks(acts).len() ==> (#[trigger] written_chunks(acts)[k]).1.len() > 0,
    decreases acts.len(),
{
    if acts.len() > 0 {
        law_chunks_are_the_writes(acts.drop_last(), c);
        if writes_nonempty(acts) {
            assert(writes_nonempty(acts.drop_last())) by {
                assert forall|k: int| 0 <= k < acts.drop_last().len() && (#[trigger] acts.drop_last()[k]).0 implies acts.drop_last()[k].2.len() > 0 by {
                    assert(acts.drop_last()[k] == acts[k]);
                }
            }
            assert(acts[acts.len() - 1] == acts.last());
        }
        if acts.last().0 {
            let w = written_chunks(acts.drop_last());
            assert(written_chunks(acts).drop_last() =~= w);
        } else {
            assert(written_on(acts.drop_last(), c) + Seq::<char>::empty() =~= written_on(acts.drop_last(), c));
        }
    }
}

/// Numbers the chunks that `actions` write, from `first_index` on.
pub fn number_chunks(actions: &Vec<StreamAction>, first_index: i64) -> (chunks: Vec<ContentChunk>)
    requires
        0 <= first_index,
        first_index + actions@.len() <= i64::MAX,
    ensures
        chunks@.len() == written_chunks(actions_view(actions@)).len(),
        forall|k: int|
            0 <= k < chunks@.len() ==> (#[trigger] chunks@[k]).chunk_index == first_index + k && (chunks@[k].channel,
            chunks@[k].body@) == written_chunks(actions_view(actions@))[k],
{
    let ghost all = actions_view(actions@);
    let mut chunks: Vec<ContentChunk> = Vec::new();
    let mut next: i64 = first_index;
    let mut i: usize = 0;
    while i < actions.len()
        invariant
            i <= actions@.len(),
            all == actions_view(actions@),
            0 <= first_index,
            first_index + actions@.len() <= i64::MAX,
            chunks@.len() == written_chunks(all.take(i as int)).len(),
            chunks@.len() <= i,
            next == first_index + chunks@.len(),
            forall|k: int|
                0 <= k < chunks@.len() ==> (#[trigger] chunks@[k]).chunk_index == first_index + k && (chunks@[k].channel,
                chunks@[k].body@) == written_chunks(all.take(i as int))[k],
        decreases actions.len() - i,
    {
        let ghost before = written_chunks(all.take(i as int));
        proof {
            assert(all.take(i + 1 as int).drop_last() =~= all.take(i as int));
            assert(all.take(i + 1 as int).last() == all[i as int]);
        }
        if actions[i].persist {
            let ghost prev = chunks@;
            chunks.push(ContentChunk { chunk_index: next, channel: actions[i].channel, body: actions[i].text.clone() });
            proof {
                let after = written_chunks(all.take(i + 1 as int));
                assert forall|k: int| 0 <= k < chunks@.len() implies (#[trigger] chunks@[k]).chunk_index == first_index + k && (
                chunks@[k].channel, chunks@[k].body@) == after[k] by {
                    if k < prev.len() {
                        assert(chunks@[k] == prev[k]);
                    }
                }
            }
            next = next + 1;
        }
        i = i + 1;
    }
    proof {
        assert(all.take(actions@.len() as int) =~= all);
    }
    chunks
}

/// What is done with a finished reply.
#[derive(Debug, Clone)]
pub enum CompletionPlan {
    /// Nothing visible came and nothing visible was written: the empty
    /// version is taken back.
    RollbackEmpty,
    /// The version is committed, after the chunks given here are appended.
    Commit {
        /// Visible text still to append.
        text_chunk: Option<String>,
        /// Thinking text still to append.
        thinking_chunk: Option<String>,
    },
}

/// The chunk a channel still has to write at the end: its text, unless the
/// channel already wrote a chunk while streaming or the text is empty.
pub open spec fn chunk_to_write(s: Seq<char>, persisted: bool) -> Option<Seq<char>> {
    if !persisted && s.len() > 0 {
        Some(s)
    } else {
        None
    }
}

/// Whether `p` is the plan for a reply divided into `split` (visible text,
/// thinking text), given what the channels wrote while streaming.
pub open spec fn is_completion_plan(p: CompletionPlan, split: (Seq<char>, Seq<char>), text_persisted: bool, reasoning_persisted: bool) -> bool {
    &&& (p is RollbackEmpty) <==> (is_blank_seq(split.0) && !text_persisted)
    &&& p matches CompletionPlan::Commit { text_chunk, thinking_chunk } ==> {
        &&& opt_view(text_chunk) == chunk_to_write(split.0, text_persisted)
        &&& opt_view(thinking_chunk) == chunk_to_write(split.1, reasoning_persisted)
    }
}

/// The plan for a reply already divided into its visible and thinking text.
pub fn plan_commit(visible: String, thinking: String, text_persisted: bool, reasoning_persisted: bool) -> (p: CompletionPlan)
    ensures
        is_completion_plan(p, (visible@, thinking@), text_persisted, reasoning_persisted),
{
    if is_blank(visible.as_str()) && !text_persisted {
        return CompletionPlan::RollbackEmpty;
    }
    let text_chunk = if !text_persisted && visible.as_str().unicode_len() > 0 {
        Some(visible)
    } else {
        None
    };
    let thinking_chunk = if !reasoning_persisted && thinking.as_str().unicode_len() > 0 {
        Some(thinking)
    } else {
        None
    };
    CompletionPlan::Commit { text_chunk, thinking_chunk }
}

/// The plan for the complete text of a reply: the thinking text wrapped in
/// `thinking_tags` is taken apart from the visible text first.
pub fn plan_completion(text: &str, thinking_tags: &[String], text_persisted: bool, reasoning_persisted: bool) -> (p: CompletionPlan)
    requires
        forall|k: int| 0 <= k < thinking_tags@.len() ==> (#[trigger] thinking_tags@[k])@.len() + 2 <= usize::MAX,
    ensures
        is_completion_plan(
            p,
            split_text(tag_names(thinking_tags@), None, text@),
            text_persisted,
            reasoning_persisted,
        ),
        thinking_tags@.len() == 0 ==> is_completion_plan(p, (text@, Seq::empty()), text_persisted, reasoning_persisted),
{
    let (visible, thinking) = split_thinking_from_text(text, thinking_tags);
    plan_commit(visible, thinking, text_persisted, reasoning_persisted)
}

/// What taking back an empty version does.
#[derive(Debug, Clone, PartialEq, Eq)]
pub struct EmptyRollbackPlan {
    /// Whether the node goes too, for want of another version.
    pub node_deleted: bool,
    /// Whether the node's active version is set to the fallback.
    pub restore_active: bool,
    /// The version shown after.
    pub fallback_version_id: Option<String>,
}

/// What taking back the empty version `version_id` of `node`, whose versions
/// are `versions`, does: without another version the node goes; otherwise
/// the version goes, and when it was the active one the last other version
/// becomes active.
pub fn plan_empty_rollback(node: &MessageNodeRecord, version_id: &str, versions: &[VersionMeta]) -> (p: EmptyRollbackPlan)
    ensures
        p.node_deleted == (fallback_after_delete(Some(version_id@), version_id@, versions@) is None),
        p.node_deleted ==> (p.fallback_version_id is None) && !p.restore_active,
        !p.node_deleted ==> p.restore_active == (opt_view(node.active_version_id) == Some(version_id@))
            && opt_view(p.fallback_version_id) == fallback_after_delete(
            opt_view(node.active_version_id),
            version_id@,
            versions@,
        ),
{
    let other = last_other_version(versions, version_id);
    match other {
        None => EmptyRollbackPlan { node_deleted: true, restore_active: false, fallback_version_id: None },
        Some(fallback) => {
            let active_is_empty = match &node.active_version_id {
                Some(a) => str_eq(a.as_str(), version_id),
                None => false,
            };
            if active_is_empty {
                EmptyRollbackPlan { node_deleted: false, restore_active: true, fallback_version_id: Some(fallback) }
            } else {
                EmptyRollbackPlan {
                    node_deleted: false,
                    restore_active: false,
                    fallback_version_id: node.active_version_id.clone(),
                }
            }
        },
    }
}

/// What cancelling the generation of a version does when no task of this
/// process runs for it: a version still marked as generating is marked
/// cancelled; a missing or finished version is left alone.
pub fn needs_cancel_mark(version: Option<&VersionMeta>) -> (r: bool)
    ensures
        r == (version matches Some(v) && v.status@ == "generating"@),
{
    match version {
        Some(v) => str_eq(v.status.as_str(), "generating"),
        None => false,
    }
}


/// Whether `p` is the change that marks a version cancelled: its status
/// and its finish reason become `cancelled`, nothing else changes.
pub open spec fn is_cancel_patch(p: MessageVersionPatch) -> bool {
    &&& opt_view(p.status) == Some("cancelled"@)
    &&& p.finish_reason matches Some(Some(f)) && f@ == "cancelled"@
    &&& p.prompt_tokens is None
    &&& p.completion_tokens is None
    &&& p.model_name is None
}

/// The status a version has after `p` is applied to it.
pub open spec fn patched_status(status: Seq<char>, p: MessageVersionPatch) -> Seq<char> {
    match p.status {
        Some(s) => s@,
        None => status,
    }
}

/// The change that marks the version of a stream stopped by the user as
/// cancelled, with `cancelled` as its finish reason.
pub fn cancel_patch() -> (p: MessageVersionPatch)
    ensures
        is_cancel_patch(p),
{
    MessageVersionPatch {
        status: Some(String::from_str("cancelled")),
        prompt_tokens: None,
        completion_tokens: None,
        finish_reason: Some(Some(String::from_str("cancelled"))),
        model_name: None,
    }
}

/// Marking a cancelled stream's version twice is marking it once: a version
/// marked cancelled no longer needs a cancel mark, and marking it again
/// leaves its status.
pub proof fn law_cancel_idempotent(status: Seq<char>, p: MessageVersionPatch)
    requires
        is_cancel_patch(p),
    ensures
        patched_status(status, p) != "generating"@,
        patched_status(patched_status(status, p), p) == patched_status(status, p),
{
    reveal_strlit("cancelled");
    reveal_strlit("generating");
    assert("cancelled"@.len() != "generating"@.len());
}

/// Whether `p` is the change that cancelling a generation makes to a
/// version no task runs for: its status becomes `cancelled`, nothing else
/// changes.
pub open spec fn is_cancel_status_patch(p: MessageVersionPatch) -> bool {
    &&& opt_view(p.status) == Some("cancelled"@)
    &&& p.finish_reason is None
    &&& p.prompt_tokens is None
    &&& p.completion_tokens is None
    &&& p.model_name is None
}

/// The change that marks a version no task runs for as cancelled.
pub fn cancel_status_patch() -> (p: MessageVersionPatch)
    ensures
        is_cancel_status_patch(p),
{
    MessageVersionPatch {
        status: Some(String::from_str("cancelled")),
        prompt_tokens: None,
        completion_tokens: None,
        finish_reason: None,
        model_name: None,
    }
}

/// What cancelling the generation of a version does.
#[derive(Debug, Clone)]
pub struct CancelPlan {
    /// Whether the task that runs the generation is told to stop.
    pub signal_task: bool,
    /// The change to write to the version, with the conversation touched.
    pub patch: Option<MessageVersionPatch>,
}

/// The status of a version after a cancel: a version no task runs for that
/// is still generating becomes cancelled; any other is left as it was.
pub open spec fn cancel_effect(task_running: bool, status: Option<Seq<char>>) -> Option<Seq<char>> {
    if !task_running && status == Some("generating"@) {
        Some("cancelled"@)
    } else {
        status
    }
}

/// The status of a version, if any, after `patch`, if any, is written to it.
pub open spec fn status_after(status: Option<Seq<char>>, patch: Option<MessageVersionPatch>) -> Option<Seq<char>> {
    match (status, patch) {
        (Some(s), Some(p)) => Some(patched_status(s, p)),
        _ => status,
    }
}

/// Cancelling the generation of a version: when a task of this process runs
/// it, the task is told to stop and nothing is written; otherwise a version
/// still marked as generating gets its status set to cancelled (and its
/// conversation touched), and a missing or finished version is left alone.
pub fn plan_cancel(task_running: bool, version: Option<&VersionMeta>) -> (r: CancelPlan)
    ensures
        r.signal_task == task_running,
        (r.patch is Some) == (!task_running && (version matches Some(v) && v.status@ == "generating"@)),
        r.patch matches Some(p) ==> is_cancel_status_patch(p),
        status_after(
            match version {
                Some(v) => Some(v.status@),
                None => None,
            },
            r.patch,
        ) == cancel_effect(
            task_running,
            match version {
                Some(v) => Some(v.status@),
                None => None,
            },
        ),
{
    if task_running {
        return CancelPlan { signal_task: true, patch: None };
    }
    if needs_cancel_mark(version) {
        proof {
            reveal_strlit("cancelled");
        }
        CancelPlan { signal_task: false, patch: Some(cancel_status_patch()) }
    } else {
        CancelPlan { signal_task: false, patch: None }
    }
}

/// Cancelling twice is cancelling once: once a cancel found no task to
/// stop, the version is no longer generating, and a second cancel, whether
/// or not it finds a task, leaves its status as the first left it; a cancel
/// that stops a task writes nothing.
pub proof fn law_cancel_twice(status: Option<Seq<char>>, second_task_running: bool)
    ensures
        cancel_effect(false, status) != Some("generating"@),
        cancel_effect(second_task_running, cancel_effect(false, status)) == cancel_effect(false, status),
        cancel_effect(true, status) == status,
{
    reveal_strlit("cancelled");
    reveal_strlit("generating");
    assert("cancelled"@.len() != "generating"@.len());
}

/// How a finished reply is committed: the change to its version (committed,
/// with the counts, the reason and the model of the reply), and the event
/// sent once the change is stored.
#[derive(Debug, Clone)]
pub struct VersionCommit {
    pub patch: MessageVersionPatch,
    pub completed: GenerationEvent,
}

/// The commit of the version `version_id` of the node `node_id` with the
/// reply's counts, reason and model.
pub fn plan_version_commit(
    conversation_id: &str,
    node_id: &str,
    version_id: &str,
    prompt_tokens: i64,
    completion_tokens: i64,
    finish_reason: &str,
    model: &str,
) -> (c: VersionCommit)
    ensures
        opt_view(c.patch.status) == Some("committed"@),
        c.patch.prompt_tokens == Some(Some(prompt_tokens)),
        c.patch.completion_tokens == Some(Some(completion_tokens)),
        c.patch.finish_reason matches Some(Some(f)) && f@ == finish_reason@,
        c.patch.model_name matches Some(Some(m)) && m@ == model@,
        c.completed matches GenerationEvent::Completed {
            conversation_id: cid,
            node_id: nid,
            version_id: vid,
            prompt_tokens: p,
            completion_tokens: k,
            finish_reason: f,
            model: m,
        } && cid@ == conversation_id@ && nid@ == node_id@ && vid@ == version_id@ && p == prompt_tokens
            && k == completion_tokens && f@ == finish_reason@ && m@ == model@,
{
    VersionCommit {
        patch: MessageVersionPatch {
            status: Some(String::from_str("committed")),
            prompt_tokens: Some(Some(prompt_tokens)),
            completion_tokens: Some(Some(completion_tokens)),
            finish_reason: Some(Some(String::from_str(finish_reason))),
            model_name: Some(Some(String::from_str(model))),
        },
        completed: GenerationEvent::Completed {
            conversation_id: String::from_str(conversation_id),
            node_id: String::from_str(node_id),
            version_id: String::from_str(version_id),
            prompt_tokens,
            completion_tokens,
            finish_reason: String::from_str(finish_reason),
            model: String::from_str(model),
        },
    }
}

/// The event once the change was tried: the completed event when the
/// version was there and changed; none when it was gone (the change is
/// then rolled back).
pub fn event_after_commit(updated: bool, commit: VersionCommit) -> (r: Option<GenerationEvent>)
    ensures
        updated ==> r == Some(commit.completed),
        !updated ==> r is None,
{
    if updated {
        Some(commit.completed)
    } else {
        None
    }
}

} // verus!
