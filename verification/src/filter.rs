//! The normalization filter itself: a buffer of characters, a flag that
//! records whether the buffered run needs Unicode canonical composition, and
//! the flush that delivers the run to the wrapped sink before any control
//! operation may pass.

use crate::events::{ControlOp, Event};
use crate::sink::EventSink;
use unicode_normalization::UnicodeNormalization;
use vstd::prelude::*;

verus! {

broadcast use vstd::seq::group_seq_axioms;

/// What `unicode_normalization::char::is_combining_mark` returns for `c`:
/// whether `c` is a combining mark (general categories Mn, Mc, Me). The
/// result depends on the character alone.
pub uninterp spec fn is_combining(c: char) -> bool;

/// What Unicode Normalization Form C (canonical composition) makes of the
/// character sequence `s`, as unicode_normalization's `nfc` iterator computes
/// it. The result depends on the characters alone.
pub uninterp spec fn nfc_of(s: Seq<char>) -> Seq<char>;

/// Whether `c` lies in one of the three Hangul Jamo blocks: modern jamo,
/// jamo extended-A, jamo extended-B.
pub open spec fn is_jamo(c: char) -> bool {
    (0x1100 <= c as u32 && c as u32 <= 0x11FF) || (0xA960 <= c as u32 && c as u32 <= 0xA97F)
        || (0xD7B0 <= c as u32 && c as u32 <= 0xD7FF)
}

/// Whether accepting `c` marks the buffered run as needing composition:
/// `c` is a combining mark or a Hangul Jamo code point.
pub open spec fn triggers_normalization(c: char) -> bool {
    is_combining(c) || is_jamo(c)
}

/// Whether the run `s` contains a character that triggers composition.
pub open spec fn needs_composition(s: Seq<char>) -> bool {
    exists|i: int| 0 <= i < s.len() && triggers_normalization(s[i])
}

/// The event delivering one literal character.
pub open spec fn character_event(c: char) -> Event {
    Event::Character(c)
}

/// The characters of `s` as character events, in order.
pub open spec fn character_events(s: Seq<char>) -> Seq<Event>
    decreases s.len(),
{
    if s.len() == 0 {
        Seq::<Event>::empty()
    } else {
        character_events(s.drop_last()).push(character_event(s.last()))
    }
}

/// What one flush of the buffered run `s` delivers to the sink: nothing for
/// an empty buffer; `NFC(s)` character by character when the run was marked
/// as needing composition; `s` unchanged otherwise.
pub open spec fn delivery(s: Seq<char>, normalize: bool) -> Seq<Event> {
    if s.len() == 0 {
        Seq::<Event>::empty()
    } else if normalize {
        character_events(nfc_of(s))
    } else {
        character_events(s)
    }
}

/// Identity: a run without a combining mark or Hangul Jamo is never marked,
/// and is delivered unchanged, in its original order.
pub proof fn lemma_identity_delivery(s: Seq<char>)
    requires
        forall|i: int| 0 <= i < s.len() ==> !triggers_normalization(s[i]),
    ensures
        !needs_composition(s),
        delivery(s, needs_composition(s)) == character_events(s),
{
    if s.len() == 0 {
        assert(character_events(s) == Seq::<Event>::empty());
    }
}

/// Composition: a run containing at least one combining mark or Jamo is
/// delivered as NFC of the entire run, character by character, in composed
/// order.
pub proof fn lemma_composition_delivery(s: Seq<char>)
    requires
        needs_composition(s),
    ensures
        delivery(s, needs_composition(s)) == character_events(nfc_of(s)),
{
    let i = choose|i: int| 0 <= i < s.len() && triggers_normalization(s[i]);
    assert(s.len() > 0);
}

/// Empty flush: flushing an empty buffer delivers nothing, whatever the
/// mark; the sink's observations do not change.
pub proof fn lemma_empty_flush(events: Seq<Event>, normalize: bool)
    ensures
        events + delivery(Seq::<char>::empty(), normalize) == events,
{
    assert(events + delivery(Seq::<char>::empty(), normalize) =~= events);
}

/// Idempotence: a flush right after a flush - whose buffer is then empty and
/// whose mark is then clear - delivers nothing further: the two flushes
/// together dispatch exactly once.
pub proof fn lemma_flush_idempotent(events: Seq<Event>, s: Seq<char>, normalize: bool)
    ensures
        (events + delivery(s, normalize)) + delivery(Seq::<char>::empty(), false) == events
            + delivery(s, normalize),
{
    assert((events + delivery(s, normalize)) + delivery(Seq::<char>::empty(), false) =~= events
        + delivery(s, normalize));
}

/// The mark tracks the run: an empty run needs no composition, and after one
/// more character the run needs composition exactly if it already did or the
/// new character triggers it. So the filter's mark, which starts clear and
/// takes in each accepted character, equals `needs_composition` of its
/// pending run.
pub proof fn lemma_mark_tracks_run(s: Seq<char>, c: char)
    ensures
        !needs_composition(Seq::<char>::empty()),
        needs_composition(s.push(c)) == (needs_composition(s) || triggers_normalization(c)),
{
    if needs_composition(s) {
        let i = choose|i: int| 0 <= i < s.len() && triggers_normalization(s[i]);
        assert(s.push(c)[i] == s[i]);
        assert(needs_composition(s.push(c)));
    }
    if triggers_normalization(c) {
        assert(s.push(c)[s.len() as int] == c);
        assert(needs_composition(s.push(c)));
    }
    if needs_composition(s.push(c)) {
        let i = choose|i: int|
            0 <= i < s.push(c).len() && triggers_normalization(s.push(c)[i]);
        if i < s.len() {
            assert(s[i] == s.push(c)[i]);
            assert(needs_composition(s));
        } else {
            assert(s.push(c)[i] == c);
        }
    }
}

/// Mapping one more character of a prefix to events appends one character
/// event.
proof fn lemma_character_events_take_succ(s: Seq<char>, i: int)
    requires
        0 <= i < s.len(),
    ensures
        character_events(s.take(i + 1)) == character_events(s.take(i)).push(
            character_event(s[i]),
        ),
{
    assert(s.take(i + 1).drop_last() =~= s.take(i));
    assert(s.take(i + 1).last() == s[i]);
}

/// Pushing onto the right part of a concatenation pushes onto the whole.
proof fn lemma_concat_push<A>(a: Seq<A>, b: Seq<A>, x: A)
    ensures
        a + b.push(x) == (a + b).push(x),
{
    assert(a + b.push(x) =~= (a + b).push(x));
}

/// Relies on `unicode_normalization::char::is_combining_mark`: returns
/// whether `c` is a combining mark; a pure function of `c`.
#[verifier::external_body]
fn combining_mark(c: char) -> (r: bool)
    ensures
        r == is_combining(c),
{
    unicode_normalization::char::is_combining_mark(c)
}

/// Relies on unicode_normalization's `nfc` iterator (the
/// `UnicodeNormalization` impl for iterators of `char`): returns the
/// canonical composition of the characters of `buf`; a pure function of them.
#[verifier::external_body]
fn compose_nfc(buf: &Vec<char>) -> (r: Vec<char>)
    ensures
        r@ == nfc_of(buf@),
{
    buf.iter().cloned().nfc().collect()
}

/// Whether `c` lies in one of the three Hangul Jamo blocks.
pub fn is_hangul_jamo(c: char) -> (r: bool)
    ensures
        r == is_jamo(c),
{
    let u: u32 = c as u32;
    (0x1100 <= u && u <= 0x11FF) || (0xA960 <= u && u <= 0xA97F) || (0xD7B0 <= u && u <= 0xD7FF)
}

/// The normalization filter: buffers characters, remembers whether the run
/// needs composition, and delivers the run - composed if so - to the wrapped
/// sink before any control operation.
pub struct NormalizationHandler<T> {
    term: T,
    buffer: Vec<char>,
    needs_normalization: bool,
}

impl<T: EventSink> NormalizationHandler<T> {
    /// The characters accepted since the last flush, in arrival order.
    pub closed spec fn pending(self) -> Seq<char> {
        self.buffer@
    }

    /// Whether the current run was marked as needing composition.
    pub closed spec fn marked(self) -> bool {
        self.needs_normalization
    }

    /// The events the wrapped sink has observed.
    pub closed spec fn delivered(self) -> Seq<Event> {
        self.term.events()
    }

    /// The state change of accepting a control operation: the pending run is
    /// delivered first, then the operation itself, and the buffer is empty
    /// and unmarked afterwards.
    pub open spec fn controlled(pre: Self, post: Self, op: ControlOp) -> bool {
        &&& post.pending() == Seq::<char>::empty()
        &&& !post.marked()
        &&& post.delivered() == (pre.delivered() + delivery(pre.pending(), pre.marked())).push(
            Event::Control(op),
        )
    }

    /// A fresh filter around `term`: empty buffer, unmarked, nothing
    /// delivered beyond what `term` had already observed.
    pub fn new(term: T) -> (h: Self)
        ensures
            h.pending() == Seq::<char>::empty(),
            !h.marked(),
            h.delivered() == term.events(),
    {
        NormalizationHandler { term, buffer: Vec::new(), needs_normalization: false }
    }

    /// The wrapped sink.
    pub fn term(&self) -> (t: &T)
        ensures
            t.events() == self.delivered(),
    {
        &self.term
    }

    /// The wrapped sink, for mutation; buffer and mark are untouched, and
    /// what the filter has delivered afterwards is whatever the caller left
    /// the sink observing.
    pub fn term_mut(&mut self) -> (t: &mut T)
        ensures
            (*t).events() == old(self).delivered(),
            final(self).pending() == old(self).pending(),
            final(self).marked() == old(self).marked(),
            final(self).delivered() == final(t).events(),
    {
        &mut self.term
    }

    /// Accept one literal character: append it to the buffered run and mark
    /// the run if the character triggers composition. Nothing reaches the
    /// sink.
    pub fn input(&mut self, c: char)
        ensures
            final(self).pending() == old(self).pending().push(c),
            final(self).marked() == (old(self).marked() || triggers_normalization(c)),
            final(self).delivered() == old(self).delivered(),
    {
        self.buffer.push(c);
        self.mark_if_needs_normalization(c);
    }

    /// Set the flag if `c` triggers composition; once set it stays set.
    fn mark_if_needs_normalization(&mut self, c: char)
        ensures
            final(self).needs_normalization == (old(self).needs_normalization
                || triggers_normalization(c)),
            final(self).buffer@ == old(self).buffer@,
            final(self).term == old(self).term,
    {
        if self.needs_normalization {
            return ;
        }
        if combining_mark(c) || is_hangul_jamo(c) {
            self.needs_normalization = true;
        }
    }

    /// Deliver the buffered run to the sink - composed as one whole if the
    /// run was marked - then clear buffer and mark. A flush with an empty
    /// buffer delivers nothing.
    pub fn flush(&mut self)
        ensures
            final(self).pending() == Seq::<char>::empty(),
            !final(self).marked(),
            final(self).delivered() == old(self).delivered() + delivery(
                old(self).pending(),
                old(self).marked(),
            ),
    {
        if self.buffer.len() == 0 {
            self.needs_normalization = false;
            proof {
                assert(self.buffer@ =~= Seq::<char>::empty());
                assert(old(self).delivered() + delivery(old(self).pending(), old(self).marked())
                    =~= old(self).delivered());
            }
            return ;
        }
        if self.needs_normalization {
            let out = compose_nfc(&self.buffer);
            let n = out.len();
            let mut i: usize = 0;
            proof {
                assert(old(self).term.events() + character_events(out@.take(0)) =~= old(
                    self,
                ).term.events());
            }
            while i < n
                invariant
                    i <= n,
                    n == out.len(),
                    out@ == nfc_of(old(self).buffer@),
                    self.buffer@ == old(self).buffer@,
                    self.needs_normalization == old(self).needs_normalization,
                    self.term.events() == old(self).term.events() + character_events(
                        out@.take(i as int),
                    ),
                decreases n - i,
            {
                let c = out[i];
                proof {
                    lemma_character_events_take_succ(out@, i as int);
                    lemma_concat_push(
                        old(self).term.events(),
                        character_events(out@.take(i as int)),
                        character_event(out@[i as int]),
                    );
                    assert(character_event(out@[i as int]) == Event::Character(c));
                }
                self.term.accept_character(c);
                i += 1;
            }
            proof {
                assert(out@.take(n as int) =~= out@);
                assert(delivery(old(self).pending(), old(self).marked()) == character_events(out@));
            }
        } else {
            let n = self.buffer.len();
            let mut i: usize = 0;
            proof {
                assert(old(self).term.events() + character_events(self.buffer@.take(0)) =~= old(
                    self,
                ).term.events());
            }
            while i < n
                invariant
                    i <= n,
                    n == self.buffer.len(),
                    self.buffer@ == old(self).buffer@,
                    self.needs_normalization == old(self).needs_normalization,
                    self.term.events() == old(self).term.events() + character_events(
                        self.buffer@.take(i as int),
                    ),
                decreases n - i,
            {
                let c = self.buffer[i];
                proof {
                    lemma_character_events_take_succ(self.buffer@, i as int);
                    lemma_concat_push(
                        old(self).term.events(),
                        character_events(self.buffer@.take(i as int)),
                        character_event(self.buffer@[i as int]),
                    );
                    assert(character_event(self.buffer@[i as int]) == Event::Character(c));
                }
                self.term.accept_character(c);
                i += 1;
            }
            proof {
                assert(self.buffer@.take(n as int) =~= self.buffer@);
                assert(delivery(old(self).pending(), old(self).marked()) == character_events(
                    old(self).buffer@,
                ));
            }
        }
        self.buffer.clear();
        self.needs_normalization = false;
    }

    /// Accept one control operation: flush the buffered run first, then
    /// forward the operation with its arguments unmodified.
    pub fn accept_control_operation(&mut self, op: ControlOp)
        ensures
            Self::controlled(*old(self), *final(self), op),
    {
        self.flush();
        self.term.accept_control_operation(op);
    }
}

} // verus!
