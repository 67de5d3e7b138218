//! The mathematical model of one conversational turn.
//!
//! A turn is described by two sequences, both functions of the user's text
//! and of the fragments the backend streamed back, in arrival order:
//!
//! * [`turn_additions`] — the messages the turn appends to the transcript;
//! * [`turn_effects`] — every externally observable step of the turn
//!   (listener notifications, store appends, output items handed to the
//!   caller), in the order the orchestrator performs them.
//!
//! The orchestrator's executable functions promise, in their contracts, to
//! grow the transcript by exactly [`turn_additions`] and to emit exactly the
//! output items of [`turn_effects`]; the proof functions at the end of this
//! module state the ordering laws of the model itself.

use vstd::prelude::*;

use crate::llm_core::{MessageView, ToolCallView};

verus! {

/// One lifecycle notification, fanned out to every event listener in list
/// order.
pub enum EventView {
    StreamStart,
    UserMessage(Seq<char>),
    AssistantMessage(Seq<char>),
    ToolCall(ToolCallView),
    StreamEnd,
}

/// One externally observable step of a turn: a notification to the
/// listeners, an append handed to the store, or an output item handed to
/// the caller.
pub enum EffectView {
    Notify(EventView),
    Persist(MessageView),
    Emit(MessageView),
}

/// The output items a single fragment contributes: assistant text and tool
/// calls pass through normalized, a user-shaped fragment is silently
/// discarded.
pub open spec fn frag_outputs(f: MessageView) -> Seq<MessageView> {
    match f {
        MessageView::Assistant(t) => seq![MessageView::Assistant(t)],
        MessageView::Tool(tc) => seq![MessageView::Tool(tc)],
        MessageView::User(_) => Seq::empty(),
    }
}

/// The output items of a whole fragment sequence, in arrival order.
pub open spec fn outputs_of(frags: Seq<MessageView>) -> Seq<MessageView>
    decreases frags.len(),
{
    if frags.len() == 0 {
        Seq::empty()
    } else {
        frag_outputs(frags.first()) + outputs_of(frags.drop_first())
    }
}

/// The transcript entries a single fragment contributes while the stream is
/// still running: only a tool call is appended immediately.
pub open spec fn frag_tool_additions(f: MessageView) -> Seq<MessageView> {
    match f {
        MessageView::Tool(tc) => seq![MessageView::Tool(tc)],
        _ => Seq::empty(),
    }
}

/// The tool calls a fragment sequence appends to the transcript, in arrival
/// order.
pub open spec fn tool_additions(frags: Seq<MessageView>) -> Seq<MessageView>
    decreases frags.len(),
{
    if frags.len() == 0 {
        Seq::empty()
    } else {
        frag_tool_additions(frags.first()) + tool_additions(frags.drop_first())
    }
}

/// The assistant text a single fragment contributes to the in-progress
/// accumulator.
pub open spec fn frag_text(f: MessageView) -> Seq<char> {
    match f {
        MessageView::Assistant(t) => t,
        _ => Seq::empty(),
    }
}

/// The assistant-text accumulator after the whole stream: the concatenation
/// of every assistant fragment, in arrival order.
pub open spec fn assistant_acc(frags: Seq<MessageView>) -> Seq<char>
    decreases frags.len(),
{
    if frags.len() == 0 {
        Seq::empty()
    } else {
        frag_text(frags.first()) + assistant_acc(frags.drop_first())
    }
}

/// The messages a turn appends to the transcript, in order: the user's
/// message first, then each tool call as it arrived, and finally — only when
/// some assistant text arrived — one assistant message holding the whole
/// accumulated text.
pub open spec fn turn_additions(u: Seq<char>, frags: Seq<MessageView>) -> Seq<MessageView> {
    seq![MessageView::User(u)] + tool_additions(frags) + (if assistant_acc(frags).len() > 0 {
        seq![MessageView::Assistant(assistant_acc(frags))]
    } else {
        Seq::empty()
    })
}

/// The messages the streaming phase of a turn appends to the transcript:
/// each tool call as it arrived, then — only when some assistant text
/// arrived — the one coalesced assistant message. The user's message is
/// appended before the stream opens; see [`turn_additions`].
pub open spec fn stream_additions(frags: Seq<MessageView>) -> Seq<MessageView> {
    tool_additions(frags) + (if assistant_acc(frags).len() > 0 {
        seq![MessageView::Assistant(assistant_acc(frags))]
    } else {
        Seq::empty()
    })
}

/// The observable steps taken before the backend stream is opened: the
/// stream-start and user-message notifications, then the store append of the
/// user's message.
pub open spec fn prelude_effects(u: Seq<char>) -> Seq<EffectView> {
    seq![
        EffectView::Notify(EventView::StreamStart),
        EffectView::Notify(EventView::UserMessage(u)),
        EffectView::Persist(MessageView::User(u)),
    ]
}

/// The observable steps one fragment triggers. Assistant text is notified
/// and emitted but not yet persisted; a tool call is notified, then
/// persisted immediately, then emitted; a user-shaped fragment triggers
/// nothing.
pub open spec fn frag_effects(f: MessageView) -> Seq<EffectView> {
    match f {
        MessageView::Assistant(t) => seq![
            EffectView::Notify(EventView::AssistantMessage(t)),
            EffectView::Emit(MessageView::Assistant(t)),
        ],
        MessageView::Tool(tc) => seq![
            EffectView::Notify(EventView::ToolCall(tc)),
            EffectView::Persist(MessageView::Tool(tc)),
            EffectView::Emit(MessageView::Tool(tc)),
        ],
        MessageView::User(_) => Seq::empty(),
    }
}

/// The observable steps of the whole stream, fragment after fragment.
pub open spec fn stream_effects(frags: Seq<MessageView>) -> Seq<EffectView>
    decreases frags.len(),
{
    if frags.len() == 0 {
        Seq::empty()
    } else {
        frag_effects(frags.first()) + stream_effects(frags.drop_first())
    }
}

/// The observable steps after the stream is exhausted: the store append of
/// the coalesced assistant message, when there is one, then the stream-end
/// notification.
pub open spec fn closing_effects(frags: Seq<MessageView>) -> Seq<EffectView> {
    (if assistant_acc(frags).len() > 0 {
        seq![EffectView::Persist(MessageView::Assistant(assistant_acc(frags)))]
    } else {
        Seq::empty()
    }) + seq![EffectView::Notify(EventView::StreamEnd)]
}

/// Every externally observable step of one turn, in order.
pub open spec fn turn_effects(u: Seq<char>, frags: Seq<MessageView>) -> Seq<EffectView> {
    prelude_effects(u) + stream_effects(frags) + closing_effects(frags)
}

/// The output items contained in a trace, in trace order.
pub open spec fn emitted(trace: Seq<EffectView>) -> Seq<MessageView>
    decreases trace.len(),
{
    if trace.len() == 0 {
        Seq::empty()
    } else {
        (match trace.first() {
            EffectView::Emit(m) => seq![m],
            _ => Seq::empty(),
        }) + emitted(trace.drop_first())
    }
}

/// The messages handed to the store by a trace, in trace order.
pub open spec fn persisted(trace: Seq<EffectView>) -> Seq<MessageView>
    decreases trace.len(),
{
    if trace.len() == 0 {
        Seq::empty()
    } else {
        (match trace.first() {
            EffectView::Persist(m) => seq![m],
            _ => Seq::empty(),
        }) + persisted(trace.drop_first())
    }
}

/// The texts of the assistant messages in a message sequence, in order.
pub open spec fn assistant_texts(msgs: Seq<MessageView>) -> Seq<Seq<char>>
    decreases msgs.len(),
{
    if msgs.len() == 0 {
        Seq::empty()
    } else {
        (match msgs.first() {
            MessageView::Assistant(t) => seq![t],
            _ => Seq::empty(),
        }) + assistant_texts(msgs.drop_first())
    }
}

pub proof fn lemma_outputs_push(frags: Seq<MessageView>, f: MessageView)
    ensures
        outputs_of(frags.push(f)) == outputs_of(frags) + frag_outputs(f),
    decreases frags.len(),
{
    if frags.len() == 0 {
        assert(frags.push(f).len() == 1);
        assert(frags.push(f).first() == f);
        assert(frags.push(f).drop_first() =~= Seq::<MessageView>::empty());
        assert(outputs_of(frags.push(f)) == frag_outputs(f) + outputs_of(
            Seq::<MessageView>::empty(),
        ));
        assert(outputs_of(Seq::<MessageView>::empty()) =~= Seq::<MessageView>::empty());
        assert(outputs_of(frags) + frag_outputs(f) =~= frag_outputs(f) + Seq::<
            MessageView,
        >::empty());
    } else {
        assert(frags.push(f).drop_first() =~= frags.drop_first().push(f));
        lemma_outputs_push(frags.drop_first(), f);
        assert(frag_outputs(frags.first()) + (outputs_of(frags.drop_first()) + frag_outputs(f))
            =~= (frag_outputs(frags.first()) + outputs_of(frags.drop_first())) + frag_outputs(f));
    }
}

pub proof fn lemma_tool_additions_push(frags: Seq<MessageView>, f: MessageView)
    ensures
        tool_additions(frags.push(f)) == tool_additions(frags) + frag_tool_additions(f),
    decreases frags.len(),
{
    if frags.len() == 0 {
        assert(frags.push(f).first() == f);
        assert(frags.push(f).drop_first() =~= Seq::<MessageView>::empty());
        assert(tool_additions(frags.push(f)) == frag_tool_additions(f) + tool_additions(
            Seq::<MessageView>::empty(),
        ));
        assert(tool_additions(Seq::<MessageView>::empty()) =~= Seq::<MessageView>::empty());
        assert(tool_additions(frags) + frag_tool_additions(f) =~= frag_tool_additions(f) + Seq::<
            MessageView,
        >::empty());
    } else {
        assert(frags.push(f).drop_first() =~= frags.drop_first().push(f));
        lemma_tool_additions_push(frags.drop_first(), f);
        assert(frag_tool_additions(frags.first()) + (tool_additions(frags.drop_first())
            + frag_tool_additions(f)) =~= (frag_tool_additions(frags.first()) + tool_additions(
            frags.drop_first(),
        )) + frag_tool_additions(f));
    }
}

pub proof fn lemma_assistant_acc_push(frags: Seq<MessageView>, f: MessageView)
    ensures
        assistant_acc(frags.push(f)) == assistant_acc(frags) + frag_text(f),
    decreases frags.len(),
{
    if frags.len() == 0 {
        assert(frags.push(f).first() == f);
        assert(frags.push(f).drop_first() =~= Seq::<MessageView>::empty());
        assert(assistant_acc(frags.push(f)) == frag_text(f) + assistant_acc(
            Seq::<MessageView>::empty(),
        ));
        assert(assistant_acc(Seq::<MessageView>::empty()) =~= Seq::<char>::empty());
        assert(assistant_acc(frags) + frag_text(f) =~= frag_text(f) + Seq::<char>::empty());
    } else {
        assert(frags.push(f).drop_first() =~= frags.drop_first().push(f));
        lemma_assistant_acc_push(frags.drop_first(), f);
        assert(frag_text(frags.first()) + (assistant_acc(frags.drop_first()) + frag_text(f)) =~= (
        frag_text(frags.first()) + assistant_acc(frags.drop_first())) + frag_text(f));
    }
}

pub proof fn lemma_stream_effects_push(frags: Seq<MessageView>, f: MessageView)
    ensures
        stream_effects(frags.push(f)) == stream_effects(frags) + frag_effects(f),
    decreases frags.len(),
{
    if frags.len() == 0 {
        assert(frags.push(f).first() == f);
        assert(frags.push(f).drop_first() =~= Seq::<MessageView>::empty());
        assert(stream_effects(frags.push(f)) == frag_effects(f) + stream_effects(
            Seq::<MessageView>::empty(),
        ));
        assert(stream_effects(Seq::<MessageView>::empty()) =~= Seq::<EffectView>::empty());
        assert(stream_effects(frags) + frag_effects(f) =~= frag_effects(f) + Seq::<
            EffectView,
        >::empty());
    } else {
        assert(frags.push(f).drop_first() =~= frags.drop_first().push(f));
        lemma_stream_effects_push(frags.drop_first(), f);
        assert(frag_effects(frags.first()) + (stream_effects(frags.drop_first()) + frag_effects(f))
            =~= (frag_effects(frags.first()) + stream_effects(frags.drop_first())) + frag_effects(
            f,
        ));
    }
}

pub proof fn lemma_emitted_concat(a: Seq<EffectView>, b: Seq<EffectView>)
    ensures
        emitted(a + b) == emitted(a) + emitted(b),
    decreases a.len(),
{
    if a.len() == 0 {
        assert(a + b =~= b);
        assert(emitted(a) + emitted(b) =~= emitted(b));
    } else {
        assert((a + b).first() == a.first());
        assert((a + b).drop_first() =~= a.drop_first() + b);
        lemma_emitted_concat(a.drop_first(), b);
        let h = (match a.first() {
            EffectView::Emit(m) => seq![m],
            _ => Seq::<MessageView>::empty(),
        });
        assert(emitted(a + b) == h + (emitted(a.drop_first()) + emitted(b)));
        assert(h + (emitted(a.drop_first()) + emitted(b)) =~= (h + emitted(a.drop_first()))
            + emitted(b));
    }
}

pub proof fn lemma_persisted_concat(a: Seq<EffectView>, b: Seq<EffectView>)
    ensures
        persisted(a + b) == persisted(a) + persisted(b),
    decreases a.len(),
{
    if a.len() == 0 {
        assert(a + b =~= b);
        assert(persisted(a) + persisted(b) =~= persisted(b));
    } else {
        assert((a + b).first() == a.first());
        assert((a + b).drop_first() =~= a.drop_first() + b);
        lemma_persisted_concat(a.drop_first(), b);
        let h = (match a.first() {
            EffectView::Persist(m) => seq![m],
            _ => Seq::<MessageView>::empty(),
        });
        assert(persisted(a + b) == h + (persisted(a.drop_first()) + persisted(b)));
        assert(h + (persisted(a.drop_first()) + persisted(b)) =~= (h + persisted(a.drop_first()))
            + persisted(b));
    }
}

pub proof fn lemma_assistant_texts_concat(a: Seq<MessageView>, b: Seq<MessageView>)
    ensures
        assistant_texts(a + b) == assistant_texts(a) + assistant_texts(b),
    decreases a.len(),
{
    if a.len() == 0 {
        assert(a + b =~= b);
        assert(assistant_texts(a) + assistant_texts(b) =~= assistant_texts(b));
    } else {
        assert((a + b).first() == a.first());
        assert((a + b).drop_first() =~= a.drop_first() + b);
        lemma_assistant_texts_concat(a.drop_first(), b);
        let h = (match a.first() {
            MessageView::Assistant(t) => seq![t],
            _ => Seq::<Seq<char>>::empty(),
        });
        assert(assistant_texts(a + b) == h + (assistant_texts(a.drop_first()) + assistant_texts(
            b,
        )));
        assert(h + (assistant_texts(a.drop_first()) + assistant_texts(b)) =~= (h + assistant_texts(
            a.drop_first(),
        )) + assistant_texts(b));
    }
}

proof fn lemma_frag_emitted(f: MessageView)
    ensures
        emitted(frag_effects(f)) == frag_outputs(f),
{
    reveal_with_fuel(emitted, 5);
    match f {
        MessageView::Assistant(t) => {
            let s = frag_effects(f);
            assert(s.drop_first() =~= seq![EffectView::Emit(MessageView::Assistant(t))]);
            assert(s.drop_first().drop_first() =~= Seq::<EffectView>::empty());
            assert(emitted(s) =~= seq![MessageView::Assistant(t)]);
        },
        MessageView::Tool(tc) => {
            let s = frag_effects(f);
            assert(s.drop_first() =~= seq![
                EffectView::Persist(MessageView::Tool(tc)),
                EffectView::Emit(MessageView::Tool(tc)),
            ]);
            assert(s.drop_first().drop_first() =~= seq![EffectView::Emit(MessageView::Tool(tc))]);
            assert(s.drop_first().drop_first().drop_first() =~= Seq::<EffectView>::empty());
            assert(emitted(s) =~= seq![MessageView::Tool(tc)]);
        },
        MessageView::User(_) => {
            assert(emitted(frag_effects(f)) =~= frag_outputs(f));
        },
    }
}

proof fn lemma_frag_persisted(f: MessageView)
    ensures
        persisted(frag_effects(f)) == frag_tool_additions(f),
{
    reveal_with_fuel(persisted, 5);
    match f {
        MessageView::Assistant(t) => {
            let s = frag_effects(f);
            assert(s.drop_first() =~= seq![EffectView::Emit(MessageView::Assistant(t))]);
            assert(s.drop_first().drop_first() =~= Seq::<EffectView>::empty());
            assert(persisted(s) =~= Seq::<MessageView>::empty());
        },
        MessageView::Tool(tc) => {
            let s = frag_effects(f);
            assert(s.drop_first() =~= seq![
                EffectView::Persist(MessageView::Tool(tc)),
                EffectView::Emit(MessageView::Tool(tc)),
            ]);
            assert(s.drop_first().drop_first() =~= seq![EffectView::Emit(MessageView::Tool(tc))]);
            assert(s.drop_first().drop_first().drop_first() =~= Seq::<EffectView>::empty());
            assert(persisted(s) =~= seq![MessageView::Tool(tc)]);
        },
        MessageView::User(_) => {
            assert(persisted(frag_effects(f)) =~= frag_tool_additions(f));
        },
    }
}

proof fn lemma_emitted_stream(frags: Seq<MessageView>)
    ensures
        emitted(stream_effects(frags)) == outputs_of(frags),
    decreases frags.len(),
{
    if frags.len() == 0 {
    } else {
        lemma_emitted_concat(frag_effects(frags.first()), stream_effects(frags.drop_first()));
        lemma_frag_emitted(frags.first());
        lemma_emitted_stream(frags.drop_first());
    }
}

proof fn lemma_persisted_stream(frags: Seq<MessageView>)
    ensures
        persisted(stream_effects(frags)) == tool_additions(frags),
    decreases frags.len(),
{
    if frags.len() == 0 {
    } else {
        lemma_persisted_concat(frag_effects(frags.first()), stream_effects(frags.drop_first()));
        lemma_frag_persisted(frags.first());
        lemma_persisted_stream(frags.drop_first());
    }
}

/// **Order preservation.** For any user text and any fragment sequence, the
/// output items contained in the turn's effect trace equal, in order, the
/// normalized form of those fragments, with user-shaped fragments discarded.
pub proof fn lemma_order_preservation(u: Seq<char>, frags: Seq<MessageView>)
    ensures
        emitted(turn_effects(u, frags)) == outputs_of(frags),
{
    reveal_with_fuel(emitted, 6);
    lemma_emitted_concat(prelude_effects(u) + stream_effects(frags), closing_effects(frags));
    lemma_emitted_concat(prelude_effects(u), stream_effects(frags));
    lemma_emitted_stream(frags);
    assert(prelude_effects(u).drop_first() =~= seq![
        EffectView::Notify(EventView::UserMessage(u)),
        EffectView::Persist(MessageView::User(u)),
    ]);
    assert(prelude_effects(u).drop_first().drop_first() =~= seq![
        EffectView::Persist(MessageView::User(u)),
    ]);
    assert(prelude_effects(u).drop_first().drop_first().drop_first() =~= Seq::<
        EffectView,
    >::empty());
    assert(emitted(prelude_effects(u)) =~= Seq::<MessageView>::empty());
    if assistant_acc(frags).len() > 0 {
        assert(closing_effects(frags) =~= seq![
            EffectView::Persist(MessageView::Assistant(assistant_acc(frags))),
            EffectView::Notify(EventView::StreamEnd),
        ]);
        assert(closing_effects(frags).drop_first() =~= seq![
            EffectView::Notify(EventView::StreamEnd),
        ]);
        assert(closing_effects(frags).drop_first().drop_first() =~= Seq::<EffectView>::empty());
        assert(emitted(closing_effects(frags)) =~= Seq::<MessageView>::empty());
    } else {
        assert(closing_effects(frags) =~= seq![EffectView::Notify(EventView::StreamEnd)]);
        assert(closing_effects(frags).drop_first() =~= Seq::<EffectView>::empty());
        assert(emitted(closing_effects(frags)) =~= Seq::<MessageView>::empty());
    }
    assert(emitted(turn_effects(u, frags)) =~= outputs_of(frags));
}

/// **Store order matches transcript order.** The messages a turn hands to
/// the store are exactly the messages it appends to the transcript, in the
/// same order: the user's message first, each tool call as it arrived, and
/// finally the coalesced assistant message when there is one.
pub proof fn lemma_store_order_matches_transcript(u: Seq<char>, frags: Seq<MessageView>)
    ensures
        persisted(turn_effects(u, frags)) == turn_additions(u, frags),
{
    reveal_with_fuel(persisted, 6);
    lemma_persisted_concat(prelude_effects(u) + stream_effects(frags), closing_effects(frags));
    lemma_persisted_concat(prelude_effects(u), stream_effects(frags));
    lemma_persisted_stream(frags);
    assert(prelude_effects(u).drop_first() =~= seq![
        EffectView::Notify(EventView::UserMessage(u)),
        EffectView::Persist(MessageView::User(u)),
    ]);
    assert(prelude_effects(u).drop_first().drop_first() =~= seq![
        EffectView::Persist(MessageView::User(u)),
    ]);
    assert(prelude_effects(u).drop_first().drop_first().drop_first() =~= Seq::<
        EffectView,
    >::empty());
    assert(persisted(prelude_effects(u)) =~= seq![MessageView::User(u)]);
    if assistant_acc(frags).len() > 0 {
        assert(closing_effects(frags) =~= seq![
            EffectView::Persist(MessageView::Assistant(assistant_acc(frags))),
            EffectView::Notify(EventView::StreamEnd),
        ]);
        assert(closing_effects(frags).drop_first() =~= seq![
            EffectView::Notify(EventView::StreamEnd),
        ]);
        assert(closing_effects(frags).drop_first().drop_first() =~= Seq::<EffectView>::empty());
        assert(persisted(closing_effects(frags)) =~= seq![
            MessageView::Assistant(assistant_acc(frags)),
        ]);
    } else {
        assert(closing_effects(frags) =~= seq![EffectView::Notify(EventView::StreamEnd)]);
        assert(closing_effects(frags).drop_first() =~= Seq::<EffectView>::empty());
        assert(persisted(closing_effects(frags)) =~= Seq::<MessageView>::empty());
    }
    assert(persisted(turn_effects(u, frags)) =~= turn_additions(u, frags));
}

proof fn lemma_assistant_texts_tools(frags: Seq<MessageView>)
    ensures
        assistant_texts(tool_additions(frags)) == Seq::<Seq<char>>::empty(),
    decreases frags.len(),
{
    reveal_with_fuel(assistant_texts, 3);
    if frags.len() == 0 {
    } else {
        lemma_assistant_texts_concat(
            frag_tool_additions(frags.first()),
            tool_additions(frags.drop_first()),
        );
        lemma_assistant_texts_tools(frags.drop_first());
        match frags.first() {
            MessageView::Tool(tc) => {
                assert(frag_tool_additions(frags.first()).drop_first() =~= Seq::<
                    MessageView,
                >::empty());
                assert(assistant_texts(frag_tool_additions(frags.first())) =~= Seq::<
                    Seq<char>,
                >::empty());
            },
            _ => {
                assert(assistant_texts(frag_tool_additions(frags.first())) =~= Seq::<
                    Seq<char>,
                >::empty());
            },
        }
        assert(assistant_texts(tool_additions(frags)) =~= Seq::<Seq<char>>::empty());
    }
}

/// **Assistant-text coalescing.** A turn appends exactly one assistant
/// message — holding the concatenation of every assistant-text fragment, in
/// arrival order — when any assistant text arrived, and none at all when
/// none did; never one assistant message per fragment.
pub proof fn lemma_assistant_coalescing(u: Seq<char>, frags: Seq<MessageView>)
    ensures
        assistant_texts(turn_additions(u, frags)) == (if assistant_acc(frags).len() > 0 {
            seq![assistant_acc(frags)]
        } else {
            Seq::<Seq<char>>::empty()
        }),
{
    reveal_with_fuel(assistant_texts, 3);
    let flush = (if assistant_acc(frags).len() > 0 {
        seq![MessageView::Assistant(assistant_acc(frags))]
    } else {
        Seq::<MessageView>::empty()
    });
    lemma_assistant_texts_concat(seq![MessageView::User(u)] + tool_additions(frags), flush);
    lemma_assistant_texts_concat(seq![MessageView::User(u)], tool_additions(frags));
    lemma_assistant_texts_tools(frags);
    assert(seq![MessageView::User(u)].drop_first() =~= Seq::<MessageView>::empty());
    assert(assistant_texts(seq![MessageView::User(u)]) =~= Seq::<Seq<char>>::empty());
    if assistant_acc(frags).len() > 0 {
        assert(flush.drop_first() =~= Seq::<MessageView>::empty());
        assert(assistant_texts(flush) =~= seq![assistant_acc(frags)]);
    } else {
        assert(assistant_texts(flush) =~= Seq::<Seq<char>>::empty());
    }
    assert(assistant_texts(turn_additions(u, frags)) =~= (if assistant_acc(frags).len() > 0 {
        seq![assistant_acc(frags)]
    } else {
        Seq::<Seq<char>>::empty()
    }));
}

/// **Empty-stream turn.** A backend that yields no fragments leaves exactly
/// one new transcript entry — the user's message — and the turn still
/// notifies stream-start and stream-end, persists the user's message, and
/// emits nothing.
pub proof fn lemma_empty_stream_turn(u: Seq<char>)
    ensures
        turn_additions(u, Seq::<MessageView>::empty()) == seq![MessageView::User(u)],
        turn_effects(u, Seq::<MessageView>::empty()) == seq![
            EffectView::Notify(EventView::StreamStart),
            EffectView::Notify(EventView::UserMessage(u)),
            EffectView::Persist(MessageView::User(u)),
            EffectView::Notify(EventView::StreamEnd),
        ],
{
    assert(turn_additions(u, Seq::<MessageView>::empty()) =~= seq![MessageView::User(u)]);
    assert(turn_effects(u, Seq::<MessageView>::empty()) =~= seq![
        EffectView::Notify(EventView::StreamStart),
        EffectView::Notify(EventView::UserMessage(u)),
        EffectView::Persist(MessageView::User(u)),
        EffectView::Notify(EventView::StreamEnd),
    ]);
}

proof fn lemma_stream_effects_split(frags: Seq<MessageView>, i: int)
    requires
        0 <= i <= frags.len(),
    ensures
        stream_effects(frags) == stream_effects(frags.take(i)) + stream_effects(frags.skip(i)),
    decreases i,
{
    if i == 0 {
        assert(frags.take(0) =~= Seq::<MessageView>::empty());
        assert(frags.skip(0) =~= frags);
        assert(stream_effects(frags.take(0)) + stream_effects(frags) =~= stream_effects(frags));
    } else {
        let d = frags.drop_first();
        assert(frags.take(i).len() == i);
        assert(frags.take(i).first() == frags.first());
        assert(frags.take(i).drop_first() =~= d.take(i - 1));
        assert(frags.skip(i) =~= d.skip(i - 1));
        lemma_stream_effects_split(d, i - 1);
        assert(stream_effects(frags) == frag_effects(frags.first()) + (stream_effects(d.take(i - 1))
            + stream_effects(d.skip(i - 1))));
        assert(stream_effects(frags.take(i)) == frag_effects(frags.first()) + stream_effects(
            d.take(i - 1),
        ));
        assert(frag_effects(frags.first()) + (stream_effects(d.take(i - 1)) + stream_effects(
            d.skip(i - 1),
        )) =~= (frag_effects(frags.first()) + stream_effects(d.take(i - 1))) + stream_effects(
            d.skip(i - 1),
        ));
    }
}

/// **Tool-call eager persistence.** Every tool-call fragment produces one
/// contiguous block of effects — the tool-call notification, then the store
/// append, then the output item, in that order — and the store append
/// therefore precedes every effect of every later fragment, the closing
/// flush of buffered assistant text, and the stream-end notification. A tool
/// call is never buffered to the end of the stream.
pub proof fn lemma_tool_call_eager_persistence(
    u: Seq<char>,
    frags: Seq<MessageView>,
    i: int,
    tc: ToolCallView,
)
    requires
        0 <= i < frags.len(),
        frags[i] == MessageView::Tool(tc),
    ensures
        turn_effects(u, frags) == prelude_effects(u) + stream_effects(frags.take(i)) + seq![
            EffectView::Notify(EventView::ToolCall(tc)),
            EffectView::Persist(MessageView::Tool(tc)),
            EffectView::Emit(MessageView::Tool(tc)),
        ] + stream_effects(frags.skip(i + 1)) + closing_effects(frags),
        closing_effects(frags).last() == EffectView::Notify(EventView::StreamEnd),
{
    lemma_stream_effects_split(frags, i);
    let s = frags.skip(i);
    assert(s.len() > 0);
    assert(s.first() == frags[i]);
    assert(s.drop_first() =~= frags.skip(i + 1));
    assert(stream_effects(s) == frag_effects(frags[i]) + stream_effects(frags.skip(i + 1)));
    assert(frag_effects(frags[i]) =~= seq![
        EffectView::Notify(EventView::ToolCall(tc)),
        EffectView::Persist(MessageView::Tool(tc)),
        EffectView::Emit(MessageView::Tool(tc)),
    ]);
    assert(turn_effects(u, frags) =~= prelude_effects(u) + stream_effects(frags.take(i)) + seq![
        EffectView::Notify(EventView::ToolCall(tc)),
        EffectView::Persist(MessageView::Tool(tc)),
        EffectView::Emit(MessageView::Tool(tc)),
    ] + stream_effects(frags.skip(i + 1)) + closing_effects(frags));
}

} // verus!
