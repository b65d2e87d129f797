//! What holds of every run of the client: laws that relate the transitions
//! of a turn to each other, each proved from their specifications.
use crate::api::{StreamEventView, StreamToolCallView};
use crate::app::{abandoned, initial_state, is_notice, well_formed, AppView, EffectView};
use crate::handlers::{
    apply_event, apply_events, command_outcome, config_after, config_flag, config_reply, error_text,
    failure_outcome, message_after, placeholder, started_entry, targets_last, turn_begun,
    turn_state, user_message,
};
use crate::models::{
    find_live, find_tool, flat_text, live_with_result, none_running, segments_with_text,
    settled, AppConfig, CommandView, MessageRole, MessageView, SegmentView, ToolEntry,
    ToolStatus,
};
use vstd::prelude::*;

verus! {

/// Where `find_live` looks from `from` on, it returns the first position
/// at which the id stands, or the length of the registry.
pub proof fn lemma_find_live(live: Seq<ToolEntry>, id: Seq<char>, from: int)
    requires
        0 <= from <= live.len(),
    ensures
        from <= find_live(live, id, from) <= live.len(),
        find_live(live, id, from) < live.len() ==> live[find_live(live, id, from)].id == id,
        forall|k: int| from <= k < find_live(live, id, from) ==> (#[trigger] live[k]).id != id,
    decreases live.len() - from,
{
    if from < live.len() && live[from].id != id {
        lemma_find_live(live, id, from + 1);
    }
}

/// `find_live` looks at the ids alone.
pub proof fn lemma_find_live_by_ids(a: Seq<ToolEntry>, b: Seq<ToolEntry>, id: Seq<char>, from: int)
    requires
        0 <= from <= a.len(),
        a.len() == b.len(),
        forall|k: int| 0 <= k < a.len() ==> (#[trigger] a[k]).id == b[k].id,
    ensures
        find_live(a, id, from) == find_live(b, id, from),
    decreases a.len() - from,
{
    if from < a.len() {
        assert(a[from].id == b[from].id);
        if a[from].id != id {
            lemma_find_live_by_ids(a, b, id, from + 1);
        }
    }
}

/// An entry that is added to a registry without its id is found at the
/// end.
pub proof fn lemma_find_live_added(live: Seq<ToolEntry>, e: ToolEntry, from: int)
    requires
        0 <= from <= live.len(),
        find_live(live, e.id, from) == live.len(),
    ensures
        find_live(live.push(e), e.id, from) == live.len(),
    decreases live.len() - from,
{
    if from < live.len() {
        assert(live.push(e)[from] == live[from]);
        lemma_find_live_added(live, e, from + 1);
    }
}

/// A tool call that starts, delivers its result and then sees its stream
/// close stands in the live registry as completed, with that result.
pub proof fn lemma_result_after_start_completes(
    s: AppView,
    target: Seq<char>,
    name: Seq<char>,
    arguments: serde_json::Value,
    id: Seq<char>,
    result: Seq<char>,
    tool_calls: Seq<StreamToolCallView>,
)
    requires
        s.streaming_message_id == Some(target),
    ensures
        ({
            let started = apply_event(
                s,
                target,
                StreamEventView::ToolStart { name: name, arguments: arguments, id: id },
            );
            let answered = apply_event(
                started,
                target,
                StreamEventView::ToolResult { id: id, result: result },
            );
            let closed = apply_event(
                answered,
                target,
                StreamEventView::Done { tool_calls: tool_calls },
            );
            let i = find_live(closed.live_tool_calls, id, 0);
            &&& i < closed.live_tool_calls.len()
            &&& closed.live_tool_calls[i].id == id
            &&& closed.live_tool_calls[i].status == ToolStatus::Completed
            &&& closed.live_tool_calls[i].result == Some(result)
        }),
{
    let started = apply_event(
        s,
        target,
        StreamEventView::ToolStart { name: name, arguments: arguments, id: id },
    );
    let answered = apply_event(
        started,
        target,
        StreamEventView::ToolResult { id: id, result: result },
    );
    let closed = apply_event(answered, target, StreamEventView::Done { tool_calls: tool_calls });
    lemma_find_live(s.live_tool_calls, id, 0);
    if find_live(s.live_tool_calls, id, 0) >= s.live_tool_calls.len() {
        lemma_find_live_added(s.live_tool_calls, started_entry(name, arguments, id), 0);
    }
    let i = find_live(started.live_tool_calls, id, 0);
    lemma_find_live(started.live_tool_calls, id, 0);
    assert(i < started.live_tool_calls.len());
    assert(answered.live_tool_calls == live_with_result(started.live_tool_calls, id, result));
    lemma_find_live_by_ids(started.live_tool_calls, answered.live_tool_calls, id, 0);
    assert(closed.live_tool_calls == settled(answered.live_tool_calls, ToolStatus::Completed));
    lemma_find_live_by_ids(answered.live_tool_calls, closed.live_tool_calls, id, 0);
}

/// An event of a stream that is not the active one changes nothing: not
/// the log, not the registry, not the context.
pub proof fn lemma_stale_event_is_dropped(s: AppView, target: Seq<char>, e: StreamEventView)
    requires
        s.streaming_message_id != Some(target),
    ensures
        apply_event(s, target, e) == s,
{
}

/// However many events of a stream that is not the active one arrive, the
/// state stays as it is.
pub proof fn lemma_stale_events_are_dropped(
    s: AppView,
    target: Seq<char>,
    events: Seq<StreamEventView>,
)
    requires
        s.streaming_message_id != Some(target),
    ensures
        apply_events(s, target, events) == s,
    decreases events.len(),
{
    if events.len() > 0 {
        lemma_stale_events_are_dropped(s, target, events.drop_last());
    }
}

/// Once the turn in flight has been abandoned, no event of any stream
/// changes the state, whatever happened to the log in between.
pub proof fn lemma_abandoned_stream_is_fenced(
    s: AppView,
    log: Seq<MessageView>,
    target: Seq<char>,
    events: Seq<StreamEventView>,
)
    ensures
        apply_events(AppView { messages: log, ..abandoned(s) }, target, events) == (AppView {
            messages: log,
            ..abandoned(s)
        }),
{
    lemma_stale_events_are_dropped(AppView { messages: log, ..abandoned(s) }, target, events);
}

/// After a closing or failing event nothing in the live registry is
/// running, provided no other stream is active: the event belongs to the
/// active stream, or no stream is active at all.
pub proof fn lemma_terminal_event_settles(s: AppView, target: Seq<char>, e: StreamEventView)
    requires
        well_formed(s),
        e is Done || e is Error,
        s.streaming_message_id == Some(target) || s.streaming_message_id is None,
    ensures
        none_running(apply_event(s, target, e).live_tool_calls),
{
}

/// Every event keeps the state well formed.
pub proof fn lemma_event_keeps_well_formed(s: AppView, target: Seq<char>, e: StreamEventView)
    requires
        well_formed(s),
    ensures
        well_formed(apply_event(s, target, e)),
{
}

/// Every sequence of events keeps the state well formed.
pub proof fn lemma_events_keep_well_formed(
    s: AppView,
    target: Seq<char>,
    events: Seq<StreamEventView>,
)
    requires
        well_formed(s),
    ensures
        well_formed(apply_events(s, target, events)),
    decreases events.len(),
{
    if events.len() > 0 {
        lemma_events_keep_well_formed(s, target, events.drop_last());
        lemma_event_keeps_well_formed(
            apply_events(s, target, events.drop_last()),
            target,
            events.last(),
        );
    }
}

/// Whether a state is well formed is a matter of its turn alone: of the
/// loading mark, the target and the live registry.
pub proof fn lemma_well_formed_looks_at_the_turn(a: AppView, b: AppView)
    requires
        a.is_loading == b.is_loading,
        a.streaming_message_id == b.streaming_message_id,
        a.live_tool_calls == b.live_tool_calls,
    ensures
        well_formed(a) == well_formed(b),
{
}

/// A client that has just started is well formed.
pub proof fn lemma_initial_state_is_well_formed(log: Seq<MessageView>, session_id: Seq<char>)
    ensures
        well_formed(initial_state(log, session_id)),
{
}

/// Abandoning the turn in flight leaves a well-formed state, whatever the
/// state was, and whatever the log is replaced by.
pub proof fn lemma_abandoned_is_well_formed(s: AppView)
    ensures
        well_formed(abandoned(s)),
        abandoned(s).streaming_message_id is None,
        !abandoned(s).is_loading,
{
}

/// Opening a turn leaves a well-formed state in which a stream is active.
pub proof fn lemma_turn_begun_is_well_formed(before: AppView, text: Seq<char>, after: AppView)
    requires
        turn_begun(before, text, after),
    ensures
        well_formed(after),
        after.is_loading,
        targets_last(after.messages, after.streaming_message_id->0),
{
}

/// The state that an opened turn leaves is the one that `turn_begun`
/// describes: it is well formed, a stream is active, and its target is the
/// last message of the log.
pub proof fn lemma_turn_state_opens_a_turn(
    before: AppView,
    text: Seq<char>,
    user_id: Seq<char>,
    user_label: Seq<char>,
    stream_id: Seq<char>,
    stream_label: Seq<char>,
)
    ensures
        ({
            let after = turn_state(
                before,
                user_message(user_id, user_label, text),
                placeholder(stream_id, stream_label),
            );
            &&& turn_begun(before, text, after)
            &&& well_formed(after)
            &&& after.streaming_message_id == Some(stream_id)
            &&& targets_last(after.messages, stream_id)
        }),
{
    let after = turn_state(
        before,
        user_message(user_id, user_label, text),
        placeholder(stream_id, stream_label),
    );
    assert(after.messages.subrange(0, before.messages.len() as int) =~= before.messages);
}

/// A turn fences every stream whose target has another id than its own:
/// however many events of such a stream arrive, the new turn stays as it
/// is. The fence rests on the ids alone; two streams with the same target
/// id are not told apart.
pub proof fn lemma_new_turn_fences_other_streams(
    before: AppView,
    user: MessageView,
    target: MessageView,
    other: Seq<char>,
    events: Seq<StreamEventView>,
)
    requires
        other != target.id,
    ensures
        apply_events(turn_state(before, user, target), other, events) == turn_state(
            before,
            user,
            target,
        ),
{
    lemma_stale_events_are_dropped(turn_state(before, user, target), other, events);
}

/// Every command keeps the state well formed.
pub proof fn lemma_command_keeps_well_formed(
    before: AppView,
    c: CommandView,
    after: AppView,
    effect: EffectView,
)
    requires
        well_formed(before),
        command_outcome(before, c, after, effect),
    ensures
        well_formed(after),
{
}

/// A transport failure keeps the state well formed.
pub proof fn lemma_failure_keeps_well_formed(
    before: AppView,
    target: Seq<char>,
    error: Seq<char>,
    after: AppView,
)
    requires
        well_formed(before),
        failure_outcome(before, target, error, after),
    ensures
        well_formed(after),
{
}

/// Text that is streamed into a message goes to the end of its flattened
/// text.
pub proof fn lemma_flat_text_with_text(segs: Seq<SegmentView>, text: Seq<char>)
    ensures
        flat_text(segments_with_text(segs, text)) == flat_text(segs) + text,
{
    if segs.len() > 0 && segs.last() is Text {
        let grown = segs.drop_last().push(SegmentView::Text(segs.last()->Text_0 + text));
        assert(grown.drop_last() =~= segs.drop_last());
        assert(flat_text(grown) =~= flat_text(segs) + text);
    } else {
        let grown = segs.push(SegmentView::Text(text));
        assert(grown.drop_last() =~= segs);
    }
}

/// A tool call contributes nothing to the flattened text, whatever it
/// holds.
pub proof fn lemma_flat_text_ignores_tools(segs: Seq<SegmentView>, i: int, t: ToolEntry)
    requires
        0 <= i < segs.len(),
        segs[i] is ToolCall,
    ensures
        flat_text(segs.update(i, SegmentView::ToolCall(t))) == flat_text(segs),
    decreases segs.len(),
{
    let changed = segs.update(i, SegmentView::ToolCall(t));
    if i == segs.len() - 1 {
        assert(changed.drop_last() =~= segs.drop_last());
    } else {
        assert(changed.drop_last() =~= segs.drop_last().update(i, SegmentView::ToolCall(t)));
        lemma_flat_text_ignores_tools(segs.drop_last(), i, t);
    }
}

/// Where `find_tool` looks from `from` on, it returns a position at which
/// a tool call stands, or the number of segments.
pub proof fn lemma_find_tool(segs: Seq<SegmentView>, id: Seq<char>, from: int)
    requires
        0 <= from <= segs.len(),
    ensures
        from <= find_tool(segs, id, from) <= segs.len(),
        find_tool(segs, id, from) < segs.len() ==> segs[find_tool(segs, id, from)] is ToolCall
            && segs[find_tool(segs, id, from)]->ToolCall_0.id == id,
    decreases segs.len() - from,
{
    if from < segs.len() {
        match segs[from] {
            SegmentView::ToolCall(t) => {
                if t.id != id {
                    lemma_find_tool(segs, id, from + 1);
                }
            },
            SegmentView::Text(_) => {
                lemma_find_tool(segs, id, from + 1);
            },
        }
    }
}

/// A message's content agrees with its segments: it is the concatenation
/// of the text segments, in order.
pub open spec fn content_consistent(m: MessageView) -> bool {
    m.content == flat_text(m.segments)
}

/// After the closing event, the content of the target message is the
/// concatenation of its text segments, in order, without the tool calls.
pub proof fn lemma_done_flattens_content(
    s: AppView,
    target: Seq<char>,
    tool_calls: Seq<StreamToolCallView>,
)
    requires
        s.streaming_message_id == Some(target),
        targets_last(s.messages, target),
    ensures
        content_consistent(
            apply_event(
                s,
                target,
                StreamEventView::Done { tool_calls: tool_calls },
            ).messages.last(),
        ),
{
}

/// While a stream delivers text and tool calls, the content of its target
/// stays the concatenation of the text segments: every event but a
/// failure keeps a consistent message consistent.
pub proof fn lemma_event_keeps_content_consistent(m: MessageView, e: StreamEventView)
    requires
        content_consistent(m),
        !(e is Error),
    ensures
        content_consistent(message_after(m, e)),
{
    match e {
        StreamEventView::Chunk { content } => {
            lemma_flat_text_with_text(m.segments, content);
        },
        StreamEventView::ToolStart { name, arguments, id } => {
            let grown = m.segments.push(SegmentView::ToolCall(started_entry(name, arguments, id)));
            assert(grown.drop_last() =~= m.segments);
        },
        StreamEventView::ToolResult { id, result } => {
            lemma_find_tool(m.segments, id, 0);
            let i = find_tool(m.segments, id, 0);
            if i < m.segments.len() {
                lemma_flat_text_ignores_tools(
                    m.segments,
                    i,
                    ToolEntry {
                        result: Some(result),
                        status: ToolStatus::Completed,
                        ..m.segments[i]->ToolCall_0
                    },
                );
            }
        },
        _ => {},
    }
}

/// Setting a setting twice to the same value is the same as setting it
/// once, and the confirmation is the same both times.
pub proof fn lemma_config_is_idempotent(config: AppConfig, key: Seq<char>, flag: bool)
    ensures
        config_after(config_after(config, key, flag), key, flag) == config_after(
            config,
            key,
            flag,
        ),
{
}

/// Two runs of the same config command leave the settings that one run
/// leaves, and two equal confirmations at the end of the log.
pub proof fn lemma_config_command_twice(
    s0: AppView,
    key: Seq<char>,
    value: Seq<char>,
    s1: AppView,
    e1: EffectView,
    s2: AppView,
    e2: EffectView,
)
    requires
        command_outcome(s0, CommandView::Config { key: key, value: value }, s1, e1),
        command_outcome(s1, CommandView::Config { key: key, value: value }, s2, e2),
    ensures
        s2.config == s1.config,
        s1.config == config_after(s0.config, key, config_flag(value)),
        s2.messages.len() == s0.messages.len() + 2,
        s2.messages.subrange(0, s0.messages.len() as int) == s0.messages,
        is_notice(s2.messages[s0.messages.len() as int], config_reply(key, config_flag(value))),
        is_notice(s2.messages[s0.messages.len() as int + 1], config_reply(key, config_flag(value))),
        s2 == (AppView { messages: s2.messages, config: s2.config, ..s0 }),
{
    assert(s2.messages.drop_last() == s1.messages);
    assert(s1.messages.drop_last() == s0.messages);
    assert(s2.messages[s0.messages.len() as int] == s1.messages.last());
    assert(s2.messages.subrange(0, s0.messages.len() as int) =~= s0.messages);
}

/// An event changes no message but the last one, and never the length of
/// the log.
pub proof fn lemma_event_touches_only_target(s: AppView, target: Seq<char>, e: StreamEventView)
    ensures
        apply_event(s, target, e).messages.len() == s.messages.len(),
        forall|i: int|
            0 <= i < s.messages.len() - 1 ==> apply_event(s, target, e).messages[i]
                == s.messages[i],
        !targets_last(s.messages, target) ==> apply_event(s, target, e).messages == s.messages,
{
}

/// An event never changes the id or the time label of a message, and it
/// changes the role only when a failure turns the target into a notice.
pub proof fn lemma_event_keeps_message_identity(m: MessageView, e: StreamEventView)
    ensures
        message_after(m, e).id == m.id,
        message_after(m, e).timestamp == m.timestamp,
        !(e is Error) ==> message_after(m, e).role == m.role,
{
}

/// An event never removes an entry from the live registry, never changes
/// the id, the name or the arguments of one, and never sets one that has
/// ended back to running.
pub proof fn lemma_event_keeps_tool_identity(
    s: AppView,
    target: Seq<char>,
    e: StreamEventView,
    i: int,
)
    requires
        0 <= i < s.live_tool_calls.len(),
    ensures
        i < apply_event(s, target, e).live_tool_calls.len(),
        apply_event(s, target, e).live_tool_calls[i].id == s.live_tool_calls[i].id,
        apply_event(s, target, e).live_tool_calls[i].name == s.live_tool_calls[i].name,
        apply_event(s, target, e).live_tool_calls[i].arguments == s.live_tool_calls[i].arguments,
        s.live_tool_calls[i].status != ToolStatus::Running ==> apply_event(
            s,
            target,
            e,
        ).live_tool_calls[i].status != ToolStatus::Running,
{
    match e {
        StreamEventView::ToolResult { id, result } => {
            lemma_find_live(s.live_tool_calls, id, 0);
        },
        _ => {},
    }
}

/// None of the events closes or fails the stream.
pub open spec fn all_ongoing(events: Seq<StreamEventView>) -> bool {
    forall|i: int| 0 <= i < events.len() ==> !((#[trigger] events[i]) is Done) && !(events[i] is Error)
}

/// The text that the events carry: the contents of the chunks among them,
/// in order.
pub open spec fn chunks_text(events: Seq<StreamEventView>) -> Seq<char>
    decreases events.len(),
{
    if events.len() == 0 {
        Seq::empty()
    } else {
        match events.last() {
            StreamEventView::Chunk { content } => chunks_text(events.drop_last()) + content,
            _ => chunks_text(events.drop_last()),
        }
    }
}

/// While the events of the active stream neither close nor fail it, the
/// stream stays active and its target stays the last message of the log.
pub proof fn lemma_stream_stays_active(
    s: AppView,
    target: Seq<char>,
    events: Seq<StreamEventView>,
)
    requires
        s.streaming_message_id == Some(target),
        all_ongoing(events),
    ensures
        apply_events(s, target, events).streaming_message_id == Some(target),
        apply_events(s, target, events).is_loading == s.is_loading,
        apply_events(s, target, events).messages.len() == s.messages.len(),
        targets_last(s.messages, target) ==> targets_last(
            apply_events(s, target, events).messages,
            target,
        ),
    decreases events.len(),
{
    if events.len() > 0 {
        assert(all_ongoing(events.drop_last())) by {
            assert forall|i: int| 0 <= i < events.drop_last().len() implies !((
            #[trigger] events.drop_last()[i]) is Done) && !(events.drop_last()[i] is Error) by {
                assert(events.drop_last()[i] == events[i]);
            }
        }
        lemma_stream_stays_active(s, target, events.drop_last());
        assert(!(events.last() is Done) && !(events.last() is Error)) by {
            assert(events.last() == events[events.len() - 1]);
        }
    }
}

/// While the events of the active stream neither close nor fail it, the
/// content of its target grows by exactly the text of the chunks, and
/// stays the concatenation of the text segments.
pub proof fn lemma_chunks_accumulate(
    s: AppView,
    target: Seq<char>,
    events: Seq<StreamEventView>,
)
    requires
        s.streaming_message_id == Some(target),
        targets_last(s.messages, target),
        content_consistent(s.messages.last()),
        all_ongoing(events),
    ensures
        apply_events(s, target, events).messages.last().content == s.messages.last().content
            + chunks_text(events),
        content_consistent(apply_events(s, target, events).messages.last()),
        apply_events(s, target, events).streaming_content == s.streaming_content + chunks_text(
            events,
        ),
    decreases events.len(),
{
    if events.len() == 0 {
        assert(s.messages.last().content + chunks_text(events) =~= s.messages.last().content);
        assert(s.streaming_content + chunks_text(events) =~= s.streaming_content);
    } else {
        let rest = events.drop_last();
        let e = events.last();
        assert(all_ongoing(rest)) by {
            assert forall|i: int| 0 <= i < rest.len() implies !((#[trigger] rest[i]) is Done) && !(
            rest[i] is Error) by {
                assert(rest[i] == events[i]);
            }
        }
        assert(!(e is Done) && !(e is Error)) by {
            assert(e == events[events.len() - 1]);
        }
        lemma_chunks_accumulate(s, target, rest);
        lemma_stream_stays_active(s, target, rest);
        let mid = apply_events(s, target, rest);
        let m = mid.messages.last();
        lemma_event_keeps_content_consistent(m, e);
        let after = apply_event(mid, target, e);
        match e {
            StreamEventView::ToolStart { name, arguments, id } => {
                if find_live(mid.live_tool_calls, id, 0) < mid.live_tool_calls.len() {
                    assert(after == mid);
                } else {
                    assert(after.messages.last() == message_after(m, e));
                }
            },
            StreamEventView::Context { .. } => {
                assert(after.messages == mid.messages);
            },
            _ => {
                assert(after.messages.last() == message_after(m, e));
            },
        }
        match e {
            StreamEventView::Chunk { content } => {
                assert(after.messages.last().content =~= s.messages.last().content + chunks_text(
                    events,
                ));
                assert(after.streaming_content =~= s.streaming_content + chunks_text(events));
            },
            _ => {},
        }
    }
}

/// A turn whose stream delivers chunks, tool calls and context and then
/// closes ends with an answer whose content is the text of the chunks, in
/// order, and with no stream active.
pub proof fn lemma_answer_is_the_chunks(
    s: AppView,
    target: Seq<char>,
    events: Seq<StreamEventView>,
    tool_calls: Seq<StreamToolCallView>,
)
    requires
        s.streaming_message_id == Some(target),
        targets_last(s.messages, target),
        s.messages.last() == placeholder(target, s.messages.last().timestamp),
        all_ongoing(events),
    ensures
        ({
            let closed = apply_event(
                apply_events(s, target, events),
                target,
                StreamEventView::Done { tool_calls: tool_calls },
            );
            &&& closed.messages.last().content == chunks_text(events)
            &&& closed.messages.last().id == target
            &&& !closed.is_loading
            &&& closed.streaming_message_id is None
        }),
{
    assert(flat_text(Seq::<SegmentView>::empty()) =~= Seq::<char>::empty());
    lemma_chunks_accumulate(s, target, events);
    lemma_stream_stays_active(s, target, events);
    assert(Seq::<char>::empty() + chunks_text(events) =~= chunks_text(events));
}

/// A tool call that has started and whose stream then fails before any
/// result stands in the live registry as failed, and the target of the
/// stream has become a notice that quotes the failure.
pub proof fn lemma_error_fails_started_tool(
    s: AppView,
    target: Seq<char>,
    name: Seq<char>,
    arguments: serde_json::Value,
    id: Seq<char>,
    content: Seq<char>,
)
    requires
        s.streaming_message_id == Some(target),
        targets_last(s.messages, target),
        find_live(s.live_tool_calls, id, 0) == s.live_tool_calls.len(),
    ensures
        ({
            let started = apply_event(
                s,
                target,
                StreamEventView::ToolStart { name: name, arguments: arguments, id: id },
            );
            let failed = apply_event(started, target, StreamEventView::Error { content: content });
            let i = find_live(failed.live_tool_calls, id, 0);
            &&& i < failed.live_tool_calls.len()
            &&& failed.live_tool_calls[i].status == ToolStatus::Failed
            &&& failed.messages.last().role == MessageRole::System
            &&& failed.messages.last().content == error_text(content)
            &&& failed.messages.last().segments.len() == 0
            &&& !failed.is_loading
        }),
{
    let started = apply_event(
        s,
        target,
        StreamEventView::ToolStart { name: name, arguments: arguments, id: id },
    );
    let failed = apply_event(started, target, StreamEventView::Error { content: content });
    lemma_find_live_added(s.live_tool_calls, started_entry(name, arguments, id), 0);
    lemma_find_live(started.live_tool_calls, id, 0);
    lemma_find_live_by_ids(started.live_tool_calls, failed.live_tool_calls, id, 0);
}

} // verus!
