//! Whole dialogues of the classifier: the instructions that a sequence of
//! reports draws, and what holds of every such sequence.

use vstd::prelude::*;
use crate::classifier::{
    classification, is_key_down, left_control_held, opening, step, Event, InstructionView,
    KeyNotice, Stage,
};
use crate::command::{control_entry, CommandView, VK_BACK, VK_DELETE, VK_ESCAPE, VK_RETURN};

verus! {

/// The instructions that the reports `events` draw, one after the other,
/// from a dialogue that stands at `stage`.
pub open spec fn replies(stage: Stage, events: Seq<Event>) -> Seq<InstructionView>
    decreases events.len(),
{
    if events.len() == 0 {
        Seq::empty()
    } else {
        seq![step(stage, events[0]).1] + replies(step(stage, events[0]).0, events.skip(1))
    }
}

/// Where a dialogue that stood at `stage` stands after the reports `events`.
pub open spec fn stage_after(stage: Stage, events: Seq<Event>) -> Stage
    decreases events.len(),
{
    if events.len() == 0 {
        stage
    } else {
        stage_after(step(stage, events[0]).0, events.skip(1))
    }
}

/// Every instruction of one callback invocation: the opening one, then one
/// for each report.
pub open spec fn transcript(code: i32, message: usize, events: Seq<Event>) -> Seq<
    InstructionView,
> {
    seq![opening(code, message).1] + replies(opening(code, message).0, events)
}

/// How many times `instructions` ask for an attach.
pub open spec fn attaches(instructions: Seq<InstructionView>) -> nat
    decreases instructions.len(),
{
    if instructions.len() == 0 {
        0
    } else if instructions[0] is AttachInput {
        1 + attaches(instructions.skip(1))
    } else {
        attaches(instructions.skip(1))
    }
}

/// How many times `instructions` ask for a detach.
pub open spec fn detaches(instructions: Seq<InstructionView>) -> nat
    decreases instructions.len(),
{
    if instructions.len() == 0 {
        0
    } else if instructions[0] is DetachInput {
        1 + detaches(instructions.skip(1))
    } else {
        detaches(instructions.skip(1))
    }
}

/// The attaches that a stage still owes a detach for.
pub open spec fn outstanding(stage: Stage) -> nat {
    match stage {
        Stage::Attaching { .. } | Stage::Reading { .. } => 1,
        _ => 0,
    }
}

/// The attaches that a stage may still ask for.
pub open spec fn attaches_ahead(stage: Stage) -> nat {
    match stage {
        Stage::Identifying => 1,
        _ => 0,
    }
}

/// The reports of a host that answers each instruction in turn.
pub open spec fn in_turn(
    key: u32,
    attached: bool,
    snapshot: Seq<u8>,
    count: i32,
    units: Seq<u16>,
) -> Seq<Event> {
    seq![
        Event::Key(key),
        Event::Attached(attached),
        Event::Snapshot(snapshot),
        Event::Detached,
        Event::Translated { count, units },
    ]
}

proof fn lemma_counts_of_cons(first: InstructionView, rest: Seq<InstructionView>)
    ensures
        attaches(seq![first] + rest) == attaches(rest) + (if first is AttachInput {
            1nat
        } else {
            0nat
        }),
        detaches(seq![first] + rest) == detaches(rest) + (if first is DetachInput {
            1nat
        } else {
            0nat
        }),
{
    assert((seq![first] + rest).skip(1) =~= rest);
}

proof fn lemma_replies_balance(stage: Stage, events: Seq<Event>)
    ensures
        replies(stage, events).len() == events.len(),
        attaches(replies(stage, events)) <= attaches_ahead(stage),
        attaches(replies(stage, events)) + outstanding(stage) == detaches(replies(stage, events))
            + outstanding(stage_after(stage, events)),
        events.len() > 0 ==> (replies(stage, events).last() is Finish <==> stage_after(
            stage,
            events,
        ) is Settled),
    decreases events.len(),
{
    if events.len() > 0 {
        let next = step(stage, events[0]);
        let rest = replies(next.0, events.skip(1));
        lemma_replies_balance(next.0, events.skip(1));
        lemma_counts_of_cons(next.1, rest);
        if events.len() > 1 {
            assert((seq![next.1] + rest).last() == rest.last());
        }
    }
}

proof fn lemma_replies_prefix(stage: Stage, events: Seq<Event>, n: int)
    requires
        0 <= n <= events.len(),
    ensures
        replies(stage, events).len() == events.len(),
        replies(stage, events).take(n) == replies(stage, events.take(n)),
    decreases events.len(),
{
    lemma_replies_balance(stage, events);
    if n == 0 {
        assert(replies(stage, events).take(n) =~= Seq::empty());
        assert(events.take(n) =~= Seq::empty());
    } else {
        let next = step(stage, events[0]);
        lemma_replies_prefix(next.0, events.skip(1), n - 1);
        assert(events.take(n).skip(1) =~= events.skip(1).take(n - 1));
        assert(events.take(n)[0] == events[0]);
        assert(replies(stage, events).take(n) =~= seq![next.1] + replies(
            next.0,
            events.skip(1),
        ).take(n - 1));
    }
}

proof fn lemma_replies_first(stage: Stage, events: Seq<Event>)
    requires
        events.len() > 0,
    ensures
        replies(stage, events) == seq![step(stage, events[0]).1] + replies(
            step(stage, events[0]).0,
            events.skip(1),
        ),
{
}

/// Whatever the host reports, and in whatever order, one callback invocation
/// asks for at most one attach, never for more detaches than attaches, and
/// for exactly as many of each once it has finished. The report of the
/// attach's own success is among the reports, so a failed attach is detached
/// like any other.
pub proof fn law_attach_is_paired(code: i32, message: usize, events: Seq<Event>)
    ensures
        attaches(transcript(code, message, events)) <= 1,
        detaches(transcript(code, message, events)) <= attaches(
            transcript(code, message, events),
        ),
        attaches(transcript(code, message, events)) == detaches(
            transcript(code, message, events),
        ) + outstanding(stage_after(opening(code, message).0, events)),
        transcript(code, message, events).last() is Finish ==> attaches(
            transcript(code, message, events),
        ) == detaches(transcript(code, message, events)),
{
    let first = opening(code, message);
    lemma_replies_balance(first.0, events);
    lemma_counts_of_cons(first.1, replies(first.0, events));
    if events.len() > 0 {
        assert(transcript(code, message, events).last() == replies(first.0, events).last());
    } else {
        assert(transcript(code, message, events) =~= seq![first.1]);
    }
}

/// At no point of a callback invocation have more detaches been asked for
/// than attaches: a detach always answers an attach that came before it.
pub proof fn law_detach_follows_attach(code: i32, message: usize, events: Seq<Event>, n: int)
    requires
        0 <= n <= transcript(code, message, events).len(),
    ensures
        detaches(transcript(code, message, events).take(n)) <= attaches(
            transcript(code, message, events).take(n),
        ),
{
    let first = opening(code, message);
    let whole = transcript(code, message, events);
    lemma_replies_balance(first.0, events);
    if n == 0 {
        assert(whole.take(n) =~= Seq::empty());
    } else {
        lemma_replies_prefix(first.0, events, n - 1);
        assert(whole.take(n) =~= transcript(code, message, events.take(n - 1)));
        law_attach_is_paired(code, message, events.take(n - 1));
    }
}

/// A key of the control table is classified by the table alone, whatever
/// the keyboard state and the layout's translation are, and the event is
/// always swallowed: Delete and Backspace delete, Escape cancels, Return
/// submits. The dialogue ends as soon as the key is known.
pub proof fn law_control_table_decides(
    notice: KeyNotice,
    snapshot: Seq<u8>,
    count: i32,
    units: Seq<u16>,
)
    requires
        is_key_down(notice.code, notice.message),
        notice.key == VK_DELETE || notice.key == VK_ESCAPE || notice.key == VK_BACK || notice.key
            == VK_RETURN,
    ensures
        classification(notice, snapshot, count, units) == control_entry(notice.key),
        classification(notice, snapshot, count, units).is_some(),
        step(Stage::Identifying, Event::Key(notice.key)) == (
            Stage::Settled,
            InstructionView::Finish(control_entry(notice.key)),
        ),
        control_entry(VK_DELETE) == Some(CommandView::Delete),
        control_entry(VK_BACK) == Some(CommandView::Delete),
        control_entry(VK_ESCAPE) == Some(CommandView::Cancel),
        control_entry(VK_RETURN) == Some(CommandView::Submit),
{
}

/// With the left Control key held in the snapshot, a key outside the control
/// table gives no command and the event is forwarded, whatever the layout
/// would translate it to.
pub proof fn law_control_held_forwards(
    notice: KeyNotice,
    snapshot: Seq<u8>,
    count: i32,
    units: Seq<u16>,
)
    requires
        left_control_held(snapshot),
        control_entry(notice.key).is_none(),
    ensures
        classification(notice, snapshot, count, units).is_none(),
{
}

/// Once a snapshot with the left Control key held has been reported, the
/// dialogue gives no command, at whatever stage the report came: the next
/// instruction is a detach or the end with the event forwarded, and the one
/// after it is that end.
pub proof fn law_no_command_after_control(stage: Stage, snapshot: Seq<u8>, event: Event)
    requires
        left_control_held(snapshot),
    ensures
        step(stage, Event::Snapshot(snapshot)).1 is DetachInput || step(
            stage,
            Event::Snapshot(snapshot),
        ).1 == InstructionView::Finish(None),
        step(stage, Event::Snapshot(snapshot)).1 is DetachInput ==> step(
            step(stage, Event::Snapshot(snapshot)).0,
            event,
        ).1 == InstructionView::Finish(None),
{
}

/// With a host that answers in turn, a key-down ends with the
/// classification of what was observed: after one report for a key of the
/// control table, after four when the left Control key is held, and after
/// all five otherwise. Nothing is attached for a key of the control table.
pub proof fn law_dialogue_gives_classification(
    notice: KeyNotice,
    attached: bool,
    snapshot: Seq<u8>,
    count: i32,
    units: Seq<u16>,
)
    requires
        is_key_down(notice.code, notice.message),
    ensures
        ({
            let events = in_turn(notice.key, attached, snapshot, count, units);
            let verdict = InstructionView::Finish(
                classification(notice, snapshot, count, units),
            );
            if control_entry(notice.key).is_some() {
                transcript(notice.code, notice.message, events.take(1)) == seq![
                    InstructionView::ReadKey,
                    verdict,
                ]
            } else if left_control_held(snapshot) {
                transcript(notice.code, notice.message, events.take(4)) == seq![
                    InstructionView::ReadKey,
                    InstructionView::AttachInput,
                    InstructionView::ReadKeyboardState,
                    InstructionView::DetachInput,
                    verdict,
                ]
            } else {
                transcript(notice.code, notice.message, events) == seq![
                    InstructionView::ReadKey,
                    InstructionView::AttachInput,
                    InstructionView::ReadKeyboardState,
                    InstructionView::DetachInput,
                    InstructionView::Translate { key: notice.key },
                    verdict,
                ]
            }
        }),
{
    let events = in_turn(notice.key, attached, snapshot, count, units);
    let s0 = opening(notice.code, notice.message).0;
    let s1 = step(s0, events[0]).0;
    let s2 = step(s1, events[1]).0;
    let s3 = step(s2, events[2]).0;
    let s4 = step(s3, events[3]).0;
    let s5 = step(s4, events[4]).0;
    let e1 = events.skip(1);
    let e2 = e1.skip(1);
    let e3 = e2.skip(1);
    let e4 = e3.skip(1);
    let e5 = e4.skip(1);
    assert(e1[0] == events[1] && e2[0] == events[2] && e3[0] == events[3] && e4[0] == events[4]);
    assert(replies(s5, e5) =~= Seq::empty());
    lemma_replies_first(s4, e4);
    lemma_replies_first(s3, e3);
    lemma_replies_first(s2, e2);
    lemma_replies_first(s1, e1);
    lemma_replies_first(s0, events);
    let whole = transcript(notice.code, notice.message, events);
    assert(whole =~= seq![
        InstructionView::ReadKey,
        step(s0, events[0]).1,
        step(s1, events[1]).1,
        step(s2, events[2]).1,
        step(s3, events[3]).1,
        step(s4, events[4]).1,
    ]);
    if control_entry(notice.key).is_some() {
        lemma_replies_prefix(s0, events, 1);
        assert(transcript(notice.code, notice.message, events.take(1)) =~= whole.take(2));
    } else if left_control_held(snapshot) {
        lemma_replies_prefix(s0, events, 4);
        assert(transcript(notice.code, notice.message, events.take(4)) =~= whole.take(5));
    }
}

} // verus!
