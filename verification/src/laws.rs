//! What holds of the engine in every state and after every stimulus.
use vstd::prelude::*;
use crate::app::{AppView, StimulusView};
use crate::entry::EntryView;
use crate::event::{Event, KeyCode, KeyEvent, KeyEventKind};
use crate::style::Style;

verus! {

/// A tick on a valid focused field gives every other field the entry that was
/// scaled to it and leaves the focused field as it was typed. No field's
/// title changes.
pub proof fn lemma_update_propagates(state: AppView, scaled: Seq<EntryView>)
    requires
        state.wf(),
        state.current_valid(),
        scaled.len() == state.fields.len(),
    ensures
        state.updated(scaled).fields.len() == state.fields.len(),
        state.updated(scaled).fields[state.focus] == state.fields[state.focus],
        forall|i: int|
            0 <= i < state.fields.len() && i != state.focus ==> {
                &&& (#[trigger] state.updated(scaled).fields[i]).entry == scaled[i]
                &&& state.updated(scaled).fields[i].title == state.fields[i].title
            },
{
}

/// A tick on an invalid focused field changes nothing: every field keeps its
/// text, and the focused field is shown as invalid.
pub proof fn lemma_update_keeps_all_while_invalid(state: AppView, scaled: Seq<EntryView>)
    requires
        state.wf(),
        !state.current_valid(),
    ensures
        state.updated(scaled) == state,
        state.style(state.focus) == Style::Invalid,
{
}

/// A second tick with the same scaled entries changes nothing further.
pub proof fn lemma_update_idempotent(state: AppView, scaled: Seq<EntryView>)
    requires
        state.wf(),
    ensures
        state.updated(scaled).updated(scaled) == state.updated(scaled),
{
    let once = state.updated(scaled);
    if state.current_valid() && scaled.len() == state.fields.len() {
        assert(once.fields[once.focus] == state.fields[state.focus]);
        assert(once.updated(scaled).fields =~= once.fields);
    }
}

/// A tick changes nothing that the scaling starts from: the focus, the
/// focused field and the ratios stay, so the same entries are scaled again
/// until the focused field is edited.
pub proof fn lemma_update_keeps_source(state: AppView, scaled: Seq<EntryView>)
    requires
        state.wf(),
    ensures
        state.updated(scaled).focus == state.focus,
        state.updated(scaled).fields[state.focus] == state.fields[state.focus],
        state.updated(scaled).ratios() == state.ratios(),
{
    assert(state.updated(scaled).ratios() =~= state.ratios());
}

/// One stimulus leaves a well-formed state well-formed and the ratios as
/// they were.
pub proof fn lemma_step_keeps_ratios(state: AppView, stimulus: StimulusView)
    requires
        state.wf(),
    ensures
        state.stepped(stimulus).wf(),
        state.stepped(stimulus).ratios() == state.ratios(),
{
    let next = state.stepped(stimulus);
    assert(next.fields.len() == state.fields.len());
    assert forall|i: int| 0 <= i < state.fields.len() implies (#[trigger] next.fields[i]).ratio
        == state.fields[i].ratio by {}
    assert(next.ratios() =~= state.ratios());
}

/// The ratios never change: after any stimuli, however many, every field has
/// the ratio that it was made with, and the first field's ratio is one.
pub proof fn lemma_ratios_never_change(state: AppView, stimuli: Seq<StimulusView>)
    requires
        state.wf(),
    ensures
        state.run(stimuli).wf(),
        state.run(stimuli).ratios() == state.ratios(),
        state.run(stimuli).ratios()[0].is_one(),
    decreases stimuli.len(),
{
    if state.quit || stimuli.len() == 0 {
    } else {
        lemma_step_keeps_ratios(state, stimuli[0]);
        lemma_ratios_never_change(state.stepped(stimuli[0]), stimuli.drop_first());
    }
}

/// Once leaving was requested the event loop takes no further stimulus.
pub proof fn lemma_run_ends_on_quit(state: AppView, stimuli: Seq<StimulusView>)
    requires
        state.quit,
    ensures
        state.run(stimuli) == state,
{
}

/// The state after `count` requests in a row to move the focus on.
pub open spec fn advanced_times(state: AppView, count: nat) -> AppView
    decreases count,
{
    if count == 0 {
        state
    } else {
        advanced_times(state.advanced(), (count - 1) as nat)
    }
}

/// The focus does not leave an invalid field: however often it is asked to
/// move on, the state stays as it is.
pub proof fn lemma_focus_stays_while_invalid(state: AppView, count: nat)
    requires
        state.wf(),
        !state.current_valid(),
    ensures
        advanced_times(state, count) == state,
    decreases count,
{
    if count > 0 {
        lemma_focus_stays_while_invalid(state, (count - 1) as nat);
    }
}

/// No event of the terminal moves the focus off an invalid field or changes
/// a field.
pub proof fn lemma_event_keeps_invalid_focus(state: AppView, event: Event)
    requires
        state.wf(),
        !state.current_valid(),
    ensures
        state.handled(event).focus == state.focus,
        state.handled(event).fields == state.fields,
{
}

/// On a valid field, the tab key going down moves the focus to the next
/// field, and from the last field to the first.
pub proof fn lemma_tab_moves_valid_focus(state: AppView)
    requires
        state.wf(),
        state.current_valid(),
    ensures
        state.handled(
            Event::Key(KeyEvent { code: KeyCode::Tab, kind: KeyEventKind::Press }),
        ).focus == if state.focus + 1 == state.fields.len() {
            0
        } else {
            state.focus + 1
        },
{
    let count = state.fields.len() as int;
    let next = state.focus + 1;
    if next == count {
        assert(next % count == 0) by (nonlinear_arith)
            requires
                next == count,
                count > 0,
        ;
    } else {
        assert(next % count == next) by (nonlinear_arith)
            requires
                0 <= next < count,
        ;
    }
}

/// What the editor leaves in the focused field changes no other field.
pub proof fn lemma_typing_touches_focus_only(state: AppView, entry: EntryView)
    requires
        state.wf(),
    ensures
        state.typed(entry).fields[state.focus].entry == entry,
        forall|i: int|
            0 <= i < state.fields.len() && i != state.focus ==> #[trigger] state.typed(
                entry,
            ).fields[i] == state.fields[i],
{
}

/// Exactly the focused field is shown as focused or as invalid, and which of
/// the two depends on nothing but its validity.
pub proof fn lemma_style_follows_focus(state: AppView, index: int)
    requires
        state.wf(),
        0 <= index < state.fields.len(),
    ensures
        state.style(index) == Style::Unfocussed <==> index != state.focus,
        state.style(index) == Style::Focussed <==> index == state.focus && state.current_valid(),
        state.style(index) == Style::Invalid <==> index == state.focus && !state.current_valid(),
{
}

} // verus!
