//! What holds of every delivery, proved of the steps that a delivery takes.

use vstd::prelude::*;
use crate::text::trim_spec;
use crate::text_injection::{
    cfg_bounded, paste_applies, start_clipboard, start_paste, step_spec, verify_failed,
    next_delay, ActionSpec, DeliveryError, DeliveryOutcome, DeliverySpec, InjectorSpec, InputSpec,
    Phase, INITIAL_DELAY_MS, MAX_DELAY_MS, VERIFY_BUDGET_MS,
};

verus! {

/// Whether `input` is of the kind that a delivery in `phase` waits for.
pub open spec fn in_turn(phase: Phase, input: InputSpec) -> bool {
    match phase {
        Phase::Start => input is Begin,
        Phase::Typing | Phase::Copying { .. } | Phase::Reading { .. } | Phase::Pasting { .. } => input is Finished,
        Phase::CopyProbe { .. } | Phase::ReadProbe { .. } | Phase::PasteProbe { .. } => input is Probed,
        Phase::Settling | Phase::BackingOff => input is Slept,
        Phase::Done => false,
    }
}

/// Whether a delivery in `phase` is busy simulating the paste.
pub open spec fn in_paste_stage(phase: Phase) -> bool {
    phase is PasteProbe || phase is Pasting
}

/// Whether a delivery at `d` that asked for `a` waits for the answer to a
/// probe of a program that its injector lists.
pub open spec fn probe_pending(cfg: InjectorSpec, d: DeliverySpec, a: ActionSpec) -> bool {
    a is Probe ==> match d.phase {
        Phase::CopyProbe { backend } => backend < cfg.backends.len(),
        Phase::ReadProbe { backend } => backend < cfg.backends.len(),
        Phase::PasteProbe { method } => method < cfg.paste_methods.len(),
        _ => false,
    }
}

/// A bound on the probes that a delivery at `d` can still ask for in a row.
pub open spec fn probes_left(cfg: InjectorSpec, d: DeliverySpec) -> int {
    match d.phase {
        Phase::CopyProbe { backend } => cfg.backends.len() - backend,
        Phase::ReadProbe { backend } => cfg.backends.len() - backend + cfg.paste_methods.len() + 1,
        Phase::PasteProbe { method } => cfg.paste_methods.len() - method,
        _ => 0,
    }
}

/// The delivery after the probes that it asks for in a row were answered by
/// `answers`, one after the other, from the point `state` on.
pub open spec fn answer_probes(
    cfg: InjectorSpec,
    state: (DeliverySpec, ActionSpec),
    answers: Seq<bool>,
) -> (DeliverySpec, ActionSpec)
    decreases answers.len(),
{
    if answers.len() == 0 {
        state
    } else {
        let before = answer_probes(cfg, state, answers.drop_last());
        if before.1 is Probe {
            step_spec(cfg, before.0, InputSpec::Probed(answers.last()))
        } else {
            before
        }
    }
}

/// Turning to the paste never fails: it asks for a probe or a run of one of
/// the paste methods, or ends with the text left in the clipboard.
pub proof fn lemma_start_paste(cfg: InjectorSpec, d: DeliverySpec, from: int)
    requires
        0 <= from,
        cfg_bounded(cfg),
    ensures
        ({
            let (next, a) = start_paste(cfg, d, from);
            &&& a is Done ==> a == ActionSpec::Done(Ok(DeliveryOutcome::LeftInClipboard))
                && next.phase == Phase::Done
            &&& a is Probe ==> next.phase is PasteProbe && from <= next.phase->PasteProbe_method
                < cfg.paste_methods.len()
            &&& a is Run ==> next.phase is Pasting
            &&& !(a is Sleep)
            &&& next.text == d.text && next.delay_ms == d.delay_ms && next.total_ms == d.total_ms
        }),
    decreases cfg.paste_methods.len() - from,
{
    if from < cfg.paste_methods.len() {
        let m = cfg.paste_methods[from];
        if !paste_applies(m, cfg.desktop) {
            lemma_start_paste(cfg, d, from + 1);
        }
    }
}

/// However long the check of the clipboard fails, it surfaces no error: it
/// pauses and copies again, or goes on to the paste.
pub proof fn lemma_verify_failed_never_errors(cfg: InjectorSpec, d: DeliverySpec)
    requires
        cfg_bounded(cfg),
    ensures
        ({
            let (next, a) = verify_failed(cfg, d);
            &&& !(a matches ActionSpec::Done(Err(_)))
            &&& d.total_ms < VERIFY_BUDGET_MS && d.delay_ms <= MAX_DELAY_MS ==> a
                == ActionSpec::Sleep(d.delay_ms) && next.phase == Phase::BackingOff
                && next.total_ms == d.total_ms + d.delay_ms && next.delay_ms == next_delay(
                d.delay_ms,
            )
            &&& d.total_ms >= VERIFY_BUDGET_MS ==> (next, a) == start_paste(cfg, d, 0)
        }),
{
    lemma_start_paste(cfg, d, 0);
}

/// The pauses of the check never shrink below the first pause nor grow above
/// the longest, so each failed check uses up at least the first pause of the
/// budget.
pub proof fn lemma_backoff_progress(delay_ms: u64)
    requires
        INITIAL_DELAY_MS <= delay_ms <= MAX_DELAY_MS,
    ensures
        INITIAL_DELAY_MS <= next_delay(delay_ms) <= MAX_DELAY_MS,
        delay_ms <= next_delay(delay_ms),
{
}

/// A clipboard that reads back the text (surrounding whitespace aside) ends
/// the check: the delivery goes on to the paste. One that reads back
/// something else makes the delivery pause and copy again while the budget
/// lasts.
pub proof fn lemma_clipboard_check(
    cfg: InjectorSpec,
    d: DeliverySpec,
    backend: usize,
    stdout: Seq<char>,
)
    requires
        cfg_bounded(cfg),
        d.phase == (Phase::Reading { backend }),
    ensures
        trim_spec(stdout) == trim_spec(d.text) ==> step_spec(
            cfg,
            d,
            InputSpec::Finished { success: true, stdout },
        ) == start_paste(cfg, d, 0),
        trim_spec(stdout) != trim_spec(d.text) ==> step_spec(
            cfg,
            d,
            InputSpec::Finished { success: true, stdout },
        ) == verify_failed(cfg, d),
        !(step_spec(cfg, d, InputSpec::Finished { success: true, stdout }).1 matches ActionSpec::Done(
            Err(_),
        )),
{
    lemma_start_paste(cfg, d, 0);
    lemma_verify_failed_never_errors(cfg, d);
}

/// A program that fails to type the text makes the delivery fall through to
/// the clipboard.
pub proof fn lemma_direct_failure_falls_back(cfg: InjectorSpec, d: DeliverySpec, stdout: Seq<char>)
    requires
        d.phase == Phase::Typing,
    ensures
        step_spec(cfg, d, InputSpec::Finished { success: false, stdout }) == start_clipboard(
            cfg,
            d,
        ),
{
}

/// Once the delivery simulates the paste, nothing that the paste programs do
/// can fail it: each step stays with the paste, or ends the delivery well.
pub proof fn lemma_paste_stage_never_fails(cfg: InjectorSpec, d: DeliverySpec, input: InputSpec)
    requires
        cfg_bounded(cfg),
        in_paste_stage(d.phase),
        in_turn(d.phase, input),
    ensures
        ({
            let (next, a) = step_spec(cfg, d, input);
            &&& a is Done ==> (a == ActionSpec::Done(Ok(DeliveryOutcome::Pasted)) || a
                == ActionSpec::Done(Ok(DeliveryOutcome::LeftInClipboard)))
            &&& !(a is Done) ==> in_paste_stage(next.phase)
        }),
{
    match d.phase {
        Phase::PasteProbe { method } => {
            lemma_start_paste(cfg, d, method + 1);
        },
        Phase::Pasting { method } => {
            lemma_start_paste(cfg, d, method + 1);
        },
        _ => {},
    }
}

/// A delivery that is driven in turn fails in one way only: no clipboard
/// program took the text. Nothing that a typing program, a read of the
/// clipboard or a paste program does is surfaced as an error.
pub proof fn lemma_only_failure_is_no_clipboard_tool(
    cfg: InjectorSpec,
    d: DeliverySpec,
    input: InputSpec,
)
    requires
        cfg_bounded(cfg),
        in_turn(d.phase, input),
    ensures
        step_spec(cfg, d, input).1 matches ActionSpec::Done(Err(e)) ==> e
            == DeliveryError::NoClipboardTool && !in_paste_stage(d.phase) && !(d.phase is Reading)
            && !(d.phase is ReadProbe) && !(d.phase is Settling),
{
    lemma_start_paste(cfg, d, 0);
    lemma_verify_failed_never_errors(cfg, d);
    match d.phase {
        Phase::PasteProbe { method } => {
            lemma_start_paste(cfg, d, method + 1);
        },
        Phase::Pasting { method } => {
            lemma_start_paste(cfg, d, method + 1);
        },
        _ => {},
    }
}

/// The delivery after the inputs `inputs`, one after the other, and what it
/// asked for last; `a` where there are none.
pub open spec fn run_spec(cfg: InjectorSpec, d: DeliverySpec, a: ActionSpec, inputs: Seq<InputSpec>)
    -> (DeliverySpec, ActionSpec)
    decreases inputs.len(),
{
    if inputs.len() == 0 {
        (d, a)
    } else {
        let before = run_spec(cfg, d, a, inputs.drop_last());
        step_spec(cfg, before.0, inputs.last())
    }
}

/// Whether each of `inputs` is of the kind that the delivery waits for when
/// it gets it.
pub open spec fn driven_in_turn(cfg: InjectorSpec, d: DeliverySpec, a: ActionSpec, inputs: Seq<InputSpec>)
    -> bool
    decreases inputs.len(),
{
    inputs.len() > 0 ==> driven_in_turn(cfg, d, a, inputs.drop_last()) && in_turn(
        run_spec(cfg, d, a, inputs.drop_last()).0.phase,
        inputs.last(),
    )
}

/// From the moment the paste is simulated, whatever the paste programs do and
/// however many of them fail, the delivery does not end in an error: it is
/// still with the paste, or it has ended well.
pub proof fn lemma_paste_run_never_fails(
    cfg: InjectorSpec,
    d: DeliverySpec,
    a: ActionSpec,
    inputs: Seq<InputSpec>,
)
    requires
        cfg_bounded(cfg),
        in_paste_stage(d.phase),
        !(a is Done),
        driven_in_turn(cfg, d, a, inputs),
    ensures
        ({
            let (last, asked) = run_spec(cfg, d, a, inputs);
            if asked is Done {
                asked == ActionSpec::Done(Ok(DeliveryOutcome::Pasted)) || asked
                    == ActionSpec::Done(Ok(DeliveryOutcome::LeftInClipboard))
            } else {
                in_paste_stage(last.phase)
            }
        }),
    decreases inputs.len(),
{
    if inputs.len() > 0 {
        let before = run_spec(cfg, d, a, inputs.drop_last());
        lemma_paste_run_never_fails(cfg, d, a, inputs.drop_last());
        if before.1 is Done {
            lemma_start_paste(cfg, d, 0);
            assert(before.0.phase == Phase::Done) by {
                lemma_done_means_phase_done(cfg, d, a, inputs.drop_last());
            }
        } else {
            lemma_paste_stage_never_fails(cfg, before.0, inputs.last());
        }
    }
}

/// A delivery that asked for nothing more stands at its end.
pub proof fn lemma_done_means_phase_done(
    cfg: InjectorSpec,
    d: DeliverySpec,
    a: ActionSpec,
    inputs: Seq<InputSpec>,
)
    requires
        cfg_bounded(cfg),
        a is Done ==> d.phase == Phase::Done,
    ensures
        run_spec(cfg, d, a, inputs).1 is Done ==> run_spec(cfg, d, a, inputs).0.phase
            == Phase::Done,
    decreases inputs.len(),
{
    if inputs.len() > 0 {
        let before = run_spec(cfg, d, a, inputs.drop_last());
        lemma_start_paste(cfg, before.0, 0);
        let reset = DeliverySpec { delay_ms: INITIAL_DELAY_MS, total_ms: 0, ..before.0 };
        lemma_start_paste(cfg, reset, 0);
        match before.0.phase {
            Phase::PasteProbe { method } => {
                lemma_start_paste(cfg, before.0, method + 1);
            },
            Phase::Pasting { method } => {
                lemma_start_paste(cfg, before.0, method + 1);
            },
            _ => {},
        }
    }
}

/// After every step a probe that is asked for is one that the delivery waits
/// for, and answers to probes in a row use up their bound.
pub proof fn lemma_probes_run_out(cfg: InjectorSpec, d: DeliverySpec, input: InputSpec)
    requires
        cfg_bounded(cfg),
    ensures
        probe_pending(cfg, step_spec(cfg, d, input).0, step_spec(cfg, d, input).1),
        input is Probed && probe_pending(cfg, d, ActionSpec::Probe(Seq::empty())) && step_spec(
            cfg,
            d,
            input,
        ).1 is Probe ==> 0 <= probes_left(cfg, step_spec(cfg, d, input).0) < probes_left(cfg, d),
{
    lemma_start_paste(cfg, d, 0);
    let reset = DeliverySpec { delay_ms: INITIAL_DELAY_MS, total_ms: 0, ..d };
    lemma_start_paste(cfg, reset, 0);
    match d.phase {
        Phase::PasteProbe { method } => {
            lemma_start_paste(cfg, d, method + 1);
        },
        Phase::Pasting { method } => {
            lemma_start_paste(cfg, d, method + 1);
        },
        _ => {},
    }
}

} // verus!
