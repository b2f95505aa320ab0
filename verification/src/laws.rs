//! Properties that hold of the camera's commands and of their exchange as a whole.
use vstd::prelude::*;

use crate::camera::{
    ActionView, CameraView, Query, Setting, Stage, StepView, after_length, after_reply, after_start,
    announced_len, begin_at, clamp_blur_level, idle, length_query, now_plan, prerequisites,
    setting_frame, setting_plan, settings_plan, well_formed,
};
use crate::command::{
    CommandError, accumulate, argument, fixed_command, is_name_end, name_end, parse_command,
    parse_unsigned, parse_words,
};
use crate::error::{Errno, LENGTH_MISMATCH};
use crate::protocol::{
    CAMERA_BG_BLUR_LEVEL, CAMERA_BG_BITMAP_N, CAMERA_SLEEP_S, FRAME_LEN, MAX_BLUR_LEVEL, be_bytes,
    frame, from_be, from_le, le_bytes,
};

verus! {

/// A settings frame is always the frame length long: the command bytes, then
/// the parameter bytes, then zeros.
pub proof fn law_frame_layout(cmd: Seq<u8>, param: Seq<u8>)
    requires
        cmd.len() + param.len() <= FRAME_LEN,
    ensures
        frame(cmd, param).len() == FRAME_LEN,
        frame(cmd, param).take(cmd.len() as int) == cmd,
        frame(cmd, param).subrange(cmd.len() as int, (cmd.len() + param.len()) as int) == param,
        forall|i: int|
            cmd.len() + param.len() <= i < FRAME_LEN ==> #[trigger] frame(cmd, param)[i] == 0u8,
{
    let f = frame(cmd, param);
    assert(f.take(cmd.len() as int) =~= cmd);
    assert(f.subrange(cmd.len() as int, (cmd.len() + param.len()) as int) =~= param);
}

/// Every setting is made by one frame of the frame length.
pub proof fn law_setting_frame_length(s: Setting)
    ensures
        setting_frame(s).len() == FRAME_LEN,
        setting_plan(s).len() == 1,
{
    assert(CAMERA_BG_BLUR_LEVEL@.len() == 2);
}

/// The blur level that is sent is the requested level, or the maximum where
/// the request is above it: never more than the maximum.
pub proof fn law_blur_level_clamped(level: u8)
    ensures
        setting_frame(Setting::BlurLevel(level))[2] == clamp_blur_level(level),
        clamp_blur_level(level) <= MAX_BLUR_LEVEL,
        level <= MAX_BLUR_LEVEL ==> clamp_blur_level(level) == level,
        level >= MAX_BLUR_LEVEL ==> clamp_blur_level(level) == MAX_BLUR_LEVEL,
{
}

/// The two bytes of the auto-sleep delay, least significant first, give back
/// the delay; so do those of a background image number, most significant first.
pub proof fn law_parameters_round_trip(n: u16)
    ensures
        from_le(setting_frame(Setting::Sleep(n))[2], setting_frame(Setting::Sleep(n))[3]) == n,
        from_be(setting_frame(Setting::BgBitmapN(n))[2], setting_frame(Setting::BgBitmapN(n))[3])
            == n,
{
    assert(CAMERA_SLEEP_S@.len() == 2);
    assert(CAMERA_BG_BITMAP_N@.len() == 2);
    assert(setting_frame(Setting::Sleep(n))[2] == le_bytes(n)[0]);
    assert(setting_frame(Setting::Sleep(n))[3] == le_bytes(n)[1]);
    assert(setting_frame(Setting::BgBitmapN(n))[2] == be_bytes(n)[0]);
    assert(setting_frame(Setting::BgBitmapN(n))[3] == be_bytes(n)[1]);
}

/// A control length reply decodes to the number whose bytes, least
/// significant first, it holds.
pub proof fn law_length_reply_round_trip(n: u16)
    ensures
        announced_len(le_bytes(n)) == n,
{
}

/// The command that makes a setting at once makes the setting, then makes its
/// first prerequisite at once: each prerequisite brings its own along.
pub proof fn law_now_chains(s: Setting)
    ensures
        prerequisites(s).len() > 0 ==> now_plan(s) == setting_plan(s) + now_plan(
            prerequisites(s)[0],
        ),
        prerequisites(s).len() == 0 ==> now_plan(s) == setting_plan(s),
        forall|i: int|
            0 <= i < prerequisites(s).len() ==> prerequisites(#[trigger] prerequisites(s)[i])
                == prerequisites(s).skip(i + 1),
{
    let p = prerequisites(s);
    if p.len() > 0 {
        assert(seq![s] + p =~= seq![s] + (seq![p[0]] + prerequisites(p[0])));
        assert(settings_plan(seq![s] + p) =~= setting_plan(s) + now_plan(p[0]));
    } else {
        assert(seq![s] + p =~= seq![s]);
    }
    assert forall|i: int| 0 <= i < p.len() implies prerequisites(#[trigger] p[i]) == p.skip(
        i + 1,
    ) by {
        assert(prerequisites(p[i]) =~= p.skip(i + 1));
    }
}

/// A command made at once ends by turning on the effect its setting belongs
/// to, whenever the setting needs one.
pub proof fn law_now_ends_with_effect(s: Setting)
    ensures
        prerequisites(s).len() > 0 ==> prerequisites(s).last() == Setting::EffectBg
            || prerequisites(s).last() == Setting::EffectTrack,
{
}

/// The name of a command word ends at one place.
proof fn lemma_name_end_exists(t: Seq<u8>)
    ensures
        is_name_end(t, name_end(t)),
    decreases t.len(),
{
    if t.len() == 0 {
        assert(is_name_end(t, 0));
    } else if t[0] == crate::command::EQUALS {
        assert(is_name_end(t, 0));
    } else {
        let rest = t.drop_first();
        lemma_name_end_exists(rest);
        let e = name_end(rest);
        assert forall|j: int| 0 <= j < e + 1 implies t[j] != crate::command::EQUALS by {
            if j > 0 {
                assert(t[j] == rest[j - 1]);
            }
        }
        if e < rest.len() {
            assert(t[e + 1] == rest[e]);
        }
        assert(is_name_end(t, e + 1));
    }
}

/// A command that takes no argument ignores any argument given to it: the
/// word names the same command as its name alone.
pub proof fn law_argument_ignored(t: Seq<u8>)
    requires
        fixed_command(t.take(name_end(t))) is Some,
    ensures
        parse_command(t) == parse_command(t.take(name_end(t))),
{
    lemma_name_end_exists(t);
    let e = name_end(t);
    let name = t.take(e);
    lemma_name_end_exists(name);
    assert(is_name_end(name, e));
    let f = name_end(name);
    if f < e {
        assert(name[f] != crate::command::EQUALS);
    }
    if e < f {
        assert(name[e] != crate::command::EQUALS);
    }
    assert(name.take(e) =~= name);
}

/// Decimal digits read after a value in range give a value in range.
proof fn lemma_accumulate_bounded(d: Seq<u8>, acc: nat, max: nat)
    requires
        acc <= max,
    ensures
        accumulate(d, acc, max) matches Ok(v) ==> v <= max,
    decreases d.len(),
{
    if d.len() > 0 && crate::command::is_digit(d[0]) && acc * 10 + (d[0]
        - crate::command::ZERO) <= max {
        lemma_accumulate_bounded(
            d.drop_first(),
            (acc * 10 + (d[0] - crate::command::ZERO)) as nat,
            max,
        );
    }
}

/// A number that parses is never above the largest value of its type.
pub proof fn law_number_in_range(s: Seq<u8>, max: nat)
    ensures
        parse_unsigned(s, max) matches Ok(v) ==> v <= max,
{
    if s.len() > 0 {
        lemma_accumulate_bounded(s.drop_first(), 0, max);
        lemma_accumulate_bounded(s, 0, max);
    }
}

/// Reading the words of a command line one run after another gives what
/// reading them at once gives, as long as the first run names only commands.
pub proof fn law_words_concat(a: Seq<Seq<u8>>, b: Seq<Seq<u8>>)
    requires
        parse_words(a).1 is None,
    ensures
        parse_words(a + b) == (parse_words(a).0 + parse_words(b).0, parse_words(b).1),
    decreases a.len(),
{
    if a.len() == 0 {
        assert(a + b =~= b);
        assert(parse_words(a).0 + parse_words(b).0 =~= parse_words(b).0);
    } else {
        assert((a + b).drop_first() =~= a.drop_first() + b);
        assert((a + b)[0] == a[0]);
        law_words_concat(a.drop_first(), b);
        let c = parse_command(a[0])->Ok_0;
        assert(seq![c] + (parse_words(a.drop_first()).0 + parse_words(b).0) =~= (seq![c]
            + parse_words(a.drop_first()).0) + parse_words(b).0);
    }
}

/// The first word that names no command ends the reading: the commands are
/// those before it, the failure is its own, and the words after it are not read.
pub proof fn law_words_stop_at_failure(a: Seq<Seq<u8>>, w: Seq<u8>, rest: Seq<Seq<u8>>, e: CommandError)
    requires
        parse_words(a).1 is None,
        parse_command(w) == Err::<crate::command::CommandView, CommandError>(e),
    ensures
        parse_words(a + seq![w] + rest) == (parse_words(a).0, Some(e)),
{
    law_words_concat(a, seq![w] + rest);
    assert(a + seq![w] + rest =~= a + (seq![w] + rest));
    assert((seq![w] + rest)[0] == w);
    assert(parse_words(a).0 + seq![] =~= parse_words(a).0);
}

/// Before a control is read or written, its length is asked: the first action
/// of a read or write step is the length request of that step's control.
pub proof fn law_length_asked_first(plan: Seq<StepView>, i: nat)
    requires
        i < plan.len(),
        !(plan[i as int] is Info),
    ensures
        begin_at(plan, i).0.stage == Stage::Sizing,
        begin_at(plan, i).1 == (match plan[i as int] {
            StepView::Read { unit, selector, len } => length_query(unit, selector),
            StepView::Write { unit, selector, data } => length_query(unit, selector),
            StepView::Info => ActionView::Describe,
        }),
{
}

/// Every state the exchange reaches is well formed.
pub proof fn law_states_well_formed(s: CameraView, plan: Seq<StepView>, bytes: Seq<u8>, r: Result<(), Errno>)
    requires
        well_formed(s),
        bytes.len() == 2,
    ensures
        well_formed(after_start(plan).0),
        s.stage == Stage::Sizing ==> well_formed(after_length(s, Ok(bytes)).0),
        s.stage == Stage::Sizing ==> well_formed(after_length(s, Err(Errno(0))).0),
        (s.stage == Stage::Describing || s.stage == Stage::Querying) ==> well_formed(
            after_reply(s, r).0,
        ),
{
}

/// A failed exchange ends the command at once with that failure: nothing more
/// is asked of the camera, and the camera is ready for the next command.
pub proof fn law_failure_ends_command(s: CameraView, e: Errno)
    requires
        well_formed(s),
    ensures
        s.stage == Stage::Sizing ==> after_length(s, Err(e)) == (
            idle(),
            ActionView::Completed(Err(e)),
        ),
        (s.stage == Stage::Describing || s.stage == Stage::Querying) ==> after_reply(s, Err(e)) == (
            idle(),
            ActionView::Completed(Err(e)),
        ),
{
}

/// A control length that does not fit the step's buffer refuses the command
/// with the length-mismatch error; one that fits lets the step's read or
/// write go ahead, and a successful reply moves on to the next step.
pub proof fn law_length_decides(s: CameraView, bytes: Seq<u8>)
    requires
        well_formed(s),
        s.stage == Stage::Sizing,
        bytes.len() == 2,
    ensures
        ({
            let size = announced_len(bytes);
            let r = after_length(s, Ok(bytes));
            match s.pending[s.next as int] {
                StepView::Read { unit, selector, len } => if len < size {
                    r == (idle(), ActionView::Refused { size, error: Errno(LENGTH_MISMATCH) })
                } else {
                    r.0.stage == Stage::Querying && r.1 is Query && r.1->query == Query::GetCur
                        && after_reply(r.0, Ok(())) == begin_at(s.pending, s.next + 1)
                },
                StepView::Write { unit, selector, data } => if data.len() > size {
                    r == (idle(), ActionView::Refused { size, error: Errno(LENGTH_MISMATCH) })
                } else {
                    r.0.stage == Stage::Querying && r.1 == (ActionView::Query {
                        unit,
                        selector,
                        query: Query::SetCur,
                        data,
                    }) && after_reply(r.0, Ok(())) == begin_at(s.pending, s.next + 1)
                },
                StepView::Info => false,
            }
        }),
{
}

/// The actions of the exchange from state `s` and action `a`, with a camera
/// that reports control length `size` for every control and carries out every
/// request, for at most `fuel` more answers.
pub open spec fn run_with(s: CameraView, a: ActionView, size: u16, fuel: nat) -> Seq<ActionView>
    decreases fuel,
{
    if fuel == 0 {
        seq![a]
    } else {
        match a {
            ActionView::Describe => {
                let next = after_reply(s, Ok(()));
                seq![a] + run_with(next.0, next.1, size, (fuel - 1) as nat)
            },
            ActionView::Query { unit, selector, query, data } => {
                let next = if query == Query::GetLen {
                    after_length(s, Ok(le_bytes(size)))
                } else {
                    after_reply(s, Ok(()))
                };
                seq![a] + run_with(next.0, next.1, size, (fuel - 1) as nat)
            },
            _ => seq![a],
        }
    }
}

/// The actions of steps `i` on of `plan` when every exchange succeeds: the
/// length request then the read or write of each control, in order, then the
/// command's success.
pub open spec fn successful_actions(plan: Seq<StepView>, i: nat) -> Seq<ActionView>
    decreases plan.len() - i,
{
    if i >= plan.len() {
        seq![ActionView::Completed(Ok(()))]
    } else {
        match plan[i as int] {
            StepView::Info => seq![ActionView::Describe] + successful_actions(plan, i + 1),
            StepView::Read { unit, selector, len } => seq![
                length_query(unit, selector),
                ActionView::Query {
                    unit,
                    selector,
                    query: Query::GetCur,
                    data: Seq::new(len, |_i: int| 0u8),
                },
            ] + successful_actions(plan, i + 1),
            StepView::Write { unit, selector, data } => seq![
                length_query(unit, selector),
                ActionView::Query { unit, selector, query: Query::SetCur, data },
            ] + successful_actions(plan, i + 1),
        }
    }
}

/// Whether every read and write of `plan` fits a control of length `size`.
pub open spec fn fits_controls(plan: Seq<StepView>, size: nat) -> bool {
    forall|i: int|
        0 <= i < plan.len() ==> match #[trigger] plan[i] {
            StepView::Read { unit, selector, len } => len >= size,
            StepView::Write { unit, selector, data } => data.len() <= size,
            StepView::Info => true,
        }
}

proof fn lemma_run_from(plan: Seq<StepView>, i: nat, size: u16, fuel: nat)
    requires
        i <= plan.len(),
        fits_controls(plan, size as nat),
        fuel >= 2 * (plan.len() - i),
    ensures
        run_with(begin_at(plan, i).0, begin_at(plan, i).1, size, fuel) == successful_actions(plan, i),
    decreases plan.len() - i,
{
    assert(announced_len(le_bytes(size)) == size);
    if i < plan.len() {
        lemma_run_from(plan, i + 1, size, (fuel - 2) as nat);
        let b = begin_at(plan, i);
        match plan[i as int] {
            StepView::Info => {
                lemma_run_from(plan, i + 1, size, (fuel - 1) as nat);
            },
            StepView::Read { unit, selector, len } => {
                let l = after_length(b.0, Ok(le_bytes(size)));
                assert(run_with(l.0, l.1, size, (fuel - 1) as nat) == seq![l.1] + successful_actions(
                    plan,
                    i + 1,
                ));
                assert(run_with(b.0, b.1, size, fuel) =~= successful_actions(plan, i));
            },
            StepView::Write { unit, selector, data } => {
                let l = after_length(b.0, Ok(le_bytes(size)));
                assert(run_with(l.0, l.1, size, (fuel - 1) as nat) == seq![l.1] + successful_actions(
                    plan,
                    i + 1,
                ));
                assert(run_with(b.0, b.1, size, fuel) =~= successful_actions(plan, i));
            },
        }
    }
}

/// With a camera that reports a control length that fits every step and
/// carries out every request, a command asks the length of each control
/// before reading or writing it, takes its steps in order, and succeeds.
pub proof fn law_successful_run(plan: Seq<StepView>, size: u16)
    requires
        fits_controls(plan, size as nat),
    ensures
        run_with(after_start(plan).0, after_start(plan).1, size, 2 * plan.len()) == successful_actions(
            plan,
            0,
        ),
{
    lemma_run_from(plan, 0, size, 2 * plan.len());
}

/// Whether a camera's answer reports a failure, for a request that returns no bytes.
pub open spec fn outcome_of(answer: Result<Seq<u8>, Errno>) -> Result<(), Errno> {
    match answer {
        Ok(_) => Ok(()),
        Err(e) => Err(e),
    }
}

/// The exchange from state `s` and action `a` with a camera whose answers,
/// in order, are `answers`: a length request takes an answer's bytes, any
/// other request or a display takes only whether the answer is a failure.
/// Gives the actions, ending when the command ends or the answers run out,
/// and how many answers were used.
pub open spec fn replay(s: CameraView, a: ActionView, answers: Seq<Result<Seq<u8>, Errno>>) -> (
    Seq<ActionView>,
    nat,
)
    decreases answers.len(),
{
    if answers.len() == 0 {
        (seq![a], 0)
    } else {
        match a {
            ActionView::Describe => {
                let next = after_reply(s, outcome_of(answers[0]));
                let r = replay(next.0, next.1, answers.drop_first());
                (seq![a] + r.0, r.1 + 1)
            },
            ActionView::Query { unit, selector, query, data } => {
                let next = if query == Query::GetLen {
                    after_length(s, answers[0])
                } else {
                    after_reply(s, outcome_of(answers[0]))
                };
                let r = replay(next.0, next.1, answers.drop_first());
                (seq![a] + r.0, r.1 + 1)
            },
            _ => (seq![a], 0),
        }
    }
}

/// The exchange of `plan` from its step `i` on, with a camera that gives `answers`.
pub open spec fn replay_from(plan: Seq<StepView>, i: nat, answers: Seq<Result<Seq<u8>, Errno>>) -> (
    Seq<ActionView>,
    nat,
) {
    replay(begin_at(plan, i).0, begin_at(plan, i).1, answers)
}

/// The exchange of command `plan` with a camera that gives `answers`.
pub open spec fn replay_plan(plan: Seq<StepView>, answers: Seq<Result<Seq<u8>, Errno>>) -> (
    Seq<ActionView>,
    nat,
) {
    replay(after_start(plan).0, after_start(plan).1, answers)
}

/// The commands `plans` run one after another, as the camera's methods chain
/// them: each takes the answers the ones before it left, and the first that
/// does not succeed ends the run with its own end. Gives the actions, without
/// the success of each command but the last, and how many answers were used.
pub open spec fn replay_in_turn(plans: Seq<Seq<StepView>>, answers: Seq<Result<Seq<u8>, Errno>>) -> (
    Seq<ActionView>,
    nat,
)
    decreases plans.len(),
{
    if plans.len() == 0 {
        (seq![ActionView::Completed(Ok(()))], 0)
    } else {
        let r = replay_plan(plans[0], answers);
        if r.0.last() == ActionView::Completed(Ok(())) {
            let rest = replay_in_turn(plans.drop_first(), answers.skip(r.1 as int));
            (r.0.drop_last() + rest.0, r.1 + rest.1)
        } else {
            r
        }
    }
}

/// The steps of `plans`, one plan after another.
pub open spec fn joined(plans: Seq<Seq<StepView>>) -> Seq<StepView>
    decreases plans.len(),
{
    if plans.len() == 0 {
        seq![]
    } else {
        plans[0] + joined(plans.drop_first())
    }
}

proof fn lemma_replay_nonempty(s: CameraView, a: ActionView, answers: Seq<Result<Seq<u8>, Errno>>)
    ensures
        replay(s, a, answers).0.len() > 0,
        replay(s, a, answers).1 <= answers.len(),
    decreases answers.len(),
{
    if answers.len() > 0 {
        match a {
            ActionView::Describe => {
                let next = after_reply(s, outcome_of(answers[0]));
                lemma_replay_nonempty(next.0, next.1, answers.drop_first());
            },
            ActionView::Query { unit, selector, query, data } => {
                let next = if query == Query::GetLen {
                    after_length(s, answers[0])
                } else {
                    after_reply(s, outcome_of(answers[0]))
                };
                lemma_replay_nonempty(next.0, next.1, answers.drop_first());
            },
            _ => {},
        }
    }
}

/// The steps of a plan run the same way wherever the plan stands in a longer one.
proof fn lemma_replay_shift(
    a: Seq<StepView>,
    b: Seq<StepView>,
    j: nat,
    answers: Seq<Result<Seq<u8>, Errno>>,
)
    requires
        j <= b.len(),
    ensures
        replay_from(a + b, a.len() + j, answers) == replay_from(b, j, answers),
    decreases answers.len(),
{
    let p = a + b;
    let n = a.len() + j;
    if j < b.len() && answers.len() > 0 {
        assert(p[n as int] == b[j as int]);
        let bp = begin_at(p, n);
        let bb = begin_at(b, j);
        let rest = answers.drop_first();
        match b[j as int] {
            StepView::Info => {
                lemma_replay_shift(a, b, j + 1, rest);
                assert(after_reply(bp.0, outcome_of(answers[0])).1 == after_reply(
                    bb.0,
                    outcome_of(answers[0]),
                ).1);
            },
            _ => {
                let lp = after_length(bp.0, answers[0]);
                let lb = after_length(bb.0, answers[0]);
                assert(lp.1 == lb.1);
                if rest.len() > 0 && lp.1 is Query {
                    lemma_replay_shift(a, b, j + 1, rest.drop_first());
                    assert(replay(lp.0, lp.1, rest) == replay(lb.0, lb.1, rest));
                }
                assert(replay(lp.0, lp.1, rest) == replay(lb.0, lb.1, rest));
            },
        }
    }
}

/// Running the steps of plan `a` from step `i` as the first part of `a + b`:
/// while `a` runs the exchange is that of `a` alone, and once `a` succeeds
/// the exchange of `b` follows with the answers left.
proof fn lemma_replay_prefix(
    a: Seq<StepView>,
    b: Seq<StepView>,
    i: nat,
    answers: Seq<Result<Seq<u8>, Errno>>,
)
    requires
        i <= a.len(),
    ensures
        ({
            let r = replay_from(a, i, answers);
            let rb = replay_from(b, 0, answers.skip(r.1 as int));
            &&& r.0.last() == ActionView::Completed(Ok(())) ==> replay_from(a + b, i, answers) == (
                r.0.drop_last() + rb.0,
                r.1 + rb.1,
            )
            &&& r.0.last() != ActionView::Completed(Ok(())) ==> replay_from(a + b, i, answers) == r
        }),
    decreases answers.len(),
{
    let p = a + b;
    if i == a.len() {
        lemma_replay_shift(a, b, 0, answers);
        assert(answers.skip(0) =~= answers);
        assert(seq![ActionView::Completed(Ok(()))].drop_last() + replay_from(b, 0, answers).0
            =~= replay_from(b, 0, answers).0);
    } else if answers.len() > 0 {
        assert(p[i as int] == a[i as int]);
        let bp = begin_at(p, i);
        let ba = begin_at(a, i);
        let rest = answers.drop_first();
        match a[i as int] {
            StepView::Info => {
                let x = ba.1;
                let ra = after_reply(ba.0, outcome_of(answers[0]));
                lemma_replay_nonempty(ra.0, ra.1, rest);
                if answers[0] is Ok {
                    lemma_replay_prefix(a, b, i + 1, rest);
                    let r2 = replay_from(a, i + 1, rest);
                    assert(rest.skip(r2.1 as int) =~= answers.skip((r2.1 + 1) as int));
                    assert((seq![x] + r2.0).drop_last() =~= seq![x] + r2.0.drop_last());
                    assert(seq![x] + (r2.0.drop_last() + replay_from(b, 0, rest.skip(r2.1 as int)).0)
                        =~= (seq![x] + r2.0).drop_last() + replay_from(b, 0, rest.skip(r2.1 as int)).0);
                }
            },
            _ => {
                let x = ba.1;
                let lp = after_length(bp.0, answers[0]);
                let la = after_length(ba.0, answers[0]);
                assert(lp.1 == la.1);
                lemma_replay_nonempty(la.0, la.1, rest);
                if rest.len() > 0 && la.1 is Query {
                    let rest2 = rest.drop_first();
                    let y = la.1;
                    let qa = after_reply(la.0, outcome_of(rest[0]));
                    lemma_replay_nonempty(qa.0, qa.1, rest2);
                    if rest[0] is Ok {
                        lemma_replay_prefix(a, b, i + 1, rest2);
                        let r2 = replay_from(a, i + 1, rest2);
                        let tail = replay_from(b, 0, rest2.skip(r2.1 as int));
                        assert(rest2.skip(r2.1 as int) =~= answers.skip((r2.1 + 2) as int));
                        assert(replay(la.0, la.1, rest) == (seq![y] + r2.0, r2.1 + 1));
                        assert((seq![x] + (seq![y] + r2.0)).drop_last() =~= seq![x] + (seq![y]
                            + r2.0.drop_last()));
                        assert(seq![x] + (seq![y] + (r2.0.drop_last() + tail.0)) =~= (seq![x] + (
                        seq![y] + r2.0)).drop_last() + tail.0);
                        assert(replay(lp.0, lp.1, rest) == (seq![y] + replay_from(p, i + 1, rest2).0,
                        replay_from(p, i + 1, rest2).1 + 1));
                    } else {
                        assert(replay(lp.0, lp.1, rest) == replay(la.0, la.1, rest));
                    }
                } else {
                    assert(replay(lp.0, lp.1, rest) == replay(la.0, la.1, rest));
                }
            },
        }
    }
}

/// Two plans joined make one command whose exchange is that of the first plan
/// and, once it succeeds, that of the second with the answers left: the same
/// requests in the same order, and the first failure ends it.
pub proof fn law_joined_plans(a: Seq<StepView>, b: Seq<StepView>, answers: Seq<Result<Seq<u8>, Errno>>)
    ensures
        ({
            let r = replay_plan(a, answers);
            let rb = replay_plan(b, answers.skip(r.1 as int));
            &&& r.0.last() == ActionView::Completed(Ok(())) ==> replay_plan(a + b, answers) == (
                r.0.drop_last() + rb.0,
                r.1 + rb.1,
            )
            &&& r.0.last() != ActionView::Completed(Ok(())) ==> replay_plan(a + b, answers) == r
        }),
{
    lemma_replay_prefix(a, b, 0, answers);
}

/// The command of several plans joined makes the requests of each plan in
/// turn and ends as the first of them that does not succeed, or succeeds.
pub proof fn law_plans_in_turn(plans: Seq<Seq<StepView>>, answers: Seq<Result<Seq<u8>, Errno>>)
    ensures
        replay_plan(joined(plans), answers) == replay_in_turn(plans, answers),
    decreases plans.len(),
{
    if plans.len() > 0 {
        let rest = plans.drop_first();
        law_joined_plans(plans[0], joined(rest), answers);
        let r = replay_plan(plans[0], answers);
        law_plans_in_turn(rest, answers.skip(r.1 as int));
    }
}

proof fn lemma_joined_settings(ss: Seq<Setting>)
    ensures
        joined(ss.map_values(|s: Setting| setting_plan(s))) == settings_plan(ss),
    decreases ss.len(),
{
    if ss.len() > 0 {
        let rest = ss.drop_first();
        lemma_joined_settings(rest);
        assert(ss.map_values(|s: Setting| setting_plan(s)).drop_first() =~= rest.map_values(
            |s: Setting| setting_plan(s),
        ));
        assert(settings_plan(ss) =~= setting_plan(ss[0]) + settings_plan(rest));
    } else {
        assert(settings_plan(ss) =~= seq![]);
    }
}

/// A command with `!` makes the same requests, and ends the same way, as the
/// commands of its setting and of each prerequisite run one after another,
/// stopping at the first that does not succeed.
pub proof fn law_now_is_commands_in_turn(s: Setting, answers: Seq<Result<Seq<u8>, Errno>>)
    ensures
        replay_plan(now_plan(s), answers) == replay_in_turn(
            (seq![s] + prerequisites(s)).map_values(|p: Setting| setting_plan(p)),
            answers,
        ),
{
    let ss = seq![s] + prerequisites(s);
    lemma_joined_settings(ss);
    law_plans_in_turn(ss.map_values(|p: Setting| setting_plan(p)), answers);
}

/// The frame of each setting, byte by byte: the setting's command bytes, then
/// its parameter (the blur level capped at 64; the image number most
/// significant byte first; the sleep delay least significant byte first).
pub proof fn law_setting_bytes()
    ensures
        setting_frame(Setting::EffectOff) == frame(seq![0x00u8, 0x01, 0x00], seq![]),
        setting_frame(Setting::EffectBg) == frame(seq![0x00u8, 0x01, 0x01], seq![]),
        setting_frame(Setting::EffectTrack) == frame(seq![0x00u8, 0x01, 0x02], seq![]),
        setting_frame(Setting::HdrOff) == frame(seq![0x01u8, 0x01, 0x00], seq![]),
        setting_frame(Setting::HdrOn) == frame(seq![0x01u8, 0x01, 0x01], seq![]),
        setting_frame(Setting::FaceAeOff) == frame(seq![0x03u8, 0x01, 0x00], seq![]),
        setting_frame(Setting::FaceAeOn) == frame(seq![0x03u8, 0x01, 0x01], seq![]),
        setting_frame(Setting::Angle65) == frame(seq![0x04u8, 0x01, 0x02], seq![]),
        setting_frame(Setting::Angle78) == frame(seq![0x01u8, 0x01, 0x01], seq![]),
        setting_frame(Setting::Angle85) == frame(seq![0x01u8, 0x01, 0x00], seq![]),
        setting_frame(Setting::BgSolid) == frame(seq![0x05u8, 0x01, 0x01], seq![]),
        setting_frame(Setting::BgBitmap) == frame(seq![0x05u8, 0x01, 0x11], seq![]),
        setting_frame(Setting::BgBlur) == frame(seq![0x05u8, 0x01, 0x12], seq![]),
        setting_frame(Setting::ButtonDefault) == frame(seq![0x07u8, 0x01, 0x00], seq![]),
        setting_frame(Setting::ButtonRotate) == frame(seq![0x07u8, 0x01, 0x01], seq![]),
        setting_frame(Setting::NoiseReductionOff) == frame(seq![0x0au8, 0x01, 0x00], seq![]),
        setting_frame(Setting::NoiseReductionOn) == frame(seq![0x0au8, 0x01, 0x01], seq![]),
        setting_frame(Setting::BgSolidBlue) == frame(seq![0x10u8, 0x01, 0x00], seq![]),
        setting_frame(Setting::BgSolidGreen) == frame(seq![0x10u8, 0x01, 0x01], seq![]),
        setting_frame(Setting::BgSolidRed) == frame(seq![0x10u8, 0x01, 0x02], seq![]),
        setting_frame(Setting::BgSolidBlack) == frame(seq![0x10u8, 0x01, 0x03], seq![]),
        setting_frame(Setting::BgSolidWhite) == frame(seq![0x10u8, 0x01, 0x04], seq![]),
        setting_frame(Setting::AutoFrameGroup) == frame(seq![0x0du8, 0x02, 0x00, 0xff], seq![]),
        setting_frame(Setting::AutoFrameFace) == frame(seq![0x0du8, 0x02, 0x01, 0x00], seq![]),
        setting_frame(Setting::AutoFrameBody) == frame(seq![0x0du8, 0x02, 0x01, 0x01], seq![]),
        forall|level: u8|
            #[trigger] setting_frame(Setting::BlurLevel(level)) == frame(
                seq![0x06u8, 0x01],
                seq![if level < 64 { level } else { 64u8 }],
            ),
        forall|n: u16|
            #[trigger] setting_frame(Setting::BgBitmapN(n)) == frame(
                seq![0x0eu8, 0x02],
                seq![(n / 256) as u8, (n % 256) as u8],
            ),
        forall|n: u16|
            #[trigger] setting_frame(Setting::Sleep(n)) == frame(
                seq![0x0bu8, 0x02],
                seq![(n % 256) as u8, (n / 256) as u8],
            ),
{
    assert(setting_frame(Setting::EffectOff) =~= frame(seq![0x00u8, 0x01, 0x00], seq![]));
    assert(setting_frame(Setting::EffectBg) =~= frame(seq![0x00u8, 0x01, 0x01], seq![]));
    assert(setting_frame(Setting::EffectTrack) =~= frame(seq![0x00u8, 0x01, 0x02], seq![]));
    assert(setting_frame(Setting::HdrOff) =~= frame(seq![0x01u8, 0x01, 0x00], seq![]));
    assert(setting_frame(Setting::HdrOn) =~= frame(seq![0x01u8, 0x01, 0x01], seq![]));
    assert(setting_frame(Setting::FaceAeOff) =~= frame(seq![0x03u8, 0x01, 0x00], seq![]));
    assert(setting_frame(Setting::FaceAeOn) =~= frame(seq![0x03u8, 0x01, 0x01], seq![]));
    assert(setting_frame(Setting::Angle65) =~= frame(seq![0x04u8, 0x01, 0x02], seq![]));
    assert(setting_frame(Setting::Angle78) =~= frame(seq![0x01u8, 0x01, 0x01], seq![]));
    assert(setting_frame(Setting::Angle85) =~= frame(seq![0x01u8, 0x01, 0x00], seq![]));
    assert(setting_frame(Setting::BgSolid) =~= frame(seq![0x05u8, 0x01, 0x01], seq![]));
    assert(setting_frame(Setting::BgBitmap) =~= frame(seq![0x05u8, 0x01, 0x11], seq![]));
    assert(setting_frame(Setting::BgBlur) =~= frame(seq![0x05u8, 0x01, 0x12], seq![]));
    assert(setting_frame(Setting::ButtonDefault) =~= frame(seq![0x07u8, 0x01, 0x00], seq![]));
    assert(setting_frame(Setting::ButtonRotate) =~= frame(seq![0x07u8, 0x01, 0x01], seq![]));
    assert(setting_frame(Setting::NoiseReductionOff) =~= frame(seq![0x0au8, 0x01, 0x00], seq![]));
    assert(setting_frame(Setting::NoiseReductionOn) =~= frame(seq![0x0au8, 0x01, 0x01], seq![]));
    assert(setting_frame(Setting::BgSolidBlue) =~= frame(seq![0x10u8, 0x01, 0x00], seq![]));
    assert(setting_frame(Setting::BgSolidGreen) =~= frame(seq![0x10u8, 0x01, 0x01], seq![]));
    assert(setting_frame(Setting::BgSolidRed) =~= frame(seq![0x10u8, 0x01, 0x02], seq![]));
    assert(setting_frame(Setting::BgSolidBlack) =~= frame(seq![0x10u8, 0x01, 0x03], seq![]));
    assert(setting_frame(Setting::BgSolidWhite) =~= frame(seq![0x10u8, 0x01, 0x04], seq![]));
    assert(setting_frame(Setting::AutoFrameGroup) =~= frame(seq![0x0du8, 0x02, 0x00, 0xff], seq![]));
    assert(setting_frame(Setting::AutoFrameFace) =~= frame(seq![0x0du8, 0x02, 0x01, 0x00], seq![]));
    assert(setting_frame(Setting::AutoFrameBody) =~= frame(seq![0x0du8, 0x02, 0x01, 0x01], seq![]));
    assert forall|level: u8| #[trigger] setting_frame(Setting::BlurLevel(level)) == frame(
        seq![0x06u8, 0x01],
        seq![if level < 64 { level } else { 64u8 }],
    ) by {
        assert(CAMERA_BG_BLUR_LEVEL@ =~= seq![0x06u8, 0x01]);
    }
    assert forall|n: u16| #[trigger] setting_frame(Setting::BgBitmapN(n)) == frame(
        seq![0x0eu8, 0x02],
        seq![(n / 256) as u8, (n % 256) as u8],
    ) by {
        assert(CAMERA_BG_BITMAP_N@ =~= seq![0x0eu8, 0x02]);
        assert(be_bytes(n) =~= seq![(n / 256) as u8, (n % 256) as u8]);
    }
    assert forall|n: u16| #[trigger] setting_frame(Setting::Sleep(n)) == frame(
        seq![0x0bu8, 0x02],
        seq![(n % 256) as u8, (n / 256) as u8],
    ) by {
        assert(CAMERA_SLEEP_S@ =~= seq![0x0bu8, 0x02]);
        assert(le_bytes(n) =~= seq![(n % 256) as u8, (n / 256) as u8]);
    }
}

/// What each setting needs to take effect: a background mode needs the
/// background effect; a solid colour needs the solid background and the
/// background effect; the blur level needs the blurred background, and the
/// image number the image background, each with the background effect; a
/// tracking mode needs the tracking effect; every other setting takes effect
/// alone.
pub proof fn law_prerequisites(level: u8, n: u16)
    ensures
        prerequisites(Setting::BgSolid) == seq![Setting::EffectBg],
        prerequisites(Setting::BgBitmap) == seq![Setting::EffectBg],
        prerequisites(Setting::BgBlur) == seq![Setting::EffectBg],
        prerequisites(Setting::BgSolidBlue) == seq![Setting::BgSolid, Setting::EffectBg],
        prerequisites(Setting::BgSolidGreen) == seq![Setting::BgSolid, Setting::EffectBg],
        prerequisites(Setting::BgSolidRed) == seq![Setting::BgSolid, Setting::EffectBg],
        prerequisites(Setting::BgSolidBlack) == seq![Setting::BgSolid, Setting::EffectBg],
        prerequisites(Setting::BgSolidWhite) == seq![Setting::BgSolid, Setting::EffectBg],
        prerequisites(Setting::BlurLevel(level)) == seq![Setting::BgBlur, Setting::EffectBg],
        prerequisites(Setting::BgBitmapN(n)) == seq![Setting::BgBitmap, Setting::EffectBg],
        prerequisites(Setting::AutoFrameGroup) == seq![Setting::EffectTrack],
        prerequisites(Setting::AutoFrameFace) == seq![Setting::EffectTrack],
        prerequisites(Setting::AutoFrameBody) == seq![Setting::EffectTrack],
        prerequisites(Setting::EffectOff).len() == 0,
        prerequisites(Setting::EffectBg).len() == 0,
        prerequisites(Setting::EffectTrack).len() == 0,
        prerequisites(Setting::HdrOff).len() == 0,
        prerequisites(Setting::HdrOn).len() == 0,
        prerequisites(Setting::FaceAeOff).len() == 0,
        prerequisites(Setting::FaceAeOn).len() == 0,
        prerequisites(Setting::Angle65).len() == 0,
        prerequisites(Setting::Angle78).len() == 0,
        prerequisites(Setting::Angle85).len() == 0,
        prerequisites(Setting::ButtonDefault).len() == 0,
        prerequisites(Setting::ButtonRotate).len() == 0,
        prerequisites(Setting::NoiseReductionOff).len() == 0,
        prerequisites(Setting::NoiseReductionOn).len() == 0,
        prerequisites(Setting::Sleep(n)).len() == 0,
{
}

} // verus!
