//! What holds of every acquisition, proved over the model of the pipeline.

use vstd::prelude::*;
use vstd::arithmetic::div_mod::{
    lemma_basic_div,
    lemma_div_plus_one,
    lemma_fundamental_div_mod,
    lemma_mod_add_multiples_vanish,
    lemma_mod_division_less_than_divisor,
    lemma_small_mod,
};
use crate::buffer::{alternates, lemma_alternates_concat, BufferId};
use crate::controller::{Action, Event};
use crate::converter::{sequence_valid, Resolution};
use crate::engine::{EngineModel, TransferConfig};
use crate::pipeline::{PipelineModel, Step};
use crate::trigger::CounterWidth;

verus! {

/// One conversion result in a running acquisition goes into the next free
/// slot of the active buffer and nowhere else. When that fills the buffer, the
/// consumer is told of exactly this buffer, and the engine goes on at the
/// first slot of the other one; otherwise the consumer is told nothing.
pub proof fn lemma_sample_fills_active_buffer(m: PipelineModel, value: u16)
    requires
        m.wf(),
        m.state() is Running,
    ensures
        m.sample(value).wf(),
        m.sample(value).state() is Running,
        m.sample(value).engine.config == m.engine.config,
        m.sample(value).engine.buffer(m.engine.target) == m.engine.buffer(
            m.engine.target,
        ).update(m.engine.filled() as int, value),
        m.sample(value).engine.buffer(m.engine.target.other()) == m.engine.buffer(
            m.engine.target.other(),
        ),
        m.engine.remaining == 1 ==> {
            &&& m.announced(value) == Some(m.engine.target)
            &&& m.sample(value).engine.target == m.engine.target.other()
            &&& m.sample(value).engine.remaining == m.capacity()
            &&& m.sample(value).controller.role(m.engine.target) is Ready
        },
        m.engine.remaining != 1 ==> {
            &&& m.announced(value) is None
            &&& m.sample(value).engine.target == m.engine.target
            &&& m.sample(value).engine.remaining == m.engine.remaining - 1
            &&& m.sample(value).controller == m.controller
        },
{
}

/// A run of conversion results keeps a running acquisition well formed and
/// running, on the configuration it was set up with.
pub proof fn lemma_samples_keep_wf(m: PipelineModel, values: Seq<u16>)
    requires
        m.wf(),
        m.state() is Running,
    ensures
        m.samples(values).wf(),
        m.samples(values).state() is Running,
        m.samples(values).engine.config == m.engine.config,
    decreases values.len(),
{
    if values.len() > 0 {
        lemma_sample_fills_active_buffer(m, values[0]);
        lemma_samples_keep_wf(m.sample(values[0]), values.drop_first());
    }
}

/// Two runs of conversion results, one after the other, are one run.
pub proof fn lemma_samples_concat(m: PipelineModel, first: Seq<u16>, second: Seq<u16>)
    ensures
        m.samples(first + second) == m.samples(first).samples(second),
        m.announcements(first + second) == m.announcements(first) + m.samples(
            first,
        ).announcements(second),
    decreases first.len(),
{
    if first.len() == 0 {
        assert(first + second =~= second);
        assert(m.announcements(first) + m.announcements(second) =~= m.announcements(second));
    } else {
        let whole = first + second;
        assert(whole[0] == first[0]);
        assert(whole.drop_first() =~= first.drop_first() + second);
        lemma_samples_concat(m.sample(first[0]), first.drop_first(), second);
        let tail = m.sample(first[0]).announcements(first.drop_first());
        let more = m.samples(first).announcements(second);
        match m.announced(first[0]) {
            Some(buffer) => {
                assert(seq![buffer] + (tail + more) =~= (seq![buffer] + tail) + more);
            },
            None => {},
        }
    }
}

/// While the acquisition runs without an overrun, the engine fills one buffer
/// for every `capacity` conversion results, counted from the first slot of
/// the buffer it began with, and the consumer is told of every one of them.
pub proof fn lemma_samples_count(m: PipelineModel, values: Seq<u16>)
    requires
        m.wf(),
        m.state() is Running,
    ensures
        m.announcements(values).len() == (m.engine.filled() + values.len()) / m.capacity(),
        m.samples(values).engine.filled() == (m.engine.filled() + values.len()) % m.capacity(),
    decreases values.len(),
{
    let n: int = m.capacity() as int;
    let f: int = m.engine.filled() as int;
    if values.len() == 0 {
        lemma_basic_div(f, n);
        lemma_small_mod(f as nat, n as nat);
    } else {
        let after = m.sample(values[0]);
        let rest = values.drop_first();
        lemma_sample_fills_active_buffer(m, values[0]);
        lemma_samples_count(after, rest);
        if m.engine.remaining == 1 {
            assert(after.engine.filled() == 0);
            assert(f + values.len() == n + rest.len());
            lemma_div_plus_one(rest.len() as int, n);
            lemma_mod_add_multiples_vanish(rest.len() as int, n);
        } else {
            assert(after.engine.filled() == f + 1);
        }
    }
}

/// No sample is lost: while the acquisition runs without an overrun, the
/// samples in the buffers that the consumer was told of differ from the
/// conversion results by less than one buffer. Counted from the first slot of
/// a buffer, they are the conversion results rounded down to whole buffers.
pub proof fn lemma_no_sample_loss(m: PipelineModel, values: Seq<u16>)
    requires
        m.wf(),
        m.state() is Running,
    ensures
        ({
            let delivered = m.announcements(values).len() * m.capacity();
            &&& values.len() - m.capacity() < delivered < values.len() + m.capacity()
            &&& m.engine.filled() == 0 ==> delivered <= values.len() && delivered == (
            values.len() / m.capacity()) * m.capacity()
            &&& m.engine.filled() == 0 && values.len() >= m.capacity() ==> delivered
                >= m.capacity()
        }),
{
    let n: int = m.capacity() as int;
    let total: int = m.engine.filled() as int + values.len() as int;
    lemma_samples_count(m, values);
    lemma_fundamental_div_mod(total, n);
    lemma_mod_division_less_than_divisor(total, n);
    assert(n * (total / n) == (total / n) * n) by (nonlinear_arith);
    if m.engine.filled() == 0 && values.len() >= n {
        assert((total / n) * n >= n) by (nonlinear_arith)
            requires
                total == n * (total / n) + (total % n),
                0 <= total % n < n,
                total >= n,
                n > 0,
        ;
    }
}

/// Conversion results that fit into what is left of the active buffer land
/// in its free slots, in order, and every other slot of both buffers keeps its
/// sample. When they fill the buffer it is handed to the consumer; until then
/// nothing is.
pub proof fn lemma_samples_land_in_order(m: PipelineModel, values: Seq<u16>)
    requires
        m.wf(),
        m.state() is Running,
        values.len() <= m.engine.remaining,
    ensures
        ({
            let after = m.samples(values);
            let target = m.engine.target;
            let start = m.engine.filled() as int;
            &&& after.engine.buffer(target.other()) == m.engine.buffer(target.other())
            &&& after.engine.buffer(target).len() == m.capacity()
            &&& forall|i: int|
                0 <= i < m.capacity() ==> #[trigger] after.engine.buffer(target)[i] == if start
                    <= i < start + values.len() {
                    values[i - start]
                } else {
                    m.engine.buffer(target)[i]
                }
            &&& values.len() < m.engine.remaining ==> {
                &&& after.engine.target == target
                &&& after.controller == m.controller
                &&& m.announcements(values).len() == 0
            }
            &&& 0 < values.len() == m.engine.remaining ==> {
                &&& after.engine.target == target.other()
                &&& after.engine.remaining == m.capacity()
                &&& after.controller.role(target) is Ready
                &&& m.announcements(values) == seq![target]
            }
        }),
    decreases values.len(),
{
    if values.len() > 0 {
        let next = m.sample(values[0]);
        let rest = values.drop_first();
        let target = m.engine.target;
        let start = m.engine.filled() as int;
        lemma_sample_fills_active_buffer(m, values[0]);
        if m.engine.remaining == 1 {
            assert(next.samples(rest) == next);
            assert(next.announcements(rest) =~= Seq::<BufferId>::empty());
            assert(m.announcements(values) =~= seq![target]);
        } else {
            lemma_samples_land_in_order(next, rest);
            let after = m.samples(values);
            assert forall|i: int| 0 <= i < m.capacity() implies #[trigger] after.engine.buffer(
                target,
            )[i] == if start <= i < start + values.len() {
                values[i - start]
            } else {
                m.engine.buffer(target)[i]
            } by {
                if start + 1 <= i < start + 1 + rest.len() {
                    assert(rest[i - (start + 1)] == values[i - start]);
                }
            }
            if values.len() == m.engine.remaining {
                assert(m.announcements(values) =~= seq![target]);
            }
        }
    }
}

/// A whole buffer's worth of conversion results, counted from the first slot
/// of a buffer, is delivered as it was converted: the consumer is told of the
/// buffer, once, and finds exactly these results in it, in order, while the
/// engine goes on at the first slot of the other buffer.
pub proof fn lemma_fill_is_delivered_in_order(m: PipelineModel, values: Seq<u16>)
    requires
        m.wf(),
        m.state() is Running,
        m.engine.filled() == 0,
        values.len() == m.capacity(),
    ensures
        m.announcements(values) == seq![m.engine.target],
        m.samples(values).engine.buffer(m.engine.target) == values,
        m.samples(values).controller.role(m.engine.target) is Ready,
        m.samples(values).engine.target == m.engine.target.other(),
        m.samples(values).engine.remaining == m.capacity(),
        m.samples(values).engine.buffer(m.engine.target.other()) == m.engine.buffer(
            m.engine.target.other(),
        ),
{
    lemma_samples_land_in_order(m, values);
    assert(m.samples(values).engine.buffer(m.engine.target) =~= values);
}

/// Every step is a trigger event.
pub open spec fn only_triggers(steps: Seq<Step>) -> bool {
    forall|i: int| 0 <= i < steps.len() ==> #[trigger] steps[i] is Trigger
}

/// While the acquisition runs, a sequence of trigger events is one run of
/// conversion results: as many as there are trigger events times the inputs
/// of the sequence.
pub proof fn lemma_triggers_are_one_stream(m: PipelineModel, steps: Seq<Step>)
    requires
        m.wf(),
        m.state() is Running,
        only_triggers(steps),
    ensures
        m.run(steps) == m.samples(m.stream(steps)),
        m.trace(steps) == m.announcements(m.stream(steps)),
        m.stream(steps).len() == steps.len() * m.converter.channels.len(),
    decreases steps.len(),
{
    if steps.len() > 0 {
        let head = m.conversions(steps[0]->Trigger_0);
        let after = m.apply(steps[0]);
        let rest = steps.drop_first();
        assert(head.len() == m.converter.channels.len());
        lemma_samples_keep_wf(m, head);
        lemma_samples_unit_state(m, head);
        assert(only_triggers(rest)) by {
            assert forall|i: int| 0 <= i < rest.len() implies #[trigger] rest[i] is Trigger by {
                assert(rest[i] == steps[i + 1]);
            }
        }
        lemma_triggers_are_one_stream(after, rest);
        lemma_stream_depends_on_units(m, after, rest);
        lemma_samples_concat(m, head, m.stream(rest));
        assert(steps.len() * m.converter.channels.len() == m.converter.channels.len()
            + rest.len() * m.converter.channels.len()) by (nonlinear_arith)
            requires
                steps.len() == rest.len() + 1,
        ;
    }
}

/// Conversion results change neither the trigger source nor the conversion
/// unit.
proof fn lemma_samples_unit_state(m: PipelineModel, values: Seq<u16>)
    ensures
        m.samples(values).trigger == m.trigger,
        m.samples(values).converter == m.converter,
    decreases values.len(),
{
    if values.len() > 0 {
        lemma_samples_unit_state(m.sample(values[0]), values.drop_first());
    }
}

/// What trigger events are converted to depends on the trigger source and on
/// the conversion unit alone.
proof fn lemma_stream_depends_on_units(m: PipelineModel, other: PipelineModel, steps: Seq<Step>)
    requires
        m.trigger == other.trigger,
        m.converter == other.converter,
    ensures
        m.stream(steps) == other.stream(steps),
    decreases steps.len(),
{
    if steps.len() > 0 {
        lemma_stream_depends_on_units(m, other, steps.drop_first());
    }
}

/// No sample is lost under continuous triggering: while the acquisition runs
/// and no overrun occurs, the samples in the buffers that the consumer was
/// told of differ from the samples converted, which are as many as there were
/// trigger events times the inputs of the sequence, by less than one buffer.
/// Counted from the first slot of a buffer, none is delivered that was not
/// converted, and a buffer is delivered as soon as a buffer's worth was
/// converted.
pub proof fn lemma_no_sample_loss_over_triggers(m: PipelineModel, steps: Seq<Step>)
    requires
        m.wf(),
        m.state() is Running,
        only_triggers(steps),
    ensures
        ({
            let converted = steps.len() * m.converter.channels.len();
            let delivered = m.trace(steps).len() * m.capacity();
            &&& converted - m.capacity() < delivered < converted + m.capacity()
            &&& m.engine.filled() == 0 ==> delivered <= converted && delivered == (converted
                / m.capacity()) * m.capacity()
            &&& m.engine.filled() == 0 && converted >= m.capacity() ==> delivered
                >= m.capacity()
        }),
{
    lemma_triggers_are_one_stream(m, steps);
    lemma_no_sample_loss(m, m.stream(steps));
}

/// The consumer is told of the buffers in the order in which the engine
/// fills them, of each once, and the engine fills them strictly in turn.
pub proof fn lemma_announcements_follow_completions(m: PipelineModel, values: Seq<u16>)
    requires
        m.wf(),
        m.state() is Running,
    ensures
        m.announcements(values) == m.completions(values),
        alternates(m.announcements(values), m.engine.target),
        m.samples(values).engine.target == if m.announcements(values).len() % 2 == 0 {
            m.engine.target
        } else {
            m.engine.target.other()
        },
    decreases values.len(),
{
    if values.len() > 0 {
        let after = m.sample(values[0]);
        let rest = after.announcements(values.drop_first());
        lemma_sample_fills_active_buffer(m, values[0]);
        lemma_announcements_follow_completions(after, values.drop_first());
        if m.engine.remaining == 1 {
            let head = seq![m.engine.target];
            assert(alternates(head, m.engine.target));
            lemma_alternates_concat(head, rest, m.engine.target);
        }
    }
}

/// Nothing that can happen breaks the rules of the acquisition: after any
/// step the engine writes the one buffer that is active, and the other buffer
/// is ready or idle.
pub proof fn lemma_step_keeps_wf(m: PipelineModel, step: Step)
    requires
        m.wf(),
    ensures
        m.apply(step).wf(),
        m.apply(step).controller.exclusive(),
        m.apply(step).controller.role(m.apply(step).engine.target) is Active,
        !(m.apply(step).controller.role(m.apply(step).engine.target.other()) is Active),
        m.apply(step).engine.config == m.engine.config,
{
    match step {
        Step::Trigger(levels) => {
            if m.conversions(levels).len() > 0 {
                lemma_samples_keep_wf(m, m.conversions(levels));
            }
        },
        _ => {},
    }
}

/// The rules of the acquisition hold at every instant: after any sequence of
/// steps exactly one buffer is active, it is the one that the engine writes,
/// and the engine runs on the configuration it was set up with.
pub proof fn lemma_run_keeps_wf(m: PipelineModel, steps: Seq<Step>)
    requires
        m.wf(),
    ensures
        m.run(steps).wf(),
        m.run(steps).controller.exclusive(),
        m.run(steps).controller.role(m.run(steps).engine.target) is Active,
        m.run(steps).engine.config == m.engine.config,
    decreases steps.len(),
{
    if steps.len() > 0 {
        lemma_step_keeps_wf(m, steps[0]);
        lemma_run_keeps_wf(m.apply(steps[0]), steps.drop_first());
    }
}

/// Whatever the controller asks for, carrying it out writes no sample and
/// leaves the engine at the buffer it writes.
proof fn lemma_actions_write_nothing(m: PipelineModel, action: Action)
    ensures
        m.perform(action).engine.buffer_a == m.engine.buffer_a,
        m.perform(action).engine.buffer_b == m.engine.buffer_b,
        m.perform(action).engine.target == m.engine.target,
{
}

/// Taking an event to the controller writes no sample and leaves the engine
/// at the buffer it writes.
proof fn lemma_events_write_nothing(m: PipelineModel, event: Event)
    ensures
        m.dispatch(event).engine.buffer_a == m.engine.buffer_a,
        m.dispatch(event).engine.buffer_b == m.engine.buffer_b,
        m.dispatch(event).engine.target == m.engine.target,
{
    let told = PipelineModel { controller: m.controller.next(event), ..m };
    lemma_actions_write_nothing(told, m.controller.action(event));
}

/// A hand-off, a release, an overrun, a recovery, a start or a stop writes no
/// sample and does not make the engine switch buffers: only a trigger event
/// changes what the buffers hold and which of them is written.
pub proof fn lemma_only_triggers_write(m: PipelineModel, step: Step)
    requires
        !(step is Trigger),
    ensures
        m.apply(step).engine.buffer_a == m.engine.buffer_a,
        m.apply(step).engine.buffer_b == m.engine.buffer_b,
        m.apply(step).engine.target == m.engine.target,
        m.notes(step).len() == 0,
{
    match step {
        Step::Start => {
            lemma_events_write_nothing(m, Event::Start);
        },
        Step::Stop => {
            lemma_events_write_nothing(m, Event::Stop);
        },
        Step::Recover => {
            let rearmed = m.perform(m.controller.action(Event::Overrun));
            lemma_actions_write_nothing(m, m.controller.action(Event::Overrun));
            lemma_events_write_nothing(rearmed, Event::Recovered);
        },
        Step::TransferError => {
            let halted = PipelineModel { engine: EngineModel { fault: true, ..m.engine }, ..m };
            lemma_events_write_nothing(halted, Event::TransferError);
        },
        Step::Release(buffer) => {
            lemma_events_write_nothing(m, Event::Release(buffer));
        },
        _ => {},
    }
}

/// Taking turns `first` times and then `second` times is taking turns
/// `first + second` times.
proof fn lemma_turns_add_up(start: BufferId, first: nat, second: nat)
    ensures
        ({
            let between = if first % 2 == 0 {
                start
            } else {
                start.other()
            };
            let end = if second % 2 == 0 {
                between
            } else {
                between.other()
            };
            end == if (first + second) % 2 == 0 {
                start
            } else {
                start.other()
            }
        }),
{
}

/// During one step the consumer is told of the buffers in turn, beginning
/// with the one that is being written, and the engine ends at the buffer
/// whose turn is next.
proof fn lemma_step_turns(m: PipelineModel, step: Step)
    requires
        m.wf(),
    ensures
        m.apply(step).wf(),
        alternates(m.notes(step), m.engine.target),
        m.apply(step).engine.target == if m.notes(step).len() % 2 == 0 {
            m.engine.target
        } else {
            m.engine.target.other()
        },
{
    lemma_step_keeps_wf(m, step);
    match step {
        Step::Trigger(levels) => {
            if m.conversions(levels).len() > 0 {
                lemma_announcements_follow_completions(m, m.conversions(levels));
            }
        },
        _ => {
            lemma_only_triggers_write(m, step);
        },
    }
}

/// Whatever happens, with or without overruns and whether or not the consumer
/// gives buffers back, the consumer is told of the two buffers strictly in
/// turn, beginning with the one that is being written.
pub proof fn lemma_trace_alternates(m: PipelineModel, steps: Seq<Step>)
    requires
        m.wf(),
    ensures
        alternates(m.trace(steps), m.engine.target),
        m.run(steps).engine.target == if m.trace(steps).len() % 2 == 0 {
            m.engine.target
        } else {
            m.engine.target.other()
        },
    decreases steps.len(),
{
    if steps.len() > 0 {
        let after = m.apply(steps[0]);
        let head = m.notes(steps[0]);
        let tail = after.trace(steps.drop_first());
        lemma_step_turns(m, steps[0]);
        lemma_trace_alternates(after, steps.drop_first());
        lemma_alternates_concat(head, tail, m.engine.target);
        lemma_turns_add_up(m.engine.target, head.len(), tail.len());
    }
}

/// From its set-up on, an acquisition tells the consumer of buffer A first,
/// of buffer B second, and so on in turn, whatever happens to it.
pub proof fn lemma_trace_begins_with_first_buffer(
    width: CounterWidth,
    period: u32,
    channels: Seq<u8>,
    resolution: Resolution,
    transfer: TransferConfig,
    steps: Seq<Step>,
)
    requires
        period <= width.max_period(),
        sequence_valid(channels),
        transfer.valid(),
    ensures
        PipelineModel::configured(width, period, channels, resolution, transfer).wf(),
        alternates(
            PipelineModel::configured(width, period, channels, resolution, transfer).trace(steps),
            BufferId::A,
        ),
{
    let m = PipelineModel::configured(width, period, channels, resolution, transfer);
    lemma_trace_alternates(m, steps);
}

/// An overrun takes a running acquisition to `Overrun`, and the recovery
/// takes it back to `Running` with the engine on the addresses and the
/// capacity it had before, a full count for the buffer it was writing, and
/// every role and every sample in memory as it was.
pub proof fn lemma_overrun_recovery(m: PipelineModel)
    requires
        m.wf(),
        m.state() is Running,
    ensures
        m.overrun().wf(),
        m.overrun().state() is Overrun,
        m.overrun().overrun() == m.overrun(),
        m.overrun().recover().wf(),
        m.overrun().recover().state() is Running,
        m.overrun().recover() == (PipelineModel {
            engine: EngineModel { remaining: m.capacity(), ..m.engine },
            ..m
        }),
        m.overrun().recover().engine.config == m.engine.config,
        m.overrun().recover().engine.remaining == m.capacity(),
{
}

/// Recovery is idempotent: an overrun right after a recovery is recovered
/// from in the same way and leaves the acquisition as the first one did.
pub proof fn lemma_recovery_idempotent(m: PipelineModel)
    requires
        m.wf(),
        m.state() is Running,
    ensures
        m.overrun().recover().overrun().recover() == m.overrun().recover(),
{
    lemma_overrun_recovery(m);
    lemma_overrun_recovery(m.overrun().recover());
}

/// Any number of overruns in a row is recovered from like one: each takes the
/// acquisition to `Overrun` and back to `Running`, and the engine ends on the
/// addresses and the capacity it was set up with, with a full count.
pub proof fn lemma_recovery_repeats(m: PipelineModel, rounds: nat)
    requires
        m.wf(),
        m.state() is Running,
        rounds > 0,
    ensures
        m.overruns(rounds) == m.overrun().recover(),
        m.overruns(rounds).state() is Running,
        m.overruns(rounds).engine.config == m.engine.config,
        m.overruns(rounds).engine.remaining == m.capacity(),
    decreases rounds,
{
    lemma_overrun_recovery(m);
    if rounds > 1 {
        let once = m.overrun().recover();
        lemma_recovery_repeats(once, (rounds - 1) as nat);
        lemma_recovery_idempotent(m);
    } else {
        assert(m.overrun().recover().overruns(0) == m.overrun().recover());
    }
}

/// The acquisition never goes back in its life cycle, whatever happens: a
/// step leaves the stage or raises it, the only way back and forth is between
/// `Running` and `Overrun`, and `Stopped` is final.
pub proof fn lemma_step_life_cycle(m: PipelineModel, step: Step)
    requires
        m.wf(),
    ensures
        m.state().stage() <= m.apply(step).state().stage(),
        m.state() is Stopped ==> m.apply(step).state() is Stopped,
        m.apply(step).state() is Running ==> m.state() is Configured || m.state() is Running
            || m.state() is Overrun,
        m.apply(step).state() is Overrun ==> m.state() is Running || m.state() is Overrun,
{
    match step {
        Step::Trigger(levels) => {
            if m.conversions(levels).len() > 0 {
                lemma_samples_keep_wf(m, m.conversions(levels));
            }
        },
        _ => {},
    }
}

} // verus!
