//! The initialization sequence.
use vstd::prelude::*;
use crate::action::{Action, Step};
use crate::reply::Reply;
use crate::calib::{image_band, CalibImageFreq};
use crate::command::Command;
use crate::conf::Config;
use crate::standby::StandbyConfig;

verus! {

/// The oscillator step, present only with an oscillator to control.
pub open spec fn tcxo_part(c: Config) -> Seq<Action> {
    match c.tcxo_opts {
        Some((v, d)) => seq![Action::Run(Command::SetDio3AsTcxoCtrl(v, d))],
        None => seq![],
    }
}

/// The packet framing step, present only with framing to set.
pub open spec fn packet_part(c: Config) -> Seq<Action> {
    match c.packet_params {
        Some(p) => seq![Action::Run(Command::SetPacketParams(p))],
        None => seq![],
    }
}

/// The initialization sequence: reset, standby on the RC oscillator, packet
/// type, frequency, [oscillator control], calibration, image calibration
/// for the carrier's band, power amplifier, output power, buffer base
/// addresses (0, 0), modulation, [packet framing], interrupt routing (the
/// DIO1 mask serves as the global mask too), DIO2 as RF switch, sync word.
pub open spec fn init_sequence(c: Config) -> Seq<Action> {
    seq![
        Action::Reset,
        Action::Run(Command::SetStandby(StandbyConfig::StbyRc)),
        Action::Run(Command::SetPacketType(c.packet_type)),
        Action::Run(Command::SetRfFrequency(c.rf_freq)),
    ] + tcxo_part(c) + seq![
        Action::Run(Command::Calibrate(c.calib_param)),
        Action::Run(Command::CalibrateImage(image_band(c.rf_frequency as int / 1_000_000))),
        Action::Run(Command::SetPaConfig(c.pa_config)),
        Action::Run(Command::SetTxParams(c.tx_params)),
        Action::Run(Command::SetBufferBaseAddress(0, 0)),
        Action::Run(Command::SetModParams(c.mod_params)),
    ] + packet_part(c) + seq![
        Action::Run(
            Command::SetDioIrqParams(c.dio1_irq_mask, c.dio1_irq_mask, c.dio2_irq_mask, c.dio3_irq_mask),
        ),
        Action::Run(Command::SetDio2AsRfSwitchCtrl(true)),
        Action::Run(Command::SetSyncWord(c.sync_word)),
    ]
}

/// The actions of initialization, in order. The runner performs them one
/// after the other and stops at the first that fails, with its error; a
/// failed initialization is retried from the start.
pub fn init_plan(conf: &Config) -> (r: Vec<Action>)
    ensures
        r@ == init_sequence(*conf),
{
    let mut v: Vec<Action> = Vec::new();
    v.push(Action::Reset);
    v.push(Action::Run(Command::SetStandby(StandbyConfig::StbyRc)));
    v.push(Action::Run(Command::SetPacketType(conf.packet_type)));
    v.push(Action::Run(Command::SetRfFrequency(conf.rf_freq)));
    let ghost a = v@;
    match conf.tcxo_opts {
        Some((t, d)) => v.push(Action::Run(Command::SetDio3AsTcxoCtrl(t, d))),
        None => {},
    }
    assert(v@ =~= a + tcxo_part(*conf));
    let ghost b = v@;
    v.push(Action::Run(Command::Calibrate(conf.calib_param)));
    v.push(
        Action::Run(Command::CalibrateImage(CalibImageFreq::from_rf_frequency(conf.rf_frequency))),
    );
    v.push(Action::Run(Command::SetPaConfig(conf.pa_config)));
    v.push(Action::Run(Command::SetTxParams(conf.tx_params)));
    v.push(Action::Run(Command::SetBufferBaseAddress(0, 0)));
    v.push(Action::Run(Command::SetModParams(conf.mod_params)));
    let ghost c = v@;
    match conf.packet_params {
        Some(p) => v.push(Action::Run(Command::SetPacketParams(p))),
        None => {},
    }
    assert(v@ =~= c + packet_part(*conf));
    v.push(
        Action::Run(
            Command::SetDioIrqParams(
                conf.dio1_irq_mask,
                conf.dio1_irq_mask,
                conf.dio2_irq_mask,
                conf.dio3_irq_mask,
            ),
        ),
    );
    v.push(Action::Run(Command::SetDio2AsRfSwitchCtrl(true)));
    v.push(Action::Run(Command::SetSyncWord(conf.sync_word)));
    assert(v@ =~= init_sequence(*conf));
    v
}

/// What an initialization still has to do, as values.
pub struct InitModel {
    /// The actions not handed out yet, in order.
    pub pending: Seq<Action>,
    /// Whether the result has been handed out.
    pub done: bool,
}

/// The state and step that follow the outcome of the last action: the
/// first failure ends initialization with its error; after the last action
/// succeeds, initialization succeeds.
pub open spec fn init_next<E>(m: InitModel, outcome: Result<Reply, E>) -> (InitModel, Step<(), E>) {
    match outcome {
        Err(e) => (InitModel { pending: m.pending, done: true }, Step::Finish(Err(e))),
        Ok(_) => if m.pending.len() == 0 {
            (InitModel { pending: m.pending, done: true }, Step::Finish(Ok(())))
        } else {
            (InitModel { pending: m.pending.drop_first(), done: false }, Step::Do(m.pending[0]))
        },
    }
}

/// One initialization: hands out the actions of `init_plan` one at a time.
pub struct InitSession {
    rest: Vec<Action>,
    done: bool,
}

impl InitSession {
    /// What the initialization still has to do.
    pub closed spec fn model(self) -> InitModel {
        InitModel { pending: self.rest@, done: self.done }
    }

    /// Starts initializing with `conf`; the first action is the reset.
    pub fn start<E>(conf: &Config) -> (r: (Self, Step<(), E>))
        ensures
            r.0.model() == (InitModel { pending: init_sequence(*conf).drop_first(), done: false }),
            r.1 == Step::<(), E>::Do(init_sequence(*conf)[0]),
    {
        let mut rest = init_plan(conf);
        let first = rest.remove(0);
        proof {
            assert(rest@ =~= init_sequence(*conf).drop_first());
        }
        (InitSession { rest, done: false }, Step::Do(first))
    }

    /// Takes the outcome of the last action and gives the next step.
    pub fn step<E>(self, outcome: Result<Reply, E>) -> (r: (Self, Step<(), E>))
        requires
            !self.model().done,
        ensures
            (r.0.model(), r.1) == init_next(self.model(), outcome),
    {
        let mut rest = self.rest;
        match outcome {
            Err(e) => (InitSession { rest, done: true }, Step::Finish(Err(e))),
            Ok(_) => if rest.len() == 0 {
                (InitSession { rest, done: true }, Step::Finish(Ok(())))
            } else {
                let ghost old_rest = rest@;
                let next = rest.remove(0);
                proof {
                    assert(rest@ =~= old_rest.drop_first());
                }
                (InitSession { rest, done: false }, Step::Do(next))
            },
        }
    }
}

/// The steps that an initialization hands out for a sequence of outcomes,
/// up to and including its result.
pub open spec fn init_trace<E>(m: InitModel, outcomes: Seq<Result<Reply, E>>) -> Seq<Step<(), E>>
    decreases outcomes.len(),
{
    if outcomes.len() == 0 || m.done {
        seq![]
    } else {
        let (m2, a) = init_next(m, outcomes[0]);
        seq![a] + init_trace(m2, outcomes.drop_first())
    }
}

/// `n` outcomes of success.
pub open spec fn init_successes<E>(n: nat) -> Seq<Result<Reply, E>> {
    Seq::new(n, |i: int| Ok(Reply::Done))
}

/// Each action, handed out.
pub open spec fn handed_out<E>(actions: Seq<Action>) -> Seq<Step<(), E>> {
    actions.map_values(|a: Action| Step::Do(a))
}

proof fn lemma_pending_failure<E>(p: Seq<Action>, k: nat, e: E, later: Seq<Result<Reply, E>>)
    requires
        k <= p.len(),
    ensures
        init_trace(
            InitModel { pending: p, done: false },
            init_successes::<E>(k) + seq![Err(e)] + later,
        ) == handed_out::<E>(p.subrange(0, k as int)) + seq![Step::<(), E>::Finish(Err(e))],
    decreases k,
{
    let m = InitModel { pending: p, done: false };
    let outs = init_successes::<E>(k) + seq![Err(e)] + later;
    if k == 0 {
        let (m1, a1) = init_next(m, outs[0]);
        assert(init_trace(m1, outs.drop_first()) =~= seq![]);
        assert(handed_out::<E>(p.subrange(0, 0)) =~= seq![]);
        assert(init_trace(m, outs) =~= seq![a1]);
    } else {
        lemma_pending_failure(p.drop_first(), (k - 1) as nat, e, later);
        assert(outs.drop_first() =~= init_successes::<E>((k - 1) as nat) + seq![Err(e)] + later);
        assert(handed_out::<E>(p.subrange(0, k as int)) =~= seq![Step::<(), E>::Do(p[0])]
            + handed_out::<E>(p.drop_first().subrange(0, k - 1)));
        assert(init_trace(m, outs) =~= seq![Step::<(), E>::Do(p[0])] + init_trace(
            InitModel { pending: p.drop_first(), done: false },
            outs.drop_first(),
        ));
    }
}

proof fn lemma_pending_success<E>(p: Seq<Action>, later: Seq<Result<Reply, E>>)
    ensures
        init_trace(InitModel { pending: p, done: false }, init_successes::<E>(p.len() + 1) + later)
            == handed_out::<E>(p) + seq![Step::<(), E>::Finish(Ok(()))],
    decreases p.len(),
{
    let m = InitModel { pending: p, done: false };
    let outs = init_successes::<E>(p.len() + 1) + later;
    if p.len() == 0 {
        let (m1, a1) = init_next(m, outs[0]);
        assert(init_trace(m1, outs.drop_first()) =~= seq![]);
        assert(handed_out::<E>(p) =~= seq![]);
        assert(init_trace(m, outs) =~= seq![a1]);
    } else {
        lemma_pending_success(p.drop_first(), later);
        assert(outs.drop_first() =~= init_successes::<E>(p.drop_first().len() + 1) + later);
        assert(handed_out::<E>(p) =~= seq![Step::<(), E>::Do(p[0])] + handed_out::<E>(
            p.drop_first(),
        ));
        assert(init_trace(m, outs) =~= seq![Step::<(), E>::Do(p[0])] + init_trace(
            InitModel { pending: p.drop_first(), done: false },
            outs.drop_first(),
        ));
    }
}

/// When action `k` of the initialization sequence fails after actions `0`
/// to `k - 1` succeeded, the initialization has handed out exactly actions
/// `0` to `k` and ends with that error: nothing after the failing step runs,
/// whatever outcomes the runner would report afterwards.
pub proof fn lemma_init_stops_at_first_failure<E>(
    c: Config,
    k: nat,
    e: E,
    later: Seq<Result<Reply, E>>,
)
    requires
        k < init_sequence(c).len(),
    ensures
        seq![Step::<(), E>::Do(init_sequence(c)[0])] + init_trace(
            InitModel { pending: init_sequence(c).drop_first(), done: false },
            init_successes::<E>(k) + seq![Err(e)] + later,
        ) == handed_out::<E>(init_sequence(c).subrange(0, (k + 1) as int)) + seq![
            Step::<(), E>::Finish(Err(e)),
        ],
{
    let p = init_sequence(c);
    lemma_pending_failure(p.drop_first(), k, e, later);
    assert(handed_out::<E>(p.subrange(0, (k + 1) as int)) =~= seq![Step::<(), E>::Do(p[0])] + handed_out::<
        E,
    >(p.drop_first().subrange(0, k as int)));
}

/// When every action succeeds, the initialization hands out the whole
/// sequence, in order, and then succeeds.
pub proof fn lemma_init_runs_whole_sequence<E>(c: Config, later: Seq<Result<Reply, E>>)
    ensures
        seq![Step::<(), E>::Do(init_sequence(c)[0])] + init_trace(
            InitModel { pending: init_sequence(c).drop_first(), done: false },
            init_successes::<E>(init_sequence(c).len()) + later,
        ) == handed_out::<E>(init_sequence(c)) + seq![Step::<(), E>::Finish(Ok(()))],
{
    let p = init_sequence(c);
    lemma_pending_success(p.drop_first(), later);
    assert(p.drop_first().len() + 1 == p.len());
    assert(handed_out::<E>(p) =~= seq![Step::<(), E>::Do(p[0])] + handed_out::<E>(p.drop_first()));
}

} // verus!
