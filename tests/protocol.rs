use sx126x::action::{Action, Step};
use sx126x::bus::{Transaction, TxnAction};
use sx126x::calib::CalibImageFreq;
use sx126x::command::Command;
use sx126x::conf::Config;
use sx126x::err::{CsError, DeviceError, RadioError};
use sx126x::init::{init_plan, InitSession};
use sx126x::irq::{IrqMask, IrqStatus};
use sx126x::lora::{LinkSetup, LoraConfig};
use sx126x::packet::{LoRaCrcType, LoRaPacketParams};
use sx126x::receive::ReceiveSession;
use sx126x::reply::Reply;
use sx126x::rxtx::{RxBufferStatus, RxTxTimeout};
use sx126x::send::{check_payload, SendSession};
use sx126x::standby::StandbyConfig;
use sx126x::status::Status;

type BusErr = DeviceError<u8, CsError>;

/// Runs a transaction whose actions get the given outcomes, in order; returns
/// the actions and the result.
fn run_txn(n_ops: usize, outcomes: &[Result<(), BusErr>]) -> (Vec<TxnAction<u8>>, Result<(), BusErr>) {
    let (mut t, mut a) = Transaction::<u8>::begin(n_ops);
    let mut actions = vec![];
    let mut i = 0;
    loop {
        match a {
            TxnAction::Finish(r) => return (actions, r),
            other => actions.push(other),
        }
        let (t2, a2) = t.step(outcomes[i]);
        i += 1;
        t = t2;
        a = a2;
    }
}

#[test]
fn transaction_runs_ops_in_order_between_select_and_deselect() {
    let (actions, r) = run_txn(3, &[Ok(()); 6]);
    assert_eq!(
        actions,
        vec![
            TxnAction::AssertSelect,
            TxnAction::RunOp(0),
            TxnAction::RunOp(1),
            TxnAction::RunOp(2),
            TxnAction::Flush,
            TxnAction::DeassertSelect,
        ]
    );
    assert_eq!(r, Ok(()));
}

#[test]
fn transaction_read_failure_still_flushes_once_and_deselects() {
    let m = 4;
    for k in 0..m {
        let mut outs = vec![Ok(()); k + 1];
        outs.push(Err(DeviceError::Spi(9)));
        outs.push(Ok(()));
        outs.push(Ok(()));
        let (actions, r) = run_txn(m, &outs);
        assert_eq!(r, Err(DeviceError::Spi(9)));
        assert_eq!(actions.iter().filter(|a| **a == TxnAction::Flush).count(), 1);
        assert_eq!(actions.last(), Some(&TxnAction::DeassertSelect));
        assert_eq!(actions.len(), 1 + (k + 1) + 2);
        assert!(!actions.contains(&TxnAction::RunOp(k + 1)));
    }
}

#[test]
fn transaction_first_error_wins() {
    let (_, r) = run_txn(1, &[Ok(()), Err(DeviceError::Spi(1)), Err(DeviceError::Spi(2)), Err(DeviceError::Cs(CsError))]);
    assert_eq!(r, Err(DeviceError::Spi(1)));
    let (_, r) = run_txn(1, &[Ok(()), Ok(()), Err(DeviceError::Spi(2)), Ok(())]);
    assert_eq!(r, Err(DeviceError::Spi(2)));
    let (_, r) = run_txn(1, &[Ok(()), Ok(()), Ok(()), Err(DeviceError::Cs(CsError))]);
    assert_eq!(r, Err(DeviceError::Cs(CsError)));
}

#[test]
fn transaction_select_failure_skips_ops_but_cleans_up() {
    let (actions, r) = run_txn(2, &[Err(DeviceError::Cs(CsError)), Ok(()), Ok(())]);
    assert_eq!(actions, vec![TxnAction::AssertSelect, TxnAction::Flush, TxnAction::DeassertSelect]);
    assert_eq!(r, Err(DeviceError::Cs(CsError)));
}

#[test]
fn transaction_without_ops() {
    let (actions, r) = run_txn(0, &[Ok(()); 3]);
    assert_eq!(actions, vec![TxnAction::AssertSelect, TxnAction::Flush, TxnAction::DeassertSelect]);
    assert_eq!(r, Ok(()));
}

/// Two devices share one bus behind a lock held for a whole transaction; each
/// step of the scheduler advances whichever device may move. Every
/// operation writes its device's bytes to the wire.
#[test]
fn two_devices_never_interleave_on_the_wire() {
    let ops: [Vec<Vec<u8>>; 2] = [vec![vec![1, 1], vec![1], vec![1, 1, 1]], vec![vec![2], vec![2, 2]]];
    let mut wire: Vec<u8> = vec![];
    let mut lock: Option<usize> = None;
    let mut state: [Option<(Transaction<u8>, TxnAction<u8>)>; 2] = [None, None];
    let mut rounds = [2, 2];
    let mut turn = 0usize;
    while rounds != [0, 0] {
        let d = turn % 2;
        turn += 1;
        if rounds[d] == 0 {
            continue;
        }
        match state[d].take() {
            None => {
                if lock.is_none() {
                    lock = Some(d);
                    state[d] = Some(Transaction::begin(ops[d].len()));
                }
            }
            Some((t, a)) => {
                let outcome = match a {
                    TxnAction::RunOp(i) => {
                        wire.extend_from_slice(&ops[d][i]);
                        Ok(())
                    }
                    TxnAction::Finish(r) => {
                        assert_eq!(r, Ok(()));
                        lock = None;
                        rounds[d] -= 1;
                        continue;
                    }
                    _ => Ok(()),
                };
                state[d] = Some(t.step(outcome));
            }
        }
    }
    let one: Vec<u8> = vec![1, 1, 1, 1, 1, 1];
    let two: Vec<u8> = vec![2, 2, 2];
    let mut rest = &wire[..];
    let mut seen = 0;
    while !rest.is_empty() {
        let block: &[u8] = if rest[0] == 1 { &one } else { &two };
        assert_eq!(&rest[..block.len()], block);
        rest = &rest[block.len()..];
        seen += 1;
    }
    assert_eq!(seen, 4);
}

#[test]
fn init_plan_for_the_default_link() {
    let conf = LoraConfig::default().modem_config();
    assert_eq!(conf.rf_freq, 910_163_968);
    let plan = init_plan(&conf);
    let packet = LoRaPacketParams::default().set_preamble_len(15).to_packet_params();
    assert_eq!(plan.len(), 15);
    assert_eq!(plan[0], Action::Reset);
    assert_eq!(plan[1], Action::Run(Command::SetStandby(StandbyConfig::StbyRc)));
    assert_eq!(plan[3], Action::Run(Command::SetRfFrequency(910_163_968)));
    assert_eq!(plan[4], Action::Run(Command::SetDio3AsTcxoCtrl(conf.tcxo_opts.unwrap().0, conf.tcxo_opts.unwrap().1)));
    assert_eq!(plan[6], Action::Run(Command::CalibrateImage(CalibImageFreq::MHz863_870)));
    assert_eq!(plan[9], Action::Run(Command::SetBufferBaseAddress(0, 0)));
    assert_eq!(plan[11], Action::Run(Command::SetPacketParams(packet)));
    assert_eq!(
        plan[12],
        Action::Run(Command::SetDioIrqParams(conf.dio1_irq_mask, conf.dio1_irq_mask, IrqMask::none(), IrqMask::none()))
    );
    assert_eq!(conf.dio1_irq_mask.to_u16(), 0x0203);
    assert_eq!(plan[13], Action::Run(Command::SetDio2AsRfSwitchCtrl(true)));
    assert_eq!(plan[14], Action::Run(Command::SetSyncWord(0x1424)));
}

#[test]
fn init_plan_without_oscillator_or_framing() {
    let conf = Config { tcxo_opts: None, packet_params: None, rf_frequency: 433_000_000, ..LoraConfig::default().modem_config() };
    let plan = init_plan(&conf);
    assert_eq!(plan.len(), 13);
    assert_eq!(plan[4], Action::Run(Command::Calibrate(conf.calib_param)));
    assert_eq!(plan[5], Action::Run(Command::CalibrateImage(CalibImageFreq::MHz430_440)));
    assert_eq!(plan[10], Action::Run(Command::SetDioIrqParams(conf.dio1_irq_mask, conf.dio1_irq_mask, conf.dio2_irq_mask, conf.dio3_irq_mask)));
}

/// Runs a send whose actions get the given outcomes; returns the actions and the result.
fn run_send(outcomes: Vec<Result<Reply, u8>>) -> (Vec<Action>, Result<Status, u8>) {
    let (mut s, mut step) = SendSession::start::<u8>(3, RxTxTimeout::from_ms(2000), 15, LoRaCrcType::CrcOn);
    let mut actions = vec![];
    let mut outs = outcomes.into_iter();
    loop {
        match step {
            Step::Finish(r) => return (actions, r),
            Step::Do(a) => actions.push(a),
        }
        let o = outs.next().expect("more outcomes");
        assert!(s.accepts(&o));
        let (s2, st) = s.step(o);
        s = s2;
        step = st;
    }
}

fn done() -> Result<Reply, u8> {
    Ok(Reply::Done)
}

#[test]
fn send_clears_interrupts_once_before_and_once_after_transmit() {
    let status = Status::from_u8(0x6C);
    let outs = vec![done(), done(), done(), done(), done(), done(), Ok(Reply::Status(status)), done(), done()];
    let (actions, r) = run_send(outs);
    assert_eq!(r, Ok(status));
    let clear = Action::Run(Command::ClearIrqStatus(IrqMask::all()));
    let tx = actions.iter().position(|a| matches!(a, Action::Run(Command::SetTx(_)))).unwrap();
    assert_eq!(actions[..tx].iter().filter(|a| **a == clear).count(), 1);
    assert_eq!(actions[tx..].iter().filter(|a| **a == clear).count(), 1);
    let framing = LoRaPacketParams::default().set_preamble_len(15).set_payload_len(3).set_crc_type(LoRaCrcType::CrcOn);
    assert_eq!(
        actions,
        vec![
            Action::Run(Command::ClearDeviceErrors),
            clear.clone_action(),
            Action::WritePayload(0),
            Action::Run(Command::SetPacketParams(framing.to_packet_params())),
            Action::Run(Command::FixSensitivity),
            Action::Run(Command::GetDeviceErrors),
            Action::Run(Command::SetTx(RxTxTimeout::from_ms(2000))),
            Action::WaitDio1,
            Action::Run(Command::ClearIrqStatus(IrqMask::all())),
        ]
    );
}

trait CloneAction {
    fn clone_action(&self) -> Action;
}

impl CloneAction for Action {
    fn clone_action(&self) -> Action {
        match self {
            Action::Run(c) => Action::Run(c.clone()),
            Action::WritePayload(o) => Action::WritePayload(*o),
            Action::Reset => Action::Reset,
            Action::WaitDio1 => Action::WaitDio1,
            Action::DelayMs(ms) => Action::DelayMs(*ms),
        }
    }
}

#[test]
fn send_stops_when_the_payload_write_fails() {
    let (actions, r) = run_send(vec![done(), done(), Err(7)]);
    assert_eq!(r, Err(7));
    assert_eq!(actions.len(), 3);
    assert_eq!(actions[2], Action::WritePayload(0));
    assert!(!actions.iter().any(|a| matches!(a, Action::Run(Command::SetTx(_)))));
}

#[test]
fn send_reports_a_failed_wait() {
    let status = Status::from_u8(0x6C);
    let outs = vec![done(), done(), done(), done(), done(), done(), Ok(Reply::Status(status)), Err(4)];
    let (actions, r) = run_send(outs);
    assert_eq!(r, Err(4));
    assert_eq!(actions.last(), Some(&Action::WaitDio1));
}

/// Runs a receive into a buffer of `capacity` bytes.
fn run_receive(capacity: usize, outcomes: Vec<Result<Reply, u8>>) -> (Vec<Action>, Result<usize, RadioError<u8>>) {
    let (mut s, mut step) = ReceiveSession::start::<u8>(capacity, RxTxTimeout::from_ms(5000));
    let mut actions = vec![];
    let mut outs = outcomes.into_iter();
    loop {
        match step {
            Step::Finish(r) => return (actions, r),
            Step::Do(a) => actions.push(a),
        }
        let o = outs.next().expect("more outcomes");
        assert!(s.accepts(&o));
        let (s2, st) = s.step(o);
        s = s2;
        step = st;
    }
}

fn irq(word: u16) -> Result<Reply, u8> {
    Ok(Reply::Irq(IrqStatus::from_u16(word)))
}

fn rx_buffer(len: u8, start: u8) -> Result<Reply, u8> {
    Ok(Reply::RxBuffer(RxBufferStatus::from_bytes([len, start])))
}

#[test]
fn receive_timeout_is_zero_bytes() {
    let (actions, r) = run_receive(16, vec![done(), done(), done(), done(), irq(0x0200), done()]);
    assert_eq!(r, Ok(0));
    assert_eq!(actions[1], Action::Run(Command::SetRx(RxTxTimeout::from_ms(5000))));
    assert_eq!(actions[2], Action::WaitDio1);
    assert_eq!(actions[3], Action::DelayMs(1));
    assert_eq!(actions[4], Action::Run(Command::GetIrqStatus));
    assert_eq!(actions[5], Action::Run(Command::ClearIrqStatus(IrqMask::all())));
    assert_eq!(actions.len(), 6);
}

#[test]
fn receive_timeout_wins_over_rx_done() {
    let (_, r) = run_receive(16, vec![done(), done(), done(), done(), irq(0x0202), done()]);
    assert_eq!(r, Ok(0));
}

#[test]
fn receive_unexpected_interrupt_is_an_error() {
    let (actions, r) = run_receive(16, vec![done(), done(), done(), done(), irq(0x0001), done()]);
    assert_eq!(r, Err(RadioError::UnexpectedInterrupt(IrqStatus::from_u16(0x0001))));
    assert_eq!(actions.last(), Some(&Action::Run(Command::ClearIrqStatus(IrqMask::all()))));
}

#[test]
fn receive_oversized_packet_is_not_read() {
    let (actions, r) = run_receive(4, vec![done(), done(), done(), done(), irq(0x0002), rx_buffer(5, 0x80), done()]);
    assert_eq!(r, Err(RadioError::PayloadTooLarge { len: 5, capacity: 4 }));
    assert!(!actions.iter().any(|a| matches!(a, Action::Run(Command::ReadBuffer(_, _)))));
    assert_eq!(actions.last(), Some(&Action::Run(Command::ClearIrqStatus(IrqMask::all()))));
}

#[test]
fn receive_reads_the_packet_where_it_lies() {
    let outs = vec![done(), done(), done(), done(), irq(0x0002), rx_buffer(4, 0x80), Ok(Reply::Data(vec![1, 2, 3, 4])), done()];
    let (actions, r) = run_receive(4, outs);
    assert_eq!(r, Ok(4));
    assert_eq!(actions[6], Action::Run(Command::ReadBuffer(0x80, 4)));
    assert_eq!(actions[7], Action::Run(Command::ClearIrqStatus(IrqMask::all())));
}

#[test]
fn receive_forwards_a_driver_error() {
    let (actions, r) = run_receive(4, vec![done(), Err(3)]);
    assert_eq!(r, Err(RadioError::Device(3)));
    assert_eq!(actions.len(), 2);
}

#[test]
fn every_transaction_run_is_bracketed() {
    for n in 0..4usize {
        let len = n + 3;
        for pattern in 0u32..(1 << len) {
            let outs: Vec<Result<(), BusErr>> = (0..len)
                .map(|i| if pattern & (1 << i) != 0 { Err(DeviceError::Spi(i as u8)) } else { Ok(()) })
                .collect();
            let (actions, r) = run_txn(n, &outs);
            assert_eq!(actions[0], TxnAction::AssertSelect);
            let tail = &actions[actions.len() - 2..];
            assert_eq!(tail, &[TxnAction::Flush, TxnAction::DeassertSelect]);
            let ops = &actions[1..actions.len() - 2];
            for (i, a) in ops.iter().enumerate() {
                assert_eq!(*a, TxnAction::RunOp(i));
            }
            let first = outs.iter().take(actions.len()).find(|o| o.is_err()).copied();
            assert_eq!(r, first.unwrap_or(Ok(())));
        }
    }
}

#[test]
fn modem_config_for_the_default_link() {
    let conf = LoraConfig::default().modem_config();
    assert_eq!(conf.packet_type, sx126x::packet::PacketType::LoRa);
    assert_eq!(conf.sync_word, 0x1424);
    assert_eq!(conf.calib_param.to_u8(), 0x7F);
    assert_eq!(conf.mod_params.to_bytes(), [10, 4, 2, 0, 0, 0, 0, 0]);
    assert_eq!(conf.pa_config.to_bytes(), [4, 7, 0, 1]);
    assert_eq!(conf.tx_params.to_bytes(), [22, 4]);
    assert_eq!(conf.packet_params.unwrap().to_bytes(), [0, 15, 0, 0xFF, 0, 0, 0, 0, 0]);
    assert_eq!(conf.dio2_irq_mask.to_u16(), 0);
    assert_eq!(conf.dio3_irq_mask.to_u16(), 0);
    assert_eq!(conf.rf_frequency, 868_000_000);
    let (v, d) = conf.tcxo_opts.unwrap();
    assert_eq!(v.code(), 4);
    assert_eq!(d.to_bytes(), [0, 0, 0]);
}

/// Runs an initialization whose actions get the given outcomes.
fn run_init(conf: &Config, outcomes: Vec<Result<Reply, u8>>) -> (Vec<Action>, Result<(), u8>) {
    let (mut s, mut step) = InitSession::start::<u8>(conf);
    let mut actions = vec![];
    let mut outs = outcomes.into_iter();
    loop {
        match step {
            Step::Finish(r) => return (actions, r),
            Step::Do(a) => actions.push(a),
        }
        let (s2, st) = s.step(outs.next().expect("more outcomes"));
        s = s2;
        step = st;
    }
}

#[test]
fn init_session_hands_out_the_whole_plan() {
    let conf = LoraConfig::default().modem_config();
    let (actions, r) = run_init(&conf, vec![done(); 15]);
    assert_eq!(r, Ok(()));
    assert_eq!(actions, init_plan(&conf));
}

#[test]
fn init_session_stops_at_the_first_failure() {
    let conf = LoraConfig::default().modem_config();
    let plan = init_plan(&conf);
    for k in 0..plan.len() {
        let mut outs = vec![done(); k];
        outs.push(Err(k as u8));
        outs.push(done());
        let (actions, r) = run_init(&conf, outs);
        assert_eq!(r, Err(k as u8));
        assert_eq!(actions.len(), k + 1);
        assert_eq!(&actions[..], &plan[..k + 1]);
    }
}

fn run_setup(init: Result<(), u8>, outcomes: Vec<Result<Reply, u8>>) -> (Vec<Action>, Result<(), u8>) {
    let (mut s, mut step) = LinkSetup::start(init);
    let mut actions = vec![];
    let mut outs = outcomes.into_iter();
    loop {
        match step {
            Step::Finish(r) => return (actions, r),
            Step::Do(a) => actions.push(a),
        }
        let (s2, st) = s.step(outs.next().expect("more outcomes"));
        s = s2;
        step = st;
    }
}

#[test]
fn link_setup_reads_status_then_sets_the_current_limit() {
    let (actions, r) = run_setup(Ok(()), vec![Ok(Reply::Status(Status::from_u8(0x22))), done()]);
    assert_eq!(actions, vec![Action::Run(Command::GetStatus), Action::Run(Command::SetOcp(140))]);
    assert_eq!(r, Ok(()));
}

#[test]
fn link_setup_reports_the_init_error_after_setting_the_limit() {
    let (actions, r) = run_setup(Err(1), vec![Err(2), done()]);
    assert_eq!(actions.len(), 2);
    assert_eq!(r, Err(1));
}

#[test]
fn link_setup_reports_a_failed_limit_first() {
    let (_, r) = run_setup(Err(1), vec![done(), Err(3)]);
    assert_eq!(r, Err(3));
    let (_, r) = run_setup(Ok(()), vec![done(), Err(3)]);
    assert_eq!(r, Err(3));
}

#[test]
fn payload_length_is_checked() {
    assert_eq!(check_payload::<u8>(0), Ok(()));
    assert_eq!(check_payload::<u8>(255), Ok(()));
    assert_eq!(check_payload::<u8>(256), Err(RadioError::PayloadTooLarge { len: 256, capacity: 255 }));
}
