//! The submission loop's decisions: each header taken off the relay channel
//! becomes a create message while no client exists, and an update message
//! after that.
use vstd::prelude::*;
use crate::harness::{MonitoringSignal, Poll};
use crate::msg::{create_wasm_client_tag, update_wasm_client_tag};
use crate::wire::{ClientConfig, EncodeError, WasmHeader, WasmMessage, config_error, hex_decoded, duration_secs};

verus! {

#[derive(Clone, Copy, Debug, PartialEq, Eq, Structural)]
pub enum SinkPhase {
    /// No light client exists yet on the target chain.
    Uninitialized,
    /// The client exists: headers advance it.
    Active,
}

#[derive(Clone, Copy, Debug, PartialEq, Eq, Structural)]
pub enum SinkError {
    /// The relay channel's sending end went away.
    RelayDisconnected,
    /// A header could not be turned into a message.
    Encode(EncodeError),
}

/// What the loop does after a poll of the relay channel.
#[derive(Clone, Debug)]
pub enum SinkStep {
    /// Nothing arrived: wait one idle interval and poll again.
    Idle,
    /// Hand `message` to the broadcaster, then send `signal`, if any, on the
    /// monitoring channel.
    Submit { message: WasmMessage, signal: Option<MonitoringSignal> },
    /// Stop with this error.
    Failed(SinkError),
}

/// The type tag of the message the sink builds in a phase.
pub open spec fn tag_in(phase: SinkPhase) -> Seq<char> {
    match phase {
        SinkPhase::Uninitialized => create_wasm_client_tag(),
        SinkPhase::Active => update_wasm_client_tag(),
    }
}

/// The phase after a header was turned into a message.
pub open spec fn after_submit(phase: SinkPhase) -> SinkPhase {
    SinkPhase::Active
}

/// The phase after `n` headers were submitted from a fresh start.
pub open spec fn phase_after(n: nat) -> SinkPhase
    decreases n,
{
    if n == 0 {
        SinkPhase::Uninitialized
    } else {
        after_submit(phase_after((n - 1) as nat))
    }
}

/// The submission loop's state.
#[derive(Clone, Copy, Debug, PartialEq, Eq, Structural)]
pub struct Sink {
    pub phase: SinkPhase,
    /// The counterpart runs a simulation and waits for progress reports.
    pub report_progress: bool,
}

impl Sink {
    /// The progress report for a header, if one is owed.
    pub open spec fn signal_for(self, height: u64) -> Option<MonitoringSignal> {
        if self.report_progress {
            Some(MonitoringSignal { terminated: false, height })
        } else {
            None
        }
    }

    pub fn new(report_progress: bool) -> (r: Sink)
        ensures
            r == (Sink { phase: SinkPhase::Uninitialized, report_progress }),
    {
        Sink { phase: SinkPhase::Uninitialized, report_progress }
    }

    /// Takes what one poll of the relay channel gave. A header is turned into
    /// the message its phase calls for; the first one that succeeds makes the
    /// client active.
    pub fn on_poll<H: WasmHeader>(
        &mut self,
        p: Poll<H>,
        cfg: &ClientConfig,
        client_id: &String,
        signer: &String,
    ) -> (r: SinkStep)
        ensures
            final(self).report_progress == old(self).report_progress,
            r is Submit ==> r->message.type_url@ == tag_in(old(self).phase) && final(self).phase
                == after_submit(old(self).phase),
            p is Empty ==> r is Idle && *final(self) == *old(self),
            p is Disconnected ==> r == SinkStep::Failed(SinkError::RelayDisconnected)
                && *final(self) == *old(self),
            p is Item && old(self).phase == SinkPhase::Active ==> *final(self) == *old(self) && r
                == (SinkStep::Submit {
                message: r->message,
                signal: old(self).signal_for(p->Item_0.spec_height()),
            }) && r->message.type_url@ == update_wasm_client_tag() && r->message.value@
                == p->Item_0.update_payload(client_id@, signer@),
            p is Item && old(self).phase == SinkPhase::Uninitialized ==> match r {
                SinkStep::Submit { message, signal } => {
                    &&& final(self).phase == SinkPhase::Active
                    &&& config_error(*cfg) is None
                    &&& signal == old(self).signal_for(p->Item_0.spec_height())
                    &&& message.type_url@ == create_wasm_client_tag()
                    &&& exists|t: u64|
                        message.value@ == p->Item_0.create_payload(
                            hex_decoded(cfg.wasm_id@),
                            duration_secs(cfg.max_clock_drift@).unwrap(),
                            t,
                            signer@,
                        )
                },
                SinkStep::Failed(e) => {
                    &&& *final(self) == *old(self)
                    &&& config_error(*cfg) is Some ==> e == SinkError::Encode(config_error(*cfg).unwrap())
                    &&& config_error(*cfg) is None ==> e == SinkError::Encode(EncodeError::ClockBeforeEpoch)
                },
                SinkStep::Idle => false,
            },
    {
        match p {
            Poll::Empty => SinkStep::Idle,
            Poll::Disconnected => SinkStep::Failed(SinkError::RelayDisconnected),
            Poll::Item(h) => {
                let signal = self.report_for(h.height());
                match self.phase {
                    SinkPhase::Uninitialized => match h.to_wasm_create_msg(cfg, signer) {
                        Ok(message) => {
                            self.phase = SinkPhase::Active;
                            SinkStep::Submit { message, signal }
                        },
                        Err(e) => SinkStep::Failed(SinkError::Encode(e)),
                    },
                    SinkPhase::Active => {
                        let message = h.to_wasm_update_msg(signer, client_id);
                        SinkStep::Submit { message, signal }
                    },
                }
            },
        }
    }

    /// The loop of a side that is itself simulated submits nothing: it only
    /// watches its inbound channel for a disconnect.
    pub fn on_simulated_poll<T>(p: Poll<T>) -> (r: Option<SinkError>)
        ensures
            r == (if p is Disconnected {
                Some(SinkError::RelayDisconnected)
            } else {
                None
            }),
    {
        match p {
            Poll::Disconnected => Some(SinkError::RelayDisconnected),
            _ => None,
        }
    }

    /// The progress report owed for a header at `height`, if any.
    pub fn report_for(&self, height: u64) -> (r: Option<MonitoringSignal>)
        ensures
            r == self.signal_for(height),
    {
        if self.report_progress {
            Some(MonitoringSignal { terminated: false, height })
        } else {
            None
        }
    }

    /// The one signal sent at shutdown to a waiting harness.
    pub fn shutdown_signal() -> (r: MonitoringSignal)
        ensures
            r == (MonitoringSignal { terminated: true, height: 0 }),
    {
        MonitoringSignal { terminated: true, height: 0 }
    }
}

/// The client is created once: from a fresh start, the first header
/// submitted gets a create message and every later one an update message.
pub proof fn lemma_create_then_update(n: nat)
    ensures
        tag_in(phase_after(0)) == create_wasm_client_tag(),
        n > 0 ==> tag_in(phase_after(n)) == update_wasm_client_tag(),
        n > 0 ==> phase_after(n) == SinkPhase::Active,
{
    if n > 0 {
        assert(phase_after(n) == after_submit(phase_after((n - 1) as nat)));
    }
}

} // verus!
