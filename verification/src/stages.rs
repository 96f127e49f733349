//! The pipeline stages: each stage's decisions as verified transition
//! functions, and a model of how shutdown propagates.
//!
//! Each stage alternates outside work (reading the source, driving the
//! decoder, GPU submission) with decisions. The outside work stays with
//! the driver threads; the decisions stand here: for every event a stage
//! can observe, the function below says what the stage does next. The
//! drivers perform the returned action — push, feed, close, stop.
//!
//! Termination has no explicit cancellation signal: it propagates by
//! queue closure alone. [`lemma_shutdown_terminates`] proves over the
//! model [`ShutdownModel`] that once the packet queue is closed, every
//! downstream stage observes closure and stops within a bounded number of
//! rounds, with no deadlock.

use vstd::prelude::*;
use crate::convert::{convert_frame, convert_post};
use crate::error::PipelineError;
use crate::frame::Frame;
use crate::presenter::PresenterState;
use crate::texture_cache::{EnsureAction, TextureCache, TextureDesc};
use crate::viewport::{spec_viewport, Viewport};

verus! {

/// One compressed unit of the input stream, tagged with the index of the
/// stream it belongs to. The compressed payload itself is opaque to the
/// pipeline: only the decoder reads it.
#[derive(Clone, Copy, Debug, PartialEq, Eq, Structural)]
pub struct Packet {
    pub stream_index: usize,
}

/// What the packet pump observed on one read of the source.
#[derive(Clone, Copy, Debug, PartialEq, Eq, Structural)]
pub enum PumpEvent {
    /// The source yielded a packet.
    Packet(Packet),
    /// The source is exhausted or failed; no further packet will come.
    SourceEnd,
}

/// What the packet pump does next.
#[derive(Clone, Copy, Debug, PartialEq, Eq, Structural)]
pub enum PumpAction {
    /// Push the packet onto the packet queue; the push blocks while the
    /// queue is full (backpressure on the source read rate).
    Forward(Packet),
    /// The packet belongs to another stream: drop it and read on.
    Skip,
    /// Stop the pump and close the packet queue — the sole termination
    /// signal to the decode stage.
    StopAndCloseOutput,
}

/// The packet pump's decision for one read: forward packets of the
/// selected stream, skip all others, stop and close on source end.
pub fn pump_step(selected_stream: usize, event: PumpEvent) -> (a: PumpAction)
    ensures
        match event {
            PumpEvent::Packet(p) => a == (if p.stream_index == selected_stream {
                PumpAction::Forward(p)
            } else {
                PumpAction::Skip
            }),
            PumpEvent::SourceEnd => a == PumpAction::StopAndCloseOutput,
        },
{
    match event {
        PumpEvent::Packet(p) => {
            if p.stream_index == selected_stream {
                PumpAction::Forward(p)
            } else {
                PumpAction::Skip
            }
        },
        PumpEvent::SourceEnd => PumpAction::StopAndCloseOutput,
    }
}

/// What the decode stage observed on the packet queue.
#[derive(Clone, Copy, Debug, PartialEq, Eq, Structural)]
pub enum DecodeInput {
    /// The next packet to feed to the decoder.
    Packet(Packet),
    /// The packet queue is closed and drained: the pump stopped and no
    /// packet is pending.
    InputClosed,
}

/// What the decode stage does with one packet-queue observation.
#[derive(Clone, Copy, Debug, PartialEq, Eq, Structural)]
pub enum DecodeInputAction {
    /// Feed the packet to the decoder, then poll for completed frames.
    FeedDecoder(Packet),
    /// Stop the stage and close the frame queue, propagating termination
    /// downstream.
    StopAndCloseOutput,
}

/// The decode stage's decision on its input: feed every packet to the
/// decoder; once the closed packet queue is drained, stop and close the
/// frame queue in turn.
pub fn decode_input_step(input: DecodeInput) -> (a: DecodeInputAction)
    ensures
        match input {
            DecodeInput::Packet(p) => a == DecodeInputAction::FeedDecoder(p),
            DecodeInput::InputClosed => a == DecodeInputAction::StopAndCloseOutput,
        },
{
    match input {
        DecodeInput::Packet(p) => DecodeInputAction::FeedDecoder(p),
        DecodeInput::InputClosed => DecodeInputAction::StopAndCloseOutput,
    }
}

/// What the decoder answered when polled for a completed frame.
#[derive(Clone, Debug)]
pub enum DecoderPoll {
    /// A completed frame.
    Frame(Frame),
    /// No frame yet: the decoder needs more packets.
    NoFrameYet,
    /// The decoder rejected its input.
    Error,
}

/// What the decode stage does next after polling the decoder.
#[derive(Clone, Debug)]
pub enum DecodeAction {
    /// Push the frame onto the frame queue (blocks while the single slot
    /// is occupied).
    ForwardFrame(Frame),
    /// A flush artifact with zero dimensions: discard it, poll on.
    DiscardFrame,
    /// Pull the next packet from the packet queue.
    PullNextPacket,
    /// A fatal decoder error: stop the stage and close the frame queue so
    /// the failure is observable downstream.
    FailStop(PipelineError),
}

/// The decode stage's decision after one decoder poll: forward frames
/// with real dimensions, discard zero-dimension flush artifacts, pull
/// more input when the decoder has nothing yet, and stop — closing the
/// output — on a decoder error.
pub fn decode_poll_step(poll: DecoderPoll) -> (a: DecodeAction)
    ensures
        match poll {
            DecoderPoll::Frame(f) => a == (if f.width > 0 && f.height > 0 {
                DecodeAction::ForwardFrame(f)
            } else {
                DecodeAction::DiscardFrame
            }),
            DecoderPoll::NoFrameYet => a == DecodeAction::PullNextPacket,
            DecoderPoll::Error => a == DecodeAction::FailStop(PipelineError::Decode),
        },
{
    match poll {
        DecoderPoll::Frame(f) => {
            if f.width > 0 && f.height > 0 {
                DecodeAction::ForwardFrame(f)
            } else {
                DecodeAction::DiscardFrame
            }
        },
        DecoderPoll::NoFrameYet => DecodeAction::PullNextPacket,
        DecoderPoll::Error => DecodeAction::FailStop(PipelineError::Decode),
    }
}

/// What the convert stage observed on its input queue.
#[derive(Clone, Debug)]
pub enum ConvertEvent {
    /// A raw decoded frame to inspect and, if planar, convert.
    Frame(Frame),
    /// The frame queue is closed and drained: the decode stage stopped.
    InputClosed,
}

/// What the convert stage does next.
#[derive(Clone, Debug)]
pub enum ConvertAction {
    /// Push the packed RGBA frame onto the presentable-frame queue.
    Forward(Frame),
    /// The frame's format is outside the supported set: fatal for this
    /// stage — stop and close the output, surfacing the error.
    FailStop(PipelineError),
    /// Input closed: stop and close the presentable-frame queue in turn.
    StopAndCloseOutput,
}

/// The convert stage's decision for one event: pass packed RGBA through,
/// convert planar frames on this thread, fail on unsupported formats, and
/// propagate closure.
pub fn convert_stage_step(event: ConvertEvent) -> (a: ConvertAction)
    requires
        event matches ConvertEvent::Frame(f) ==> f.wf(),
    ensures
        match event {
            ConvertEvent::Frame(f) => {
                if f.format.is_supported() {
                    &&& a matches ConvertAction::Forward(out)
                    &&& (a matches ConvertAction::Forward(out) ==> {
                        &&& out.wf()
                        &&& out.format.is_packed()
                        &&& out.width == f.width
                        &&& out.height == f.height
                        &&& f.format.is_packed() ==> out == f
                        &&& f.format.is_planar() ==> convert_post(f, out)
                    })
                } else {
                    a == ConvertAction::FailStop(PipelineError::UnsupportedPixelFormat)
                }
            },
            ConvertEvent::InputClosed => a == ConvertAction::StopAndCloseOutput,
        },
{
    match event {
        ConvertEvent::Frame(f) => match convert_frame(f) {
            Ok(out) => ConvertAction::Forward(out),
            Err(e) => ConvertAction::FailStop(e),
        },
        ConvertEvent::InputClosed => ConvertAction::StopAndCloseOutput,
    }
}

/// What the render driver observed on one redraw opportunity, polling its
/// input queue without blocking.
#[derive(Clone, Debug)]
pub enum DriverEvent {
    /// A new presentable frame arrived.
    Frame(Frame),
    /// Nothing new; draw the texture from the previous frame again.
    NoNewFrame,
    /// The presentable-frame queue is closed: the pipeline upstream
    /// stopped. Not an error — keep presenting the last texture for the
    /// remainder of program life.
    InputClosed,
}

/// The GPU work one render-driver step asks for.
#[derive(Clone, Debug)]
pub struct DrawPlan {
    /// A new frame to upload: the frame, the texture to write it into,
    /// and whether that texture must first be created (and which old one
    /// released). `None` when no new frame arrived.
    pub upload: Option<(Frame, TextureDesc, EnsureAction)>,
    /// The texture to draw and the viewport to draw it in — the most
    /// recently obtained texture, drawn on every opportunity so resizes
    /// stay responsive. `None` only before the first frame.
    pub draw: Option<(TextureDesc, Viewport)>,
}

/// The render driver's decision on one redraw opportunity.
///
/// A new frame must be packed RGBA (the convert stage guarantees it; a
/// frame in any other format is rejected as unsupported, not presented
/// wrongly). The texture cache is brought to the frame's dimensions —
/// reallocating only on change — and the plan asks for the upload. With
/// or without a new frame, the currently held texture is drawn, in the
/// viewport that letterboxes it into the configured surface.
pub fn driver_step(cache: &mut TextureCache, presenter: &PresenterState, event: DriverEvent) -> (r:
    Result<DrawPlan, PipelineError>)
    requires
        old(cache).wf(),
        old(cache).next_id < u64::MAX,
        presenter.wf(),
        event matches DriverEvent::Frame(f) ==> f.wf(),
    ensures
        final(cache).wf(),
        match r {
            Ok(plan) => {
                &&& match event {
                    DriverEvent::Frame(f) => {
                        &&& f.format.is_packed()
                        &&& plan.upload matches Some((uf, t, act))
                        &&& (plan.upload matches Some((uf, t, act)) ==> uf == f && t.width
                            == f.width && t.height == f.height && final(cache).current == Some(t)
                            && crate::texture_cache::ensure_post(
                            *old(cache),
                            *final(cache),
                            f.width,
                            f.height,
                            (t, act),
                        ))
                    },
                    _ => plan.upload is None && *final(cache) == *old(cache),
                }
                &&& match final(cache).current {
                    Some(t) => plan.draw == Some(
                        (
                            t,
                            spec_viewport(
                                t.width as int,
                                t.height as int,
                                presenter.surface_width as int,
                                presenter.surface_height as int,
                            ),
                        ),
                    ),
                    None => plan.draw is None,
                }
            },
            Err(e) => {
                &&& e == PipelineError::UnsupportedPixelFormat
                &&& event matches DriverEvent::Frame(f) && !f.format.is_packed()
                &&& *final(cache) == *old(cache)
            },
        },
{
    let upload: Option<(Frame, TextureDesc, EnsureAction)> = match event {
        DriverEvent::Frame(f) => {
            if !f.format.packed() {
                return Err(PipelineError::UnsupportedPixelFormat);
            }
            let (t, act) = cache.ensure(f.width, f.height);
            Some((f, t, act))
        },
        _ => None,
    };
    let draw: Option<(TextureDesc, Viewport)> = match cache.current_texture() {
        Some(t) => {
            let v = presenter.viewport_for(&t);
            Some((t, v))
        },
        None => None,
    };
    Ok(DrawPlan { upload, draw })
}

/// An abstraction of the whole pipeline for reasoning about shutdown:
/// how many items each queue still holds, which queues are closed, and
/// which stages still run. Frame payloads are irrelevant to termination,
/// so only counts remain.
pub struct ShutdownModel {
    /// Packets waiting in the packet queue.
    pub packets: nat,
    /// The packet pump stopped and closed the packet queue.
    pub packet_q_closed: bool,
    /// The decode stage still runs.
    pub decode_running: bool,
    /// Raw frames waiting between decode and convert.
    pub frames: nat,
    /// The decode stage stopped and closed the frame queue.
    pub frame_q_closed: bool,
    /// The convert stage still runs.
    pub convert_running: bool,
    /// Presentable frames waiting between convert and the driver.
    pub presentables: nat,
    /// The convert stage stopped and closed the presentable queue.
    pub out_q_closed: bool,
    /// The render driver observed the closure of its input and treats it
    /// as "no new frame" from now on.
    pub driver_saw_closure: bool,
}

impl ShutdownModel {
    /// A stopped stage has closed its output queue — closure is the only
    /// way a stage ever stops telling its consumer anything.
    pub open spec fn wf(self) -> bool {
        &&& !self.decode_running ==> self.frame_q_closed
        &&& !self.convert_running ==> self.out_q_closed
    }

    /// Every stage downstream of the packet queue has observed closure
    /// and stopped. Each stage drains its input before stopping, so
    /// nothing is queued anywhere.
    pub open spec fn terminated(self) -> bool {
        &&& !self.decode_running
        &&& !self.convert_running
        &&& self.driver_saw_closure
    }

    /// One step of the decode stage, pessimistically assuming every
    /// packet yields a frame: consume a packet while any is left; once
    /// the closed packet queue is drained, stop and close the frame
    /// queue.
    pub open spec fn decode_step(self) -> ShutdownModel {
        if !self.decode_running {
            self
        } else if self.packets > 0 {
            ShutdownModel { packets: (self.packets - 1) as nat, frames: self.frames + 1, ..self }
        } else if self.packet_q_closed {
            ShutdownModel { decode_running: false, frame_q_closed: true, ..self }
        } else {
            self
        }
    }

    /// One step of the convert stage: convert a frame while any is
    /// queued; once the closed frame queue is drained, stop and close the
    /// presentable queue.
    pub open spec fn convert_step(self) -> ShutdownModel {
        if !self.convert_running {
            self
        } else if self.frames > 0 {
            ShutdownModel {
                frames: (self.frames - 1) as nat,
                presentables: self.presentables + 1,
                ..self
            }
        } else if self.frame_q_closed {
            ShutdownModel { convert_running: false, out_q_closed: true, ..self }
        } else {
            self
        }
    }

    /// One step of the render driver: take a presentable frame while any
    /// is queued; once the closed presentable queue is drained, observe
    /// the closure.
    pub open spec fn driver_step(self) -> ShutdownModel {
        if self.driver_saw_closure {
            self
        } else if self.presentables > 0 {
            ShutdownModel { presentables: (self.presentables - 1) as nat, ..self }
        } else if self.out_q_closed {
            ShutdownModel { driver_saw_closure: true, ..self }
        } else {
            self
        }
    }

    /// One scheduling round: every stage takes one step. No fairness
    /// beyond this is assumed.
    pub open spec fn round(self) -> ShutdownModel {
        self.decode_step().convert_step().driver_step()
    }

    /// The model after `n` rounds.
    pub open spec fn run(self, n: nat) -> ShutdownModel
        decreases n,
    {
        if n == 0 {
            self
        } else {
            self.round().run((n - 1) as nat)
        }
    }

    /// How far the pipeline still is from full termination. A packet may
    /// yet become a frame and then a presentable frame, so items weigh
    /// more the further upstream they sit; each running stage adds one
    /// stopping step of its own.
    pub open spec fn measure(self) -> nat {
        3 * self.packets + 2 * self.frames + self.presentables + (if self.decode_running {
            1nat
        } else {
            0nat
        }) + (if self.convert_running {
            1nat
        } else {
            0nat
        }) + (if self.driver_saw_closure {
            0nat
        } else {
            1nat
        })
    }
}

/// A terminated pipeline stays terminated: rounds change nothing.
pub proof fn lemma_terminated_stays(m: ShutdownModel, n: nat)
    requires
        m.terminated(),
    ensures
        m.run(n) == m,
    decreases n,
{
    if n > 0 {
        assert(m.round() == m);
        lemma_terminated_stays(m.round(), (n - 1) as nat);
    }
}

/// Running `a + b` rounds is running `a`, then `b`.
pub proof fn lemma_run_splits(m: ShutdownModel, a: nat, b: nat)
    ensures
        m.run(a + b) == m.run(a).run(b),
    decreases a,
{
    if a > 0 {
        lemma_run_splits(m.round(), (a - 1) as nat, b);
    }
}

/// Once the packet queue is closed, each round of a not-yet-terminated
/// pipeline makes progress: the distance to termination strictly drops,
/// and the invariants persist. In particular nothing deadlocks.
pub proof fn lemma_round_progress(m: ShutdownModel)
    requires
        m.wf(),
        m.packet_q_closed,
        !m.terminated(),
    ensures
        m.round().wf(),
        m.round().packet_q_closed,
        m.round().measure() < m.measure(),
{
}

/// Shutdown propagates: once the packet pump has closed the packet
/// queue, the decode stage, the convert stage and the render driver all
/// observe closure and stop within a bounded number of rounds — at most
/// the current distance [`ShutdownModel::measure`] — with no deadlock.
pub proof fn lemma_shutdown_terminates(m: ShutdownModel)
    requires
        m.wf(),
        m.packet_q_closed,
    ensures
        m.run(m.measure()).terminated(),
    decreases m.measure(),
{
    if m.terminated() {
        lemma_terminated_stays(m, m.measure());
    } else {
        let m1 = m.round();
        lemma_round_progress(m);
        lemma_shutdown_terminates(m1);
        let k = m1.measure();
        let rest = (m.measure() - 1 - k) as nat;
        lemma_run_splits(m1, k, rest);
        lemma_terminated_stays(m1.run(k), rest);
        assert(m.run(m.measure()) == m1.run((m.measure() - 1) as nat));
        assert(k + rest == m.measure() - 1);
    }
}

} // verus!
