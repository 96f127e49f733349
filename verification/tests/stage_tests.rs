use video_pipeline::convert::rgb_to_yuv;
use video_pipeline::error::PipelineError;
use video_pipeline::frame::Frame;
use video_pipeline::pixel::PixelFormat;
use video_pipeline::presenter::{PresenterState, SurfaceResponse};
use video_pipeline::queue::{BoundedQueue, PopOutcome, PushOutcome};
use video_pipeline::stages::{
    convert_stage_step, decode_input_step, decode_poll_step, driver_step, pump_step, ConvertAction,
    ConvertEvent, DecodeAction, DecodeInput, DecodeInputAction, DecoderPoll, DriverEvent, Packet,
    PumpAction, PumpEvent,
};
use video_pipeline::texture_cache::TextureCache;

#[test]
fn pump_forwards_selected_stream_only() {
    let p = Packet { stream_index: 2 };
    assert!(matches!(pump_step(2, PumpEvent::Packet(p)), PumpAction::Forward(q) if q.stream_index == 2));
    assert!(matches!(pump_step(1, PumpEvent::Packet(p)), PumpAction::Skip));
    assert!(matches!(pump_step(2, PumpEvent::SourceEnd), PumpAction::StopAndCloseOutput));
}

#[test]
fn decode_discards_zero_dimension_flush_artifacts() {
    let good = Frame::solid_rgba(4, 4, 0, 0, 0, 255);
    assert!(matches!(decode_poll_step(DecoderPoll::Frame(good)), DecodeAction::ForwardFrame(_)));

    let artifact = Frame { format: PixelFormat::Rgba, width: 0, height: 0, planes: Vec::new() };
    assert!(matches!(decode_poll_step(DecoderPoll::Frame(artifact)), DecodeAction::DiscardFrame));

    assert!(matches!(decode_poll_step(DecoderPoll::NoFrameYet), DecodeAction::PullNextPacket));
    assert!(matches!(
        decode_poll_step(DecoderPoll::Error),
        DecodeAction::FailStop(PipelineError::Decode)
    ));
}

#[test]
fn decode_feeds_packets_and_stops_on_closure() {
    let p = Packet { stream_index: 0 };
    assert_eq!(decode_input_step(DecodeInput::Packet(p)), DecodeInputAction::FeedDecoder(p));
    assert_eq!(
        decode_input_step(DecodeInput::InputClosed),
        DecodeInputAction::StopAndCloseOutput
    );
}

#[test]
fn convert_stage_converts_passes_and_fails() {
    let (yv, uv, vv) = rgb_to_yuv(0, 0, 255);
    let planar = Frame::solid_planar(PixelFormat::Yuv420p, 8, 8, yv, uv, vv);
    match convert_stage_step(ConvertEvent::Frame(planar)) {
        ConvertAction::Forward(out) => {
            assert_eq!(out.format, PixelFormat::Rgba);
            assert_eq!(out.width, 8);
        }
        _ => panic!("planar frame must convert"),
    }

    let packed = Frame::solid_rgba(8, 8, 1, 2, 3, 4);
    assert!(matches!(convert_stage_step(ConvertEvent::Frame(packed)), ConvertAction::Forward(_)));

    let odd = Frame::from_planes(PixelFormat::Other, 8, 8, Vec::new()).unwrap();
    assert!(matches!(
        convert_stage_step(ConvertEvent::Frame(odd)),
        ConvertAction::FailStop(PipelineError::UnsupportedPixelFormat)
    ));

    assert!(matches!(
        convert_stage_step(ConvertEvent::InputClosed),
        ConvertAction::StopAndCloseOutput
    ));
}

#[test]
fn driver_uploads_new_frame_and_always_draws() {
    let mut cache = TextureCache::new();
    let presenter = PresenterState::new(128, 64);

    // First frame: texture created, uploaded and drawn letterboxed.
    let frame = Frame::solid_rgba(64, 64, 0, 0, 255, 255);
    let plan = driver_step(&mut cache, &presenter, DriverEvent::Frame(frame)).unwrap();
    let (uploaded, tex, _act) = plan.upload.expect("new frame must be uploaded");
    assert_eq!(uploaded.width, 64);
    assert_eq!(tex.width, 64);
    assert_eq!(tex.height, 64);
    let (draw_tex, viewport) = plan.draw.expect("a held texture is drawn");
    assert_eq!(draw_tex.id, tex.id);
    assert_eq!((viewport.x, viewport.y, viewport.width, viewport.height), (32, 0, 64, 64));

    // No new frame: nothing uploaded, the same texture drawn again.
    let plan2 = driver_step(&mut cache, &presenter, DriverEvent::NoNewFrame).unwrap();
    assert!(plan2.upload.is_none());
    assert_eq!(plan2.draw.unwrap().0.id, tex.id);

    // Input closed: tolerated, still drawing the last texture.
    let plan3 = driver_step(&mut cache, &presenter, DriverEvent::InputClosed).unwrap();
    assert!(plan3.upload.is_none());
    assert_eq!(plan3.draw.unwrap().0.id, tex.id);

    // Same dimensions on the next frame: the texture is reused.
    let frame2 = Frame::solid_rgba(64, 64, 255, 0, 0, 255);
    let plan4 = driver_step(&mut cache, &presenter, DriverEvent::Frame(frame2)).unwrap();
    assert_eq!(plan4.upload.unwrap().1.id, tex.id);
}

#[test]
fn driver_rejects_non_packed_frame() {
    let mut cache = TextureCache::new();
    let presenter = PresenterState::new(100, 100);
    let planar = Frame::solid_planar(PixelFormat::Yuv444p, 4, 4, 0, 0, 0);
    assert!(matches!(
        driver_step(&mut cache, &presenter, DriverEvent::Frame(planar)),
        Err(PipelineError::UnsupportedPixelFormat)
    ));
    // Nothing was allocated for the rejected frame.
    assert!(cache.current_texture().is_none());
}

#[test]
fn driver_draws_nothing_before_first_frame() {
    let mut cache = TextureCache::new();
    let presenter = PresenterState::new(100, 100);
    let plan = driver_step(&mut cache, &presenter, DriverEvent::NoNewFrame).unwrap();
    assert!(plan.upload.is_none());
    assert!(plan.draw.is_none());
}

#[test]
fn presenter_clamps_degenerate_resize() {
    let mut p = PresenterState::new(0, 0);
    assert_eq!(p.surface_width, 1);
    assert_eq!(p.surface_height, 1);
    p.configure(800, 0);
    assert_eq!(p.surface_width, 800);
    assert_eq!(p.surface_height, 1);
}

#[test]
fn surface_loss_reconfigures_other_errors_abort() {
    let p = PresenterState::new(100, 100);
    assert_eq!(
        p.on_draw_failure(PipelineError::SurfaceAcquire),
        SurfaceResponse::ReconfigureAndSkip
    );
    assert_eq!(
        p.on_draw_failure(PipelineError::GpuDevice),
        SurfaceResponse::Abort(PipelineError::GpuDevice)
    );
    assert!(PipelineError::SurfaceAcquire.is_recoverable());
    assert!(!PipelineError::Decode.is_recoverable());
}

#[test]
fn shutdown_propagates_through_all_stages() {
    // A miniature run of the whole pipeline: the pump forwards three
    // packets and stops; each downstream stage drains its input and
    // observes closure within a bounded number of steps; nothing
    // deadlocks and nothing is lost.
    let mut packet_q: BoundedQueue<Packet> = BoundedQueue::new(10);
    let mut frame_q: BoundedQueue<Frame> = BoundedQueue::new(1);
    let mut out_q: BoundedQueue<Frame> = BoundedQueue::new(1);
    // Frames the test's stand-in driver already pulled out of the
    // single-slot presentable queue to unblock the convert stage.
    let mut drained: Vec<Frame> = Vec::new();

    // Packet pump: three packets of the selected stream, one of another,
    // then the source ends.
    let reads = [
        PumpEvent::Packet(Packet { stream_index: 0 }),
        PumpEvent::Packet(Packet { stream_index: 1 }),
        PumpEvent::Packet(Packet { stream_index: 0 }),
        PumpEvent::Packet(Packet { stream_index: 0 }),
        PumpEvent::SourceEnd,
    ];
    for event in reads {
        match pump_step(0, event) {
            PumpAction::Forward(p) => {
                assert!(matches!(packet_q.push(p), PushOutcome::Accepted));
            }
            PumpAction::Skip => {}
            PumpAction::StopAndCloseOutput => packet_q.close(),
        }
    }
    assert_eq!(packet_q.len(), 3);
    assert!(packet_q.closed());

    // Decode stage: every packet decodes to one tiny frame; on
    // disconnect it stops and closes its output. Steps are bounded.
    let (yv, uv, vv) = rgb_to_yuv(0, 0, 255);
    let mut decode_steps = 0;
    loop {
        decode_steps += 1;
        assert!(decode_steps <= 8, "decode stage must stop in bounded steps");
        match packet_q.pop() {
            PopOutcome::Item(_packet) => {
                let decoded = Frame::solid_planar(PixelFormat::Yuv420p, 8, 8, yv, uv, vv);
                match decode_poll_step(DecoderPoll::Frame(decoded)) {
                    DecodeAction::ForwardFrame(f) => {
                        // Single-slot queue: while it is occupied, the
                        // convert thread takes the waiting frame first.
                        let mut item = f;
                        loop {
                            match frame_q.push(item) {
                                PushOutcome::Accepted => break,
                                PushOutcome::Full(back) => {
                                    item = back;
                                    match frame_q.pop() {
                                        PopOutcome::Item(waiting) => {
                                            drive_convert(waiting, &mut out_q, &mut drained);
                                        }
                                        _ => unreachable!(),
                                    }
                                }
                                PushOutcome::Closed(_) => unreachable!(),
                            }
                        }
                    }
                    _ => panic!("healthy frame must be forwarded"),
                }
            }
            PopOutcome::Disconnected => {
                frame_q.close();
                break;
            }
            PopOutcome::Empty => panic!("closed queue never reports plain empty"),
        }
    }

    // Convert stage: drain the remaining frames, then observe closure.
    let mut convert_steps = 0;
    loop {
        convert_steps += 1;
        assert!(convert_steps <= 8, "convert stage must stop in bounded steps");
        match frame_q.pop() {
            PopOutcome::Item(frame) => drive_convert(frame, &mut out_q, &mut drained),
            PopOutcome::Disconnected => {
                out_q.close();
                break;
            }
            PopOutcome::Empty => panic!("closed queue never reports plain empty"),
        }
    }

    // Render driver: consumes every presentable frame, then sees the
    // closure and keeps running without error.
    let mut cache = TextureCache::new();
    let presenter = PresenterState::new(16, 16);
    let mut presented = 0;
    for frame in drained {
        let plan = driver_step(&mut cache, &presenter, DriverEvent::Frame(frame)).unwrap();
        assert!(plan.upload.is_some());
        presented += 1;
    }
    let mut driver_steps = 0;
    loop {
        driver_steps += 1;
        assert!(driver_steps <= 8, "driver must observe closure in bounded steps");
        let event = match out_q.pop() {
            PopOutcome::Item(f) => DriverEvent::Frame(f),
            PopOutcome::Disconnected => DriverEvent::InputClosed,
            PopOutcome::Empty => DriverEvent::NoNewFrame,
        };
        let closed = matches!(event, DriverEvent::InputClosed);
        let plan = driver_step(&mut cache, &presenter, event).unwrap();
        if plan.upload.is_some() {
            presented += 1;
        }
        if closed {
            break;
        }
    }
    // All three selected packets became presented frames: none was lost.
    assert_eq!(presented, 3);
    // And the driver still draws the last texture after closure.
    let plan = driver_step(&mut cache, &presenter, DriverEvent::InputClosed).unwrap();
    assert!(plan.draw.is_some());
}

fn drive_convert(frame: Frame, out_q: &mut BoundedQueue<Frame>, drained: &mut Vec<Frame>) {
    match convert_stage_step(ConvertEvent::Frame(frame)) {
        ConvertAction::Forward(converted) => {
            let mut item = converted;
            loop {
                match out_q.push(item) {
                    PushOutcome::Accepted => break,
                    PushOutcome::Full(back) => {
                        // The single slot is occupied: the driver takes the
                        // waiting frame, then the push succeeds.
                        item = back;
                        match out_q.pop() {
                            PopOutcome::Item(waiting) => drained.push(waiting),
                            _ => unreachable!(),
                        }
                    }
                    PushOutcome::Closed(_) => unreachable!(),
                }
            }
        }
        _ => panic!("supported frame must convert"),
    }
}
