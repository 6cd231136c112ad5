use std::time::Duration;

use rhinostream::errors::{RhinoError, RhinoResult};
use rhinostream::processor::{take_queue, CopyTexToCPU, DummyConfig, ReadFrame};
use rhinostream::errors::DDApiError;
use rhinostream::stream::{
    on_packet_sent, ConfigType, PacketAction, PacketPool, PumpAction, PumpState, RhinoStream,
    SignalType, SourcePump,
};
use rhinostream::{
    ColorFormat, Config, Context, DxContext, Filter, Frame, FrameType, FromOptions, Packet,
    PacketKind, Processor, Signal, Source, Texture, TextureDesc,
};

#[derive(Debug, Clone, PartialEq)]
struct Number(u32);

impl FromOptions for Number {
    fn from_options(s: &str) -> Result<Self, String> {
        s.parse::<u32>().map(Number).map_err(|_| "no number".to_string())
    }
}

#[derive(Default)]
struct Stage {
    log: Vec<String>,
    fails: bool,
    queue: Option<u8>,
    results: Vec<RhinoResult<Frame<u32>>>,
}

impl Stage {
    fn outcome(&self) -> RhinoResult<()> {
        if self.fails {
            Err(RhinoError::UnSupported)
        } else {
            Ok(())
        }
    }
}

impl Config for Stage {
    type ConfigType = Number;

    fn configure(&mut self, c: Number) -> RhinoResult<()> {
        self.log.push(format!("configure {}", c.0));
        self.outcome()
    }
}

impl Signal for Stage {
    fn signal(&mut self, flags: u32) -> RhinoResult<()> {
        self.log.push(format!("signal {}", flags));
        self.outcome()
    }
}

impl Source for Stage {}

impl Filter for Stage {
    type Handle = u32;

    fn apply_filter(&mut self, frame: &Frame<u32>) -> RhinoResult<Frame<u32>> {
        self.log.push(format!("filter {}", raw(frame)));
        self.results.remove(0)
    }
}

impl Processor for Stage {
    type Queue = u8;

    fn get_queue(&mut self) -> RhinoResult<u8> {
        self.queue.take().ok_or(RhinoError::UnSupported)
    }
}

fn frame(n: u32) -> Frame<u32> {
    let desc = TextureDesc { height: 1, width: 1, format: ColorFormat::NV12 };
    Frame::new(FrameType::Dx11Frame(Texture { raw: n, desc }))
}

fn raw(frame: &Frame<u32>) -> u32 {
    match &frame.data {
        FrameType::Dx11Frame(tex) => tex.raw,
    }
}

fn packet(n: u8) -> Packet {
    let mut p = Packet::new();
    p.data.push(n);
    p
}

#[test]
fn recoverable_errors_are_skipped() {
    let mut pump = SourcePump::new();
    let mut filter = Stage::default();
    let recoverable = || RhinoError::Recoverable("later".to_string());
    assert!(matches!(pump.on_source(&mut filter, Some(Err(recoverable()))), PumpAction::PollSource));
    assert_eq!(pump.get_state(), PumpState::Polling);
    assert!(filter.log.is_empty());
    filter.results = vec![Err(recoverable()), Ok(frame(8))];
    assert!(matches!(pump.on_source(&mut filter, Some(Ok(frame(1)))), PumpAction::PollSource));
    match pump.on_source(&mut filter, Some(Ok(frame(2)))) {
        PumpAction::Send(f) => assert_eq!(raw(&f), 8),
        _ => panic!("nothing to send"),
    }
    assert_eq!(pump.get_state(), PumpState::Sending);
    assert_eq!(filter.log, vec!["filter 1", "filter 2"]);
}

#[test]
fn other_errors_end_the_stream() {
    let ends = [
        RhinoError::UnSupported,
        RhinoError::NotFound,
        RhinoError::Exiting,
        RhinoError::UnRecoverable("x".to_string()),
        RhinoError::ParseError("x".to_string()),
        RhinoError::Unexpected("x".to_string()),
        RhinoError::Timedout,
    ];
    for e in ends {
        let mut pump = SourcePump::new();
        let mut filter = Stage::default();
        let r = pump.on_source(&mut filter, Some(Err(e.clone())));
        assert!(matches!(r, PumpAction::Exit));
        assert_eq!(pump.get_state(), PumpState::Exited);
        let mut pump = SourcePump::new();
        filter.results = vec![Err(e)];
        let r = pump.on_source(&mut filter, Some(Ok(frame(1))));
        assert!(matches!(r, PumpAction::Exit));
    }
    let mut pump = SourcePump::new();
    assert!(matches!(pump.on_source(&mut Stage::default(), None), PumpAction::Exit));
}

#[test]
fn waiting_controls_follow_a_frame() {
    let sending = || {
        let mut pump = SourcePump::new();
        let mut filter = Stage { results: vec![Ok(frame(1))], ..Stage::default() };
        pump.on_source(&mut filter, Some(Ok(frame(1))));
        pump
    };
    let (mut source, mut filter) = (Stage::default(), Stage::default());
    let mut pump = sending();
    let r: PumpAction<u32> = pump.on_sent(true, &mut source, Some(3), Some(Number(4)));
    assert!(matches!(r, PumpAction::ConfigureFilter));
    assert_eq!(pump.get_state(), PumpState::ConfiguringFilter);
    assert_eq!(source.log, vec!["signal 3", "configure 4"]);
    let r = pump.on_source_served(&mut filter, Some(Number(5)));
    assert!(matches!(r, PumpAction::PollSource));
    assert_eq!(pump.get_state(), PumpState::Polling);
    assert_eq!(filter.log, vec!["configure 5"]);
    let mut pump = sending();
    source.fails = true;
    filter.fails = true;
    let r: PumpAction<u32> = pump.on_sent(true, &mut source, Some(6), None);
    assert!(matches!(r, PumpAction::ConfigureFilter));
    assert_eq!(source.log.len(), 3);
    assert!(matches!(pump.on_source_served(&mut filter, None), PumpAction::PollSource));
    assert_eq!(filter.log.len(), 1);
    let mut pump = sending();
    pump.on_sent::<Stage, u32>(true, &mut source, None, None);
    let r = pump.on_source_served(&mut filter, Some(Number(7)));
    assert!(matches!(r, PumpAction::PollSource));
    assert_eq!(filter.log.len(), 2);
    let mut pump = sending();
    let r: PumpAction<u32> = pump.on_sent(false, &mut source, Some(7), Some(Number(8)));
    assert!(matches!(r, PumpAction::Exit));
    assert_eq!(source.log.len(), 3);
    assert_eq!(pump.get_state(), PumpState::Exited);
}

#[test]
fn processor_controls_follow_a_packet() {
    let mut processor = Stage::default();
    let r = on_packet_sent(true, &mut processor, Some(1), Some(Number(2)));
    assert_eq!(r, PacketAction::NextPacket);
    assert_eq!(processor.log, vec!["signal 1", "configure 2"]);
    assert_eq!(on_packet_sent(true, &mut processor, None, None), PacketAction::NextPacket);
    assert_eq!(on_packet_sent(false, &mut processor, Some(1), None), PacketAction::Exit);
    assert_eq!(processor.log.len(), 2);
}

#[test]
fn packets_are_used_again() {
    let mut pool = PacketPool::new();
    let first = pool.take();
    assert!(first.data.is_empty());
    assert_eq!(first.kind, PacketKind::Picture);
    assert_eq!(first.encode_time, Duration::from_millis(0));
    pool.put_back(packet(1));
    pool.put_back(packet(2));
    assert_eq!(pool.take().data, vec![2]);
    pool.put_back(packet(3));
    assert_eq!(pool.take().data, vec![3]);
    assert_eq!(pool.take().data, vec![1]);
    assert!(pool.take().data.is_empty());
}

#[test]
fn starting_takes_the_queue() {
    let mut processor = Stage { queue: Some(9), ..Stage::default() };
    let (stream, queue) = RhinoStream::new(&mut processor).unwrap();
    assert_eq!(queue, 9);
    assert_eq!(stream.pump.get_state(), PumpState::Polling);
    assert!(matches!(RhinoStream::new(&mut processor), Err(RhinoError::UnSupported)));
}

#[test]
fn packets_change_places() {
    let mut mine = packet(1);
    let (r, used) = RhinoStream::get_next_frame(&mut mine, Some(Ok(packet(2))));
    assert!(r.is_ok());
    assert_eq!(mine.data, vec![2]);
    assert_eq!(used.unwrap().data, vec![1]);
    let (r, used) = RhinoStream::get_next_frame(&mut mine, Some(Err(RhinoError::Exiting)));
    assert!(matches!(r, Err(RhinoError::Exiting)));
    assert!(used.is_none());
    let (r, used) = RhinoStream::get_next_frame(&mut mine, None);
    assert!(r.is_ok() && used.is_none());
    assert_eq!(mine.data, vec![2]);
    let (r, used) = RhinoStream::get_next_frame_with_timeout(&mut mine, None);
    assert!(matches!(r, Err(RhinoError::Timedout)));
    assert!(used.is_none());
    let (r, used) = RhinoStream::get_next_frame_with_timeout(&mut mine, Some(Some(Ok(packet(3)))));
    assert!(r.is_ok());
    assert_eq!((mine.data, used.unwrap().data), (vec![3], vec![2]));
}

#[test]
fn controls_go_to_their_stage() {
    let route = |c| RhinoStream::configure::<Stage, Stage, Stage>(c);
    let r = route(ConfigType::Source(Number(1)));
    assert_eq!((r.source, r.filter, r.processor), (Some(Number(1)), None, None));
    let r = route(ConfigType::Filter(Number(2)));
    assert_eq!((r.source, r.filter, r.processor), (None, Some(Number(2)), None));
    let r = route(ConfigType::Processor(Number(3)));
    assert_eq!((r.source, r.filter, r.processor), (None, None, Some(Number(3))));
    let r = RhinoStream::signal(SignalType::Source(4));
    assert_eq!((r.source, r.processor), (Some(4), None));
    let r = RhinoStream::signal(SignalType::Processor(5));
    assert_eq!((r.source, r.processor), (None, Some(5)));
    assert!(RhinoStream::handed_over(Ok(())).is_ok());
    let e = RhinoStream::handed_over(Err("channel closed".to_string())).unwrap_err();
    assert!(matches!(e, RhinoError::Unexpected(s) if s == "channel closed"));
}

#[test]
fn configuring_from_a_string() {
    let mut stage = Stage::default();
    assert!(stage.configure_from_str("12").is_ok());
    assert_eq!(stage.log, vec!["configure 12"]);
    let e = stage.configure_from_str("x").unwrap_err();
    assert!(matches!(e, RhinoError::ParseError(s) if s == "no number"));
    assert_eq!(stage.log.len(), 1);
    stage.fails = true;
    assert!(matches!(stage.configure_from_str("1"), Err(RhinoError::UnSupported)));
}

#[test]
fn queues_are_given_once() {
    let ctx = Context::DxContext(DxContext { device: () });
    let mut copy = CopyTexToCPU::new(&ctx, 5u8).unwrap();
    assert_eq!(copy.get_queue().unwrap(), 5);
    let e = copy.get_queue().unwrap_err();
    assert!(matches!(e, RhinoError::Recoverable(s) if s == "get_queue can only be run once"));
    let empty: Context<()> = Context::Empty;
    assert!(matches!(CopyTexToCPU::new(&empty, 5u8), Err(RhinoError::UnSupported)));
    let mut queue = Some(1);
    assert_eq!(take_queue(&mut queue).unwrap(), 1);
    assert!(queue.is_none());
    assert!(take_queue(&mut queue).is_err());
}

#[test]
fn pictures_of_read_frames() {
    let first = frame(1);
    let elapsed = Duration::from_millis(7);
    let read = |read| Some(ReadFrame { read, start_time: first.start_time, elapsed });
    let p = CopyTexToCPU::<u8>::get_next(packet(4), read(Ok(()))).unwrap();
    assert_eq!(p.data, vec![4]);
    assert_eq!(p.kind, PacketKind::Picture);
    assert_eq!((p.start_time, p.encode_time), (first.start_time, elapsed));
    let e = CopyTexToCPU::<u8>::get_next(packet(4), None).unwrap_err();
    assert!(matches!(e, RhinoError::UnSupported));
    let e = CopyTexToCPU::<u8>::get_next(packet(4), read(Err(DDApiError::AccessLost))).unwrap_err();
    assert!(matches!(e, RhinoError::Recoverable(s) if s == "AccessLost"));
    let _ = DummyConfig {};
}

#[test]
fn copies_of_packets_and_contexts() {
    let mut p = packet(3);
    p.kind = PacketKind::Audio;
    p.encode_time = Duration::from_millis(8);
    let q = p.clone();
    assert_eq!((q.data, q.kind), (vec![3], PacketKind::Audio));
    assert_eq!((q.start_time, q.encode_time), (p.start_time, Duration::from_millis(8)));
    let ctx = Context::DxContext(DxContext { device: 4u8 });
    assert!(matches!(ctx.clone(), Context::DxContext(c) if c.device == 4));
    let empty: Context<u8> = Context::Empty;
    assert!(matches!(empty.clone(), Context::Empty));
}

#[test]
fn frames_keep_their_start() {
    let first = frame(1);
    let next = Frame::new_from(&first, FrameType::Dx11Frame(Texture {
        raw: 2u32,
        desc: TextureDesc { height: 1, width: 1, format: ColorFormat::NV12 },
    }));
    assert_eq!(next.start_time, first.start_time);
    assert_eq!(raw(&next), 2);
    assert_eq!(PacketKind::default(), PacketKind::Picture);
}
