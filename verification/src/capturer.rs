use crate::channel::FrameChannel;
use crate::channel::RecvError;
use crate::display::Target;
use crate::engine::CaptureError;
use crate::engine::Engine;
use crate::engine::EngineState;
use crate::frame::Frame;
use crate::frame::FrameType;
use vstd::prelude::*;

verus! {

/// A named output resolution, or `Captured` for "whatever the native source
/// produces".
///
/// Every concrete variant resolves to one fixed pair of pixel dimensions.
/// `Captured` is a sentinel with no dimensions of its own: resolving it is a
/// contract violation, so [`Resolution::value`] requires a concrete variant.
#[derive(Clone, Copy, Debug, Default, PartialEq, Eq, Structural)]
pub enum Resolution {
    _480p,
    _720p,
    _1080p,
    _1440p,
    _2160p,
    _4320p,
    #[default]
    Captured,
}

impl Resolution {
    /// The pixel dimensions of a concrete resolution, as `[width, height]`.
    pub open spec fn spec_value(self) -> Seq<u32>
        recommends
            !(self is Captured),
    {
        match self {
            Resolution::_480p => seq![640u32, 480u32],
            Resolution::_720p => seq![1280u32, 720u32],
            Resolution::_1080p => seq![1920u32, 1080u32],
            Resolution::_1440p => seq![2560u32, 1440u32],
            Resolution::_2160p => seq![3840u32, 2160u32],
            Resolution::_4320p => seq![7680u32, 4320u32],
            Resolution::Captured => arbitrary(),
        }
    }

    /// Resolves a concrete resolution to its `[width, height]` pair.
    ///
    /// `Captured` has no dimensions, so callers must rule it out first: the
    /// check is a precondition, not a recoverable error.
    pub fn value(&self) -> (r: [u32; 2])
        requires
            !(self is Captured),
        ensures
            r@ == self.spec_value(),
    {
        match *self {
            Resolution::_480p => [640, 480],
            Resolution::_720p => [1280, 720],
            Resolution::_1080p => [1920, 1080],
            Resolution::_1440p => [2560, 1440],
            Resolution::_2160p => [3840, 2160],
            Resolution::_4320p => [7680, 4320],
            Resolution::Captured => unreached(),
        }
    }
}

/// A point in the coordinate space of a capture target, in whole pixels.
///
/// The origin may be top-left or platform-native; the core passes coordinates
/// through to the backend unread.
#[derive(Clone, Copy, Debug, Default, PartialEq, Eq, Structural)]
pub struct CGPoint {
    pub x: i64,
    pub y: i64,
}

/// An extent in the coordinate space of a capture target, in whole pixels.
#[derive(Clone, Copy, Debug, Default, PartialEq, Eq, Structural)]
pub struct CGSize {
    pub width: i64,
    pub height: i64,
}

/// A rectangle: an origin plus a size.
///
/// No invariant of its own; used as a crop region it must have positive size,
/// which the engine checks at start time.
#[derive(Clone, Copy, Debug, Default, PartialEq, Eq, Structural)]
pub struct CGRect {
    pub origin: CGPoint,
    pub size: CGSize,
}

impl CGRect {
    /// Whether the rectangle can serve as a crop region: both extents positive.
    pub open spec fn is_positive_crop(self) -> bool {
        self.size.width > 0 && self.size.height > 0
    }
}

/// Capture configuration, consumed once at engine construction and immutable
/// thereafter: changing parameters means building a new engine.
#[derive(Debug, Default)]
pub struct Options {
    /// Target frame rate; a rate of zero is rejected at start time.
    pub fps: u32,
    pub show_cursor: bool,
    pub show_highlight: bool,
    /// The targets to capture, in order; empty means the default (primary)
    /// target.
    pub targets: Vec<Target>,
    /// Targets to omit. Honored only by backends with per-target exclusion;
    /// the others ignore it silently.
    pub excluded_targets: Option<Vec<Target>>,
    /// Pixel format the backend should produce.
    pub output_type: FrameType,
    /// Output size, or `Resolution::Captured` to keep the native size.
    pub output_resolution: Resolution,
    /// Restricts capture to a sub-region of the target; `None` captures the
    /// whole target.
    pub source_rect: Option<CGRect>,
}

impl Options {
    /// A configuration the engine accepts at start time: a positive frame
    /// rate, and a positive crop region if one is given at all.
    pub open spec fn is_valid_config(self) -> bool {
        &&& self.fps >= 1
        &&& (self.source_rect matches Some(rect) ==> rect.is_positive_crop())
    }

    /// Decides [`Options::is_valid_config`] for the engine's start-time check.
    pub fn check_valid(&self) -> (r: bool)
        ensures
            r <==> self.is_valid_config(),
    {
        if self.fps < 1 {
            return false;
        }
        match &self.source_rect {
            Some(rect) => rect.size.width > 0 && rect.size.height > 0,
            None => true,
        }
    }
}

/// Abstract state of a capturer: the engine's lifecycle position, the frames
/// buffered for the consumer (oldest first), whether the channel is closed,
/// and the configuration the engine was built with.
#[verifier::ext_equal]
pub struct CapturerView {
    pub state: EngineState,
    pub frames: Seq<Frame>,
    pub closed: bool,
    pub config: Options,
}

impl CapturerView {
    /// Engine and channel agree: the channel is closed exactly once the
    /// engine has stopped. Construction establishes this and every operation
    /// preserves it.
    pub open spec fn wf(self) -> bool {
        self.closed <==> self.state is Stopped
    }
}

/// How stopping transforms a capturer: a running capture ends — the engine
/// stops and the channel closes — while the buffered frames and the
/// configuration stay as they are. A capturer that never started, or one
/// already stopped, has nothing to tear down and is left untouched.
pub open spec fn spec_stop(v: CapturerView) -> CapturerView {
    if v.state is Running {
        CapturerView { state: EngineState::Stopped, closed: true, ..v }
    } else {
        v
    }
}

/// How delivering one frame transforms a capturer: while the engine runs and
/// the channel is open the frame joins the end of the queue; otherwise the
/// capturer is unchanged and the frame is discarded.
pub open spec fn spec_push(v: CapturerView, frame: Frame) -> CapturerView {
    if v.state is Running && !v.closed {
        CapturerView { frames: v.frames.push(frame), ..v }
    } else {
        v
    }
}

/// [`spec_push`] folded over a whole sequence of frames, in order.
pub open spec fn spec_push_all(v: CapturerView, s: Seq<Frame>) -> CapturerView
    decreases s.len(),
{
    if s.len() == 0 {
        v
    } else {
        spec_push_all(spec_push(v, s[0]), s.skip(1))
    }
}

/// How one receive transforms a capturer, and what it returns: the oldest
/// buffered frame if there is one, else the closed outcome.
pub open spec fn spec_recv(v: CapturerView) -> (CapturerView, Result<Frame, RecvError>) {
    if v.frames.len() > 0 {
        (CapturerView { frames: v.frames.skip(1), ..v }, Ok(v.frames[0]))
    } else {
        (v, Err(RecvError))
    }
}

/// The capturer after `n` successive receives.
pub open spec fn spec_recv_n(v: CapturerView, n: nat) -> CapturerView
    decreases n,
{
    if n == 0 {
        v
    } else {
        spec_recv_n(spec_recv(v).0, (n - 1) as nat)
    }
}

/// The public facade: owns the engine and the consumer side of the frame
/// channel.
///
/// Lifecycle: [`Capturer::new`] wires an engine to a fresh channel;
/// [`Capturer::start_capture`] starts the backend; the backend delivers each
/// captured frame through [`Capturer::push_frame`];
/// [`Capturer::get_next_frame`] hands them to the consumer in production
/// order; [`Capturer::stop_capture`] tears the backend down. Dropping the
/// capturer releases the engine and the channel with it.
pub struct Capturer {
    engine: Engine,
    channel: FrameChannel,
}

impl View for Capturer {
    type V = CapturerView;

    closed spec fn view(&self) -> CapturerView {
        CapturerView {
            state: self.engine.spec_state(),
            frames: self.channel@.frames,
            closed: self.channel@.closed,
            config: self.engine.spec_config(),
        }
    }
}

impl Capturer {
    /// Wires a configured engine to a fresh, empty channel. Capture does not
    /// start, and every configuration is accepted here — even an empty target
    /// list, which means default full-target capture.
    pub fn new(options: Options) -> (c: Capturer)
        ensures
            c@.wf(),
            c@.state is Created,
            c@.frames.len() == 0,
            !c@.closed,
            c@.config == options,
    {
        let channel = FrameChannel::new();
        let engine = Engine::new(options);
        Capturer { engine, channel }
    }

    /// Starts the backend's capture loop and returns promptly; frames then
    /// arrive asynchronously through [`Capturer::push_frame`].
    ///
    /// Succeeds exactly once, from `Created` with a valid configuration.
    /// A double start, a start after a stop, and an invalid configuration
    /// are each reported as their own error, with the capturer unchanged.
    pub fn start_capture(&mut self) -> (r: Result<(), CaptureError>)
        requires
            old(self)@.wf(),
        ensures
            final(self)@.wf(),
            final(self)@.frames == old(self)@.frames,
            final(self)@.closed == old(self)@.closed,
            final(self)@.config == old(self)@.config,
            r is Ok <==> (old(self)@.state is Created && old(self)@.config.is_valid_config()),
            r is Ok ==> final(self)@.state is Running,
            r is Err ==> final(self)@.state == old(self)@.state,
            old(self)@.state is Running ==> r == Err::<(), CaptureError>(
                CaptureError::AlreadyStarted,
            ),
            old(self)@.state is Stopped ==> r == Err::<(), CaptureError>(
                CaptureError::AlreadyStopped,
            ),
            (old(self)@.state is Created && !old(self)@.config.is_valid_config())
                ==> r == Err::<(), CaptureError>(CaptureError::InvalidConfiguration),
    {
        self.engine.start()
    }

    /// Stops a running capture: releases the backend and closes the channel,
    /// so that no later frame is ever enqueued while everything already
    /// buffered stays drainable.
    ///
    /// Always succeeds and returns no error. On a capturer that never
    /// started, or one already stopped, there is nothing to tear down and
    /// this is a no-op: the capturer is left exactly as it was.
    pub fn stop_capture(&mut self)
        requires
            old(self)@.wf(),
        ensures
            final(self)@.wf(),
            final(self)@ == spec_stop(old(self)@),
    {
        if self.engine.is_running() {
            self.engine.stop();
            self.channel.close();
        }
    }

    /// The backend boundary: the platform adapter hands each captured frame
    /// here, from its own callback or polling context.
    ///
    /// The frame is enqueued — and `true` returned — exactly while capture is
    /// running; after a stop (or before a start) the frame is discarded, so
    /// nothing produced after the stop signal can ever reach the consumer.
    pub fn push_frame(&mut self, frame: Frame) -> (r: bool)
        requires
            old(self)@.wf(),
        ensures
            final(self)@.wf(),
            final(self)@ == spec_push(old(self)@, frame),
            r <==> old(self)@.state is Running,
    {
        if self.engine.is_running() {
            self.channel.send(frame)
        } else {
            false
        }
    }

    /// Hands the consumer the oldest undelivered frame; frames come out in
    /// exactly the order the backend produced them. Once capture has stopped
    /// and the buffer is drained, reports [`RecvError`] — the normal
    /// "capture ended" outcome, not a fault.
    ///
    /// A call with nothing buffered while capture still runs would block
    /// until the backend delivers, so it is excluded by precondition.
    pub fn get_next_frame(&mut self) -> (r: Result<Frame, RecvError>)
        requires
            old(self)@.wf(),
            old(self)@.frames.len() > 0 || old(self)@.closed,
        ensures
            final(self)@.wf(),
            final(self)@ == spec_recv(old(self)@).0,
            r == spec_recv(old(self)@).1,
    {
        self.channel.recv()
    }
}

/// Delivering frames while capture runs appends them to the pending queue in
/// order, and moves the capturer's state, channel and configuration not at
/// all.
proof fn lemma_push_all_running(v: CapturerView, s: Seq<Frame>)
    requires
        v.state is Running,
        !v.closed,
    ensures
        spec_push_all(v, s).frames =~= v.frames + s,
        spec_push_all(v, s).state == v.state,
        spec_push_all(v, s).closed == v.closed,
        spec_push_all(v, s).config == v.config,
    decreases s.len(),
{
    if s.len() == 0 {
        assert(v.frames + s =~= v.frames);
    } else {
        lemma_push_all_running(spec_push(v, s[0]), s.skip(1));
        assert(v.frames.push(s[0]) + s.skip(1) =~= v.frames + s);
    }
}

/// `n` successive receives drop exactly the `n` oldest buffered frames and
/// touch nothing else, as long as that many frames are buffered.
proof fn lemma_recv_n(v: CapturerView, n: nat)
    requires
        n <= v.frames.len(),
    ensures
        spec_recv_n(v, n).frames =~= v.frames.skip(n as int),
        spec_recv_n(v, n).state == v.state,
        spec_recv_n(v, n).closed == v.closed,
        spec_recv_n(v, n).config == v.config,
    decreases n,
{
    if n == 0 {
        assert(v.frames.skip(0) =~= v.frames);
    } else {
        lemma_recv_n(spec_recv(v).0, (n - 1) as nat);
        assert(v.frames.skip(1).skip(n - 1) =~= v.frames.skip(n as int));
    }
}

/// First-in, first-out delivery: when a running capturer with an empty queue
/// is handed the frames of `s` in order, the receive after `i` earlier
/// receives returns exactly `s[i]` — no frame is lost, reordered or
/// duplicated.
pub proof fn lemma_frames_delivered_in_order(v: CapturerView, s: Seq<Frame>, i: int)
    requires
        v.wf(),
        v.state is Running,
        v.frames.len() == 0,
        0 <= i < s.len(),
    ensures
        spec_recv(spec_recv_n(spec_push_all(v, s), i as nat)).1 == Ok::<Frame, RecvError>(s[i]),
{
    lemma_push_all_running(v, s);
    let w = spec_push_all(v, s);
    assert(w.frames =~= s);
    lemma_recv_n(w, i as nat);
    assert(spec_recv_n(w, i as nat).frames =~= s.skip(i));
    assert(s.skip(i)[0] == s[i]);
}

/// A stop ends the frame stream: however many frames arrive after it, none
/// is ever enqueued; and once the frames that were buffered at stop time are
/// drained, the next receive reports [`RecvError`] — never a stray frame.
pub proof fn lemma_stop_ends_delivery(v: CapturerView, s: Seq<Frame>)
    ensures
        spec_push_all(spec_stop(v), s) == spec_stop(v),
        spec_recv(spec_recv_n(spec_stop(v), v.frames.len())).1 == Err::<Frame, RecvError>(
            RecvError,
        ),
    decreases s.len(),
{
    if s.len() > 0 {
        lemma_stop_ends_delivery(v, s.skip(1));
        assert(spec_push(spec_stop(v), s[0]) == spec_stop(v));
    }
    lemma_recv_n(spec_stop(v), v.frames.len());
    assert(spec_recv_n(spec_stop(v), v.frames.len()).frames.len() == 0);
}

/// Stopping is idempotent and gentle: a second stop changes nothing; on a
/// capturer that is not running — never started, or already stopped — a stop
/// changes nothing at all; and any stop leaves the buffered frames and the
/// configuration exactly as they were. Together with the signature of
/// [`Capturer::stop_capture`], which returns no error, this makes a stop on
/// a never-started or already-stopped capturer a harmless no-op.
pub proof fn lemma_stop_idempotent(v: CapturerView)
    ensures
        spec_stop(spec_stop(v)) == spec_stop(v),
        !(v.state is Running) ==> spec_stop(v) == v,
        spec_stop(v).frames == v.frames,
        spec_stop(v).config == v.config,
        v.wf() ==> spec_stop(v).wf(),
{
}

/// The core's share of a configured session: the first frame the backend
/// delivers to a fresh running capturer is exactly the frame the first
/// receive returns — in particular, a frame tagged with the configured
/// output format reaches the consumer still carrying that tag. That the
/// backend tags its frames with `config.output_type` in the first place is
/// the backend's obligation: the core only forwards frames, unread.
pub proof fn lemma_first_frame_forwarded_unchanged(v: CapturerView, f: Frame)
    requires
        v.wf(),
        v.state is Running,
        v.frames.len() == 0,
    ensures
        spec_recv(spec_push(v, f)).1 == Ok::<Frame, RecvError>(f),
{
}

} // verus!
