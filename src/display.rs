use vstd::prelude::*;
use crate::mode::BoardState;
use crate::signal::Signal;

verus! {

/// How long, in milliseconds, the startup logo stays before the mode is shown.
pub const BOOT_DWELL_MS: u64 = 2000;

/// How long, in milliseconds, the machine-running warning stays before the
/// mode is shown again.
pub const WARNING_DWELL_MS: u64 = 5000;

/// The screens the panel can show.
#[derive(Clone, Copy, Debug, PartialEq, Eq, Structural)]
pub enum Screen {
    /// The startup logo.
    Boot,
    /// The current operating mode.
    ModeAnnouncement(BoardState),
    /// The machine is running, so the mode cannot be switched.
    MachineWarning,
}

/// A line of text the panel can draw.
#[derive(Clone, Copy, Debug, PartialEq, Eq, Structural)]
pub enum Caption {
    /// "Modo: <name>!"
    ModeLabel(BoardState),
    /// First line of the warning.
    TurnMachineOff,
    /// Second line of the warning.
    TryAgain,
}

/// The text of each caption.
pub open spec fn caption_text(c: Caption) -> Seq<char> {
    match c {
        Caption::ModeLabel(BoardState::CNC) => "Modo: CNC!"@,
        Caption::ModeLabel(BoardState::Roller) => "Modo: Roller!"@,
        Caption::TurnMachineOff => "Desligue a maquina!"@,
        Caption::TryAgain => "E tente novamente!"@,
    }
}

impl Caption {
    /// The text this caption draws.
    pub fn text(self) -> (r: &'static str)
        ensures
            r@ == caption_text(self),
    {
        match self {
            Caption::ModeLabel(BoardState::CNC) => "Modo: CNC!",
            Caption::ModeLabel(BoardState::Roller) => "Modo: Roller!",
            Caption::TurnMachineOff => "Desligue a maquina!",
            Caption::TryAgain => "E tente novamente!",
        }
    }
}

/// One operation on the display device.
#[derive(Clone, Copy, Debug, PartialEq, Eq, Structural)]
pub enum DrawOp {
    /// Initialise the device (harmless when it already is).
    Init,
    /// Blank the frame buffer.
    Clear,
    /// Draw the logo bitmap with its top-left corner at (x, y).
    Logo { x: i32, y: i32 },
    /// Draw a caption with its top-left corner at (x, y).
    Text { caption: Caption, x: i32, y: i32 },
    /// Send the frame buffer to the panel.
    Flush,
}

/// Whether `op` draws content, as opposed to managing the device.
pub open spec fn is_content(op: DrawOp) -> bool {
    op is Logo || op is Text
}

/// What a screen draws between clearing and flushing.
pub open spec fn contents(s: Screen) -> Seq<DrawOp> {
    match s {
        Screen::Boot => seq![DrawOp::Logo { x: 32, y: 0 }],
        Screen::ModeAnnouncement(m) => seq![
            DrawOp::Text { caption: Caption::ModeLabel(m), x: 32, y: 32 },
        ],
        Screen::MachineWarning => seq![
            DrawOp::Text { caption: Caption::TurnMachineOff, x: 10, y: 32 },
            DrawOp::Text { caption: Caption::TryAgain, x: 10, y: 42 },
        ],
    }
}

/// One whole render cycle of a screen: initialise, clear, draw, flush.
pub open spec fn frame_of(s: Screen) -> Seq<DrawOp> {
    seq![DrawOp::Init, DrawOp::Clear] + contents(s) + seq![DrawOp::Flush]
}

/// How long a screen stays before the next one may replace it.
pub open spec fn dwell_of(s: Screen) -> u64 {
    match s {
        Screen::Boot => BOOT_DWELL_MS,
        Screen::ModeAnnouncement(_) => 0,
        Screen::MachineWarning => WARNING_DWELL_MS,
    }
}

/// The operations that render `s` once.
pub fn frame(s: Screen) -> (r: Vec<DrawOp>)
    ensures
        r@ == frame_of(s),
{
    let mut ops: Vec<DrawOp> = Vec::new();
    ops.push(DrawOp::Init);
    ops.push(DrawOp::Clear);
    match s {
        Screen::Boot => {
            ops.push(DrawOp::Logo { x: 32, y: 0 });
        },
        Screen::ModeAnnouncement(m) => {
            ops.push(DrawOp::Text { caption: Caption::ModeLabel(m), x: 32, y: 32 });
        },
        Screen::MachineWarning => {
            ops.push(DrawOp::Text { caption: Caption::TurnMachineOff, x: 10, y: 32 });
            ops.push(DrawOp::Text { caption: Caption::TryAgain, x: 10, y: 42 });
        },
    }
    ops.push(DrawOp::Flush);
    assert(ops@ =~= frame_of(s));
    ops
}

/// The operations that announce `board_state`.
pub fn change_board_mode(board_state: BoardState) -> (r: Vec<DrawOp>)
    ensures
        r@ == frame_of(Screen::ModeAnnouncement(board_state)),
{
    frame(Screen::ModeAnnouncement(board_state))
}

/// The operations that show the startup logo.
pub fn show_rust_logo() -> (r: Vec<DrawOp>)
    ensures
        r@ == frame_of(Screen::Boot),
{
    frame(Screen::Boot)
}

/// The operations that warn that the machine is still running.
pub fn machine_is_on() -> (r: Vec<DrawOp>)
    ensures
        r@ == frame_of(Screen::MachineWarning),
{
    frame(Screen::MachineWarning)
}

/// The dwell time of `s`, in milliseconds.
pub fn dwell(s: Screen) -> (r: u64)
    ensures
        r == dwell_of(s),
{
    match s {
        Screen::Boot => BOOT_DWELL_MS,
        Screen::ModeAnnouncement(_) => 0,
        Screen::MachineWarning => WARNING_DWELL_MS,
    }
}

/// Renders never interleave: the frame of any screen opens the device and
/// blanks it, draws only that screen's content, and ends with the one and
/// only flush, so a panel never shows part of one screen over another.
pub proof fn lemma_frame_is_whole(s: Screen)
    ensures
        frame_of(s).len() >= 3,
        frame_of(s)[0] == DrawOp::Init,
        frame_of(s)[1] == DrawOp::Clear,
        frame_of(s).last() == DrawOp::Flush,
        frame_of(s).subrange(2, frame_of(s).len() - 1) == contents(s),
        forall|i: int| 2 <= i < frame_of(s).len() - 1 ==> is_content(#[trigger] frame_of(s)[i]),
{
    assert(frame_of(s).subrange(2, frame_of(s).len() - 1) =~= contents(s));
}

/// What the device receives when `screens` are rendered one after another.
pub open spec fn frames_of(screens: Seq<Screen>) -> Seq<DrawOp>
    decreases screens.len(),
{
    if screens.len() == 0 {
        Seq::empty()
    } else {
        frames_of(screens.drop_last()) + frame_of(screens.last())
    }
}

proof fn lemma_frames_prefix(screens: Seq<Screen>, j: int)
    requires
        0 <= j <= screens.len(),
    ensures
        frames_of(screens.take(j)).len() <= frames_of(screens).len(),
        frames_of(screens).take(frames_of(screens.take(j)).len() as int) == frames_of(
            screens.take(j),
        ),
    decreases screens.len(),
{
    if j == screens.len() {
        assert(screens.take(j) =~= screens);
        assert(frames_of(screens).take(frames_of(screens).len() as int) =~= frames_of(screens));
    } else {
        let rest = screens.drop_last();
        assert(rest.take(j) =~= screens.take(j));
        lemma_frames_prefix(rest, j);
        let n = frames_of(screens.take(j)).len() as int;
        assert(frames_of(screens).take(n) =~= frames_of(rest).take(n));
    }
}

/// Renders never interleave on the device: when several screens are
/// rendered in turn, the stream the device receives is their frames back to
/// back, and the `k`-th stretch is exactly the whole frame of the `k`-th
/// screen.
pub proof fn lemma_renders_do_not_interleave(screens: Seq<Screen>, k: int)
    requires
        0 <= k < screens.len(),
    ensures
        frames_of(screens.take(k)).len() + frame_of(screens[k]).len() == frames_of(
            screens.take(k + 1),
        ).len(),
        frames_of(screens.take(k + 1)).len() <= frames_of(screens).len(),
        frames_of(screens).subrange(
            frames_of(screens.take(k)).len() as int,
            frames_of(screens.take(k + 1)).len() as int,
        ) == frame_of(screens[k]),
{
    let upto = screens.take(k + 1);
    assert(upto.drop_last() =~= screens.take(k));
    assert(frames_of(upto) == frames_of(screens.take(k)) + frame_of(screens[k]));
    lemma_frames_prefix(screens, k + 1);
    let a = frames_of(screens.take(k)).len() as int;
    let b = frames_of(upto).len() as int;
    assert(frames_of(screens).subrange(a, b) =~= frames_of(upto).subrange(a, b));
    assert(frames_of(upto).subrange(a, b) =~= frame_of(screens[k]));
}

/// Render requests waiting for the presenter: a warning, and a mode to
/// announce. Each is a latest-value slot.
pub struct RenderRequests {
    pub warning: Signal<()>,
    pub mode: Signal<BoardState>,
}

impl RenderRequests {
    /// Nothing requested.
    pub fn new() -> (r: Self)
        ensures
            r.warning.pending() is None,
            r.mode.pending() is None,
    {
        RenderRequests { warning: Signal::new(), mode: Signal::new() }
    }
}

/// The screen the presenter shows next: the logo once at startup, then a
/// pending warning before a pending mode announcement.
pub open spec fn next_screen(booted: bool, warning: Option<()>, mode: Option<BoardState>) -> Option<
    Screen,
> {
    if !booted {
        Some(Screen::Boot)
    } else if warning is Some {
        Some(Screen::MachineWarning)
    } else if mode is Some {
        Some(Screen::ModeAnnouncement(mode->Some_0))
    } else {
        None
    }
}

/// One render: the screen, its operations, and how long it must stay.
#[derive(Debug)]
pub struct Render {
    pub screen: Screen,
    pub ops: Vec<DrawOp>,
    pub dwell_ms: u64,
}

/// Picks what the shared display shows. Holding it by `&mut` is holding the
/// display: one render is produced whole before the next is picked.
#[derive(Debug)]
pub struct DisplayPresenter {
    booted: bool,
}

impl DisplayPresenter {
    /// Whether the startup logo was shown already.
    pub closed spec fn is_booted(&self) -> bool {
        self.booted
    }

    /// A presenter that has shown nothing yet.
    pub fn new() -> (r: Self)
        ensures
            !r.is_booted(),
    {
        DisplayPresenter { booted: false }
    }

    /// Takes the most urgent request and renders it. The request served is
    /// cleared only now that it is acted on; the other stays pending.
    pub fn next_render(&mut self, requests: &mut RenderRequests) -> (r: Option<Render>)
        ensures
            final(self).is_booted(),
            ({
                let s = next_screen(
                    old(self).is_booted(),
                    old(requests).warning.pending(),
                    old(requests).mode.pending(),
                );
                &&& (r is None <==> s is None)
                &&& (r matches Some(rd) ==> Some(rd.screen) == s && rd.ops@ == frame_of(rd.screen)
                    && rd.dwell_ms == dwell_of(rd.screen))
                &&& final(requests).warning.pending() == (if s == Some(Screen::MachineWarning) {
                    None
                } else {
                    old(requests).warning.pending()
                })
                &&& final(requests).mode.pending() == (if s matches Some(Screen::ModeAnnouncement(_)) {
                    None
                } else {
                    old(requests).mode.pending()
                })
            }),
    {
        let screen = if !self.booted {
            self.booted = true;
            Screen::Boot
        } else if requests.warning.is_signaled() {
            requests.warning.reset();
            Screen::MachineWarning
        } else {
            match requests.mode.take() {
                Some(m) => Screen::ModeAnnouncement(m),
                None => {
                    return None;
                },
            }
        };
        Some(Render { screen, ops: frame(screen), dwell_ms: dwell(screen) })
    }
}

} // verus!
