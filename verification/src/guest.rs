//! The guest agent's decisions: what each event from the host makes it do,
//! when the mouse follower moves the pointer, and which window is the app's
//! main window.

use vstd::prelude::*;
use vstd::string::*;
use crate::text::{chars_of, decimal, string_from_chars, usize_to_decimal};
use crate::xvsock::XVsockEventEnum;

verus! {

/// A mouse button, as the guest's input tool names it.
#[derive(Debug, Clone, Copy, PartialEq, Eq, Structural)]
pub enum MouseButton {
    Left,
    Middle,
    Right,
    ScrollUp,
    ScrollDown,
}

/// The button an event's button number stands for: 1 to 5 are left,
/// middle, right, scroll up and scroll down.
pub open spec fn button_of(code: u16) -> Option<MouseButton> {
    if code == 1 {
        Some(MouseButton::Left)
    } else if code == 2 {
        Some(MouseButton::Middle)
    } else if code == 3 {
        Some(MouseButton::Right)
    } else if code == 4 {
        Some(MouseButton::ScrollUp)
    } else if code == 5 {
        Some(MouseButton::ScrollDown)
    } else {
        None
    }
}

/// The button an event's button number stands for.
pub fn mouse_button(code: u16) -> (r: Option<MouseButton>)
    ensures
        r == button_of(code),
        code == 1 ==> r == Some(MouseButton::Left),
        code == 2 ==> r == Some(MouseButton::Middle),
        code == 3 ==> r == Some(MouseButton::Right),
        code == 4 ==> r == Some(MouseButton::ScrollUp),
        code == 5 ==> r == Some(MouseButton::ScrollDown),
        (code == 0 || code > 5) ==> r is None,
{
    match code {
        1 => Some(MouseButton::Left),
        2 => Some(MouseButton::Middle),
        3 => Some(MouseButton::Right),
        4 => Some(MouseButton::ScrollUp),
        5 => Some(MouseButton::ScrollDown),
        _ => None,
    }
}

/// What the guest agent does with an event from the host.
#[derive(Debug)]
pub enum GuestAction {
    /// Record the pointer's new position for the mouse follower and wake it.
    RecordPointer { x: u16, y: u16 },
    /// Move the pointer to the position, then press or release the button.
    Click { x: u16, y: u16, button: MouseButton, pressed: bool },
    /// Report a button number that stands for no button.
    UnsupportedButton { code: u16 },
    /// Resize the main window to the given size, written in decimal.
    ResizeWindow { width: String, height: String },
    /// Put the buffer on the guest's clipboard, then press ctrl+v.
    Paste { buf: Vec<u8> },
    /// Press ctrl+c, then send the guest's clipboard to the host.
    Copy,
    /// Report an event the agent does not handle.
    Unsupported(XVsockEventEnum),
}

/// What the guest agent does with the event `e`.
pub open spec fn action_for(e: XVsockEventEnum, a: GuestAction) -> bool {
    match e {
        XVsockEventEnum::MotionEvent { x, y } => a == GuestAction::RecordPointer { x, y },
        XVsockEventEnum::ButtonEvent { x, y, button, pressed } => match button_of(button) {
            Some(b) => a == GuestAction::Click { x, y, button: b, pressed },
            None => a == GuestAction::UnsupportedButton { code: button },
        },
        XVsockEventEnum::ConfigureEvent { width, height } => a matches GuestAction::ResizeWindow {
            width: w,
            height: h,
        } && w@ == decimal(width as nat) && h@ == decimal(height as nat),
        XVsockEventEnum::ClipboardUpdateRequest { buf } => a matches GuestAction::Paste { buf: b }
            && b@ == buf@,
        XVsockEventEnum::ClipboardRequestEvent => a == GuestAction::Copy,
        XVsockEventEnum::GuestWindowOpened { width, height } => a == GuestAction::Unsupported(
            XVsockEventEnum::GuestWindowOpened { width, height },
        ),
    }
}

/// Decides what the guest agent does with an event from the host.
pub fn guest_action(event: XVsockEventEnum) -> (r: GuestAction)
    ensures
        action_for(event, r),
        event matches XVsockEventEnum::ButtonEvent { x, y, button, pressed } ==> (match button_of(
            button,
        ) {
            Some(b) => r == GuestAction::Click { x, y, button: b, pressed },
            None => r == GuestAction::UnsupportedButton { code: button },
        }),
{
    match event {
        XVsockEventEnum::MotionEvent { x, y } => GuestAction::RecordPointer { x, y },
        XVsockEventEnum::ButtonEvent { x, y, button, pressed } => match mouse_button(button) {
            Some(b) => GuestAction::Click { x, y, button: b, pressed },
            None => GuestAction::UnsupportedButton { code: button },
        },
        XVsockEventEnum::ConfigureEvent { width, height } => GuestAction::ResizeWindow {
            width: usize_to_decimal(width as usize),
            height: usize_to_decimal(height as usize),
        },
        XVsockEventEnum::ClipboardUpdateRequest { buf } => GuestAction::Paste { buf },
        XVsockEventEnum::ClipboardRequestEvent => GuestAction::Copy,
        XVsockEventEnum::GuestWindowOpened { width, height } => GuestAction::Unsupported(
            XVsockEventEnum::GuestWindowOpened { width, height },
        ),
    }
}

/// The resize that makes the main window fill the 1920x1080 display.
pub fn fullscreen_resize() -> (r: GuestAction)
    ensures
        r matches GuestAction::ResizeWindow { width, height } && width@ == decimal(1920) && height@
            == decimal(1080),
{
    GuestAction::ResizeWindow { width: usize_to_decimal(1920), height: usize_to_decimal(1080) }
}

/// One wake-up of the mouse follower whose pointer was last moved to
/// `last`: the move it makes (none when the reported position is where the
/// pointer already is) and where the pointer then is.
pub open spec fn follower_step(last: (u16, u16), reported: (u16, u16)) -> (Option<(u16, u16)>, (u16, u16)) {
    if reported == last {
        (None, last)
    } else {
        (Some(reported), reported)
    }
}

/// The moves the follower makes, starting with its pointer at `start`, when
/// it wakes up to the reported positions `reports` in turn.
pub open spec fn follower_moves(start: (u16, u16), reports: Seq<(u16, u16)>) -> Seq<(u16, u16)>
    decreases reports.len(),
{
    if reports.len() == 0 {
        Seq::empty()
    } else {
        let (m, next) = follower_step(start, reports[0]);
        let rest = follower_moves(next, reports.drop_first());
        match m {
            Some(p) => seq![p] + rest,
            None => rest,
        }
    }
}

/// Where the follower's pointer is after it wakes up to `reports` in turn.
pub open spec fn follower_position(start: (u16, u16), reports: Seq<(u16, u16)>) -> (u16, u16)
    decreases reports.len(),
{
    if reports.len() == 0 {
        start
    } else {
        follower_position(follower_step(start, reports[0]).1, reports.drop_first())
    }
}

/// What the mouse follower does over any sequence of reported positions,
/// starting with its pointer at `start` (the origin, for a new follower):
/// - it never moves twice in a row to the same position, and its first move
///   is not to where the pointer started;
/// - it only moves to positions that were reported;
/// - it ends at the newest reported position, and when that differs from
///   where it started, its last move is to that position.
pub proof fn lemma_mouse_follower_laws(start: (u16, u16), reports: Seq<(u16, u16)>)
    ensures
        ({
            let moves = follower_moves(start, reports);
            &&& forall|i: int| 0 <= i < moves.len() - 1 ==> #[trigger] moves[i] != moves[i + 1]
            &&& moves.len() > 0 ==> moves[0] != start
            &&& forall|i: int| 0 <= i < moves.len() ==> reports.contains(#[trigger] moves[i])
            &&& reports.len() > 0 ==> follower_position(start, reports) == reports.last()
            &&& reports.len() == 0 ==> follower_position(start, reports) == start
            &&& follower_position(start, reports) != start ==> moves.len() > 0 && moves.last()
                == follower_position(start, reports)
            &&& moves.len() > 0 ==> moves.last() == follower_position(start, reports)
        }),
    decreases reports.len(),
{
    if reports.len() > 0 {
        let r0 = reports[0];
        let tail = reports.drop_first();
        assert(follower_step(start, r0).1 == r0);
        lemma_mouse_follower_laws(r0, tail);
        let rest = follower_moves(r0, tail);
        let moves = follower_moves(start, reports);
        assert forall|i: int| 0 <= i < rest.len() implies reports.contains(#[trigger] rest[i]) by {
            let k = choose|k: int| 0 <= k < tail.len() && tail[k] == rest[i];
            assert(reports[k + 1] == rest[i]);
        }
        if r0 != start {
            assert(moves =~= seq![r0] + rest);
            assert forall|i: int| 0 <= i < moves.len() - 1 implies #[trigger] moves[i] != moves[i + 1] by {
                if i > 0 {
                    assert(moves[i] == rest[i - 1]);
                    assert(moves[i + 1] == rest[i]);
                    assert(rest[i - 1] != rest[i - 1 + 1]);
                } else {
                    assert(moves[1] == rest[0]);
                    assert(rest[0] != r0);
                }
            }
            assert forall|i: int| 0 <= i < moves.len() implies reports.contains(#[trigger] moves[i]) by {
                if i == 0 {
                    assert(reports[0] == moves[0]);
                } else {
                    assert(moves[i] == rest[i - 1]);
                }
            }
        } else {
            assert(moves =~= rest);
        }
        if tail.len() > 0 {
            assert(tail.last() == reports.last());
        }
    }
}

/// The mouse follower: it moves the guest's pointer to the last position
/// the host reported, once per change.
pub struct MouseFollower {
    pub last: (u16, u16),
}

impl MouseFollower {
    /// A follower whose pointer is at the origin.
    pub fn new() -> (r: MouseFollower)
        ensures
            r.last == (0u16, 0u16),
    {
        MouseFollower { last: (0, 0) }
    }

    /// Where to move the pointer given the last reported position: nowhere
    /// (wait for the next report) when it has not changed, else to it.
    pub fn step(&mut self, reported: (u16, u16)) -> (r: Option<(u16, u16)>)
        ensures
            (r, final(self).last) == follower_step(old(self).last, reported),
    {
        if reported.0 == self.last.0 && reported.1 == self.last.1 {
            None
        } else {
            self.last = reported;
            Some(reported)
        }
    }
}

/// `s` without its trailing newlines.
pub open spec fn trim_trailing_newlines(s: Seq<char>) -> Seq<char>
    decreases s.len(),
{
    if s.len() > 0 && s.last() == '\n' {
        trim_trailing_newlines(s.drop_last())
    } else {
        s
    }
}

/// The main window's id from the window search's exit status and output:
/// the output without its trailing newlines when the search succeeded
/// (status 0), nothing otherwise.
pub fn main_window_id(status: Option<i32>, stdout: &str) -> (r: Option<String>)
    ensures
        match r {
            Some(id) => status == Some(0i32) && id@ == trim_trailing_newlines(stdout@),
            None => status != Some(0i32),
        },
{
    match status {
        Some(0) => {
            let v = chars_of(stdout);
            let mut end: usize = v.len();
            assert(v@.take(end as int) =~= stdout@);
            while end > 0 && v[end - 1] == '\n'
                invariant
                    end <= v@.len(),
                    v@ == stdout@,
                    trim_trailing_newlines(v@.take(end as int)) == trim_trailing_newlines(stdout@),
                decreases end,
            {
                assert(v@.take(end as int).drop_last() =~= v@.take(end - 1));
                end = end - 1;
            }
            proof {
                if v@.take(end as int).len() > 0 {
                    assert(v@.take(end as int).last() == v@[end - 1]);
                }
            }
            let kept = vstd::slice::slice_subrange(v.as_slice(), 0, end);
            assert(kept@ =~= v@.take(end as int));
            Some(string_from_chars(kept))
        },
        _ => None,
    }
}


/// A button event becomes a click at the event's position, pressed or
/// released as the event says, with the button that the event's own number
/// stands for (4 scrolls up, 5 scrolls down); a number that stands for no
/// button is reported as such.
pub proof fn lemma_button_event_action(x: u16, y: u16, button: u16, pressed: bool, a: GuestAction)
    requires
        action_for((XVsockEventEnum::ButtonEvent { x, y, button, pressed }), a),
    ensures
        button_of(button) matches Some(b) ==> (a == (GuestAction::Click { x, y, button: b, pressed })),
        button_of(button) is None ==> (a == (GuestAction::UnsupportedButton { code: button })),
        button == 4 ==> (a == (GuestAction::Click { x, y, button: MouseButton::ScrollUp, pressed })),
        button == 5 ==> (a == (GuestAction::Click { x, y, button: MouseButton::ScrollDown, pressed })),
        (1 <= button <= 5) <==> (a is Click),
{
}

} // verus!
