use vstd::prelude::*;

use crate::calibration::{calibrated, Calibrator, UNIT};

verus! {

/// The raw code that the transport reports for the C button.
pub const BUTTON_C: u32 = 65824;

/// The raw code that the transport reports for the Z button.
pub const BUTTON_Z: u32 = 65825;

/// What one poll of the accessory yields.
#[derive(Clone, Copy, Debug, PartialEq, Eq, Structural)]
pub enum NunchukEvent {
    /// The stick position, both axes sampled together.
    XY(i32, i32),
    ButtonC,
    ButtonZ,
    /// Nothing relevant happened.
    NoEvent,
}

/// The kind of a raw transport event, with what the classification reads.
#[derive(Clone, Copy, Debug, PartialEq, Eq, Structural)]
pub enum RawEventKind {
    /// A button went down; the transport's raw code for it.
    ButtonPressed(u32),
    /// A button went up; the transport's raw code for it.
    ButtonReleased(u32),
    /// An axis moved. `x` and `y` are the stick's absolute readings on both
    /// axes at the moment of the event, not the moving axis's delta.
    AxisChanged { x: i32, y: i32 },
    /// Anything else the transport reports.
    Other,
}

/// A raw transport event, tagged with the device it came from.
#[derive(Clone, Copy, Debug, PartialEq, Eq, Structural)]
pub struct RawEvent {
    pub device: usize,
    pub kind: RawEventKind,
}

/// The semantic button for a raw code, if it is one of the two known codes.
pub open spec fn button_for(code: u32) -> NunchukEvent {
    if code == BUTTON_C {
        NunchukEvent::ButtonC
    } else if code == BUTTON_Z {
        NunchukEvent::ButtonZ
    } else {
        NunchukEvent::NoEvent
    }
}

/// One axis reading through an optional calibrator: passed through unchanged
/// where none is installed.
pub open spec fn axis_output(cal: Option<Calibrator>, raw: i32) -> i32 {
    match cal {
        Some(c) => calibrated(c.pos as int, c.neg as int, raw as int) as i32,
        None => raw,
    }
}

/// An installed calibrator, if any, has valid factors.
pub open spec fn slot_ok(cal: Option<Calibrator>) -> bool {
    match cal {
        Some(c) => c.wf(),
        None => true,
    }
}

/// One accessory, bound to one device identity, with an optional calibrator
/// for each axis.
pub struct Nunchuk {
    id: usize,
    x_calibration: Option<Calibrator>,
    y_calibration: Option<Calibrator>,
}

impl Nunchuk {
    /// The device identity this accessory is bound to.
    pub closed spec fn bound_id(&self) -> usize {
        self.id
    }

    /// The calibrator installed for the X axis.
    pub closed spec fn x_cal(&self) -> Option<Calibrator> {
        self.x_calibration
    }

    /// The calibrator installed for the Y axis.
    pub closed spec fn y_cal(&self) -> Option<Calibrator> {
        self.y_calibration
    }

    pub open spec fn wf(&self) -> bool {
        slot_ok(self.x_cal()) && slot_ok(self.y_cal())
    }

    /// What a poll yields, given what the transport had queued.
    pub open spec fn event_for(&self, raw: Option<RawEvent>) -> NunchukEvent {
        match raw {
            None => NunchukEvent::NoEvent,
            Some(e) => if e.device != self.bound_id() {
                NunchukEvent::NoEvent
            } else {
                match e.kind {
                    RawEventKind::ButtonPressed(code) => button_for(code),
                    RawEventKind::AxisChanged { x, y } => NunchukEvent::XY(
                        axis_output(self.x_cal(), x),
                        axis_output(self.y_cal(), y),
                    ),
                    _ => NunchukEvent::NoEvent,
                }
            },
        }
    }

    /// An accessory bound to `id`, with no calibrator on either axis.
    pub fn new(id: usize) -> (r: Nunchuk)
        ensures
            r.wf(),
            r.bound_id() == id,
            r.x_cal() == None::<Calibrator>,
            r.y_cal() == None::<Calibrator>,
    {
        Nunchuk { id, x_calibration: None, y_calibration: None }
    }

    /// Whether both factors of `(pos, neg)` lie in `(0, 1]`.
    fn is_calibration_valid(pos: i32, neg: i32) -> (r: bool)
        ensures
            r == Calibrator::valid_pair(pos as int, neg as int),
    {
        0 < pos && pos <= UNIT && 0 < neg && neg <= UNIT
    }

    /// The device identity this accessory is bound to.
    pub fn id(&self) -> (r: usize)
        ensures
            r == self.bound_id(),
    {
        self.id
    }

    /// The calibrator installed for the X axis, if any.
    pub fn x_calibration(&self) -> (r: Option<Calibrator>)
        ensures
            r == self.x_cal(),
    {
        self.x_calibration
    }

    /// The calibrator installed for the Y axis, if any.
    pub fn y_calibration(&self) -> (r: Option<Calibrator>)
        ensures
            r == self.y_cal(),
    {
        self.y_calibration
    }

    /// Installs a calibrator `(pos, neg)` on the X axis where both factors lie
    /// in `(0, 1]`; an invalid pair leaves the accessory as it was.
    pub fn set_x_calibration(&mut self, pos: i32, neg: i32)
        requires
            old(self).wf(),
        ensures
            final(self).wf(),
            final(self).bound_id() == old(self).bound_id(),
            final(self).y_cal() == old(self).y_cal(),
            final(self).x_cal() == (if Calibrator::valid_pair(pos as int, neg as int) {
                Some(Calibrator { pos, neg })
            } else {
                old(self).x_cal()
            }),
    {
        if Nunchuk::is_calibration_valid(pos, neg) {
            self.x_calibration = Some(Calibrator::new(pos, neg));
        }
    }

    /// Installs a calibrator `(pos, neg)` on the Y axis where both factors lie
    /// in `(0, 1]`; an invalid pair leaves the accessory as it was.
    pub fn set_y_calibration(&mut self, pos: i32, neg: i32)
        requires
            old(self).wf(),
        ensures
            final(self).wf(),
            final(self).bound_id() == old(self).bound_id(),
            final(self).x_cal() == old(self).x_cal(),
            final(self).y_cal() == (if Calibrator::valid_pair(pos as int, neg as int) {
                Some(Calibrator { pos, neg })
            } else {
                old(self).y_cal()
            }),
    {
        if Nunchuk::is_calibration_valid(pos, neg) {
            self.y_calibration = Some(Calibrator::new(pos, neg));
        }
    }

    /// Classifies what one poll of the transport returned: `None` where nothing
    /// was queued or the event came from another device; a button for a press
    /// of one of the two known codes; both axes, each through its calibrator,
    /// for an axis change; `None` for anything else.
    pub fn next_event(&self, raw: Option<RawEvent>) -> (r: NunchukEvent)
        requires
            self.wf(),
        ensures
            r == self.event_for(raw),
            raw is None ==> r == NunchukEvent::NoEvent,
            raw matches Some(e) && e.device != self.bound_id() ==> r == NunchukEvent::NoEvent,
    {
        match raw {
            None => NunchukEvent::NoEvent,
            Some(e) => {
                if e.device != self.id {
                    return NunchukEvent::NoEvent;
                }
                match e.kind {
                    RawEventKind::ButtonPressed(code) => {
                        if code == BUTTON_C {
                            NunchukEvent::ButtonC
                        } else if code == BUTTON_Z {
                            NunchukEvent::ButtonZ
                        } else {
                            NunchukEvent::NoEvent
                        }
                    },
                    RawEventKind::AxisChanged { x, y } => {
                        let cx = match self.x_calibration {
                            Some(c) => c.calibrate_value(x),
                            None => x,
                        };
                        let cy = match self.y_calibration {
                            Some(c) => c.calibrate_value(y),
                            None => y,
                        };
                        NunchukEvent::XY(cx, cy)
                    },
                    _ => NunchukEvent::NoEvent,
                }
            },
        }
    }
}

/// Polling with nothing queued yields no event, however often it is done;
/// polling reads the accessory and never changes its calibrators.
pub proof fn lemma_idle_poll_yields_nothing(n: Nunchuk)
    requires
        n.wf(),
    ensures
        n.event_for(None) == NunchukEvent::NoEvent,
{
}

/// An event from any device other than the bound one yields no event,
/// whatever its kind or content.
pub proof fn lemma_foreign_device_ignored(n: Nunchuk, e: RawEvent)
    requires
        n.wf(),
        e.device != n.bound_id(),
    ensures
        n.event_for(Some(e)) == NunchukEvent::NoEvent,
{
}

} // verus!
