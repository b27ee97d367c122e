//! Driving the rotator over Pelco-D: which way to move towards the target
//! angles and how fast, which commands to send, and what the rotator's
//! position replies mean.
use vstd::prelude::*;

use crate::errors::Error;
use crate::link::{ReadEvent, RxAction};
use crate::pelcod::{
    checksum, command_bytes, high_byte, lemma_angle_bytes_roundtrip, lemma_command_well_formed,
    low_byte, spec_checksum, u16_of_bytes, AzAngle, Command,
    ElAngle, PelcoSpeed, COMMAND_SIZE, MAX_AZ, MAX_EL, QUERY_PAN_RESPONSE, QUERY_TILT_RESPONSE,
    SYNC_BYTE,
};

verus! {

/// Azimuth within which the rotator counts as on target (5 degrees).
pub const AZ_TOLERANCE: u16 = 500;

/// Elevation within which the rotator counts as on target (4 degrees).
pub const EL_TOLERANCE: u16 = 400;

/// Pan speed when far from the target.
pub const MAX_AZ_SPEED: u8 = 0x20;

/// Tilt speed when far from the target.
pub const MAX_EL_SPEED: u8 = 0x3F;

/// Below this distance the speed is halved.
pub const SPEED_TRESHOLD_HIGH: u16 = 2500;

/// Below this distance the pan speed is quartered.
pub const SPEED_TRESHOLD_LOW: u16 = 1000;

/// Distance between two angles.
pub open spec fn abs_diff(a: u16, b: u16) -> u16 {
    if a >= b {
        (a - b) as u16
    } else {
        (b - a) as u16
    }
}

fn exec_abs_diff(a: u16, b: u16) -> (r: u16)
    ensures
        r == abs_diff(a, b),
{
    if a >= b {
        a - b
    } else {
        b - a
    }
}

/// The values that a `PTZState` holds.
pub struct PTZStateView {
    pub target_az: u16,
    pub target_el: u16,
    pub current_az: u16,
    pub current_el: u16,
    pub pan_speed: u8,
    pub tilt_speed: u8,
}

pub open spec fn should_pan_right_spec(v: PTZStateView) -> bool {
    v.target_az > v.current_az && abs_diff(v.current_az, v.target_az) > AZ_TOLERANCE
}

pub open spec fn should_pan_left_spec(v: PTZStateView) -> bool {
    v.target_az < v.current_az && abs_diff(v.current_az, v.target_az) > AZ_TOLERANCE
}

pub open spec fn should_tilt_up_spec(v: PTZStateView) -> bool {
    v.target_el > v.current_el && abs_diff(v.current_el, v.target_el) > EL_TOLERANCE
}

pub open spec fn should_tilt_down_spec(v: PTZStateView) -> bool {
    v.target_el < v.current_el && abs_diff(v.current_el, v.target_el) > EL_TOLERANCE
}

/// Pan speed for the remaining distance: a quarter below
/// `SPEED_TRESHOLD_LOW`, half below `SPEED_TRESHOLD_HIGH`, full otherwise.
pub open spec fn az_speed_spec(v: PTZStateView) -> u8 {
    let diff = abs_diff(v.current_az, v.target_az);
    if diff < SPEED_TRESHOLD_LOW {
        v.pan_speed / 2 / 2
    } else if diff < SPEED_TRESHOLD_HIGH {
        v.pan_speed / 2
    } else {
        v.pan_speed
    }
}

/// Tilt speed for the remaining distance: half below `SPEED_TRESHOLD_HIGH`,
/// full otherwise.
pub open spec fn el_speed_spec(v: PTZStateView) -> u8 {
    let diff = abs_diff(v.current_el, v.target_el);
    if diff < SPEED_TRESHOLD_HIGH {
        v.tilt_speed / 2
    } else {
        v.tilt_speed
    }
}

/// Where the rotator is, where it should go, and its full speeds.
#[derive(Clone, Copy, PartialEq, Debug)]
pub struct PTZState {
    target_az: AzAngle,
    target_el: ElAngle,
    current_az: AzAngle,
    current_el: ElAngle,
    pan_speed: PelcoSpeed,
    tilt_speed: PelcoSpeed,
}

impl View for PTZState {
    type V = PTZStateView;

    closed spec fn view(&self) -> PTZStateView {
        PTZStateView {
            target_az: self.target_az.0,
            target_el: self.target_el.0,
            current_az: self.current_az.0,
            current_el: self.current_el.0,
            pan_speed: self.pan_speed@,
            tilt_speed: self.tilt_speed@,
        }
    }
}

impl PTZState {
    /// A state with the given angles and the full speeds `MAX_AZ_SPEED`
    /// and `MAX_EL_SPEED`.
    pub fn new(target_az: AzAngle, target_el: ElAngle, current_az: AzAngle, current_el: ElAngle) -> (r:
        PTZState)
        ensures
            r@ == (PTZStateView {
                target_az: target_az.0,
                target_el: target_el.0,
                current_az: current_az.0,
                current_el: current_el.0,
                pan_speed: MAX_AZ_SPEED,
                tilt_speed: MAX_EL_SPEED,
            }),
    {
        let pan_speed = PelcoSpeed::try_from(MAX_AZ_SPEED).unwrap();
        let tilt_speed = PelcoSpeed::try_from(MAX_EL_SPEED).unwrap();
        PTZState { target_az, target_el, current_az, current_el, pan_speed, tilt_speed }
    }

    /// Takes new target angles.
    pub fn load_angles(&mut self, target_az: AzAngle, target_el: ElAngle)
        ensures
            final(self)@ == (PTZStateView {
                target_az: target_az.0,
                target_el: target_el.0,
                ..old(self)@
            }),
    {
        self.target_az = target_az;
        self.target_el = target_el;
    }

    /// The azimuth last reported by the rotator.
    pub fn current_az(&self) -> (r: AzAngle)
        ensures
            r.0 == self@.current_az,
    {
        self.current_az
    }

    /// The elevation last reported by the rotator.
    pub fn current_el(&self) -> (r: ElAngle)
        ensures
            r.0 == self@.current_el,
    {
        self.current_el
    }

    pub fn should_pan_right(&self) -> (r: bool)
        ensures
            r == should_pan_right_spec(self@),
            r <==> self@.target_az > self@.current_az + AZ_TOLERANCE,
    {
        self.target_az.0 > self.current_az.0 && exec_abs_diff(self.current_az.0, self.target_az.0)
            > AZ_TOLERANCE
    }

    pub fn should_pan_left(&self) -> (r: bool)
        ensures
            r == should_pan_left_spec(self@),
            r <==> self@.current_az > self@.target_az + AZ_TOLERANCE,
    {
        self.target_az.0 < self.current_az.0 && exec_abs_diff(self.current_az.0, self.target_az.0)
            > AZ_TOLERANCE
    }

    pub fn should_tilt_up(&self) -> (r: bool)
        ensures
            r == should_tilt_up_spec(self@),
            r <==> self@.target_el > self@.current_el + EL_TOLERANCE,
    {
        self.target_el.0 > self.current_el.0 && exec_abs_diff(self.current_el.0, self.target_el.0)
            > EL_TOLERANCE
    }

    pub fn should_tilt_down(&self) -> (r: bool)
        ensures
            r == should_tilt_down_spec(self@),
            r <==> self@.current_el > self@.target_el + EL_TOLERANCE,
    {
        self.target_el.0 < self.current_el.0 && exec_abs_diff(self.current_el.0, self.target_el.0)
            > EL_TOLERANCE
    }

    pub fn amend_az_speed(&self) -> (r: PelcoSpeed)
        ensures
            r@ == az_speed_spec(self@),
    {
        let diff = exec_abs_diff(self.current_az.0, self.target_az.0);
        if diff < SPEED_TRESHOLD_LOW {
            self.pan_speed.half().half()
        } else if diff < SPEED_TRESHOLD_HIGH {
            self.pan_speed.half()
        } else {
            self.pan_speed.clone()
        }
    }

    pub fn amend_el_speed(&self) -> (r: PelcoSpeed)
        ensures
            r@ == el_speed_spec(self@),
    {
        let diff = exec_abs_diff(self.current_el.0, self.target_el.0);
        if diff < SPEED_TRESHOLD_HIGH {
            self.tilt_speed.half()
        } else {
            self.tilt_speed.clone()
        }
    }
}

/// Whether `r` is a well-formed position reply of the rotator with address `id`.
pub open spec fn response_valid(id: u8, r: Seq<u8>) -> bool {
    &&& r.len() == COMMAND_SIZE
    &&& r[0] == SYNC_BYTE
    &&& r[1] == id
    &&& r[2] == 0
    &&& (r[3] == QUERY_PAN_RESPONSE || r[3] == QUERY_TILT_RESPONSE)
    &&& r[6] == spec_checksum(r.subrange(1, COMMAND_SIZE - 1))
}

/// The angle that a reply carries, or 0 when it is out of range.
pub open spec fn reply_angle(r: Seq<u8>, max: u16) -> u16 {
    let a = u16_of_bytes(r[4], r[5]);
    if a <= max {
        a
    } else {
        0
    }
}

/// The state after a reply `r` of the rotator with address `id`: a
/// well-formed reply sets the current azimuth or elevation, anything else
/// changes nothing.
pub open spec fn state_after_reply(v: PTZStateView, id: u8, r: Seq<u8>) -> PTZStateView {
    if !response_valid(id, r) {
        v
    } else if r[3] == QUERY_PAN_RESPONSE {
        PTZStateView { current_az: reply_angle(r, MAX_AZ), ..v }
    } else {
        PTZStateView { current_el: reply_angle(r, MAX_EL), ..v }
    }
}

/// The commands that move the rotator towards the target after its position
/// has been read: one combined or single-axis move, or, when it is on
/// target, a stop followed by absolute set-position commands.
pub open spec fn movement_plan(v: PTZStateView, id: u8) -> Seq<Seq<u8>> {
    let ps = az_speed_spec(v);
    let ts = el_speed_spec(v);
    if should_pan_right_spec(v) && should_tilt_up_spec(v) {
        seq![command_bytes(id, 0x0A, ps, ts)]
    } else if should_pan_right_spec(v) && should_tilt_down_spec(v) {
        seq![command_bytes(id, 0x12, ps, ts)]
    } else if should_pan_left_spec(v) && should_tilt_up_spec(v) {
        seq![command_bytes(id, 0x0C, ps, ts)]
    } else if should_pan_left_spec(v) && should_tilt_down_spec(v) {
        seq![command_bytes(id, 0x14, ps, ts)]
    } else if should_pan_right_spec(v) {
        seq![command_bytes(id, 0x02, ps, 0)]
    } else if should_pan_left_spec(v) {
        seq![command_bytes(id, 0x04, ps, 0)]
    } else if should_tilt_up_spec(v) {
        seq![command_bytes(id, 0x08, 0, ts)]
    } else if should_tilt_down_spec(v) {
        seq![command_bytes(id, 0x10, 0, ts)]
    } else {
        seq![
            command_bytes(id, 0, 0x12, 0),
            command_bytes(id, 0x4B, high_byte(v.target_az), low_byte(v.target_az)),
            command_bytes(id, 0x4D, high_byte(v.target_el), low_byte(v.target_el)),
        ]
    }
}

/// The rotator is never told to pan both ways, or tilt both ways, at once;
/// and when it is told neither way on an axis, it is within that axis'
/// tolerance of the target.
pub proof fn lemma_directions_exclusive(v: PTZStateView)
    ensures
        !(should_pan_right_spec(v) && should_pan_left_spec(v)),
        !(should_tilt_up_spec(v) && should_tilt_down_spec(v)),
        !should_pan_right_spec(v) && !should_pan_left_spec(v) ==> abs_diff(
            v.current_az,
            v.target_az,
        ) <= AZ_TOLERANCE,
        !should_tilt_up_spec(v) && !should_tilt_down_spec(v) ==> abs_diff(
            v.current_el,
            v.target_el,
        ) <= EL_TOLERANCE,
{
}

/// The rotator pans right exactly when the target azimuth lies more than
/// `AZ_TOLERANCE` above the current one, and left exactly when it lies more
/// than `AZ_TOLERANCE` below; it tilts up or down likewise with
/// `EL_TOLERANCE`. Every move goes straight towards the target.
pub proof fn lemma_directions_towards_target(v: PTZStateView)
    ensures
        should_pan_right_spec(v) <==> v.target_az > v.current_az + AZ_TOLERANCE,
        should_pan_left_spec(v) <==> v.current_az > v.target_az + AZ_TOLERANCE,
        should_tilt_up_spec(v) <==> v.target_el > v.current_el + EL_TOLERANCE,
        should_tilt_down_spec(v) <==> v.current_el > v.target_el + EL_TOLERANCE,
{
}

/// The moves of one step, from the distances to the target alone. When an
/// axis is out of tolerance the plan is a single command whose direction
/// byte pans right (0x02, towards a larger azimuth) or left (0x04) and tilts
/// up (0x08) or down (0x10), exactly on the axes out of tolerance; its pan
/// speed is the full pan speed, a half of it within `SPEED_TRESHOLD_HIGH` of
/// the target azimuth and a quarter within `SPEED_TRESHOLD_LOW`, and its tilt
/// speed is the full tilt speed, halved within `SPEED_TRESHOLD_HIGH` of the
/// target elevation; an axis that does not move gets speed 0. The diagonal
/// moves slow down near the target as the single-axis ones do. On target,
/// the plan stops the rotator and then sets both absolute positions.
pub proof fn lemma_movement_plan_moves(v: PTZStateView, id: u8)
    ensures
        ({
            let daz: int = if v.target_az >= v.current_az {
                v.target_az - v.current_az
            } else {
                v.current_az - v.target_az
            };
            let del: int = if v.target_el >= v.current_el {
                v.target_el - v.current_el
            } else {
                v.current_el - v.target_el
            };
            let pan_code: int = if v.target_az > v.current_az + AZ_TOLERANCE {
                0x02
            } else if v.current_az > v.target_az + AZ_TOLERANCE {
                0x04
            } else {
                0
            };
            let tilt_code: int = if v.target_el > v.current_el + EL_TOLERANCE {
                0x08
            } else if v.current_el > v.target_el + EL_TOLERANCE {
                0x10
            } else {
                0
            };
            let pan: int = if daz <= AZ_TOLERANCE {
                0
            } else if daz < SPEED_TRESHOLD_LOW {
                v.pan_speed as int / 4
            } else if daz < SPEED_TRESHOLD_HIGH {
                v.pan_speed as int / 2
            } else {
                v.pan_speed as int
            };
            let tilt: int = if del <= EL_TOLERANCE {
                0
            } else if del < SPEED_TRESHOLD_HIGH {
                v.tilt_speed as int / 2
            } else {
                v.tilt_speed as int
            };
            let plan = movement_plan(v, id);
            &&& (daz > AZ_TOLERANCE || del > EL_TOLERANCE) ==> {
                &&& plan.len() == 1
                &&& plan[0][3] == pan_code + tilt_code
                &&& plan[0][4] == pan
                &&& plan[0][5] == tilt
                &&& plan[0] == command_bytes(id, plan[0][3], plan[0][4], plan[0][5])
            }
            &&& (daz <= AZ_TOLERANCE && del <= EL_TOLERANCE) ==> plan == seq![
                command_bytes(id, 0, 0x12, 0),
                command_bytes(id, 0x4B, high_byte(v.target_az), low_byte(v.target_az)),
                command_bytes(id, 0x4D, high_byte(v.target_el), low_byte(v.target_el)),
            ]
        }),
{
}

/// The speed sent never exceeds the state's full speed, and it is never
/// lower when the target is farther away.
pub proof fn lemma_speeds_bounded(v: PTZStateView, w: PTZStateView)
    requires
        v.pan_speed == w.pan_speed,
        v.tilt_speed == w.tilt_speed,
    ensures
        az_speed_spec(v) <= v.pan_speed,
        el_speed_spec(v) <= v.tilt_speed,
        abs_diff(v.current_az, v.target_az) <= abs_diff(w.current_az, w.target_az)
            ==> az_speed_spec(v) <= az_speed_spec(w),
        abs_diff(v.current_el, v.target_el) <= abs_diff(w.current_el, w.target_el)
            ==> el_speed_spec(v) <= el_speed_spec(w),
{
}

/// A position reply of the rotator with address `id`, laid out as Pelco-D
/// lays out a command with the reply code and the angle in the data bytes,
/// is taken as well formed, and sets the azimuth (for the pan reply) or the
/// elevation (for the tilt reply) to that angle when it is in range.
pub proof fn lemma_position_reply_roundtrip(v: PTZStateView, id: u8, angle: u16)
    ensures
        response_valid(id, command_bytes(id, QUERY_PAN_RESPONSE, high_byte(angle), low_byte(angle))),
        response_valid(id, command_bytes(id, QUERY_TILT_RESPONSE, high_byte(angle), low_byte(angle))),
        angle <= MAX_AZ ==> state_after_reply(
            v,
            id,
            command_bytes(id, QUERY_PAN_RESPONSE, high_byte(angle), low_byte(angle)),
        ) == (PTZStateView { current_az: angle, ..v }),
        angle <= MAX_EL ==> state_after_reply(
            v,
            id,
            command_bytes(id, QUERY_TILT_RESPONSE, high_byte(angle), low_byte(angle)),
        ) == (PTZStateView { current_el: angle, ..v }),
{
    lemma_command_well_formed(id, QUERY_PAN_RESPONSE, high_byte(angle), low_byte(angle));
    lemma_command_well_formed(id, QUERY_TILT_RESPONSE, high_byte(angle), low_byte(angle));
    lemma_angle_bytes_roundtrip(angle);
}

/// What the receive loop of a rotator reply does with one read outcome: it
/// stores bytes until `COMMAND_SIZE` are held, and stops on a timeout, an
/// error, an empty read or a full buffer.
pub fn reply_rx_action(held: usize, ev: ReadEvent) -> (r: RxAction)
    ensures
        r == (match ev {
            ReadEvent::Data(count, b) => if count > 0 && held < COMMAND_SIZE {
                RxAction::Store(b)
            } else {
                RxAction::Stop
            },
            _ => RxAction::Stop,
        }),
{
    match ev {
        ReadEvent::Timeout => RxAction::Stop,
        ReadEvent::Failed => RxAction::Stop,
        ReadEvent::Data(count, b) => {
            if count > 0 && held < COMMAND_SIZE {
                RxAction::Store(b)
            } else {
                RxAction::Stop
            }
        },
    }
}

/// The rotator's Pelco-D address and state.
pub struct PTZDriver {
    pelcoid: u8,
    state: PTZState,
}

impl PTZDriver {
    pub fn new(id: u8, state: PTZState) -> (r: Self)
        ensures
            r.id() == id,
            r.state_view() == state@,
    {
        PTZDriver { pelcoid: id, state }
    }

    /// The rotator's Pelco-D address.
    pub closed spec fn id(&self) -> u8 {
        self.pelcoid
    }

    /// The rotator's state.
    pub closed spec fn state_view(&self) -> PTZStateView {
        self.state@
    }

    /// The current state.
    pub fn state(&self) -> (r: &PTZState)
        ensures
            r@ == self.state_view(),
    {
        &self.state
    }

    /// Takes new target angles.
    pub fn load_angles(&mut self, target_az: AzAngle, target_el: ElAngle)
        ensures
            final(self).id() == old(self).id(),
            final(self).state_view() == (PTZStateView {
                target_az: target_az.0,
                target_el: target_el.0,
                ..old(self).state_view()
            }),
    {
        self.state.load_angles(target_az, target_el);
    }

    /// Takes a reply of the rotator: one that is not `COMMAND_SIZE` long (a
    /// plain acknowledgement) is ignored with `Ok(false)`; a full-length one
    /// that is not a well-formed position reply is `PTZDataErr`; a position
    /// reply sets the current azimuth or elevation (0 when out of range)
    /// and gives `Ok(true)`.
    pub fn read_ptz(&mut self, response: &[u8]) -> (r: Result<bool, Error>)
        ensures
            final(self).id() == old(self).id(),
            final(self).state_view() == state_after_reply(
                old(self).state_view(),
                old(self).id(),
                response@,
            ),
            response@.len() != COMMAND_SIZE ==> r == Ok::<bool, Error>(false),
            response@.len() == COMMAND_SIZE ==> r == (if response_valid(old(self).id(), response@) {
                Ok::<bool, Error>(true)
            } else {
                Err::<bool, Error>(Error::PTZDataErr)
            }),
    {
        if response.len() != COMMAND_SIZE {
            return Ok(false);
        }
        let cs = checksum(&response[1..COMMAND_SIZE - 1]);
        if !(response[0] == SYNC_BYTE && response[1] == self.pelcoid && response[2] == 0 && (
        response[3] == QUERY_PAN_RESPONSE || response[3] == QUERY_TILT_RESPONSE) && response[6]
            == cs) {
            return Err(Error::PTZDataErr);
        }
        let angle: u16 = (response[4] as u16) * 256 + (response[5] as u16);
        if response[3] == QUERY_PAN_RESPONSE {
            self.state.current_az = match AzAngle::try_from(angle) {
                Ok(a) => a,
                Err(_) => AzAngle::default(),
            };
        } else {
            self.state.current_el = match ElAngle::try_from(angle) {
                Ok(a) => a,
                Err(_) => ElAngle::default(),
            };
        }
        Ok(true)
    }

    pub fn query_pan_position(&self) -> (r: Command)
        ensures
            r@ == command_bytes(self.id(), 0x51, 0, 0),
    {
        Command::query_pan_position(self.pelcoid)
    }

    pub fn query_tilt_position(&self) -> (r: Command)
        ensures
            r@ == command_bytes(self.id(), 0x53, 0, 0),
    {
        Command::query_tilt_position(self.pelcoid)
    }

    pub fn pan_right(&self) -> (r: Command)
        ensures
            r@ == command_bytes(self.id(), 0x02, az_speed_spec(self.state_view()), 0),
    {
        let ps = self.state.amend_az_speed();
        Command::pan_right(self.pelcoid, &ps)
    }

    pub fn pan_left(&self) -> (r: Command)
        ensures
            r@ == command_bytes(self.id(), 0x04, az_speed_spec(self.state_view()), 0),
    {
        let ps = self.state.amend_az_speed();
        Command::pan_left(self.pelcoid, &ps)
    }

    pub fn tilt_up(&self) -> (r: Command)
        ensures
            r@ == command_bytes(self.id(), 0x08, 0, el_speed_spec(self.state_view())),
    {
        let ts = self.state.amend_el_speed();
        Command::tilt_up(self.pelcoid, &ts)
    }

    pub fn tilt_down(&self) -> (r: Command)
        ensures
            r@ == command_bytes(self.id(), 0x10, 0, el_speed_spec(self.state_view())),
    {
        let ts = self.state.amend_el_speed();
        Command::tilt_down(self.pelcoid, &ts)
    }

    pub fn pan_right_tilt_up(&self) -> (r: Command)
        ensures
            r@ == command_bytes(
                self.id(),
                0x0A,
                az_speed_spec(self.state_view()),
                el_speed_spec(self.state_view()),
            ),
    {
        let ps = self.state.amend_az_speed();
        let ts = self.state.amend_el_speed();
        Command::pan_right_tilt_up(self.pelcoid, &ps, &ts)
    }

    pub fn pan_right_tilt_down(&self) -> (r: Command)
        ensures
            r@ == command_bytes(
                self.id(),
                0x12,
                az_speed_spec(self.state_view()),
                el_speed_spec(self.state_view()),
            ),
    {
        let ps = self.state.amend_az_speed();
        let ts = self.state.amend_el_speed();
        Command::pan_right_tilt_down(self.pelcoid, &ps, &ts)
    }

    pub fn pan_left_tilt_up(&self) -> (r: Command)
        ensures
            r@ == command_bytes(
                self.id(),
                0x0C,
                az_speed_spec(self.state_view()),
                el_speed_spec(self.state_view()),
            ),
    {
        let ps = self.state.amend_az_speed();
        let ts = self.state.amend_el_speed();
        Command::pan_left_tilt_up(self.pelcoid, &ps, &ts)
    }

    pub fn pan_left_tilt_down(&self) -> (r: Command)
        ensures
            r@ == command_bytes(
                self.id(),
                0x14,
                az_speed_spec(self.state_view()),
                el_speed_spec(self.state_view()),
            ),
    {
        let ps = self.state.amend_az_speed();
        let ts = self.state.amend_el_speed();
        Command::pan_left_tilt_down(self.pelcoid, &ps, &ts)
    }

    pub fn stop_pan(&self) -> (r: Command)
        ensures
            r@ == command_bytes(self.id(), 0, 0x12, 0),
    {
        Command::pan_stop(self.pelcoid)
    }

    pub fn set_pan(&self) -> (r: Command)
        ensures
            r@ == command_bytes(
                self.id(),
                0x4B,
                high_byte(self.state_view().target_az),
                low_byte(self.state_view().target_az),
            ),
    {
        Command::set_pan(self.pelcoid, &self.state.target_az)
    }

    pub fn set_tilt(&self) -> (r: Command)
        ensures
            r@ == command_bytes(
                self.id(),
                0x4D,
                high_byte(self.state_view().target_el),
                low_byte(self.state_view().target_el),
            ),
    {
        Command::set_tilt(self.pelcoid, &self.state.target_el)
    }

    /// The commands of one step of the rotator loop, after the position has
    /// been read: the first `r.1` of `r.0`, each sent and its reply read in
    /// turn.
    pub fn movement_commands(&self) -> (r: ([Command; 3], usize))
        ensures
            r.1 == movement_plan(self.state_view(), self.id()).len(),
            forall|i: int|
                0 <= i < r.1 ==> #[trigger] r.0@[i]@ == movement_plan(
                    self.state_view(),
                    self.id(),
                )[i],
    {
        let right = self.state.should_pan_right();
        let left = self.state.should_pan_left();
        let up = self.state.should_tilt_up();
        let down = self.state.should_tilt_down();
        let single = if right && up {
            self.pan_right_tilt_up()
        } else if right && down {
            self.pan_right_tilt_down()
        } else if left && up {
            self.pan_left_tilt_up()
        } else if left && down {
            self.pan_left_tilt_down()
        } else if right {
            self.pan_right()
        } else if left {
            self.pan_left()
        } else if up {
            self.tilt_up()
        } else if down {
            self.tilt_down()
        } else {
            let cmds = [self.stop_pan(), self.set_pan(), self.set_tilt()];
            return (cmds, 3);
        };
        ([single, single, single], 1)
    }
}

/// Where one round with the rotator stands.
#[derive(Debug, Clone, Copy, PartialEq, Eq, Structural)]
pub enum RoundPhase {
    /// The pan position query has been sent; its reply is awaited.
    QueryPan,
    /// The tilt position query has been sent; its reply is awaited.
    QueryTilt,
    /// A movement command has been sent; its reply is awaited.
    Moving,
    /// The round is over.
    Done,
}

/// One round with the rotator: query the pan position, then the tilt
/// position, then send the movement commands that the positions call for,
/// reading the reply to each command before the next; a malformed reply
/// ends the round.
pub struct PtzRound {
    phase: RoundPhase,
    moves: [Command; 3],
    count: usize,
    sent: usize,
}

impl PtzRound {
    pub closed spec fn phase(&self) -> RoundPhase {
        self.phase
    }

    /// The movement commands of the round, once the positions are known.
    pub closed spec fn moves(&self) -> Seq<Seq<u8>> {
        Seq::new(self.count as nat, |i: int| self.moves@[i]@)
    }

    /// How many movement commands have been sent.
    pub closed spec fn sent(&self) -> nat {
        self.sent as nat
    }

    pub closed spec fn wf(&self) -> bool {
        &&& self.count <= 3
        &&& self.sent <= self.count
    }
}

impl PTZDriver {
    /// Starts a round towards the target angles: takes them, and gives the
    /// first command, the pan position query.
    pub fn begin_round(&mut self, target_az: AzAngle, target_el: ElAngle) -> (r: (PtzRound, Command))
        ensures
            final(self).id() == old(self).id(),
            final(self).state_view() == (PTZStateView {
                target_az: target_az.0,
                target_el: target_el.0,
                ..old(self).state_view()
            }),
            r.0.wf(),
            r.0.phase() == RoundPhase::QueryPan,
            r.1@ == command_bytes(old(self).id(), 0x51, 0, 0),
    {
        self.load_angles(target_az, target_el);
        let query = self.query_pan_position();
        (PtzRound { phase: RoundPhase::QueryPan, moves: [query, query, query], count: 0, sent: 0 }, query)
    }

    /// Takes the rotator's reply to the command last sent in `round` (see
    /// `read_ptz`), and gives whether it carried a position (`true` for a
    /// full-length reply) with the next command to send, or `None` when the
    /// round is over. After the pan query comes the tilt query; after the
    /// tilt query, the movement commands of `movement_plan` for the state as
    /// it then is, one after the other. A malformed reply ends the round
    /// with `PTZDataErr`.
    pub fn round_reply(&mut self, round: &mut PtzRound, reply: &[u8]) -> (r: Result<
        (bool, Option<Command>),
        Error,
    >)
        requires
            old(round).wf(),
            old(round).phase() != RoundPhase::Done,
        ensures
            final(self).id() == old(self).id(),
            final(self).state_view() == state_after_reply(
                old(self).state_view(),
                old(self).id(),
                reply@,
            ),
            final(round).wf(),
            reply@.len() == COMMAND_SIZE && !response_valid(old(self).id(), reply@) ==> r
                == Err::<(bool, Option<Command>), Error>(Error::PTZDataErr) && final(round).phase()
                == RoundPhase::Done,
            !(reply@.len() == COMMAND_SIZE && !response_valid(old(self).id(), reply@)) ==> (
            r matches Ok((updated, next)) && updated == (reply@.len() == COMMAND_SIZE) && match old(
                round,
            ).phase() {
                RoundPhase::QueryPan => final(round).phase() == RoundPhase::QueryTilt && (
                next matches Some(c) && c@ == command_bytes(old(self).id(), 0x53, 0, 0)),
                RoundPhase::QueryTilt => {
                    let plan = movement_plan(final(self).state_view(), old(self).id());
                    &&& final(round).phase() == RoundPhase::Moving
                    &&& final(round).moves() == plan
                    &&& final(round).sent() == 1
                    &&& next matches Some(c) && c@ == plan[0]
                },
                _ => if old(round).sent() < old(round).moves().len() {
                    &&& final(round).phase() == RoundPhase::Moving
                    &&& final(round).moves() == old(round).moves()
                    &&& final(round).sent() == old(round).sent() + 1
                    &&& next matches Some(c) && c@ == old(round).moves()[old(round).sent() as int]
                } else {
                    final(round).phase() == RoundPhase::Done && next is None
                },
            }),
    {
        let updated = match self.read_ptz(reply) {
            Ok(u) => u,
            Err(e) => {
                round.phase = RoundPhase::Done;
                return Err(e);
            },
        };
        match round.phase {
            RoundPhase::QueryPan => {
                round.phase = RoundPhase::QueryTilt;
                Ok((updated, Some(self.query_tilt_position())))
            },
            RoundPhase::QueryTilt => {
                let (moves, count) = self.movement_commands();
                round.moves = moves;
                round.count = count;
                round.sent = 1;
                round.phase = RoundPhase::Moving;
                assert(round.moves() =~= movement_plan(self.state_view(), self.id()));
                Ok((updated, Some(moves[0])))
            },
            _ => {
                if round.sent < round.count {
                    let next = round.moves[round.sent];
                    round.sent = round.sent + 1;
                    proof {
                        assert(round.moves() =~= old(round).moves());
                    }
                    Ok((updated, Some(next)))
                } else {
                    round.phase = RoundPhase::Done;
                    Ok((updated, None))
                }
            },
        }
    }
}

} // verus!
