//! The state that the radio task, the rotator task and the display share.
use vstd::prelude::*;

use crate::answer::{answer_contents, AnswerPacket};
use crate::errors::Error;
use crate::pelcod::{AzAngle, ElAngle};
use crate::protocols::{answer_payload, crc8_lte, CommandPacket, Protocol};
use crate::relays::{lna_bit, ptz_bit, Relays};

verus! {

/// What the tasks of the station share: the target and current angles, the
/// radio levels, the last sequence number and the relay state.
#[derive(Clone, Copy, PartialEq, Debug)]
pub struct AppContext {
    pub target_az: AzAngle,
    pub target_el: ElAngle,
    pub current_az: AzAngle,
    pub current_el: ElAngle,
    pub noise: u8,
    pub signal: u8,
    pub seq: u32,
    pub power_control: Relays,
}

impl AppContext {
    /// Everything at zero and both relays off.
    pub fn new() -> (r: Self)
        ensures
            r.target_az.0 == 0,
            r.target_el.0 == 0,
            r.current_az.0 == 0,
            r.current_el.0 == 0,
            r.noise == 0,
            r.signal == 0,
            r.seq == 0,
            r.power_control@ == 0,
    {
        AppContext {
            target_az: AzAngle(0),
            target_el: ElAngle(0),
            current_az: AzAngle(0),
            current_el: ElAngle(0),
            noise: 0,
            signal: 0,
            seq: 0,
            power_control: Relays::new(),
        }
    }

    /// Takes an accepted command: its angles become the targets, its relay
    /// state the relay state, its RSSI the signal level; `noise` and `seq`
    /// are stored too. Gives back the current angles, which the answer
    /// reports.
    pub fn take_command(&mut self, cmd: &CommandPacket, noise: u8, seq: u32) -> (r: (
        AzAngle,
        ElAngle,
    ))
        ensures
            r == (old(self).current_az, old(self).current_el),
            *final(self) == (AppContext {
                target_az: cmd.az,
                target_el: cmd.el,
                signal: cmd.rssi,
                noise,
                seq,
                power_control: cmd.relays,
                ..*old(self)
            }),
    {
        let current = (self.current_az, self.current_el);
        self.target_az = cmd.az;
        self.target_el = cmd.el;
        self.signal = cmd.rssi;
        self.noise = noise;
        self.seq = seq;
        self.power_control = cmd.relays;
        current
    }
}

/// What the station does with an accepted command once the noise level has
/// been read: the relay pin levels and the answer to send.
pub struct CommandOutcome {
    /// Level of the PTZ relay pin.
    pub ptz_on: bool,
    /// Level of the LNA relay pin.
    pub lna_on: bool,
    /// The answer packet.
    pub answer: AnswerPacket,
}

impl AppContext {
    /// Handles an accepted command `cmd` with the result of reading the
    /// channel's noise level. When the noise level could not be read the
    /// command is dropped: nothing changes (the sequence number has already
    /// advanced in `protocol`) and there is no answer. Otherwise the relays
    /// follow the command, the context takes it (`take_command`, with the
    /// protocol's sequence number), and the answer reports the angles that
    /// were current before, the command's RSSI, the noise level and the
    /// command's relay state.
    pub fn handle_command(&mut self, protocol: &mut Protocol, cmd: &CommandPacket, noise: Result<
        u8,
        Error,
    >) -> (r: Option<CommandOutcome>)
        ensures
            *final(protocol) == *old(protocol),
            noise is Err ==> r is None && *final(self) == *old(self),
            noise matches Ok(n) ==> {
                &&& *final(self) == (AppContext {
                    target_az: cmd.az,
                    target_el: cmd.el,
                    signal: cmd.rssi,
                    noise: n,
                    seq: old(protocol)@,
                    power_control: cmd.relays,
                    ..*old(self)
                })
                &&& r matches Some(o) && o.ptz_on == ptz_bit(cmd.relays@) && o.lna_on == lna_bit(
                    cmd.relays@,
                ) && answer_contents(o.answer) == answer_payload(
                    old(protocol)@,
                    old(self).current_az.0,
                    old(self).current_el.0,
                    cmd.rssi,
                    n,
                    cmd.relays@,
                ).push(
                    crc8_lte(
                        answer_payload(
                            old(protocol)@,
                            old(self).current_az.0,
                            old(self).current_el.0,
                            cmd.rssi,
                            n,
                            cmd.relays@,
                        ),
                    ),
                )
            },
    {
        let rssi_n = match noise {
            Ok(n) => n,
            Err(_) => {
                return None;
            },
        };
        let mut rly = cmd.relays;
        let ptz_on = rly.is_ptz_on();
        let lna_on = rly.is_lna_on();
        let seq = protocol.get_seq();
        let (az_cmd, el_cmd) = self.take_command(cmd, rssi_n, seq);
        let answer = protocol.make_answer(&az_cmd, &el_cmd, cmd.rssi, rssi_n, &rly).unwrap();
        Some(CommandOutcome { ptz_on, lna_on, answer })
    }
}

} // verus!
