use vstd::prelude::*;
use crate::alarm::{Alarm, elapsed};

verus! {

/// Ticks the sensor needs after waking before its readings can be trusted
/// (30 s on a 1 µs counter).
pub const WARM_UP_TICKS: u64 = 30_000_000;

/// Length of a response frame.
pub const RESPONSE_LEN: usize = 32;

/// Command byte that switches between passive (0) and active (1) mode.
pub const CMD_MODE: u8 = 0xE1;

/// Command byte that asks for one reading in passive mode.
pub const CMD_READ: u8 = 0xE2;

/// Command byte that puts the sensor to sleep (0) or wakes it (1).
pub const CMD_SLEEP: u8 = 0xE4;

/// Protocol state of the sensor controller.
#[derive(Debug, Clone, Copy, PartialEq, Eq, Structural)]
pub enum SensorState {
    Uninitialized,
    WarmingUp,
    Ready,
}

/// What went wrong on the serial link to the sensor.
#[derive(Debug, Clone, Copy, PartialEq, Eq, Structural)]
pub enum TransportFault {
    Overrun,
    Break,
    Parity,
    Framing,
}

/// Why no reading came back.
#[derive(Debug, Clone, Copy, PartialEq, Eq, Structural)]
pub enum SensorError {
    /// The warm-up period has not elapsed yet: expected and transient.
    WarmUp,
    /// The link worked but the frame was malformed.
    Conversion,
    /// The link itself failed.
    Write(TransportFault),
}

/// Mass concentrations under atmospheric conditions, in µg/m³.
#[derive(Debug, Clone, Copy, PartialEq, Eq, Structural)]
pub struct Reading {
    pub pm1_0_atm: u16,
    pub pm2_5_atm: u16,
    pub pm10_atm: u16,
}

/// Big-endian value of two bytes.
pub open spec fn be16(hi: u8, lo: u8) -> int {
    hi as int * 256 + lo as int
}

/// Sum of a run of bytes.
pub open spec fn byte_sum(s: Seq<u8>) -> int
    decreases s.len(),
{
    if s.len() == 0 {
        0
    } else {
        byte_sum(s.drop_last()) + s.last() as int
    }
}

/// The seven bytes of a command: start marker, command, parameter and the
/// checksum of the five bytes before it, both words big-endian.
pub open spec fn command_bytes(cmd: u8, param: u16) -> Seq<u8> {
    let hi = (param / 256) as u8;
    let lo = (param % 256) as u8;
    let sum = 0x42 + 0x4D + cmd as int + hi as int + lo as int;
    seq![0x42u8, 0x4Du8, cmd, hi, lo, (sum / 256) as u8, (sum % 256) as u8]
}

/// A well-formed response: 32 bytes, start marker, a frame length of 28 and
/// a checksum equal to the sum of the 30 bytes before it.
pub open spec fn frame_valid(b: Seq<u8>) -> bool {
    &&& b.len() == RESPONSE_LEN
    &&& b[0] == 0x42
    &&& b[1] == 0x4D
    &&& be16(b[2], b[3]) == 28
    &&& be16(b[30], b[31]) == byte_sum(b.take(30))
}

/// The atmospheric concentrations carried by a well-formed response.
pub open spec fn reading_of(b: Seq<u8>) -> Reading {
    Reading {
        pm1_0_atm: be16(b[10], b[11]) as u16,
        pm2_5_atm: be16(b[12], b[13]) as u16,
        pm10_atm: be16(b[14], b[15]) as u16,
    }
}

/// The outcome of decoding a response.
pub open spec fn decoded(b: Seq<u8>) -> Result<Reading, SensorError> {
    if frame_valid(b) {
        Ok(reading_of(b))
    } else {
        Err(SensorError::Conversion)
    }
}

fn word(hi: u8, lo: u8) -> (r: u16)
    ensures
        r == be16(hi, lo),
{
    (hi as u16) * 256 + (lo as u16)
}

/// Builds the command frame for `cmd` with parameter `param`.
pub fn command_frame(cmd: u8, param: u16) -> (r: Vec<u8>)
    ensures
        r@ == command_bytes(cmd, param),
{
    let hi = (param / 256) as u8;
    let lo = (param % 256) as u8;
    let sum: u16 = 0x42 + 0x4D + cmd as u16 + hi as u16 + lo as u16;
    let r = vec![0x42u8, 0x4Du8, cmd, hi, lo, (sum / 256) as u8, (sum % 256) as u8];
    assert(r@ =~= command_bytes(cmd, param));
    r
}

/// Decodes one response frame. Any mismatch of length, start marker, frame
/// length or checksum is a conversion error.
pub fn decode_frame(frame: &[u8]) -> (r: Result<Reading, SensorError>)
    ensures
        r == decoded(frame@),
{
    if frame.len() != RESPONSE_LEN || frame[0] != 0x42 || frame[1] != 0x4D || word(frame[2], frame[3])
        != 28 {
        return Err(SensorError::Conversion);
    }
    let mut sum: u16 = 0;
    let mut i: usize = 0;
    while i < 30
        invariant
            frame@.len() == RESPONSE_LEN,
            0 <= i <= 30,
            sum as int == byte_sum(frame@.take(i as int)),
            sum <= 255 * i,
        decreases 30 - i,
    {
        assert(frame@.take(i as int + 1).drop_last() =~= frame@.take(i as int));
        sum = sum + frame[i] as u16;
        i = i + 1;
    }
    if word(frame[30], frame[31]) != sum {
        return Err(SensorError::Conversion);
    }
    Ok(
        Reading {
            pm1_0_atm: word(frame[10], frame[11]),
            pm2_5_atm: word(frame[12], frame[13]),
            pm10_atm: word(frame[14], frame[15]),
        },
    )
}

/// Completes a read once the transport has exchanged the request: a link
/// failure is reported as such, otherwise the frame is decoded.
pub fn finish_read(reply: Result<Vec<u8>, TransportFault>) -> (r: Result<Reading, SensorError>)
    ensures
        reply is Err ==> r == Err::<Reading, SensorError>(SensorError::Write(reply->Err_0)),
        reply is Ok ==> r == decoded(reply->Ok_0@),
{
    match reply {
        Ok(frame) => decode_frame(frame.as_slice()),
        Err(fault) => Err(SensorError::Write(fault)),
    }
}

/// Controller of a particulate-matter sensor polled in passive mode.
#[derive(Debug, Clone, Copy, PartialEq, Eq, Structural)]
pub struct ParticulateMatterSensor {
    state: SensorState,
    warm_up: Alarm,
}

/// Whether a poll at tick `now` still meets the warm-up gate: the sensor was
/// never started, or its warm-up alarm has not fired yet.
pub open spec fn warming(s: ParticulateMatterSensor, now: u64) -> bool {
    s.current_state() == SensorState::Uninitialized || (s.current_state()
        == SensorState::WarmingUp && !s.warm_up_alarm().fired_at(now))
}

impl ParticulateMatterSensor {
    /// The protocol state.
    pub closed spec fn current_state(self) -> SensorState {
        self.state
    }

    /// The warm-up alarm.
    pub closed spec fn warm_up_alarm(self) -> Alarm {
        self.warm_up
    }

    /// A controller that has not yet talked to the sensor.
    pub fn new() -> (r: ParticulateMatterSensor)
        ensures
            r.current_state() == SensorState::Uninitialized,
            r.warm_up_alarm() == Alarm::new_spec(),
    {
        ParticulateMatterSensor { state: SensorState::Uninitialized, warm_up: Alarm::new() }
    }

    /// The protocol state.
    pub fn state(&self) -> (r: SensorState)
        ensures
            r == self.current_state(),
    {
        self.state
    }

    /// The warm-up alarm.
    pub fn warm_up(&self) -> (r: Alarm)
        ensures
            r == self.warm_up_alarm(),
    {
        self.warm_up
    }

    /// Starts (or restarts) the sensor at tick `now`: returns the wake and
    /// switch-to-passive commands, in the order they are to be sent, and arms
    /// the warm-up alarm.
    pub fn init(&mut self, now: u64) -> (commands: Vec<Vec<u8>>)
        ensures
            final(self).current_state() == SensorState::WarmingUp,
            final(self).warm_up_alarm() == (Alarm {
                armed: true,
                start: now,
                countdown: WARM_UP_TICKS,
            }),
            commands@.len() == 2,
            commands@[0]@ == command_bytes(CMD_SLEEP, 1),
            commands@[1]@ == command_bytes(CMD_MODE, 0),
    {
        let mut commands: Vec<Vec<u8>> = Vec::new();
        commands.push(command_frame(CMD_SLEEP, 1));
        commands.push(command_frame(CMD_MODE, 0));
        self.warm_up.clear();
        let _ = self.warm_up.schedule(now, WARM_UP_TICKS);
        self.state = SensorState::WarmingUp;
        commands
    }

    /// Non-blocking poll at tick `now`. Until the warm-up alarm has fired the
    /// answer is the warm-up condition and nothing changes. Once it has, the
    /// alarm is acknowledged, the controller is ready, and the result is the
    /// read-request command to send; the reply goes to `finish_read`.
    pub fn try_read(&mut self, now: u64) -> (r: Result<Vec<u8>, SensorError>)
        ensures
            warming(*old(self), now) ==> r == Err::<Vec<u8>, SensorError>(SensorError::WarmUp)
                && *final(self) == *old(self),
            old(self).current_state() == SensorState::WarmingUp && old(self).warm_up_alarm().fired_at(
                now,
            ) ==> r is Ok && final(self).current_state() == SensorState::Ready
                && final(self).warm_up_alarm() == (Alarm {
                armed: false,
                ..old(self).warm_up_alarm()
            }),
            old(self).current_state() == SensorState::Ready ==> r is Ok && *final(self) == *old(
                self,
            ),
            r is Ok ==> r->Ok_0@ == command_bytes(CMD_READ, 0),
            r is Err ==> r == Err::<Vec<u8>, SensorError>(SensorError::WarmUp),
    {
        match self.state {
            SensorState::Uninitialized => {
                return Err(SensorError::WarmUp);
            },
            SensorState::WarmingUp => {
                if !self.warm_up.finished(now) {
                    return Err(SensorError::WarmUp);
                }
                self.warm_up.clear();
                self.state = SensorState::Ready;
            },
            SensorState::Ready => {},
        }
        Ok(command_frame(CMD_READ, 0))
    }
}

/// Right after `init` at tick `t0`, every poll at a tick less than the
/// warm-up period past `t0` meets the warm-up gate; since such a poll changes
/// nothing, any number of them all answer with the warm-up condition and
/// none yields a reading.
pub proof fn lemma_polls_before_warm_up(s: ParticulateMatterSensor, t0: u64, times: Seq<u64>)
    requires
        s.current_state() == SensorState::WarmingUp,
        s.warm_up_alarm() == (Alarm { armed: true, start: t0, countdown: WARM_UP_TICKS }),
        forall|i: int| 0 <= i < times.len() ==> elapsed(t0, #[trigger] times[i]) < WARM_UP_TICKS,
    ensures
        forall|i: int| 0 <= i < times.len() ==> warming(s, #[trigger] times[i]),
{
}

/// Once the controller is ready, a read ends in exactly one of a decoded
/// reading, a decode condition or a transport condition: the warm-up
/// condition never comes back, and a reading comes exactly from a
/// well-formed frame.
pub proof fn lemma_ready_read_outcome(b: Seq<u8>, fault: TransportFault)
    ensures
        decoded(b) is Ok <==> frame_valid(b),
        decoded(b) is Err ==> decoded(b) == Err::<Reading, SensorError>(SensorError::Conversion),
        decoded(b) != Err::<Reading, SensorError>(SensorError::WarmUp),
        SensorError::Write(fault) != SensorError::WarmUp,
        SensorError::Write(fault) != SensorError::Conversion,
{
}

} // verus!
