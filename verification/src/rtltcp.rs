//! The command encoding and sample normalization of the RTL-TCP tuner
//! protocol.
//!
//! The tuner is a network collaborator: it accepts five-byte commands
//! (an opcode byte followed by a big-endian 32-bit argument) and streams
//! raw 8-bit unsigned I/Q sample pairs centered at 128. The connection
//! handling is plain socket I/O and lives outside this crate; the
//! protocol facts live here: which opcode each command carries, how a
//! command is framed, which sample rates the hardware accepts, and how a
//! raw byte is centered into a signed sample.

use vstd::prelude::*;

verus! {

/// A command of the tuner protocol.
#[derive(Clone, Copy, Debug, PartialEq, Eq, Structural)]
pub enum RtlTcpCommand {
    /// Tune to a center frequency, in Hz.
    SetFrequency(u32),
    /// Set the sample rate, in Hz.
    SetSampleRate(u32),
    /// Choose manual (non-zero) or automatic (zero) tuner gain.
    SetTunerGainMode(u32),
    /// Set the tuner gain, in tenths of a dB.
    SetTunerGain(u32),
    /// Switch the digital automatic gain control on (non-zero) or off.
    SetRtlAgc(u32),
}

impl RtlTcpCommand {
    /// The opcode byte and argument this command is sent as.
    pub open spec fn encode_spec(self) -> (u8, u32) {
        match self {
            RtlTcpCommand::SetFrequency(a) => (0x01u8, a),
            RtlTcpCommand::SetSampleRate(a) => (0x02u8, a),
            RtlTcpCommand::SetTunerGainMode(a) => (0x03u8, a),
            RtlTcpCommand::SetTunerGain(a) => (0x04u8, a),
            RtlTcpCommand::SetRtlAgc(a) => (0x08u8, a),
        }
    }

    /// The opcode byte and argument of this command.
    pub fn encode(&self) -> (r: (u8, u32))
        ensures
            r == self.encode_spec(),
    {
        match self {
            RtlTcpCommand::SetFrequency(a) => (0x01, *a),
            RtlTcpCommand::SetSampleRate(a) => (0x02, *a),
            RtlTcpCommand::SetTunerGainMode(a) => (0x03, *a),
            RtlTcpCommand::SetTunerGain(a) => (0x04, *a),
            RtlTcpCommand::SetRtlAgc(a) => (0x08, *a),
        }
    }

    /// The five-byte wire frame: the opcode followed by the argument in
    /// big-endian byte order.
    pub fn frame(&self) -> (r: Vec<u8>)
        ensures
            r@.len() == 5,
            r@[0] == self.encode_spec().0,
            r@[1] == self.encode_spec().1 / 0x1000000 % 0x100,
            r@[2] == self.encode_spec().1 / 0x10000 % 0x100,
            r@[3] == self.encode_spec().1 / 0x100 % 0x100,
            r@[4] == self.encode_spec().1 % 0x100,
    {
        let (op, arg) = self.encode();
        let mut r: Vec<u8> = Vec::new();
        r.push(op);
        r.push((arg >> 24) as u8);
        r.push((arg >> 16 & 0xff) as u8);
        r.push((arg >> 8 & 0xff) as u8);
        r.push((arg & 0xff) as u8);
        proof {
            assert(arg >> 24 == arg / 0x1000000 % 0x100) by (bit_vector);
            assert(arg >> 16 & 0xff == arg / 0x10000 % 0x100) by (bit_vector);
            assert(arg >> 8 & 0xff == arg / 0x100 % 0x100) by (bit_vector);
            assert(arg & 0xff == arg % 0x100) by (bit_vector);
        }
        r
    }
}

/// Whether the tuner hardware accepts `rate` samples per second: the
/// two supported bands are 225 001 to 300 000 Hz and 900 001 to
/// 3 200 000 Hz.
pub open spec fn valid_rate_spec(rate: u32) -> bool {
    (225001 <= rate && rate <= 300000) || (900001 <= rate && rate <= 3200000)
}

/// Whether the tuner hardware accepts this sample rate. A rate outside
/// both bands must be rejected before it is sent.
pub fn valid_rate(rate: u32) -> (r: bool)
    ensures
        r == valid_rate_spec(rate),
{
    (225001 <= rate && rate <= 300000) || (900001 <= rate && rate <= 3200000)
}

/// Centers one raw 8-bit sample at zero and scales it to the sample
/// amplitude used throughout this crate: 128 raw steps become
/// `AMPLITUDE`, so the result covers about one amplitude on each side.
pub fn center_sample(raw: u8) -> (r: i64)
    ensures
        r == (raw - 128) * (crate::complex::AMPLITUDE / 128),
{
    (raw as i64 - 128) * (crate::complex::AMPLITUDE / 128)
}

} // verus!
