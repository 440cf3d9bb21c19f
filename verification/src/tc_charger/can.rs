//! The CAN messages between the controller and the chargers.
use vstd::prelude::*;
use crate::arith::shift_decimal;
use crate::buffer_tool::{snip_ref, Snip};
use crate::physical_values::physical::group_physical;
use crate::physical_values::{power_millis, Current, Voltage};

verus! {

broadcast use group_physical;

/// The length of a CAN payload.
pub const CAN_MSG_LEN: usize = 8;

/// The bytes of a CAN payload.
pub type CanPayload = [u8; CAN_MSG_LEN];

/// A voltage together with a current.
pub type VoltageCurrent = (Voltage, Current);

/// A setpoint message to a charger.
#[derive(Debug, PartialEq, Eq, Clone, Copy)]
pub struct TxMsg {
    pub id: u32,
    pub payload: TxPayload,
}

/// A status message of a charger.
#[derive(Clone, Copy, Debug)]
pub struct RxMsg<'a> {
    pub id: u32,
    pub payload: &'a RxPayload,
}

/// The payload of a setpoint: voltage and current in tenths, and whether to stop.
#[derive(Debug, PartialEq, Eq, Clone, Copy)]
pub struct TxPayload {
    pub deci_volts: u16,
    pub deci_amps: u16,
    pub control: u8,
    pub _reserved: [u8; 3],
}

/// A value in tenths of its unit, cut to 16 bits, as a setpoint carries it.
pub open spec fn deci_u16(millis: int) -> u16 {
    shift_decimal(millis, 3, 1) as i32 as u16
}

/// The big-endian bytes of a 16-bit value.
pub open spec fn be16_bytes(v: u16) -> Seq<u8> {
    seq![(v / 256) as u8, (v % 256) as u8]
}

impl TxPayload {
    /// The setpoint for voltage `u` and current `i`: the charger stops unless `u * i`
    /// is a positive power.
    pub fn new(val: VoltageCurrent) -> (r: Self)
        ensures
            r.deci_volts == deci_u16(val.0@),
            r.deci_amps == deci_u16(val.1@),
            r.control == if power_millis(val.0@, val.1@) > 0 { 0u8 } else { 1u8 },
            r._reserved@ == seq![0u8, 0u8, 0u8],
    {
        let (u, i) = val;
        let p = u * i;
        Self {
            deci_volts: u.as_decimal(1) as u16,
            deci_amps: i.as_decimal(1) as u16,
            control: if p.as_millis() > 0 {
                0
            } else {
                1
            },
            _reserved: [0u8; 3],
        }
    }

    /// The bytes on the bus: voltage and current big-endian, then control and reserved bytes.
    pub fn to_bytes(&self) -> (r: CanPayload)
        ensures
            r@ == be16_bytes(self.deci_volts) + be16_bytes(self.deci_amps) + seq![self.control]
                + self._reserved@,
    {
        let r: CanPayload = [
            (self.deci_volts / 256) as u8,
            (self.deci_volts % 256) as u8,
            (self.deci_amps / 256) as u8,
            (self.deci_amps % 256) as u8,
            self.control,
            self._reserved[0],
            self._reserved[1],
            self._reserved[2],
        ];
        assert(r@ == be16_bytes(self.deci_volts) + be16_bytes(self.deci_amps) + seq![self.control]
            + self._reserved@);
        r
    }
}

/// The payload of a status: voltage and current in tenths, status and temperature.
#[derive(Debug, Clone, Copy)]
pub struct RxPayload {
    pub deci_volts: u16,
    pub deci_amps: u16,
    pub _status: u8,
    pub _temp: u8,
    pub _reserved: [u8; 2],
}

/// The big-endian value of two bytes.
pub open spec fn be16(b0: u8, b1: u8) -> int {
    b0 * 256 + b1
}

impl Snip for RxPayload {
    open spec fn spec_len() -> nat {
        8
    }

    open spec fn spec_decode(b: Seq<u8>) -> Self {
        RxPayload {
            deci_volts: be16(b[0], b[1]) as u16,
            deci_amps: be16(b[2], b[3]) as u16,
            _status: b[4],
            _temp: b[5],
            _reserved: [b[6], b[7]],
        }
    }

    fn byte_len() -> (r: usize) {
        8
    }

    fn decode(b: &[u8]) -> (r: Self) {
        RxPayload {
            deci_volts: b[0] as u16 * 256 + b[1] as u16,
            deci_amps: b[2] as u16 * 256 + b[3] as u16,
            _status: b[4],
            _temp: b[5],
            _reserved: [b[6], b[7]],
        }
    }
}

impl RxPayload {
    /// The reported output voltage and current.
    pub fn decode(&self) -> (r: VoltageCurrent)
        ensures
            r.0@ == self.deci_volts * 100,
            r.1@ == self.deci_amps * 100,
    {
        let u = Voltage::from_decimal(self.deci_volts as i32, 1);
        let i = Current::from_decimal(self.deci_amps as i32, 1);
        proof {
            crate::arith::lemma_pow10_pos(2);
            assert(crate::arith::pow10(2) == 100) by {
                assert(crate::arith::pow10(0) == 1);
                assert(crate::arith::pow10(1) == 10);
            }
        }
        (u, i)
    }

    /// Reads a status payload from the front of `bytes`; `None` when they are too few.
    pub fn from_bytes(bytes: &[u8]) -> (r: Option<RxPayload>)
        ensures
            bytes@.len() < 8 <==> r is None,
            r matches Some(p) ==> p == Self::spec_decode(bytes@.subrange(0, 8)),
    {
        match snip_ref::<RxPayload>(bytes) {
            Some((p, _)) => Some(p),
            None => None,
        }
    }
}

} // verus!
