//! Transport configuration with validated setters.
//!
//! Every field setter checks its domain; an out-of-domain value is rejected
//! and the previous value is kept, so a well-formed configuration stays
//! well-formed whatever a caller hands in.

use vstd::prelude::*;

verus! {

/// Parity setting of a serial transport; `Off` disables parity checking.
#[derive(Clone, Copy, Debug, PartialEq, Eq, Structural)]
pub enum Parity {
    Off,
    Odd,
    Even,
}

/// Flow-control setting of a serial transport; `Off` disables flow control.
#[derive(Clone, Copy, Debug, PartialEq, Eq, Structural)]
pub enum FlowControl {
    Off,
    Software,
    Hardware,
}

/// One transport configuration. `data_bits` must lie in {6, 7, 8} and
/// `stop_bits` in {1, 2}; the setters enforce both.
#[derive(Clone, Copy, Debug, PartialEq, Eq, Structural)]
pub struct TransportConfig {
    pub baud: u32,
    pub data_bits: u8,
    pub parity: Parity,
    pub stop_bits: u8,
    pub flow_control: FlowControl,
    pub timeout_ms: u64,
}

/// A data-bit count the configuration accepts.
pub open spec fn valid_data_bits(v: u8) -> bool {
    v == 6 || v == 7 || v == 8
}

/// A stop-bit count the configuration accepts.
pub open spec fn valid_stop_bits(v: u8) -> bool {
    v == 1 || v == 2
}

/// The numeric codes under which a caller selects a parity.
pub open spec fn parity_of_code(code: u8) -> Option<Parity> {
    if code == 0 {
        Some(Parity::Off)
    } else if code == 1 {
        Some(Parity::Odd)
    } else if code == 2 {
        Some(Parity::Even)
    } else {
        None
    }
}

/// The numeric codes under which a caller selects a flow control.
pub open spec fn flow_control_of_code(code: u8) -> Option<FlowControl> {
    if code == 0 {
        Some(FlowControl::Off)
    } else if code == 1 {
        Some(FlowControl::Software)
    } else if code == 2 {
        Some(FlowControl::Hardware)
    } else {
        None
    }
}

impl TransportConfig {
    /// Every field lies in its domain.
    pub open spec fn wf(self) -> bool {
        valid_data_bits(self.data_bits) && valid_stop_bits(self.stop_bits)
    }

    /// The configuration a fresh session starts from: 9600 baud, 8 data
    /// bits, no parity, one stop bit, no flow control, a one-second timeout.
    pub fn new() -> (c: TransportConfig)
        ensures
            c == (TransportConfig {
                baud: 9600,
                data_bits: 8,
                parity: Parity::Off,
                stop_bits: 1,
                flow_control: FlowControl::Off,
                timeout_ms: 1000,
            }),
            c.wf(),
    {
        TransportConfig {
            baud: 9600,
            data_bits: 8,
            parity: Parity::Off,
            stop_bits: 1,
            flow_control: FlowControl::Off,
            timeout_ms: 1000,
        }
    }

    /// Set the baud rate. Every rate is accepted.
    pub fn set_baud(&mut self, baud: u32)
        ensures
            *final(self) == (TransportConfig { baud, ..*old(self) }),
    {
        self.baud = baud;
    }

    /// Set the read timeout in milliseconds. Every duration is accepted.
    pub fn set_timeout_ms(&mut self, timeout_ms: u64)
        ensures
            *final(self) == (TransportConfig { timeout_ms, ..*old(self) }),
    {
        self.timeout_ms = timeout_ms;
    }

    /// Set the data-bit count. A value outside {6, 7, 8} is rejected: the
    /// previous value is kept and `false` is returned.
    pub fn set_data_bits(&mut self, v: u8) -> (ok: bool)
        ensures
            ok == valid_data_bits(v),
            valid_data_bits(v) ==> *final(self) == (TransportConfig { data_bits: v, ..*old(self) }),
            !valid_data_bits(v) ==> *final(self) == *old(self),
    {
        if v == 6 || v == 7 || v == 8 {
            self.data_bits = v;
            true
        } else {
            false
        }
    }

    /// Set the stop-bit count. A value outside {1, 2} is rejected: the
    /// previous value is kept and `false` is returned.
    pub fn set_stop_bits(&mut self, v: u8) -> (ok: bool)
        ensures
            ok == valid_stop_bits(v),
            valid_stop_bits(v) ==> *final(self) == (TransportConfig { stop_bits: v, ..*old(self) }),
            !valid_stop_bits(v) ==> *final(self) == *old(self),
    {
        if v == 1 || v == 2 {
            self.stop_bits = v;
            true
        } else {
            false
        }
    }

    /// Set the parity by its numeric code. An unknown code is rejected: the
    /// previous value is kept and `false` is returned.
    pub fn set_parity(&mut self, code: u8) -> (ok: bool)
        ensures
            ok == parity_of_code(code) is Some,
            parity_of_code(code) matches Some(p) ==> *final(self) == (TransportConfig {
                parity: p,
                ..*old(self)
            }),
            parity_of_code(code) is None ==> *final(self) == *old(self),
    {
        if code == 0 {
            self.parity = Parity::Off;
            true
        } else if code == 1 {
            self.parity = Parity::Odd;
            true
        } else if code == 2 {
            self.parity = Parity::Even;
            true
        } else {
            false
        }
    }

    /// Set the flow control by its numeric code. An unknown code is
    /// rejected: the previous value is kept and `false` is returned.
    pub fn set_flow_control(&mut self, code: u8) -> (ok: bool)
        ensures
            ok == flow_control_of_code(code) is Some,
            flow_control_of_code(code) matches Some(f) ==> *final(self) == (TransportConfig {
                flow_control: f,
                ..*old(self)
            }),
            flow_control_of_code(code) is None ==> *final(self) == *old(self),
    {
        if code == 0 {
            self.flow_control = FlowControl::Off;
            true
        } else if code == 1 {
            self.flow_control = FlowControl::Software;
            true
        } else if code == 2 {
            self.flow_control = FlowControl::Hardware;
            true
        } else {
            false
        }
    }

    /// The configuration after applying all six fields independently:
    /// a field with an out-of-domain value keeps its previous value.
    pub open spec fn apply_all_next(
        self,
        baud: u32,
        data_bits: u8,
        parity_code: u8,
        stop_bits: u8,
        flow_code: u8,
        timeout_ms: u64,
    ) -> TransportConfig {
        TransportConfig {
            baud,
            data_bits: if valid_data_bits(data_bits) {
                data_bits
            } else {
                self.data_bits
            },
            parity: match parity_of_code(parity_code) {
                Some(p) => p,
                None => self.parity,
            },
            stop_bits: if valid_stop_bits(stop_bits) {
                stop_bits
            } else {
                self.stop_bits
            },
            flow_control: match flow_control_of_code(flow_code) {
                Some(f) => f,
                None => self.flow_control,
            },
            timeout_ms,
        }
    }

    /// Whether all six fields of a reconfiguration lie in their domains.
    pub open spec fn apply_all_ok(
        data_bits: u8,
        parity_code: u8,
        stop_bits: u8,
        flow_code: u8,
    ) -> bool {
        &&& valid_data_bits(data_bits)
        &&& parity_of_code(parity_code) is Some
        &&& valid_stop_bits(stop_bits)
        &&& flow_control_of_code(flow_code) is Some
    }

    /// Apply a full reconfiguration field by field, continuing past
    /// individual rejections; returns whether every field was accepted.
    pub fn apply_all(
        &mut self,
        baud: u32,
        data_bits: u8,
        parity_code: u8,
        stop_bits: u8,
        flow_code: u8,
        timeout_ms: u64,
    ) -> (ok: bool)
        ensures
            ok == Self::apply_all_ok(data_bits, parity_code, stop_bits, flow_code),
            *final(self) == old(self).apply_all_next(
                baud,
                data_bits,
                parity_code,
                stop_bits,
                flow_code,
                timeout_ms,
            ),
    {
        self.set_baud(baud);
        let ok_data = self.set_data_bits(data_bits);
        let ok_parity = self.set_parity(parity_code);
        let ok_stop = self.set_stop_bits(stop_bits);
        let ok_flow = self.set_flow_control(flow_code);
        self.set_timeout_ms(timeout_ms);
        ok_data && ok_parity && ok_stop && ok_flow
    }
}

} // verus!
