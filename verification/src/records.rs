//! Structured wire records for high-speed streaming over a character
//! channel: machine-parseable, pipe-delimited, one record per line. Each
//! type renders its own line.

use vstd::prelude::*;
use vstd::string::StringSliceAdditionalSpecFns;
use crate::numfmt::{spec_dec, spec_dec_signed, spec_hex_fixed, append_dec, append_dec_signed, append_hex_fixed};

verus! {

/// `I2C|addr=0x`.
pub open spec fn lit_i2c_prefix() -> Seq<u8> {
    seq![73u8, 50u8, 67u8, 124u8, 97u8, 100u8, 100u8, 114u8, 61u8, 48u8, 120u8]
}

fn push_i2c_prefix(out: &mut Vec<u8>)
    ensures
        final(out)@ == old(out)@ + lit_i2c_prefix(),
{
    out.extend_from_slice([73u8, 50u8, 67u8, 124u8, 97u8, 100u8, 100u8, 114u8, 61u8, 48u8, 120u8].as_slice());
    proof {
        assert(out@ =~= old(out)@ + lit_i2c_prefix());
    }
}

/// `|op=`.
pub open spec fn lit_op_infix() -> Seq<u8> {
    seq![124u8, 111u8, 112u8, 61u8]
}

fn push_op_infix(out: &mut Vec<u8>)
    ensures
        final(out)@ == old(out)@ + lit_op_infix(),
{
    out.extend_from_slice([124u8, 111u8, 112u8, 61u8].as_slice());
    proof {
        assert(out@ =~= old(out)@ + lit_op_infix());
    }
}

/// `|bytes=`.
pub open spec fn lit_bytes_infix() -> Seq<u8> {
    seq![124u8, 98u8, 121u8, 116u8, 101u8, 115u8, 61u8]
}

fn push_bytes_infix(out: &mut Vec<u8>)
    ensures
        final(out)@ == old(out)@ + lit_bytes_infix(),
{
    out.extend_from_slice([124u8, 98u8, 121u8, 116u8, 101u8, 115u8, 61u8].as_slice());
    proof {
        assert(out@ =~= old(out)@ + lit_bytes_infix());
    }
}

/// `|status=`.
pub open spec fn lit_status_infix() -> Seq<u8> {
    seq![124u8, 115u8, 116u8, 97u8, 116u8, 117u8, 115u8, 61u8]
}

fn push_status_infix(out: &mut Vec<u8>)
    ensures
        final(out)@ == old(out)@ + lit_status_infix(),
{
    out.extend_from_slice([124u8, 115u8, 116u8, 97u8, 116u8, 117u8, 115u8, 61u8].as_slice());
    proof {
        assert(out@ =~= old(out)@ + lit_status_infix());
    }
}

/// `|ts=`.
pub open spec fn lit_ts_infix() -> Seq<u8> {
    seq![124u8, 116u8, 115u8, 61u8]
}

fn push_ts_infix(out: &mut Vec<u8>)
    ensures
        final(out)@ == old(out)@ + lit_ts_infix(),
{
    out.extend_from_slice([124u8, 116u8, 115u8, 61u8].as_slice());
    proof {
        assert(out@ =~= old(out)@ + lit_ts_infix());
    }
}

/// `GPIO|pin=`.
pub open spec fn lit_gpio_prefix() -> Seq<u8> {
    seq![71u8, 80u8, 73u8, 79u8, 124u8, 112u8, 105u8, 110u8, 61u8]
}

fn push_gpio_prefix(out: &mut Vec<u8>)
    ensures
        final(out)@ == old(out)@ + lit_gpio_prefix(),
{
    out.extend_from_slice([71u8, 80u8, 73u8, 79u8, 124u8, 112u8, 105u8, 110u8, 61u8].as_slice());
    proof {
        assert(out@ =~= old(out)@ + lit_gpio_prefix());
    }
}

/// `|state=`.
pub open spec fn lit_state_infix() -> Seq<u8> {
    seq![124u8, 115u8, 116u8, 97u8, 116u8, 101u8, 61u8]
}

fn push_state_infix(out: &mut Vec<u8>)
    ensures
        final(out)@ == old(out)@ + lit_state_infix(),
{
    out.extend_from_slice([124u8, 115u8, 116u8, 97u8, 116u8, 101u8, 61u8].as_slice());
    proof {
        assert(out@ =~= old(out)@ + lit_state_infix());
    }
}

/// `SENSOR|id=`.
pub open spec fn lit_sensor_prefix() -> Seq<u8> {
    seq![83u8, 69u8, 78u8, 83u8, 79u8, 82u8, 124u8, 105u8, 100u8, 61u8]
}

fn push_sensor_prefix(out: &mut Vec<u8>)
    ensures
        final(out)@ == old(out)@ + lit_sensor_prefix(),
{
    out.extend_from_slice([83u8, 69u8, 78u8, 83u8, 79u8, 82u8, 124u8, 105u8, 100u8, 61u8].as_slice());
    proof {
        assert(out@ =~= old(out)@ + lit_sensor_prefix());
    }
}

/// `|value=`.
pub open spec fn lit_value_infix() -> Seq<u8> {
    seq![124u8, 118u8, 97u8, 108u8, 117u8, 101u8, 61u8]
}

fn push_value_infix(out: &mut Vec<u8>)
    ensures
        final(out)@ == old(out)@ + lit_value_infix(),
{
    out.extend_from_slice([124u8, 118u8, 97u8, 108u8, 117u8, 101u8, 61u8].as_slice());
    proof {
        assert(out@ =~= old(out)@ + lit_value_infix());
    }
}

/// `|unit=`.
pub open spec fn lit_unit_infix() -> Seq<u8> {
    seq![124u8, 117u8, 110u8, 105u8, 116u8, 61u8]
}

fn push_unit_infix(out: &mut Vec<u8>)
    ensures
        final(out)@ == old(out)@ + lit_unit_infix(),
{
    out.extend_from_slice([124u8, 117u8, 110u8, 105u8, 116u8, 61u8].as_slice());
    proof {
        assert(out@ =~= old(out)@ + lit_unit_infix());
    }
}

/// `BOOT|version=`.
pub open spec fn lit_boot_prefix() -> Seq<u8> {
    seq![66u8, 79u8, 79u8, 84u8, 124u8, 118u8, 101u8, 114u8, 115u8, 105u8, 111u8, 110u8, 61u8]
}

fn push_boot_prefix(out: &mut Vec<u8>)
    ensures
        final(out)@ == old(out)@ + lit_boot_prefix(),
{
    out.extend_from_slice([66u8, 79u8, 79u8, 84u8, 124u8, 118u8, 101u8, 114u8, 115u8, 105u8, 111u8, 110u8, 61u8].as_slice());
    proof {
        assert(out@ =~= old(out)@ + lit_boot_prefix());
    }
}

/// `|chip=`.
pub open spec fn lit_chip_infix() -> Seq<u8> {
    seq![124u8, 99u8, 104u8, 105u8, 112u8, 61u8]
}

fn push_chip_infix(out: &mut Vec<u8>)
    ensures
        final(out)@ == old(out)@ + lit_chip_infix(),
{
    out.extend_from_slice([124u8, 99u8, 104u8, 105u8, 112u8, 61u8].as_slice());
    proof {
        assert(out@ =~= old(out)@ + lit_chip_infix());
    }
}

/// `Read`.
pub open spec fn lit_name_read() -> Seq<u8> {
    seq![82u8, 101u8, 97u8, 100u8]
}

fn push_name_read(out: &mut Vec<u8>)
    ensures
        final(out)@ == old(out)@ + lit_name_read(),
{
    out.extend_from_slice([82u8, 101u8, 97u8, 100u8].as_slice());
    proof {
        assert(out@ =~= old(out)@ + lit_name_read());
    }
}

/// `Write`.
pub open spec fn lit_name_write() -> Seq<u8> {
    seq![87u8, 114u8, 105u8, 116u8, 101u8]
}

fn push_name_write(out: &mut Vec<u8>)
    ensures
        final(out)@ == old(out)@ + lit_name_write(),
{
    out.extend_from_slice([87u8, 114u8, 105u8, 116u8, 101u8].as_slice());
    proof {
        assert(out@ =~= old(out)@ + lit_name_write());
    }
}

/// `Success`.
pub open spec fn lit_name_success() -> Seq<u8> {
    seq![83u8, 117u8, 99u8, 99u8, 101u8, 115u8, 115u8]
}

fn push_name_success(out: &mut Vec<u8>)
    ensures
        final(out)@ == old(out)@ + lit_name_success(),
{
    out.extend_from_slice([83u8, 117u8, 99u8, 99u8, 101u8, 115u8, 115u8].as_slice());
    proof {
        assert(out@ =~= old(out)@ + lit_name_success());
    }
}

/// `Nack`.
pub open spec fn lit_name_nack() -> Seq<u8> {
    seq![78u8, 97u8, 99u8, 107u8]
}

fn push_name_nack(out: &mut Vec<u8>)
    ensures
        final(out)@ == old(out)@ + lit_name_nack(),
{
    out.extend_from_slice([78u8, 97u8, 99u8, 107u8].as_slice());
    proof {
        assert(out@ =~= old(out)@ + lit_name_nack());
    }
}

/// `Timeout`.
pub open spec fn lit_name_timeout() -> Seq<u8> {
    seq![84u8, 105u8, 109u8, 101u8, 111u8, 117u8, 116u8]
}

fn push_name_timeout(out: &mut Vec<u8>)
    ensures
        final(out)@ == old(out)@ + lit_name_timeout(),
{
    out.extend_from_slice([84u8, 105u8, 109u8, 101u8, 111u8, 117u8, 116u8].as_slice());
    proof {
        assert(out@ =~= old(out)@ + lit_name_timeout());
    }
}

/// `Error`.
pub open spec fn lit_name_error() -> Seq<u8> {
    seq![69u8, 114u8, 114u8, 111u8, 114u8]
}

fn push_name_error(out: &mut Vec<u8>)
    ensures
        final(out)@ == old(out)@ + lit_name_error(),
{
    out.extend_from_slice([69u8, 114u8, 114u8, 111u8, 114u8].as_slice());
    proof {
        assert(out@ =~= old(out)@ + lit_name_error());
    }
}

/// `Low`.
pub open spec fn lit_name_low() -> Seq<u8> {
    seq![76u8, 111u8, 119u8]
}

fn push_name_low(out: &mut Vec<u8>)
    ensures
        final(out)@ == old(out)@ + lit_name_low(),
{
    out.extend_from_slice([76u8, 111u8, 119u8].as_slice());
    proof {
        assert(out@ =~= old(out)@ + lit_name_low());
    }
}

/// `High`.
pub open spec fn lit_name_high() -> Seq<u8> {
    seq![72u8, 105u8, 103u8, 104u8]
}

fn push_name_high(out: &mut Vec<u8>)
    ensures
        final(out)@ == old(out)@ + lit_name_high(),
{
    out.extend_from_slice([72u8, 105u8, 103u8, 104u8].as_slice());
    proof {
        assert(out@ =~= old(out)@ + lit_name_high());
    }
}

/// I2C transaction event.
#[derive(Debug, Clone, Copy, PartialEq, Eq, Structural)]
pub struct I2cTransaction {
    pub addr: u8,
    pub operation: I2cOperation,
    pub bytes_transferred: usize,
    pub status: I2cStatus,
    pub timestamp_ms: u64,
}

#[derive(Debug, Clone, Copy, PartialEq, Eq, Structural)]
pub enum I2cOperation {
    Read,
    Write,
}

#[derive(Debug, Clone, Copy, PartialEq, Eq, Structural)]
pub enum I2cStatus {
    Success,
    Nack,
    Timeout,
    Error,
}

/// GPIO event.
#[derive(Debug, Clone, Copy, PartialEq, Eq, Structural)]
pub struct GpioEvent {
    pub pin: u8,
    pub state: GpioState,
    pub timestamp_ms: u64,
}

#[derive(Debug, Clone, Copy, PartialEq, Eq, Structural)]
pub enum GpioState {
    Low,
    High,
}

/// Generic sensor reading.
#[derive(Debug, Clone, Copy)]
pub struct SensorReading {
    pub sensor_id: u8,
    pub value: i32,
    pub unit: &'static str,
    pub timestamp_ms: u64,
}

/// Boot information.
#[derive(Debug, Clone, Copy)]
pub struct BootInfo {
    pub version: &'static str,
    pub chip: &'static str,
}

/// The variant's name.
pub open spec fn spec_op_name(op: I2cOperation) -> Seq<u8> {
    match op {
        I2cOperation::Read => lit_name_read(),
        I2cOperation::Write => lit_name_write(),
    }
}

/// The variant's name.
pub open spec fn spec_status_name(s: I2cStatus) -> Seq<u8> {
    match s {
        I2cStatus::Success => lit_name_success(),
        I2cStatus::Nack => lit_name_nack(),
        I2cStatus::Timeout => lit_name_timeout(),
        I2cStatus::Error => lit_name_error(),
    }
}

/// The variant's name.
pub open spec fn spec_gpio_name(s: GpioState) -> Seq<u8> {
    match s {
        GpioState::Low => lit_name_low(),
        GpioState::High => lit_name_high(),
    }
}

fn push_op_name(out: &mut Vec<u8>, op: I2cOperation)
    ensures
        final(out)@ == old(out)@ + spec_op_name(op),
{
    match op {
        I2cOperation::Read => push_name_read(out),
        I2cOperation::Write => push_name_write(out),
    }
}

fn push_status_name(out: &mut Vec<u8>, s: I2cStatus)
    ensures
        final(out)@ == old(out)@ + spec_status_name(s),
{
    match s {
        I2cStatus::Success => push_name_success(out),
        I2cStatus::Nack => push_name_nack(out),
        I2cStatus::Timeout => push_name_timeout(out),
        I2cStatus::Error => push_name_error(out),
    }
}

fn push_gpio_name(out: &mut Vec<u8>, s: GpioState)
    ensures
        final(out)@ == old(out)@ + spec_gpio_name(s),
{
    match s {
        GpioState::Low => push_name_low(out),
        GpioState::High => push_name_high(out),
    }
}

/// Appends a static label's bytes.
fn push_label(out: &mut Vec<u8>, s: &str)
    ensures
        final(out)@ == old(out)@ + s.spec_bytes(),
{
    let bytes = s.as_bytes();
    let mut i: usize = 0;
    while i < bytes.len()
        invariant
            i <= bytes@.len(),
            bytes@ == s.spec_bytes(),
            out@ == old(out)@ + bytes@.take(i as int),
        decreases bytes@.len() - i,
    {
        out.push(bytes[i]);
        proof {
            assert(out@ =~= old(out)@ + bytes@.take(i + 1));
        }
        i = i + 1;
    }
    proof {
        assert(bytes@.take(bytes@.len() as int) =~= bytes@);
    }
}

impl I2cTransaction {
    /// `I2C|addr=0x<2 hex>|op=<name>|bytes=<n>|status=<name>|ts=<ms>`.
    pub fn line(&self) -> (out: Vec<u8>)
        requires
            self.bytes_transferred <= u64::MAX,
        ensures
            out@ == lit_i2c_prefix() + spec_hex_fixed(self.addr as int, 2)
                + lit_op_infix() + spec_op_name(self.operation)
                + lit_bytes_infix() + spec_dec(self.bytes_transferred as int)
                + lit_status_infix() + spec_status_name(self.status)
                + lit_ts_infix() + spec_dec(self.timestamp_ms as int),
    {
        let mut out: Vec<u8> = Vec::new();
        push_i2c_prefix(&mut out);
        append_hex_fixed(&mut out, self.addr as u32, 2);
        push_op_infix(&mut out);
        push_op_name(&mut out, self.operation);
        push_bytes_infix(&mut out);
        append_dec(&mut out, self.bytes_transferred as u64);
        push_status_infix(&mut out);
        push_status_name(&mut out, self.status);
        push_ts_infix(&mut out);
        append_dec(&mut out, self.timestamp_ms);
        out
    }
}

impl GpioEvent {
    /// `GPIO|pin=<n>|state=<name>|ts=<ms>`.
    pub fn line(&self) -> (out: Vec<u8>)
        ensures
            out@ == lit_gpio_prefix() + spec_dec(self.pin as int)
                + lit_state_infix() + spec_gpio_name(self.state)
                + lit_ts_infix() + spec_dec(self.timestamp_ms as int),
    {
        let mut out: Vec<u8> = Vec::new();
        push_gpio_prefix(&mut out);
        append_dec(&mut out, self.pin as u64);
        push_state_infix(&mut out);
        push_gpio_name(&mut out, self.state);
        push_ts_infix(&mut out);
        append_dec(&mut out, self.timestamp_ms);
        out
    }
}

impl SensorReading {
    /// `SENSOR|id=<n>|value=<v>|unit=<label>|ts=<ms>`.
    pub fn line(&self) -> (out: Vec<u8>)
        ensures
            out@ == lit_sensor_prefix() + spec_dec(self.sensor_id as int)
                + lit_value_infix() + spec_dec_signed(self.value as int)
                + lit_unit_infix() + self.unit.spec_bytes()
                + lit_ts_infix() + spec_dec(self.timestamp_ms as int),
    {
        let mut out: Vec<u8> = Vec::new();
        push_sensor_prefix(&mut out);
        append_dec(&mut out, self.sensor_id as u64);
        push_value_infix(&mut out);
        append_dec_signed(&mut out, self.value as i64);
        push_unit_infix(&mut out);
        push_label(&mut out, self.unit);
        push_ts_infix(&mut out);
        append_dec(&mut out, self.timestamp_ms);
        out
    }
}

impl BootInfo {
    /// `BOOT|version=<label>|chip=<label>`.
    pub fn line(&self) -> (out: Vec<u8>)
        ensures
            out@ == lit_boot_prefix() + self.version.spec_bytes()
                + lit_chip_infix() + self.chip.spec_bytes(),
    {
        let mut out: Vec<u8> = Vec::new();
        push_boot_prefix(&mut out);
        push_label(&mut out, self.version);
        push_chip_infix(&mut out);
        push_label(&mut out, self.chip);
        out
    }
}

} // verus!
