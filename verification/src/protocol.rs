//! The wire protocol's fixed byte strings and the record lines built from
//! them. Each record is one ASCII line, pipe-delimited, without terminator.

use vstd::prelude::*;
use crate::numfmt::{spec_dec, spec_hex_fixed, spec_hex_dump, append_dec, append_hex_fixed, append_hex_dump};

verus! {

/// `PING`: the `PING` verb.
pub open spec fn lit_verb_ping() -> Seq<u8> {
    seq![80u8, 73u8, 78u8, 71u8]
}

/// `STREAM`: the `STREAM` verb.
pub open spec fn lit_verb_stream() -> Seq<u8> {
    seq![83u8, 84u8, 82u8, 69u8, 65u8, 77u8]
}

/// `STOP`: the `STOP` verb.
pub open spec fn lit_verb_stop() -> Seq<u8> {
    seq![83u8, 84u8, 79u8, 80u8]
}

/// `LIST`: the `LIST` verb.
pub open spec fn lit_verb_list() -> Seq<u8> {
    seq![76u8, 73u8, 83u8, 84u8]
}

/// `HELP`: the `HELP` verb.
pub open spec fn lit_verb_help() -> Seq<u8> {
    seq![72u8, 69u8, 76u8, 80u8]
}

/// `PONG`: the acknowledge response.
pub open spec fn lit_pong() -> Seq<u8> {
    seq![80u8, 79u8, 78u8, 71u8]
}

/// `OK|cmd=STREAM|addr=0x`: prefix of a successful registration response.
pub open spec fn lit_ok_stream_prefix() -> Seq<u8> {
    seq![79u8, 75u8, 124u8, 99u8, 109u8, 100u8, 61u8, 83u8, 84u8, 82u8, 69u8, 65u8, 77u8, 124u8, 97u8, 100u8, 100u8, 114u8, 61u8, 48u8, 120u8]
}

/// `OK|cmd=STOP|addr=0x`: prefix of a successful removal response.
pub open spec fn lit_ok_stop_prefix() -> Seq<u8> {
    seq![79u8, 75u8, 124u8, 99u8, 109u8, 100u8, 61u8, 83u8, 84u8, 79u8, 80u8, 124u8, 97u8, 100u8, 100u8, 114u8, 61u8, 48u8, 120u8]
}

/// `ERROR|cmd=STREAM|msg=Invalid parameters`: malformed registration arguments.
pub open spec fn lit_err_stream_invalid() -> Seq<u8> {
    seq![69u8, 82u8, 82u8, 79u8, 82u8, 124u8, 99u8, 109u8, 100u8, 61u8, 83u8, 84u8, 82u8, 69u8, 65u8, 77u8, 124u8, 109u8, 115u8, 103u8, 61u8, 73u8, 110u8, 118u8, 97u8, 108u8, 105u8, 100u8, 32u8, 112u8, 97u8, 114u8, 97u8, 109u8, 101u8, 116u8, 101u8, 114u8, 115u8]
}

/// `ERROR|cmd=STREAM|msg=Max streams reached`: registration into a full table.
pub open spec fn lit_err_stream_capacity() -> Seq<u8> {
    seq![69u8, 82u8, 82u8, 79u8, 82u8, 124u8, 99u8, 109u8, 100u8, 61u8, 83u8, 84u8, 82u8, 69u8, 65u8, 77u8, 124u8, 109u8, 115u8, 103u8, 61u8, 77u8, 97u8, 120u8, 32u8, 115u8, 116u8, 114u8, 101u8, 97u8, 109u8, 115u8, 32u8, 114u8, 101u8, 97u8, 99u8, 104u8, 101u8, 100u8]
}

/// `ERROR|cmd=STOP|msg=Invalid parameters`: malformed removal argument.
pub open spec fn lit_err_stop_invalid() -> Seq<u8> {
    seq![69u8, 82u8, 82u8, 79u8, 82u8, 124u8, 99u8, 109u8, 100u8, 61u8, 83u8, 84u8, 79u8, 80u8, 124u8, 109u8, 115u8, 103u8, 61u8, 73u8, 110u8, 118u8, 97u8, 108u8, 105u8, 100u8, 32u8, 112u8, 97u8, 114u8, 97u8, 109u8, 101u8, 116u8, 101u8, 114u8, 115u8]
}

/// `ERROR|cmd=STOP|msg=Stream not found`: removal of an address not present.
pub open spec fn lit_err_stop_notfound() -> Seq<u8> {
    seq![69u8, 82u8, 82u8, 79u8, 82u8, 124u8, 99u8, 109u8, 100u8, 61u8, 83u8, 84u8, 79u8, 80u8, 124u8, 109u8, 115u8, 103u8, 61u8, 83u8, 116u8, 114u8, 101u8, 97u8, 109u8, 32u8, 110u8, 111u8, 116u8, 32u8, 102u8, 111u8, 117u8, 110u8, 100u8]
}

/// `HELP|commands=PING,STREAM,STOP,LIST,HELP`: the help response.
pub open spec fn lit_help_line() -> Seq<u8> {
    seq![72u8, 69u8, 76u8, 80u8, 124u8, 99u8, 111u8, 109u8, 109u8, 97u8, 110u8, 100u8, 115u8, 61u8, 80u8, 73u8, 78u8, 71u8, 44u8, 83u8, 84u8, 82u8, 69u8, 65u8, 77u8, 44u8, 83u8, 84u8, 79u8, 80u8, 44u8, 76u8, 73u8, 83u8, 84u8, 44u8, 72u8, 69u8, 76u8, 80u8]
}

/// `OK|cmd=LIST|active=`: prefix of the list response.
pub open spec fn lit_list_prefix() -> Seq<u8> {
    seq![79u8, 75u8, 124u8, 99u8, 109u8, 100u8, 61u8, 76u8, 73u8, 83u8, 84u8, 124u8, 97u8, 99u8, 116u8, 105u8, 118u8, 101u8, 61u8]
}

/// `ERROR|cmd=`: prefix of an unknown-verb response.
pub open spec fn lit_err_cmd_prefix() -> Seq<u8> {
    seq![69u8, 82u8, 82u8, 79u8, 82u8, 124u8, 99u8, 109u8, 100u8, 61u8]
}

/// `|msg=Unknown command`: suffix of an unknown-verb response.
pub open spec fn lit_err_unknown_suffix() -> Seq<u8> {
    seq![124u8, 109u8, 115u8, 103u8, 61u8, 85u8, 110u8, 107u8, 110u8, 111u8, 119u8, 110u8, 32u8, 99u8, 111u8, 109u8, 109u8, 97u8, 110u8, 100u8]
}

/// `ERROR|msg=Command buffer overflow`: the line-buffer overflow response.
pub open spec fn lit_overflow_line() -> Seq<u8> {
    seq![69u8, 82u8, 82u8, 79u8, 82u8, 124u8, 109u8, 115u8, 103u8, 61u8, 67u8, 111u8, 109u8, 109u8, 97u8, 110u8, 100u8, 32u8, 98u8, 117u8, 102u8, 102u8, 101u8, 114u8, 32u8, 111u8, 118u8, 101u8, 114u8, 102u8, 108u8, 111u8, 119u8]
}

/// `DATA|addr=0x`: prefix of a sample record.
pub open spec fn lit_data_prefix() -> Seq<u8> {
    seq![68u8, 65u8, 84u8, 65u8, 124u8, 97u8, 100u8, 100u8, 114u8, 61u8, 48u8, 120u8]
}

/// `|hex=`: infix before the hex dump of a sample record.
pub open spec fn lit_data_hex_infix() -> Seq<u8> {
    seq![124u8, 104u8, 101u8, 120u8, 61u8]
}

/// `ERROR|addr=0x`: prefix of a failed-sample record.
pub open spec fn lit_err_addr_prefix() -> Seq<u8> {
    seq![69u8, 82u8, 82u8, 79u8, 82u8, 124u8, 97u8, 100u8, 100u8, 114u8, 61u8, 48u8, 120u8]
}

/// `|msg=Out of SRAM range`: suffix of a failed-sample record.
pub open spec fn lit_err_oob_suffix() -> Seq<u8> {
    seq![124u8, 109u8, 115u8, 103u8, 61u8, 79u8, 117u8, 116u8, 32u8, 111u8, 102u8, 32u8, 83u8, 82u8, 65u8, 77u8, 32u8, 114u8, 97u8, 110u8, 103u8, 101u8]
}

/// `HEARTBEAT|ts=`: prefix of a heartbeat record.
pub open spec fn lit_heartbeat_prefix() -> Seq<u8> {
    seq![72u8, 69u8, 65u8, 82u8, 84u8, 66u8, 69u8, 65u8, 84u8, 124u8, 116u8, 115u8, 61u8]
}

/// `|active=`: infix of a heartbeat record.
pub open spec fn lit_heartbeat_infix() -> Seq<u8> {
    seq![124u8, 97u8, 99u8, 116u8, 105u8, 118u8, 101u8, 61u8]
}

/// Appends `PONG` to `out`.
pub fn push_pong(out: &mut Vec<u8>)
    ensures
        final(out)@ == old(out)@ + lit_pong(),
{
    out.extend_from_slice([80u8, 79u8, 78u8, 71u8].as_slice());
    proof {
        assert(out@ =~= old(out)@ + lit_pong());
    }
}

/// Appends `OK|cmd=STREAM|addr=0x` to `out`.
pub fn push_ok_stream_prefix(out: &mut Vec<u8>)
    ensures
        final(out)@ == old(out)@ + lit_ok_stream_prefix(),
{
    out.extend_from_slice([79u8, 75u8, 124u8, 99u8, 109u8, 100u8, 61u8, 83u8, 84u8, 82u8, 69u8, 65u8, 77u8, 124u8, 97u8, 100u8, 100u8, 114u8, 61u8, 48u8, 120u8].as_slice());
    proof {
        assert(out@ =~= old(out)@ + lit_ok_stream_prefix());
    }
}

/// Appends `OK|cmd=STOP|addr=0x` to `out`.
pub fn push_ok_stop_prefix(out: &mut Vec<u8>)
    ensures
        final(out)@ == old(out)@ + lit_ok_stop_prefix(),
{
    out.extend_from_slice([79u8, 75u8, 124u8, 99u8, 109u8, 100u8, 61u8, 83u8, 84u8, 79u8, 80u8, 124u8, 97u8, 100u8, 100u8, 114u8, 61u8, 48u8, 120u8].as_slice());
    proof {
        assert(out@ =~= old(out)@ + lit_ok_stop_prefix());
    }
}

/// Appends `ERROR|cmd=STREAM|msg=Invalid parameters` to `out`.
pub fn push_err_stream_invalid(out: &mut Vec<u8>)
    ensures
        final(out)@ == old(out)@ + lit_err_stream_invalid(),
{
    out.extend_from_slice([69u8, 82u8, 82u8, 79u8, 82u8, 124u8, 99u8, 109u8, 100u8, 61u8, 83u8, 84u8, 82u8, 69u8, 65u8, 77u8, 124u8, 109u8, 115u8, 103u8, 61u8, 73u8, 110u8, 118u8, 97u8, 108u8, 105u8, 100u8, 32u8, 112u8, 97u8, 114u8, 97u8, 109u8, 101u8, 116u8, 101u8, 114u8, 115u8].as_slice());
    proof {
        assert(out@ =~= old(out)@ + lit_err_stream_invalid());
    }
}

/// Appends `ERROR|cmd=STREAM|msg=Max streams reached` to `out`.
pub fn push_err_stream_capacity(out: &mut Vec<u8>)
    ensures
        final(out)@ == old(out)@ + lit_err_stream_capacity(),
{
    out.extend_from_slice([69u8, 82u8, 82u8, 79u8, 82u8, 124u8, 99u8, 109u8, 100u8, 61u8, 83u8, 84u8, 82u8, 69u8, 65u8, 77u8, 124u8, 109u8, 115u8, 103u8, 61u8, 77u8, 97u8, 120u8, 32u8, 115u8, 116u8, 114u8, 101u8, 97u8, 109u8, 115u8, 32u8, 114u8, 101u8, 97u8, 99u8, 104u8, 101u8, 100u8].as_slice());
    proof {
        assert(out@ =~= old(out)@ + lit_err_stream_capacity());
    }
}

/// Appends `ERROR|cmd=STOP|msg=Invalid parameters` to `out`.
pub fn push_err_stop_invalid(out: &mut Vec<u8>)
    ensures
        final(out)@ == old(out)@ + lit_err_stop_invalid(),
{
    out.extend_from_slice([69u8, 82u8, 82u8, 79u8, 82u8, 124u8, 99u8, 109u8, 100u8, 61u8, 83u8, 84u8, 79u8, 80u8, 124u8, 109u8, 115u8, 103u8, 61u8, 73u8, 110u8, 118u8, 97u8, 108u8, 105u8, 100u8, 32u8, 112u8, 97u8, 114u8, 97u8, 109u8, 101u8, 116u8, 101u8, 114u8, 115u8].as_slice());
    proof {
        assert(out@ =~= old(out)@ + lit_err_stop_invalid());
    }
}

/// Appends `ERROR|cmd=STOP|msg=Stream not found` to `out`.
pub fn push_err_stop_notfound(out: &mut Vec<u8>)
    ensures
        final(out)@ == old(out)@ + lit_err_stop_notfound(),
{
    out.extend_from_slice([69u8, 82u8, 82u8, 79u8, 82u8, 124u8, 99u8, 109u8, 100u8, 61u8, 83u8, 84u8, 79u8, 80u8, 124u8, 109u8, 115u8, 103u8, 61u8, 83u8, 116u8, 114u8, 101u8, 97u8, 109u8, 32u8, 110u8, 111u8, 116u8, 32u8, 102u8, 111u8, 117u8, 110u8, 100u8].as_slice());
    proof {
        assert(out@ =~= old(out)@ + lit_err_stop_notfound());
    }
}

/// Appends `HELP|commands=PING,STREAM,STOP,LIST,HELP` to `out`.
pub fn push_help_line(out: &mut Vec<u8>)
    ensures
        final(out)@ == old(out)@ + lit_help_line(),
{
    out.extend_from_slice([72u8, 69u8, 76u8, 80u8, 124u8, 99u8, 111u8, 109u8, 109u8, 97u8, 110u8, 100u8, 115u8, 61u8, 80u8, 73u8, 78u8, 71u8, 44u8, 83u8, 84u8, 82u8, 69u8, 65u8, 77u8, 44u8, 83u8, 84u8, 79u8, 80u8, 44u8, 76u8, 73u8, 83u8, 84u8, 44u8, 72u8, 69u8, 76u8, 80u8].as_slice());
    proof {
        assert(out@ =~= old(out)@ + lit_help_line());
    }
}

/// Appends `OK|cmd=LIST|active=` to `out`.
pub fn push_list_prefix(out: &mut Vec<u8>)
    ensures
        final(out)@ == old(out)@ + lit_list_prefix(),
{
    out.extend_from_slice([79u8, 75u8, 124u8, 99u8, 109u8, 100u8, 61u8, 76u8, 73u8, 83u8, 84u8, 124u8, 97u8, 99u8, 116u8, 105u8, 118u8, 101u8, 61u8].as_slice());
    proof {
        assert(out@ =~= old(out)@ + lit_list_prefix());
    }
}

/// Appends `ERROR|cmd=` to `out`.
pub fn push_err_cmd_prefix(out: &mut Vec<u8>)
    ensures
        final(out)@ == old(out)@ + lit_err_cmd_prefix(),
{
    out.extend_from_slice([69u8, 82u8, 82u8, 79u8, 82u8, 124u8, 99u8, 109u8, 100u8, 61u8].as_slice());
    proof {
        assert(out@ =~= old(out)@ + lit_err_cmd_prefix());
    }
}

/// Appends `|msg=Unknown command` to `out`.
pub fn push_err_unknown_suffix(out: &mut Vec<u8>)
    ensures
        final(out)@ == old(out)@ + lit_err_unknown_suffix(),
{
    out.extend_from_slice([124u8, 109u8, 115u8, 103u8, 61u8, 85u8, 110u8, 107u8, 110u8, 111u8, 119u8, 110u8, 32u8, 99u8, 111u8, 109u8, 109u8, 97u8, 110u8, 100u8].as_slice());
    proof {
        assert(out@ =~= old(out)@ + lit_err_unknown_suffix());
    }
}

/// Appends `ERROR|msg=Command buffer overflow` to `out`.
pub fn push_overflow_line(out: &mut Vec<u8>)
    ensures
        final(out)@ == old(out)@ + lit_overflow_line(),
{
    out.extend_from_slice([69u8, 82u8, 82u8, 79u8, 82u8, 124u8, 109u8, 115u8, 103u8, 61u8, 67u8, 111u8, 109u8, 109u8, 97u8, 110u8, 100u8, 32u8, 98u8, 117u8, 102u8, 102u8, 101u8, 114u8, 32u8, 111u8, 118u8, 101u8, 114u8, 102u8, 108u8, 111u8, 119u8].as_slice());
    proof {
        assert(out@ =~= old(out)@ + lit_overflow_line());
    }
}

/// Appends `DATA|addr=0x` to `out`.
pub fn push_data_prefix(out: &mut Vec<u8>)
    ensures
        final(out)@ == old(out)@ + lit_data_prefix(),
{
    out.extend_from_slice([68u8, 65u8, 84u8, 65u8, 124u8, 97u8, 100u8, 100u8, 114u8, 61u8, 48u8, 120u8].as_slice());
    proof {
        assert(out@ =~= old(out)@ + lit_data_prefix());
    }
}

/// Appends `|hex=` to `out`.
pub fn push_data_hex_infix(out: &mut Vec<u8>)
    ensures
        final(out)@ == old(out)@ + lit_data_hex_infix(),
{
    out.extend_from_slice([124u8, 104u8, 101u8, 120u8, 61u8].as_slice());
    proof {
        assert(out@ =~= old(out)@ + lit_data_hex_infix());
    }
}

/// Appends `ERROR|addr=0x` to `out`.
pub fn push_err_addr_prefix(out: &mut Vec<u8>)
    ensures
        final(out)@ == old(out)@ + lit_err_addr_prefix(),
{
    out.extend_from_slice([69u8, 82u8, 82u8, 79u8, 82u8, 124u8, 97u8, 100u8, 100u8, 114u8, 61u8, 48u8, 120u8].as_slice());
    proof {
        assert(out@ =~= old(out)@ + lit_err_addr_prefix());
    }
}

/// Appends `|msg=Out of SRAM range` to `out`.
pub fn push_err_oob_suffix(out: &mut Vec<u8>)
    ensures
        final(out)@ == old(out)@ + lit_err_oob_suffix(),
{
    out.extend_from_slice([124u8, 109u8, 115u8, 103u8, 61u8, 79u8, 117u8, 116u8, 32u8, 111u8, 102u8, 32u8, 83u8, 82u8, 65u8, 77u8, 32u8, 114u8, 97u8, 110u8, 103u8, 101u8].as_slice());
    proof {
        assert(out@ =~= old(out)@ + lit_err_oob_suffix());
    }
}

/// Appends `HEARTBEAT|ts=` to `out`.
pub fn push_heartbeat_prefix(out: &mut Vec<u8>)
    ensures
        final(out)@ == old(out)@ + lit_heartbeat_prefix(),
{
    out.extend_from_slice([72u8, 69u8, 65u8, 82u8, 84u8, 66u8, 69u8, 65u8, 84u8, 124u8, 116u8, 115u8, 61u8].as_slice());
    proof {
        assert(out@ =~= old(out)@ + lit_heartbeat_prefix());
    }
}

/// Appends `|active=` to `out`.
pub fn push_heartbeat_infix(out: &mut Vec<u8>)
    ensures
        final(out)@ == old(out)@ + lit_heartbeat_infix(),
{
    out.extend_from_slice([124u8, 97u8, 99u8, 116u8, 105u8, 118u8, 101u8, 61u8].as_slice());
    proof {
        assert(out@ =~= old(out)@ + lit_heartbeat_infix());
    }
}

/// Which fixed verb `t` is: 1 `PING`, 2 `STREAM`, 3 `STOP`, 4 `LIST`,
/// 5 `HELP`, 0 anything else. Verbs are case-sensitive.
pub open spec fn spec_verb_code(t: Seq<u8>) -> int {
    if t == lit_verb_ping() { 1 }
    else if t == lit_verb_stream() { 2 }
    else if t == lit_verb_stop() { 3 }
    else if t == lit_verb_list() { 4 }
    else if t == lit_verb_help() { 5 }
    else { 0 }
}

/// Whether `a` holds exactly the bytes of `b`.
pub fn bytes_eq(a: &Vec<u8>, b: &[u8]) -> (r: bool)
    ensures
        r == (a@ == b@),
{
    if a.len() != b.len() {
        return false;
    }
    let mut i: usize = 0;
    while i < a.len()
        invariant
            i <= a@.len(),
            a@.len() == b@.len(),
            forall|k: int| 0 <= k < i ==> a@[k] == b@[k],
        decreases a@.len() - i,
    {
        if a[i] != b[i] {
            return false;
        }
        i = i + 1;
    }
    proof {
        assert(a@ =~= b@);
    }
    true
}

/// Decides which fixed verb `t` is.
pub fn verb_code(t: &Vec<u8>) -> (c: u8)
    ensures
        c == spec_verb_code(t@),
{
    if bytes_eq(t, [80u8, 73u8, 78u8, 71u8].as_slice()) {
        proof { assert(t@ =~= lit_verb_ping()); }
        1
    } else if bytes_eq(t, [83u8, 84u8, 82u8, 69u8, 65u8, 77u8].as_slice()) {
        proof { assert(t@ =~= lit_verb_stream()); }
        2
    } else if bytes_eq(t, [83u8, 84u8, 79u8, 80u8].as_slice()) {
        proof { assert(t@ =~= lit_verb_stop()); }
        3
    } else if bytes_eq(t, [76u8, 73u8, 83u8, 84u8].as_slice()) {
        proof { assert(t@ =~= lit_verb_list()); }
        4
    } else if bytes_eq(t, [72u8, 69u8, 76u8, 80u8].as_slice()) {
        proof { assert(t@ =~= lit_verb_help()); }
        5
    } else {
        proof {
            assert(t@ != lit_verb_ping());
            assert(t@ != lit_verb_stream());
            assert(t@ != lit_verb_stop());
            assert(t@ != lit_verb_list());
            assert(t@ != lit_verb_help());
        }
        0
    }
}

/// `OK|cmd=STREAM|addr=0x<addr, 8 hex digits>`.
pub open spec fn spec_ok_stream(addr: u32) -> Seq<u8> {
    lit_ok_stream_prefix() + spec_hex_fixed(addr as int, 8)
}

/// `OK|cmd=STOP|addr=0x<addr, 8 hex digits>`.
pub open spec fn spec_ok_stop(addr: u32) -> Seq<u8> {
    lit_ok_stop_prefix() + spec_hex_fixed(addr as int, 8)
}

/// `OK|cmd=LIST|active=<count>`.
pub open spec fn spec_list_line(active: int) -> Seq<u8> {
    lit_list_prefix() + spec_dec(active)
}

/// `ERROR|cmd=<verb>|msg=Unknown command`.
pub open spec fn spec_err_unknown(verb: Seq<u8>) -> Seq<u8> {
    lit_err_cmd_prefix() + verb + lit_err_unknown_suffix()
}

/// `DATA|addr=0x<addr, 8 hex digits>|hex=<two lowercase digits per byte>`.
pub open spec fn spec_data_line(addr: u32, bytes: Seq<u8>) -> Seq<u8> {
    lit_data_prefix() + spec_hex_fixed(addr as int, 8) + lit_data_hex_infix() + spec_hex_dump(bytes)
}

/// `ERROR|addr=0x<addr, 8 hex digits>|msg=Out of SRAM range`.
pub open spec fn spec_sample_err_line(addr: u32) -> Seq<u8> {
    lit_err_addr_prefix() + spec_hex_fixed(addr as int, 8) + lit_err_oob_suffix()
}

/// `HEARTBEAT|ts=<now>|active=<count>`.
pub open spec fn spec_heartbeat_line(now_ms: u64, active: int) -> Seq<u8> {
    lit_heartbeat_prefix() + spec_dec(now_ms as int) + lit_heartbeat_infix() + spec_dec(active)
}

/// Builds `OK|cmd=STREAM|addr=0x<addr>`.
pub fn ok_stream_line(addr: u32) -> (out: Vec<u8>)
    ensures
        out@ == spec_ok_stream(addr),
{
    let mut out: Vec<u8> = Vec::new();
    push_ok_stream_prefix(&mut out);
    append_hex_fixed(&mut out, addr, 8);
    out
}

/// Builds `OK|cmd=STOP|addr=0x<addr>`.
pub fn ok_stop_line(addr: u32) -> (out: Vec<u8>)
    ensures
        out@ == spec_ok_stop(addr),
{
    let mut out: Vec<u8> = Vec::new();
    push_ok_stop_prefix(&mut out);
    append_hex_fixed(&mut out, addr, 8);
    out
}

/// Builds `OK|cmd=LIST|active=<count>`.
pub fn list_line(active: u64) -> (out: Vec<u8>)
    ensures
        out@ == spec_list_line(active as int),
{
    let mut out: Vec<u8> = Vec::new();
    push_list_prefix(&mut out);
    append_dec(&mut out, active);
    out
}

/// Builds `ERROR|cmd=<verb>|msg=Unknown command`.
pub fn err_unknown_line(verb: &Vec<u8>) -> (out: Vec<u8>)
    ensures
        out@ == spec_err_unknown(verb@),
{
    let mut out: Vec<u8> = Vec::new();
    push_err_cmd_prefix(&mut out);
    let mut i: usize = 0;
    while i < verb.len()
        invariant
            i <= verb@.len(),
            out@ == lit_err_cmd_prefix() + verb@.take(i as int),
        decreases verb@.len() - i,
    {
        out.push(verb[i]);
        proof {
            assert(out@ =~= lit_err_cmd_prefix() + verb@.take(i + 1));
        }
        i = i + 1;
    }
    proof {
        assert(verb@.take(verb@.len() as int) =~= verb@);
    }
    push_err_unknown_suffix(&mut out);
    out
}

/// Builds `DATA|addr=0x<addr>|hex=<bytes>`.
pub fn data_line(addr: u32, bytes: &Vec<u8>) -> (out: Vec<u8>)
    ensures
        out@ == spec_data_line(addr, bytes@),
{
    let mut out: Vec<u8> = Vec::new();
    push_data_prefix(&mut out);
    append_hex_fixed(&mut out, addr, 8);
    push_data_hex_infix(&mut out);
    append_hex_dump(&mut out, bytes);
    out
}

/// Builds `ERROR|addr=0x<addr>|msg=Out of SRAM range`.
pub fn sample_err_line(addr: u32) -> (out: Vec<u8>)
    ensures
        out@ == spec_sample_err_line(addr),
{
    let mut out: Vec<u8> = Vec::new();
    push_err_addr_prefix(&mut out);
    append_hex_fixed(&mut out, addr, 8);
    push_err_oob_suffix(&mut out);
    out
}

/// Builds `HEARTBEAT|ts=<now>|active=<count>`.
pub fn heartbeat_line(now_ms: u64, active: u64) -> (out: Vec<u8>)
    ensures
        out@ == spec_heartbeat_line(now_ms, active as int),
{
    let mut out: Vec<u8> = Vec::new();
    push_heartbeat_prefix(&mut out);
    append_dec(&mut out, now_ms);
    push_heartbeat_infix(&mut out);
    append_dec(&mut out, active);
    out
}

} // verus!
