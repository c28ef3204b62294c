//! Classification of the engine's numeric result codes.
//!
//! Every boundary call returns a bare one-byte code; the facade classifies
//! it immediately into the structured error taxonomy and performs no retry
//! of its own. Code 0 always means success. For receive, code 2 is the
//! distinguished "no data available right now" outcome; every other nonzero
//! code, on any operation, is an opaque failure.

use vstd::prelude::*;

use crate::decimal::spec_u8_decimal;
use crate::decimal::u8_decimal;
use crate::errors::OpenVpnConnectionError;
use crate::errors::OpenVpnDisconnectionError;
use crate::errors::OpenVpnReceiveError;
use crate::errors::OpenVpnSendError;

verus! {

/// Diagnostic carried by a failed send: the result code rendered in decimal
/// after a fixed prefix.
pub open spec fn spec_send_err_msg(code: u8) -> Seq<char> {
    "openvpn send unknown error: "@ + spec_u8_decimal(code)
}

/// Diagnostic carried by a receive failure that is not the distinguished
/// no-data outcome.
pub open spec fn spec_receive_err_msg() -> Seq<char> {
    "openvpn_client_receive_just unknown error (we shouldn't have arrived here)"@
}

/// Classifies the result code of a send.
///
/// The engine either consumes the entire input or fails: there is no
/// partial-send outcome, so on success the reported count is exactly the
/// input length `len`.
pub fn classify_send(code: u8, len: usize) -> (r: Result<usize, OpenVpnSendError>)
    ensures
        r is Ok <==> code == 0,
        r matches Ok(n) ==> n == len,
        r matches Err(e) ==> e matches OpenVpnSendError::Unknown(m) && m@ == spec_send_err_msg(code),
{
    if code == 0 {
        Ok(len)
    } else {
        let mut m = String::from_str("openvpn send unknown error: ");
        let d = u8_decimal(code);
        m.append(d.as_str());
        Err(OpenVpnSendError::Unknown(m))
    }
}

/// Classifies the result code of a connect. The engine gives no structured
/// cause, so every nonzero code becomes `Unknown` with an empty diagnostic.
pub fn classify_connect(code: u8) -> (r: Result<(), OpenVpnConnectionError>)
    ensures
        r is Ok <==> code == 0,
        r matches Err(e) ==> e matches OpenVpnConnectionError::Unknown(m) && m@ == Seq::<char>::empty(),
{
    if code == 0 {
        Ok(())
    } else {
        Err(OpenVpnConnectionError::Unknown(String::new()))
    }
}

/// Classifies the result code of a disconnect. Defined for every code and
/// for any connection state: the facade places no precondition of its own
/// on disconnecting, so a second disconnect is classified like the first.
pub fn classify_disconnect(code: u8) -> (r: Result<(), OpenVpnDisconnectionError>)
    ensures
        r is Ok <==> code == 0,
        r matches Err(e) ==> e matches OpenVpnDisconnectionError::Unknown(m) && m@ == Seq::<char>::empty(),
{
    if code == 0 {
        Ok(())
    } else {
        Err(OpenVpnDisconnectionError::Unknown(String::new()))
    }
}

/// Classifies the outcome of a receive into the transfer buffer.
///
/// On success the result is exactly the first `written` bytes of the
/// buffer: the remainder of the buffer is left-over content that must never
/// be exposed. Code 2 is the engine's "no data available now" and maps to
/// [`OpenVpnReceiveError::NoDataAvailable`], never to `Unknown`; every
/// other nonzero code is an opaque failure.
pub fn classify_receive(code: u8, buffer: &[u8], written: usize) -> (r: Result<
    Vec<u8>,
    OpenVpnReceiveError,
>)
    requires
        code == 0 ==> written <= buffer@.len(),
    ensures
        r is Ok <==> code == 0,
        r matches Ok(data) ==> data@ == buffer@.subrange(0, written as int) && data@.len()
            == written,
        r matches Err(e) ==> (e is NoDataAvailable <==> code == 2),
        r matches Err(e) ==> e matches OpenVpnReceiveError::Unknown(m) ==> m@
            == spec_receive_err_msg(),
{
    if code == 0 {
        let part = vstd::slice::slice_subrange(buffer, 0, written);
        Ok(vstd::slice::slice_to_vec(part))
    } else if code == 2 {
        Err(OpenVpnReceiveError::NoDataAvailable)
    } else {
        Err(
            OpenVpnReceiveError::Unknown(
                String::from_str(
                    "openvpn_client_receive_just unknown error (we shouldn't have arrived here)",
                ),
            ),
        )
    }
}

} // verus!
