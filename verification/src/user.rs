//! What a user of the main device provides: the reaction of each sub-device
//! to the process data and to answers meant for it.

use crate::request::Request;
use crate::subdevice::SubDevice;
use crate::wire::PduHeader;
use vstd::prelude::*;

verus! {

/// What a user callback asks the main device to do.
#[non_exhaustive]
#[derive(Clone, Copy, Debug, PartialEq, Eq, Structural)]
pub enum ControlFlow {
    /// Start over: reset the segment and bring it up again.
    Restart,
}

/// What a device is called with.
#[derive(Clone, Copy, Debug)]
pub enum DeviceResponse<'a> {
    /// The device's input bytes of the process image that just arrived.
    Pdi(&'a [u8]),
    /// The answer to a PDU that the user sent for the device.
    Pdu(&'a [u8], PduHeader),
}

/// The user callback failed.
#[derive(Clone, Copy, Debug, PartialEq, Eq, Structural)]
pub struct UserFailure;

/// The logic that a user attaches to the sub-devices.
pub trait UserDevice {
    /// Called for the device at position `index`: once before the cyclic
    /// exchange begins, with nothing received; then with the device's inputs
    /// on every cycle, and with every answer to a PDU that was sent for the
    /// device. `outputs` holds the device's output bytes of the process
    /// image: what it holds afterwards is sent with the next cycle, provided
    /// its length is unchanged. PDUs pushed onto `out` are sent.
    ///
    /// The main device calls it with as many output bytes as the device's
    /// output segment has, and with as many input bytes as its input segment
    /// has.
    fn update(
        &mut self,
        device: &SubDevice,
        received: Option<DeviceResponse<'_>>,
        index: u16,
        identifier: Option<u8>,
        outputs: &mut Vec<u8>,
        out: &mut Vec<Request>,
    ) -> Result<Option<ControlFlow>, UserFailure>
        requires
            old(outputs)@.len() == device.config.io.output.spec_len(),
            received matches Some(DeviceResponse::Pdi(inputs)) ==> inputs@.len()
                == device.config.io.input.spec_len(),
    ;
}

} // verus!
