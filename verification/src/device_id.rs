//! The device ids that MQTT clients connect under: each one is drawn afresh
//! from uuid's random source.
use vstd::prelude::*;
use crate::stream_client::is_uuid_v4_text;

verus! {

/// A device id drawn from uuid's random source. Its text is private to this
/// module and only `new_device_id` makes one, so every device id a client
/// holds is one that the random source handed out for it; no fixed text can
/// stand in for it.
pub struct DeviceId {
    text: String,
}

impl DeviceId {
    /// The text of the id.
    pub closed spec fn text(&self) -> Seq<char> {
        self.text@
    }

    /// The text of the id, as a string.
    pub fn into_string(self) -> (res: String)
        ensures
            res@ == self.text(),
    {
        self.text
    }
}

/// A fresh random device id: the text of `uuid::Uuid::new_v4()`. Claimed:
/// its form, the hyphenated lowercase text of a version 4 UUID (`new_v4`
/// sets the version and variant bits, and `Display` writes the hyphenated
/// lowercase form); its random digits are not claimed.
#[verifier::external_body]
pub(crate) fn new_device_id() -> (res: DeviceId)
    ensures
        is_uuid_v4_text(res.text()),
{
    DeviceId { text: uuid::Uuid::new_v4().to_string() }
}

} // verus!
