use vstd::prelude::*;

verus! {

#[verifier::external_type_specification]
#[verifier::external_body]
pub struct ExAnyhowError(anyhow::Error);

/// The identifier that selects the system default device.
pub open spec fn is_default_request(id: Seq<char>) -> bool {
    id.len() == 0 || id == "default"@
}

/// The identifier a request keeps: `None` stands for the system default.
pub open spec fn normalized_request(id: Option<String>) -> Option<String> {
    match id {
        Some(s) => if is_default_request(s@) {
            None
        } else {
            Some(s)
        },
        None => None,
    }
}

/// A capture request: which render device to capture, or the system default.
pub struct SpeakerInput {
    device_id: Option<String>,
}

impl SpeakerInput {
    /// A request for `device_id`; an absent or empty identifier, or "default",
    /// asks for the system default device. Never fails.
    pub fn new(device_id: Option<String>) -> (r: Result<SpeakerInput, anyhow::Error>)
        ensures
            r is Ok,
            r->Ok_0.requested() == normalized_request(device_id),
    {
        let device_id = match device_id {
            Some(id) => {
                let sentinel = "default".to_owned();
                if id.as_str().is_empty() || id == sentinel {
                    None
                } else {
                    Some(id)
                }
            },
            None => None,
        };
        Ok(SpeakerInput { device_id })
    }

    pub closed spec fn requested(&self) -> Option<String> {
        self.device_id
    }

    /// The requested device identifier, `None` for the system default.
    pub fn device_id(&self) -> (r: &Option<String>)
        ensures
            r == self.requested(),
    {
        &self.device_id
    }

    /// Gives up the request, yielding the identifier it holds.
    pub fn into_device_id(self) -> (r: Option<String>)
        ensures
            r == self.requested(),
    {
        self.device_id
    }
}

} // verus!
