use vstd::prelude::*;

verus! {

/// Device information that's accessible to other devices.
#[derive(Debug, Clone, PartialEq)]
pub struct PublicDevice {
    /// Unique identifier.
    id: String,
    /// Name of the device.
    name: String,
}

/// What a `PublicDevice` holds.
pub ghost struct PublicDeviceView {
    pub id: Seq<char>,
    pub name: Seq<char>,
}

impl View for PublicDevice {
    type V = PublicDeviceView;

    closed spec fn view(&self) -> PublicDeviceView {
        PublicDeviceView { id: self.id@, name: self.name@ }
    }
}

impl PublicDevice {
    /// Create a new response.
    ///
    /// Used by the server applications.
    pub fn new(id: &str, name: &str) -> (device: Self)
        ensures
            device@ == (PublicDeviceView { id: id@, name: name@ }),
    {
        Self { id: id.to_owned(), name: name.to_owned() }
    }

    /// Unique identifier.
    pub fn id(&self) -> (id: &str)
        ensures
            id@ == self@.id,
    {
        self.id.as_str()
    }

    /// Name of the device.
    pub fn name(&self) -> (name: &str)
        ensures
            name@ == self@.name,
    {
        self.name.as_str()
    }
}

} // verus!
