//! The identity of the plugin and of its controller.

use vstd::prelude::*;

use vstd::std_specs::convert::TryFromSpecImpl;

verus! {

pub const VST3_VENDOR: &'static str = "t-sin";

pub const VST3_VERSION: &'static str = "0.1.0";

pub const VST3_URL: &'static str = "https://github.com/t-sin/gbi/";

pub const VST3_EMAIL: &'static str = "shinichi.tanaka45@gmail.com";

pub const VST3_CLASS_NAME: &'static str = "gbi";

pub const VST3_CLASS_CATEGORY: &'static str = "Audio Module Class";

pub const VST3_CLASS_SUBCATEGORIES: &'static str = "Instrument|Synth";

pub const VST3_CID: [u8; 16] = [
    0xd6, 0x8e, 0x5c, 0xd2, 0x8a, 0x5d, 0x4d, 0xbe, 0xaf, 0xfa, 0x4a, 0x3f, 0x01, 0xfc, 0x93, 0xd1,
];

pub const VST3_CONTROLLER_CLASS_NAME: &'static str = "gbi Controller";

pub const VST3_CONTROLLER_CLASS_CATEGORY: &'static str = "Component Controller Class";

pub const VST3_CONTROLLER_CLASS_SUBCATEGORIES: &'static str = "";

pub const VST3_CONTROLLER_CID: [u8; 16] = [
    0x81, 0x24, 0x78, 0x8a, 0x16, 0x37, 0x41, 0xf8, 0x8b, 0xc3, 0x71, 0x07, 0x10, 0x4a, 0x0b, 0x8d,
];

/// The parameters that the plugin announces to a host.
#[derive(Clone, Copy, Debug, PartialEq, Eq, Structural)]
pub enum PluginParameter {
    Param1,
}

impl PluginParameter {
    /// The number that a host knows the parameter by.
    pub open spec fn spec_id(self) -> u32 {
        0
    }

    /// The number that a host knows the parameter by.
    #[verifier::when_used_as_spec(spec_id)]
    pub fn id(self) -> (id: u32)
        ensures
            id == self.spec_id(),
    {
        0
    }
}

impl TryFrom<u32> for PluginParameter {
    type Error = ();

    /// The parameter that a host knows by `value`; an error for a number that
    /// stands for none.
    fn try_from(value: u32) -> (parameter: Result<Self, ()>) {
        if value == 0 {
            Ok(PluginParameter::Param1)
        } else {
            Err(())
        }
    }
}

impl TryFromSpecImpl<u32> for PluginParameter {
    open spec fn obeys_try_from_spec() -> bool {
        true
    }

    open spec fn try_from_spec(value: u32) -> Result<Self, ()> {
        if value == PluginParameter::Param1.spec_id() {
            Ok(PluginParameter::Param1)
        } else {
            Err(())
        }
    }
}

} // verus!
