//! The records an instance is created from.
//!
//! The host turns an [`InstanceCreateInfo`] into the driver's own structures
//! and makes the creation call; what is asked of the driver is decided here.

use vstd::prelude::*;
use crate::renderer::constants::{API_VERSION, APPLICATION_VERSION, ENGINE_NAME, ENGINE_VERSION};
use crate::renderer::debug::ValidationInfo;
use crate::renderer::version::Version;

verus! {

/// Who asks for the instance. Versions are kept in three parts.
#[derive(Debug)]
pub struct ApplicationIdentity {
    pub name: String,
    pub engine_name: String,
    pub application_version: Version,
    pub engine_version: Version,
    pub api_version: Version,
}

/// The application-identity record of the driver: names, and versions packed.
#[derive(Debug)]
pub struct ApplicationInfo {
    pub application_name: String,
    pub application_version: u32,
    pub engine_name: String,
    pub engine_version: u32,
    pub api_version: u32,
}

/// The instance-creation record of the driver.
#[derive(Debug)]
pub struct InstanceCreateInfo {
    pub application_info: ApplicationInfo,
    pub enabled_layer_count: u32,
    pub enabled_layer_names: Vec<String>,
    pub enabled_extension_count: u32,
    pub enabled_extension_names: Vec<String>,
}

/// What an [`ApplicationIdentity`] says.
pub struct ApplicationIdentityView {
    pub name: Seq<char>,
    pub engine_name: Seq<char>,
    pub application_version: Version,
    pub engine_version: Version,
    pub api_version: Version,
}

/// What an [`ApplicationInfo`] says.
pub struct ApplicationInfoView {
    pub application_name: Seq<char>,
    pub application_version: u32,
    pub engine_name: Seq<char>,
    pub engine_version: u32,
    pub api_version: u32,
}

/// What an [`InstanceCreateInfo`] says.
pub struct InstanceCreateInfoView {
    pub application_info: ApplicationInfoView,
    pub enabled_layer_count: u32,
    pub enabled_layer_names: Seq<Seq<char>>,
    pub enabled_extension_count: u32,
    pub enabled_extension_names: Seq<Seq<char>>,
}

impl View for ApplicationIdentity {
    type V = ApplicationIdentityView;

    open spec fn view(&self) -> ApplicationIdentityView {
        ApplicationIdentityView {
            name: self.name@,
            engine_name: self.engine_name@,
            application_version: self.application_version,
            engine_version: self.engine_version,
            api_version: self.api_version,
        }
    }
}

impl View for ApplicationInfo {
    type V = ApplicationInfoView;

    open spec fn view(&self) -> ApplicationInfoView {
        ApplicationInfoView {
            application_name: self.application_name@,
            application_version: self.application_version,
            engine_name: self.engine_name@,
            engine_version: self.engine_version,
            api_version: self.api_version,
        }
    }
}

impl View for InstanceCreateInfo {
    type V = InstanceCreateInfoView;

    open spec fn view(&self) -> InstanceCreateInfoView {
        InstanceCreateInfoView {
            application_info: self.application_info@,
            enabled_layer_count: self.enabled_layer_count,
            enabled_layer_names: self.enabled_layer_names.deep_view(),
            enabled_extension_count: self.enabled_extension_count,
            enabled_extension_names: self.enabled_extension_names.deep_view(),
        }
    }
}

impl InstanceCreateInfoView {
    /// Each count is the length of its list.
    pub open spec fn wf(self) -> bool {
        &&& self.enabled_layer_count == self.enabled_layer_names.len()
        &&& self.enabled_extension_count == self.enabled_extension_names.len()
    }
}

/// The identity of the engine's own application under the name `name`.
pub open spec fn engine_identity(name: Seq<char>) -> ApplicationIdentityView {
    ApplicationIdentityView {
        name,
        engine_name: ENGINE_NAME@,
        application_version: Version { major: 1, minor: 0, patch: 0 },
        engine_version: Version { major: 1, minor: 0, patch: 0 },
        api_version: Version { major: 1, minor: 0, patch: 92 },
    }
}

/// The application-identity record for `identity`: its names, its versions
/// packed.
pub open spec fn application_info(identity: ApplicationIdentityView) -> ApplicationInfoView {
    ApplicationInfoView {
        application_name: identity.name,
        application_version: identity.application_version.packed(),
        engine_name: identity.engine_name,
        engine_version: identity.engine_version.packed(),
        api_version: identity.api_version.packed(),
    }
}

/// The instance-creation record for `identity` that requests exactly
/// `extensions` and exactly `layers`.
pub open spec fn instance_create_info(
    identity: ApplicationIdentityView,
    extensions: Seq<Seq<char>>,
    layers: Seq<Seq<char>>,
) -> InstanceCreateInfoView {
    InstanceCreateInfoView {
        application_info: application_info(identity),
        enabled_layer_count: layers.len() as u32,
        enabled_layer_names: layers,
        enabled_extension_count: extensions.len() as u32,
        enabled_extension_names: extensions,
    }
}

impl ApplicationIdentity {
    /// The identity of the engine's own application under the name `name`.
    pub fn engine(name: &str) -> (identity: ApplicationIdentity)
        ensures
            identity@ == engine_identity(name@),
    {
        ApplicationIdentity {
            name: name.to_owned(),
            engine_name: ENGINE_NAME.to_owned(),
            application_version: Version::new(1, 0, 0),
            engine_version: Version::new(1, 0, 0),
            api_version: Version::new(1, 0, 92),
        }
    }
}

/// The layers to request under `validation`, as owned names.
pub fn requested_layer_names(validation: &ValidationInfo) -> (layers: Vec<String>)
    ensures
        layers.deep_view() == validation.requested_layers(),
{
    let mut layers: Vec<String> = Vec::new();
    if validation.is_enable {
        layers.push(validation.required_validation_layers[0].to_owned());
    }
    assert(layers.deep_view() =~= validation.requested_layers());
    layers
}

/// Builds the application-identity record and the instance-creation record.
///
/// The record requests the extensions given, no more and no fewer, and the
/// required validation layers if validation is on, none if it is off.
pub fn create_instance_info(
    identity: ApplicationIdentity,
    extensions: Vec<String>,
    validation: &ValidationInfo,
) -> (info: InstanceCreateInfo)
    requires
        extensions.len() <= u32::MAX,
    ensures
        info@ == instance_create_info(identity@, extensions.deep_view(), validation.requested_layers()),
        info@.wf(),
{
    let layers = requested_layer_names(validation);
    let application_info = ApplicationInfo {
        application_name: identity.name,
        application_version: identity.application_version.pack(),
        engine_name: identity.engine_name,
        engine_version: identity.engine_version.pack(),
        api_version: identity.api_version.pack(),
    };
    InstanceCreateInfo {
        application_info,
        enabled_layer_count: layers.len() as u32,
        enabled_layer_names: layers,
        enabled_extension_count: extensions.len() as u32,
        enabled_extension_names: extensions,
    }
}

/// The versions of the engine's identity pack to the configured words.
pub proof fn lemma_engine_versions_pack_to_constants(name: Seq<char>)
    ensures
        application_info(engine_identity(name)).application_version == APPLICATION_VERSION,
        application_info(engine_identity(name)).engine_version == ENGINE_VERSION,
        application_info(engine_identity(name)).api_version == API_VERSION,
{
    assert(((1u32 << 22) | (0u32 << 12) | 0u32) == 4194304u32) by (bit_vector);
    assert(((1u32 << 22) | (0u32 << 12) | 92u32) == 4194396u32) by (bit_vector);
}

} // verus!
