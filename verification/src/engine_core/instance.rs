use vstd::prelude::*;

verus! {

/// A Vulkan version number as `VK_MAKE_API_VERSION` packs it: variant in
/// bits 29.., major in bits 22.., minor in bits 12.., patch below.
pub open spec fn api_version_spec(variant: u32, major: u32, minor: u32, patch: u32) -> u32 {
    (variant << 29u32) | (major << 22u32) | (minor << 12u32) | patch
}

/// ash's `vk::make_api_version`, whose body is
/// `(variant << 29) | (major << 22) | (minor << 12) | patch` on `u32`.
#[verifier::external_body]
fn make_api_version(variant: u32, major: u32, minor: u32, patch: u32) -> (version: u32)
    ensures
        version == api_version_spec(variant, major, minor, patch),
{
    ash::vk::make_api_version(variant, major, minor, patch)
}

/// Everything the Vulkan instance is created with, but the window's
/// extensions.
pub struct InstanceConfig {
    pub application_name: String,
    pub application_version: u32,
    pub engine_name: String,
    pub engine_version: u32,
    pub api_version: u32,
    /// The layers to enable: the Khronos validation layer in debug builds.
    pub layer_names: Vec<String>,
}

/// The name of the Khronos validation layer.
pub open spec fn validation_layer_name() -> Seq<char> {
    seq![
        'V', 'K', '_', 'L', 'A', 'Y', 'E', 'R', '_', 'K', 'H', 'R', 'O', 'N', 'O', 'S', '_', 'v',
        'a', 'l', 'i', 'd', 'a', 't', 'i', 'o', 'n',
    ]
}

pub open spec fn application_name_spec() -> Seq<char> {
    seq!['O', 'b', 's', 'i', 'd', 'i', 'a', 'n', ' ', 'G', 'r', 'a', 'p', 'h', 'i', 's', 'h']
}

pub open spec fn engine_name_spec() -> Seq<char> {
    seq!['O', 'b', 's', 'i', 'd', 'i', 'a', 'n', ' ', 'E', 'n', 'g', 'i', 'n', 'e']
}

impl InstanceConfig {
    /// The application "Obsidian Graphish" 1.0.0 on "Obsidian Engine" 1.0.0,
    /// for Vulkan 1.3, with validation enabled when `debug_build` is set.
    pub fn new(debug_build: bool) -> (config: InstanceConfig)
        ensures
            config.application_name@ == application_name_spec(),
            config.engine_name@ == engine_name_spec(),
            config.application_version == api_version_spec(0, 1, 0, 0),
            config.engine_version == api_version_spec(0, 1, 0, 0),
            config.api_version == api_version_spec(0, 1, 3, 0),
            debug_build ==> config.layer_names@.len() == 1 && config.layer_names@[0]@
                == validation_layer_name(),
            !debug_build ==> config.layer_names@.len() == 0,
    {
        let application_name = "Obsidian Graphish".to_owned();
        let engine_name = "Obsidian Engine".to_owned();
        let mut layer_names: Vec<String> = Vec::new();
        if debug_build {
            layer_names.push("VK_LAYER_KHRONOS_validation".to_owned());
        }
        proof {
            reveal_strlit("Obsidian Graphish");
            reveal_strlit("Obsidian Engine");
            reveal_strlit("VK_LAYER_KHRONOS_validation");
        }
        InstanceConfig {
            application_name,
            application_version: make_api_version(0, 1, 0, 0),
            engine_name,
            engine_version: make_api_version(0, 1, 0, 0),
            api_version: make_api_version(0, 1, 3, 0),
            layer_names,
        }
    }
}

} // verus!
