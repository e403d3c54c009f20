use vstd::prelude::*;

use crate::args::ModelType;
use crate::preprocessing::{ResizePolicy, NETWORK_STRIDE};

verus! {

/// Where the model file is to be taken from, given which of the two
/// candidate locations hold it.
#[derive(Clone, Copy, Debug, PartialEq, Eq, Structural)]
pub enum ModelLocation {
    /// Use the `models` directory beside the executable.
    BesideExecutable,
    /// Use the `models` directory under the working directory.
    WorkingDirectory,
    /// Neither location holds the file.
    NotFound,
}

/// The model-lookup rule: the directory beside the executable is preferred;
/// the working directory is the fallback. The caller probes the two
/// locations and acts on the answer.
pub fn choose_model_location(beside_executable: bool, in_working_directory: bool) -> (r:
    ModelLocation)
    ensures
        beside_executable ==> r == ModelLocation::BesideExecutable,
        !beside_executable && in_working_directory ==> r == ModelLocation::WorkingDirectory,
        !beside_executable && !in_working_directory ==> r == ModelLocation::NotFound,
{
    if beside_executable {
        ModelLocation::BesideExecutable
    } else if in_working_directory {
        ModelLocation::WorkingDirectory
    } else {
        ModelLocation::NotFound
    }
}

/// How a model variant wants its input prepared. `path` is the file name
/// of the model; locating that file on disk is the caller's business.
pub struct ModelConfig {
    /// File name of the model.
    pub path: String,
    /// Native resolution of the network.
    pub target_size: u32,
    /// True when the input must be squashed to an exact square.
    pub static_resize: bool,
}

impl ModelConfig {
    /// The configuration of each supported model variant.
    pub fn from_type(model_type: ModelType) -> (r: ModelConfig)
        ensures
            r.target_size == 518,
            r.static_resize == (model_type == ModelType::Static),
            model_type == ModelType::Static ==> r.path@ == "depth_anything_v2_vitb.onnx"@,
            model_type == ModelType::Dynamic ==> r.path@ == "depth_anything_v2_vitb_dynamic.onnx"@,
    {
        match model_type {
            ModelType::Static => ModelConfig {
                path: "depth_anything_v2_vitb.onnx".to_string(),
                target_size: 518,
                static_resize: true,
            },
            ModelType::Dynamic => ModelConfig {
                path: "depth_anything_v2_vitb_dynamic.onnx".to_string(),
                target_size: 518,
                static_resize: false,
            },
        }
    }

    /// The resize policy this configuration stands for: an exact square for
    /// the static variant, aspect-preserving with the network stride for the
    /// dynamic one.
    pub fn policy(&self) -> (r: ResizePolicy)
        ensures
            self.static_resize ==> r == ResizePolicy::StaticSquash(self.target_size),
            !self.static_resize ==> r == ResizePolicy::AspectFit(self.target_size, NETWORK_STRIDE),
    {
        if self.static_resize {
            ResizePolicy::StaticSquash(self.target_size)
        } else {
            ResizePolicy::AspectFit(self.target_size, NETWORK_STRIDE)
        }
    }
}

} // verus!
