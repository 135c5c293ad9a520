//! Paths of the segmentation model builds that can be loaded: model family
//! and quantization pick one ONNX file.

use vstd::prelude::*;

verus! {

/// Quantization of an exported model; `Full` is the unquantized build.
#[derive(Clone, Copy, Debug, PartialEq, Eq, Structural)]
pub enum YoloV8ONNXQuantization {
    Int8,
    Half,
    Full,
}

impl YoloV8ONNXQuantization {
    /// The suffix a quantization adds to the model file name.
    pub open spec fn pathspec(&self) -> Seq<char> {
        match self {
            YoloV8ONNXQuantization::Int8 => "-int8"@,
            YoloV8ONNXQuantization::Half => "-half"@,
            YoloV8ONNXQuantization::Full => ""@,
        }
    }

    pub fn to_model_pathspec(&self) -> (s: String)
        ensures
            s@ == self.pathspec(),
    {
        match self {
            YoloV8ONNXQuantization::Int8 => String::from_str("-int8"),
            YoloV8ONNXQuantization::Half => String::from_str("-half"),
            YoloV8ONNXQuantization::Full => String::from_str(""),
        }
    }
}

/// The model families, each with its quantization.
#[derive(Clone, Copy, Debug, PartialEq, Eq, Structural)]
pub enum YoloV8ONNXModelType {
    V8m(YoloV8ONNXQuantization),
    V11s(YoloV8ONNXQuantization),
    V11m(YoloV8ONNXQuantization),
}

impl YoloV8ONNXModelType {
    /// The file the build is loaded from.
    pub open spec fn path_spec(&self) -> Seq<char> {
        match self {
            YoloV8ONNXModelType::V8m(q) => "./onnx/yolov8m-seg"@ + q.pathspec() + ".onnx"@,
            YoloV8ONNXModelType::V11s(q) => "./onnx/yolo11s-seg"@ + q.pathspec() + ".onnx"@,
            YoloV8ONNXModelType::V11m(q) => "./onnx/yolo11m-seg"@ + q.pathspec() + ".onnx"@,
        }
    }

    pub fn to_model_path(&self) -> (s: String)
        ensures
            s@ == self.path_spec(),
    {
        match self {
            YoloV8ONNXModelType::V8m(q) => {
                let base = String::from_str("./onnx/yolov8m-seg");
                base.concat(q.to_model_pathspec().as_str()).concat(".onnx")
            },
            YoloV8ONNXModelType::V11s(q) => {
                let base = String::from_str("./onnx/yolo11s-seg");
                base.concat(q.to_model_pathspec().as_str()).concat(".onnx")
            },
            YoloV8ONNXModelType::V11m(q) => {
                let base = String::from_str("./onnx/yolo11m-seg");
                base.concat(q.to_model_pathspec().as_str()).concat(".onnx")
            },
        }
    }
}

} // verus!
