//! Image generation interface: model taxonomy, configuration and the
//! generated-image value.  The generators themselves (tensor models,
//! samplers, file output) are floating-point and I/O work that lives in
//! the embedding application; the data and validation they share is
//! verified here.

use vstd::prelude::*;

verus! {

/// Why image generation failed.  Backend failures (tensor runtime, model
/// files, tokenization, the model hub) are carried as their rendered
/// messages.
#[derive(Debug)]
pub enum ImageGenError {
    ImageProcessing(String),
    ModelLoading(String),
    Tokenization(String),
    InvalidConfig(String),
    Io(String),
    HfHub(String),
    Other(String),
}

/// Flux model variant.
#[derive(Debug, Clone, Copy, PartialEq, Eq, Structural)]
pub enum FluxModel {
    /// Faster, four steps.
    Schnell,
    /// Higher quality, fifty steps.
    Dev,
}

impl FluxModel {
    /// The model repository this variant is loaded from.
    pub fn repo(&self) -> (r: &'static str)
        ensures
            *self == FluxModel::Schnell ==> r@ == "black-forest-labs/FLUX.1-schnell"@,
            *self == FluxModel::Dev ==> r@ == "black-forest-labs/FLUX.1-dev"@,
    {
        match self {
            FluxModel::Schnell => "black-forest-labs/FLUX.1-schnell",
            FluxModel::Dev => "black-forest-labs/FLUX.1-dev",
        }
    }

    /// The default number of inference steps for this variant.
    pub fn default_steps(&self) -> (r: usize)
        ensures
            *self == FluxModel::Schnell ==> r == 4,
            *self == FluxModel::Dev ==> r == 50,
    {
        match self {
            FluxModel::Schnell => 4,
            FluxModel::Dev => 50,
        }
    }
}

/// Stable Diffusion model variant.
#[derive(Debug, Clone, Copy, PartialEq, Eq, Structural)]
pub enum StableDiffusionVersion {
    V1_5,
    V2_1,
    Xl,
    Turbo,
}

impl StableDiffusionVersion {
    /// The model repository this variant is loaded from.
    pub fn repo(&self) -> (r: &'static str)
        ensures
            *self == StableDiffusionVersion::V1_5 ==> r@ == "runwayml/stable-diffusion-v1-5"@,
            *self == StableDiffusionVersion::V2_1 ==> r@ == "stabilityai/stable-diffusion-2-1"@,
            *self == StableDiffusionVersion::Xl ==> r@
                == "stabilityai/stable-diffusion-xl-base-1.0"@,
            *self == StableDiffusionVersion::Turbo ==> r@ == "stabilityai/sdxl-turbo"@,
    {
        match self {
            StableDiffusionVersion::V1_5 => "runwayml/stable-diffusion-v1-5",
            StableDiffusionVersion::V2_1 => "stabilityai/stable-diffusion-2-1",
            StableDiffusionVersion::Xl => "stabilityai/stable-diffusion-xl-base-1.0",
            StableDiffusionVersion::Turbo => "stabilityai/sdxl-turbo",
        }
    }

    /// The default number of inference steps for this variant.
    pub fn default_steps(&self) -> (r: usize)
        ensures
            *self == StableDiffusionVersion::V1_5 ==> r == 10,
            *self == StableDiffusionVersion::V2_1 ==> r == 10,
            *self == StableDiffusionVersion::Xl ==> r == 30,
            *self == StableDiffusionVersion::Turbo ==> r == 1,
    {
        match self {
            StableDiffusionVersion::V1_5 => 10,
            StableDiffusionVersion::V2_1 => 10,
            StableDiffusionVersion::Xl => 30,
            StableDiffusionVersion::Turbo => 1,
        }
    }
}

/// What to generate: the prompt, the geometry, the sampling parameters.
#[derive(Debug)]
pub struct ImageGenConfig {
    /// Text prompt describing the image.
    pub prompt: String,
    /// Width in pixels; must be a multiple of eight.
    pub width: usize,
    /// Height in pixels; must be a multiple of eight.
    pub height: usize,
    /// Number of inference steps.
    pub num_steps: usize,
    /// Random seed for reproducibility; drawn fresh when absent.
    pub seed: Option<u64>,
    /// Use quantized models.
    pub quantized: bool,
    /// Use the CPU instead of a GPU.
    pub use_cpu: bool,
}

impl Default for ImageGenConfig {
    fn default() -> (r: Self)
        ensures
            r.prompt@.len() == 0,
            r.width == 1024,
            r.height == 1024,
            r.num_steps == 4,
            r.seed is None,
            !r.quantized,
            !r.use_cpu,
    {
        ImageGenConfig {
            prompt: String::new(),
            width: 1024,
            height: 1024,
            num_steps: 4,
            seed: None,
            quantized: false,
            use_cpu: false,
        }
    }
}

impl ImageGenConfig {
    /// The geometry check every generator makes before sampling: both
    /// dimensions must be multiples of eight.
    pub fn validate(&self) -> (r: Result<(), ImageGenError>)
        ensures
            r is Ok <==> self.width % 8 == 0 && self.height % 8 == 0,
            r is Err ==> r->Err_0 is InvalidConfig,
    {
        if self.width % 8 != 0 || self.height % 8 != 0 {
            Err(ImageGenError::InvalidConfig("Width and height must be multiples of 8".to_owned()))
        } else {
            Ok(())
        }
    }
}

/// A generated image: raw RGB bytes and how they were produced.
#[derive(Debug)]
pub struct GeneratedImage {
    /// RGB bytes, three per pixel, row by row.
    pub data: Vec<u8>,
    pub width: u32,
    pub height: u32,
    /// The prompt that produced the image.
    pub prompt: String,
    /// The seed that produced the image.
    pub seed: u64,
}

impl GeneratedImage {
    /// A well-formed image holds exactly three bytes per pixel.
    pub open spec fn wf(&self) -> bool {
        self.data@.len() == self.width * self.height * 3
    }
}

/// An image generation backend.  The backends themselves run tensor
/// models in the embedding application; this trait is what they
/// implement so the rest of the system can drive them.
pub trait ImageGenerator {
    /// Generate an image from the given configuration.
    fn generate(&mut self, config: &ImageGenConfig) -> Result<GeneratedImage, ImageGenError>;
}

} // verus!
