//! The decisions of the command-line front end: which credentials apply, what each
//! subcommand asks of the service, what it tells the user, and where it stores
//! the image.

use crate::client::{Client, HttpPost};
use crate::request::Scalar;
use vstd::prelude::*;

verus! {

/// Name of the environment variable that supplies the API key.
pub const API_KEY_VARIABLE: &'static str = "GETIMG_API_KEY";

/// Name of the environment variable that supplies the model.
pub const MODEL_VARIABLE: &'static str = "GETIMG_MODEL";

/// The model that is run when neither the command line nor the environment names one.
pub const DEFAULT_MODEL: &'static str = "lcm-realistic-vision-v5-1";

/// Arguments of the `edit` subcommand.
#[derive(Clone, Debug, PartialEq, Eq)]
pub struct Edit {
    /// The editing instruction.
    pub prompt: String,
    /// Text that the edit should steer away from.
    pub negative_prompt: String,
    /// Path of the image to edit.
    pub image: String,
    /// Classifier-free guidance scale.
    pub guidance: Scalar,
    /// Number of denoising steps.
    pub steps: usize,
    /// Seed that makes the generation repeatable.
    pub seed: usize,
    /// Sampling algorithm that the service runs.
    pub scheduler: String,
    /// File format of the image that comes back.
    pub output_format: String,
    /// How closely the result keeps to the source image.
    pub image_guidance: Scalar,
}

/// Arguments of the `paint` subcommand.
#[derive(Clone, Debug, PartialEq, Eq)]
pub struct Repaint {
    /// Text that guides the repainting.
    pub prompt: String,
    /// Text that the repainting should steer away from.
    pub negative_prompt: String,
    /// Path of the image to repaint.
    pub image: String,
    /// Path of the mask of the area to repaint.
    pub mask_image: String,
    /// Width of the image in pixels.
    pub width: usize,
    /// Height of the image in pixels.
    pub height: usize,
    /// Number of denoising steps.
    pub steps: usize,
    /// Sampling algorithm that the service runs.
    pub scheduler: String,
    /// Seed that makes the generation repeatable.
    pub seed: usize,
    /// How far the masked area is transformed.
    pub strength: Scalar,
    /// Classifier-free guidance scale.
    pub guidance: Scalar,
    /// File format of the image that comes back.
    pub output_format: String,
}

/// Arguments of the `t2i` subcommand.
#[derive(Clone, Debug, PartialEq, Eq)]
pub struct TextToImage {
    /// Text that guides the generation.
    pub prompt: String,
    /// Text that the generation should steer away from.
    pub negative_prompt: String,
    /// Width of the image in pixels.
    pub width: usize,
    /// Height of the image in pixels.
    pub height: usize,
    /// Number of denoising steps.
    pub steps: usize,
    /// Seed that makes the generation repeatable.
    pub seed: usize,
    /// File format of the image that comes back.
    pub output_format: String,
}

/// Arguments of the `i2i` subcommand.
#[derive(Clone, Debug, PartialEq, Eq)]
pub struct ImageToImage {
    /// Text that guides the generation.
    pub prompt: String,
    /// Text that the generation should steer away from.
    pub negative_prompt: String,
    /// Path of the reference image.
    pub image: String,
    /// How far the reference image is transformed.
    pub strength: Scalar,
    /// Number of denoising steps.
    pub steps: usize,
    /// File format of the image that comes back.
    pub output_format: String,
    /// Seed that makes the generation repeatable.
    pub seed: usize,
}

/// Arguments of the `cnet` subcommand.
#[derive(Clone, Debug, PartialEq, Eq)]
pub struct ControlNet {
    /// Kind of ControlNet conditioning.
    pub net: String,
    /// Text that guides the generation.
    pub prompt: String,
    /// Text that the generation should steer away from.
    pub negative_prompt: String,
    /// Path of the conditioning image.
    pub image: String,
    /// Scale at which the conditioning is applied.
    pub strength: Scalar,
    /// Width of the image in pixels.
    pub width: usize,
    /// Height of the image in pixels.
    pub height: usize,
    /// Number of denoising steps.
    pub steps: usize,
    /// Classifier-free guidance scale.
    pub guidance: Scalar,
    /// File format of the image that comes back.
    pub output_format: String,
    /// Seed that makes the generation repeatable.
    pub seed: usize,
    /// Sampling algorithm that the service runs.
    pub scheduler: String,
}

/// The subcommand that was asked for.
#[derive(Clone, Debug, PartialEq, Eq)]
pub enum Command {
    Edit(Edit),
    Repaint(Repaint),
    TextToImage(TextToImage),
    ImageToImage(ImageToImage),
    ControlNet(ControlNet),
}

/// A parsed command line.
#[derive(Clone, Debug, PartialEq, Eq)]
pub struct Cli {
    /// API key given on the command line.
    pub api_key: Option<String>,
    /// Model given on the command line.
    pub model: Option<String>,
    /// The subcommand.
    pub cmd: Command,
}

/// The first of two optional texts that is present, or else `fallback`.
pub open spec fn first_of(
    explicit: Option<Seq<char>>,
    environment: Option<Seq<char>>,
    fallback: Seq<char>,
) -> Seq<char> {
    match (explicit, environment) {
        (Some(text), _) => text,
        (None, Some(text)) => text,
        (None, None) => fallback,
    }
}

impl Cli {
    /// The client that the command line and the environment call for. What the
    /// command line gives comes first, then what the environment holds under
    /// [`API_KEY_VARIABLE`] and [`MODEL_VARIABLE`]; failing both, the key is empty
    /// and the model is [`DEFAULT_MODEL`].
    pub fn client(
        &self,
        environment_api_key: Option<&str>,
        environment_model: Option<&str>,
    ) -> (client: Client)
        ensures
            client@.api_key == first_of(
                self.api_key.deep_view(),
                environment_api_key.deep_view(),
                Seq::empty(),
            ),
            client@.model == first_of(
                self.model.deep_view(),
                environment_model.deep_view(),
                DEFAULT_MODEL@,
            ),
            client@.api_url == crate::client::BASE_URL@,
    {
        let api_key = match (&self.api_key, environment_api_key) {
            (Some(key), _) => key.clone(),
            (None, Some(key)) => key.to_owned(),
            (None, None) => String::new(),
        };
        let model = match (&self.model, environment_model) {
            (Some(model), _) => model.clone(),
            (None, Some(model)) => model.to_owned(),
            (None, None) => DEFAULT_MODEL.to_owned(),
        };
        Client::new(api_key.as_str(), model.as_str())
    }
}

impl Command {
    /// What the user is told before the call.
    pub open spec fn progress_text(&self) -> Seq<char> {
        match *self {
            Command::Edit(_) => "Generating edited image..."@,
            Command::Repaint(_) => "Repainting image..."@,
            Command::TextToImage(_) => "Generating image from text..."@,
            Command::ImageToImage(_) => "Generating image from image..."@,
            Command::ControlNet(_) => "Generating image using ControlNet..."@,
        }
    }

    /// The name of the file that the image is stored in.
    pub open spec fn output_name(&self) -> Seq<char> {
        match *self {
            Command::Edit(_) => "edited_image.png"@,
            Command::Repaint(_) => "edited_image.png"@,
            Command::TextToImage(_) => "t2i.png"@,
            Command::ImageToImage(_) => "i2i.png"@,
            Command::ControlNet(_) => "cnet.png"@,
        }
    }

    /// What the user is told once the image is stored.
    pub open spec fn success_text(&self) -> Seq<char> {
        match *self {
            Command::Repaint(_) => "Image repainted and stored successfully."@,
            _ => "Edited image generated and stored successfully."@,
        }
    }

    /// What the user is told before the call.
    pub fn progress_message(&self) -> (message: &'static str)
        ensures
            message@ == self.progress_text(),
    {
        match self {
            Command::Edit(_) => "Generating edited image...",
            Command::Repaint(_) => "Repainting image...",
            Command::TextToImage(_) => "Generating image from text...",
            Command::ImageToImage(_) => "Generating image from image...",
            Command::ControlNet(_) => "Generating image using ControlNet...",
        }
    }

    /// The file that the image is stored in.
    pub fn output_file(&self) -> (name: &'static str)
        ensures
            name@ == self.output_name(),
    {
        match self {
            Command::Edit(_) => "edited_image.png",
            Command::Repaint(_) => "edited_image.png",
            Command::TextToImage(_) => "t2i.png",
            Command::ImageToImage(_) => "i2i.png",
            Command::ControlNet(_) => "cnet.png",
        }
    }

    /// What the user is told once the image is stored.
    pub fn success_message(&self) -> (message: &'static str)
        ensures
            message@ == self.success_text(),
    {
        match self {
            Command::Repaint(_) => "Image repainted and stored successfully.",
            _ => "Edited image generated and stored successfully.",
        }
    }
}

impl Edit {
    /// The call that the subcommand makes, given the encoded image.
    pub fn call(&self, client: &Client, image: &str) -> (post: HttpPost)
        ensures
            post@ == client@.post(
                client@.edit(
                    self.prompt@,
                    Some(self.negative_prompt@),
                    image@,
                    self.image_guidance,
                    self.steps,
                    self.guidance,
                    self.seed,
                    self.scheduler@,
                    self.output_format@,
                ),
            ),
    {
        client.generate_edited_image(
            self.prompt.as_str(),
            Some(self.negative_prompt.as_str()),
            image,
            self.image_guidance,
            self.steps,
            self.guidance,
            self.seed,
            self.scheduler.as_str(),
            self.output_format.as_str(),
        )
    }
}

impl Repaint {
    /// The call that the subcommand makes, given the encoded image and mask.
    pub fn call(&self, client: &Client, image: &str, mask_image: &str) -> (post: HttpPost)
        ensures
            post@ == client@.post(
                client@.repaint(
                    self.prompt@,
                    Some(self.negative_prompt@),
                    image@,
                    mask_image@,
                    Some(self.strength),
                    self.width,
                    self.height,
                    self.steps,
                    self.guidance,
                    self.seed,
                    self.scheduler@,
                    self.output_format@,
                ),
            ),
    {
        client.generate_repainted_image(
            self.prompt.as_str(),
            Some(self.negative_prompt.as_str()),
            image,
            mask_image,
            Some(self.strength),
            self.width,
            self.height,
            self.steps,
            self.guidance,
            self.seed,
            self.scheduler.as_str(),
            self.output_format.as_str(),
        )
    }
}

impl TextToImage {
    /// The call that the subcommand makes.
    pub fn call(&self, client: &Client) -> (post: HttpPost)
        ensures
            post@ == client@.post(
                client@.text_to_image(
                    self.prompt@,
                    self.width,
                    self.height,
                    self.steps,
                    self.output_format@,
                    Some(self.negative_prompt@),
                    Some(self.seed),
                ),
            ),
    {
        client.generate_image_from_text(
            self.prompt.as_str(),
            self.width,
            self.height,
            self.steps,
            self.output_format.as_str(),
            Some(self.negative_prompt.as_str()),
            Some(self.seed),
        )
    }
}

impl ImageToImage {
    /// The call that the subcommand makes, given the encoded image.
    pub fn call(&self, client: &Client, image: &str) -> (post: HttpPost)
        ensures
            post@ == client@.post(
                client@.image_to_image(
                    self.prompt@,
                    image@,
                    self.steps,
                    self.seed,
                    self.output_format@,
                    Some(self.negative_prompt@),
                    Some(self.strength),
                ),
            ),
    {
        client.generate_image_from_image(
            self.prompt.as_str(),
            image,
            self.steps,
            self.seed,
            self.output_format.as_str(),
            Some(self.negative_prompt.as_str()),
            Some(self.strength),
        )
    }
}

impl ControlNet {
    /// The call that the subcommand makes, given the encoded image.
    pub fn call(&self, client: &Client, image: &str) -> (post: HttpPost)
        ensures
            post@ == client@.post(
                client@.controlnet(
                    self.net@,
                    self.prompt@,
                    self.negative_prompt@,
                    image@,
                    self.strength,
                    self.width,
                    self.height,
                    self.steps,
                    self.guidance,
                    self.seed,
                    self.scheduler@,
                    self.output_format@,
                ),
            ),
    {
        client.generate_image_using_controlnet(
            self.net.as_str(),
            self.prompt.as_str(),
            self.negative_prompt.as_str(),
            image,
            self.strength,
            self.width,
            self.height,
            self.steps,
            self.guidance,
            self.seed,
            self.scheduler.as_str(),
            self.output_format.as_str(),
        )
    }
}

} // verus!
