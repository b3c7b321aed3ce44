//! The five request shapes and the wire fields each one sends.

use vstd::prelude::*;

verus! {

/// A numeric parameter that the service reads as a real number. The library never
/// computes with it: it carries the bit pattern of the binary64 value from the caller
/// to the wire untouched.
#[derive(Clone, Copy, Debug, Default, PartialEq, Eq, Structural)]
pub struct Scalar {
    pub bits: u64,
}

/// The value of one wire field.
#[derive(Clone, Debug, PartialEq, Eq)]
pub enum Value {
    Text(String),
    Integer(usize),
    Scalar(Scalar),
}

/// The mathematical content of a [`Value`].
pub enum ValueView {
    Text(Seq<char>),
    Integer(usize),
    Scalar(Scalar),
}

impl View for Value {
    type V = ValueView;

    open spec fn view(&self) -> ValueView {
        match *self {
            Value::Text(s) => ValueView::Text(s@),
            Value::Integer(n) => ValueView::Integer(n),
            Value::Scalar(x) => ValueView::Scalar(x),
        }
    }
}

/// One named field of a request body.
#[derive(Clone, Debug, PartialEq, Eq)]
pub struct Field {
    pub name: String,
    pub value: Value,
}

/// The mathematical content of a [`Field`].
pub struct FieldView {
    pub name: Seq<char>,
    pub value: ValueView,
}

impl View for Field {
    type V = FieldView;

    open spec fn view(&self) -> FieldView {
        FieldView { name: self.name@, value: self.value@ }
    }
}

/// A request body: the fields that are sent, in the order they are written.
/// A field that is not in the list is not sent at all.
#[derive(Clone, Debug, PartialEq, Eq)]
pub struct Payload {
    pub fields: Vec<Field>,
}

impl View for Payload {
    type V = Seq<FieldView>;

    open spec fn view(&self) -> Seq<FieldView> {
        self.fields@.map_values(|f: Field| f@)
    }
}

/// A text field.
pub open spec fn text_field(name: Seq<char>, value: Seq<char>) -> FieldView {
    FieldView { name, value: ValueView::Text(value) }
}

/// An integer field.
pub open spec fn integer_field(name: Seq<char>, value: usize) -> FieldView {
    FieldView { name, value: ValueView::Integer(value) }
}

/// A real-valued field.
pub open spec fn scalar_field(name: Seq<char>, value: Scalar) -> FieldView {
    FieldView { name, value: ValueView::Scalar(value) }
}

/// What an optional text contributes: its field if it is present, nothing if it is absent.
pub open spec fn optional_text(name: Seq<char>, value: Option<Seq<char>>) -> Seq<FieldView> {
    match value {
        Some(v) => seq![text_field(name, v)],
        None => Seq::empty(),
    }
}

/// What an optional integer contributes: its field if it is present, nothing if it is absent.
pub open spec fn optional_integer(name: Seq<char>, value: Option<usize>) -> Seq<FieldView> {
    match value {
        Some(v) => seq![integer_field(name, v)],
        None => Seq::empty(),
    }
}

/// What an optional scalar contributes: its field if it is present, nothing if it is absent.
pub open spec fn optional_scalar(name: Seq<char>, value: Option<Scalar>) -> Seq<FieldView> {
    match value {
        Some(v) => seq![scalar_field(name, v)],
        None => Seq::empty(),
    }
}

/// The names of the fields of a body, in order.
pub open spec fn names(fields: Seq<FieldView>) -> Seq<Seq<char>> {
    fields.map_values(|f: FieldView| f.name)
}

/// The name of an optional field, where it is sent.
pub open spec fn name_if(sent: bool, name: Seq<char>) -> Seq<Seq<char>> {
    if sent {
        seq![name]
    } else {
        Seq::empty()
    }
}

impl Payload {
    /// An empty body.
    pub fn new() -> (p: Payload)
        ensures
            p@ == Seq::<FieldView>::empty(),
    {
        let p = Payload { fields: Vec::new() };
        assert(p@ =~= Seq::<FieldView>::empty());
        p
    }

    /// Appends a text field.
    pub fn text(&mut self, name: &str, value: &str)
        ensures
            final(self)@ == old(self)@.push(text_field(name@, value@)),
    {
        self.fields.push(Field { name: name.to_owned(), value: Value::Text(value.to_owned()) });
        assert(self@ =~= old(self)@.push(text_field(name@, value@)));
    }

    /// Appends an integer field.
    pub fn integer(&mut self, name: &str, value: usize)
        ensures
            final(self)@ == old(self)@.push(integer_field(name@, value)),
    {
        self.fields.push(Field { name: name.to_owned(), value: Value::Integer(value) });
        assert(self@ =~= old(self)@.push(integer_field(name@, value)));
    }

    /// Appends a scalar field.
    pub fn scalar(&mut self, name: &str, value: Scalar)
        ensures
            final(self)@ == old(self)@.push(scalar_field(name@, value)),
    {
        self.fields.push(Field { name: name.to_owned(), value: Value::Scalar(value) });
        assert(self@ =~= old(self)@.push(scalar_field(name@, value)));
    }

    /// Appends a text field if there is a value to send, and nothing otherwise.
    pub fn optional_text(&mut self, name: &str, value: &Option<String>)
        ensures
            final(self)@ == old(self)@ + optional_text(name@, value.deep_view()),
    {
        if let Some(v) = value {
            self.text(name, v.as_str());
        }
        assert(self@ =~= old(self)@ + optional_text(name@, value.deep_view()));
    }

    /// Appends an integer field if there is a value to send, and nothing otherwise.
    pub fn optional_integer(&mut self, name: &str, value: Option<usize>)
        ensures
            final(self)@ == old(self)@ + optional_integer(name@, value),
    {
        if let Some(v) = value {
            self.integer(name, v);
        }
        assert(self@ =~= old(self)@ + optional_integer(name@, value));
    }

    /// Appends a scalar field if there is a value to send, and nothing otherwise.
    pub fn optional_scalar(&mut self, name: &str, value: Option<Scalar>)
        ensures
            final(self)@ == old(self)@ + optional_scalar(name@, value),
    {
        if let Some(v) = value {
            self.scalar(name, v);
        }
        assert(self@ =~= old(self)@ + optional_scalar(name@, value));
    }
}

/// The body of a text-to-image call.
#[derive(Clone, Debug, Default, PartialEq, Eq)]
pub struct TextToImageRequest {
    /// Text that guides the generation.
    pub prompt: String,
    /// Identifier of the model to run.
    pub model: String,
    /// Text that the generation should steer away from.
    pub negative_prompt: Option<String>,
    /// Width of the image in pixels.
    pub width: usize,
    /// Height of the image in pixels.
    pub height: usize,
    /// Number of denoising steps.
    pub steps: usize,
    /// File format of the image that comes back.
    pub output_format: String,
    /// Seed that makes the generation repeatable.
    pub seed: Option<usize>,
}

/// The mathematical content of a [`TextToImageRequest`].
pub struct TextToImageRequestView {
    pub prompt: Seq<char>,
    pub model: Seq<char>,
    pub negative_prompt: Option<Seq<char>>,
    pub width: usize,
    pub height: usize,
    pub steps: usize,
    pub output_format: Seq<char>,
    pub seed: Option<usize>,
}

impl View for TextToImageRequest {
    type V = TextToImageRequestView;

    open spec fn view(&self) -> TextToImageRequestView {
        TextToImageRequestView {
            prompt: self.prompt@,
            model: self.model@,
            negative_prompt: self.negative_prompt.deep_view(),
            width: self.width,
            height: self.height,
            steps: self.steps,
            output_format: self.output_format@,
            seed: self.seed,
        }
    }
}

impl TextToImageRequestView {
    /// The fields of a text to image body, in the order they are written. An optional field
    /// that is absent contributes nothing.
    pub open spec fn payload(self) -> Seq<FieldView> {
        seq![
            text_field("prompt"@, self.prompt),
            text_field("model"@, self.model),
        ]
        + optional_text("negative_prompt"@, self.negative_prompt)
        + seq![
            integer_field("width"@, self.width),
            integer_field("height"@, self.height),
            integer_field("steps"@, self.steps),
            text_field("output_format"@, self.output_format),
        ]
        + optional_integer("seed"@, self.seed)
    }
}

impl TextToImageRequest {
    /// Lays the request out as the fields to send.
    pub fn payload(&self) -> (p: Payload)
        ensures
            p@ == self@.payload(),
    {
        let mut p = Payload::new();
        p.text("prompt", self.prompt.as_str());
        p.text("model", self.model.as_str());
        p.optional_text("negative_prompt", &self.negative_prompt);
        p.integer("width", self.width);
        p.integer("height", self.height);
        p.integer("steps", self.steps);
        p.text("output_format", self.output_format.as_str());
        p.optional_integer("seed", self.seed);
        assert(p@ =~= self@.payload());
        p
    }
}

/// The body of an image-to-image call.
#[derive(Clone, Debug, Default, PartialEq, Eq)]
pub struct ImageToImageRequest {
    /// Identifier of the model to run.
    pub model: String,
    /// Text that guides the generation.
    pub prompt: String,
    /// Text that the generation should steer away from.
    pub negative_prompt: Option<String>,
    /// The reference image, base64 encoded.
    pub image: String,
    /// How far the reference image is transformed.
    pub strength: Option<Scalar>,
    /// Number of denoising steps.
    pub steps: usize,
    /// File format of the image that comes back.
    pub output_format: String,
    /// Seed that makes the generation repeatable.
    pub seed: Option<usize>,
}

/// The mathematical content of a [`ImageToImageRequest`].
pub struct ImageToImageRequestView {
    pub model: Seq<char>,
    pub prompt: Seq<char>,
    pub negative_prompt: Option<Seq<char>>,
    pub image: Seq<char>,
    pub strength: Option<Scalar>,
    pub steps: usize,
    pub output_format: Seq<char>,
    pub seed: Option<usize>,
}

impl View for ImageToImageRequest {
    type V = ImageToImageRequestView;

    open spec fn view(&self) -> ImageToImageRequestView {
        ImageToImageRequestView {
            model: self.model@,
            prompt: self.prompt@,
            negative_prompt: self.negative_prompt.deep_view(),
            image: self.image@,
            strength: self.strength,
            steps: self.steps,
            output_format: self.output_format@,
            seed: self.seed,
        }
    }
}

impl ImageToImageRequestView {
    /// The fields of a image to image body, in the order they are written. An optional field
    /// that is absent contributes nothing.
    pub open spec fn payload(self) -> Seq<FieldView> {
        seq![
            text_field("model"@, self.model),
            text_field("prompt"@, self.prompt),
        ]
        + optional_text("negative_prompt"@, self.negative_prompt)
        + seq![
            text_field("image"@, self.image),
        ]
        + optional_scalar("strength"@, self.strength)
        + seq![
            integer_field("steps"@, self.steps),
            text_field("output_format"@, self.output_format),
        ]
        + optional_integer("seed"@, self.seed)
    }
}

impl ImageToImageRequest {
    /// Lays the request out as the fields to send.
    pub fn payload(&self) -> (p: Payload)
        ensures
            p@ == self@.payload(),
    {
        let mut p = Payload::new();
        p.text("model", self.model.as_str());
        p.text("prompt", self.prompt.as_str());
        p.optional_text("negative_prompt", &self.negative_prompt);
        p.text("image", self.image.as_str());
        p.optional_scalar("strength", self.strength);
        p.integer("steps", self.steps);
        p.text("output_format", self.output_format.as_str());
        p.optional_integer("seed", self.seed);
        assert(p@ =~= self@.payload());
        p
    }
}

/// The body of a ControlNet-conditioned call.
#[derive(Clone, Debug, Default, PartialEq, Eq)]
pub struct ControlNetRequest {
    /// Kind of ControlNet conditioning.
    pub controlnet_type: String,
    /// Identifier of the model to run.
    pub model: String,
    /// Text that guides the generation.
    pub prompt: String,
    /// Text that the generation should steer away from.
    pub negative_prompt: Option<String>,
    /// The conditioning image, base64 encoded.
    pub image: String,
    /// Scale at which the conditioning is applied.
    pub strength: Scalar,
    /// Width of the image in pixels.
    pub width: usize,
    /// Height of the image in pixels.
    pub height: usize,
    /// Number of denoising steps.
    pub steps: usize,
    /// Classifier-free guidance scale.
    pub guidance: Scalar,
    /// Seed that makes the generation repeatable.
    pub seed: usize,
    /// Sampling algorithm that the service runs.
    pub scheduler: String,
    /// File format of the image that comes back.
    pub output_format: String,
}

/// The mathematical content of a [`ControlNetRequest`].
pub struct ControlNetRequestView {
    pub controlnet_type: Seq<char>,
    pub model: Seq<char>,
    pub prompt: Seq<char>,
    pub negative_prompt: Option<Seq<char>>,
    pub image: Seq<char>,
    pub strength: Scalar,
    pub width: usize,
    pub height: usize,
    pub steps: usize,
    pub guidance: Scalar,
    pub seed: usize,
    pub scheduler: Seq<char>,
    pub output_format: Seq<char>,
}

impl View for ControlNetRequest {
    type V = ControlNetRequestView;

    open spec fn view(&self) -> ControlNetRequestView {
        ControlNetRequestView {
            controlnet_type: self.controlnet_type@,
            model: self.model@,
            prompt: self.prompt@,
            negative_prompt: self.negative_prompt.deep_view(),
            image: self.image@,
            strength: self.strength,
            width: self.width,
            height: self.height,
            steps: self.steps,
            guidance: self.guidance,
            seed: self.seed,
            scheduler: self.scheduler@,
            output_format: self.output_format@,
        }
    }
}

impl ControlNetRequestView {
    /// The fields of a ControlNet body, in the order they are written. An optional field
    /// that is absent contributes nothing.
    pub open spec fn payload(self) -> Seq<FieldView> {
        seq![
            text_field("controlnet_type"@, self.controlnet_type),
            text_field("model"@, self.model),
            text_field("prompt"@, self.prompt),
        ]
        + optional_text("negative_prompt"@, self.negative_prompt)
        + seq![
            text_field("image"@, self.image),
            scalar_field("strength"@, self.strength),
            integer_field("width"@, self.width),
            integer_field("height"@, self.height),
            integer_field("steps"@, self.steps),
            scalar_field("guidance"@, self.guidance),
            integer_field("seed"@, self.seed),
            text_field("scheduler"@, self.scheduler),
            text_field("output_format"@, self.output_format),
        ]
    }
}

impl ControlNetRequest {
    /// Lays the request out as the fields to send.
    pub fn payload(&self) -> (p: Payload)
        ensures
            p@ == self@.payload(),
    {
        let mut p = Payload::new();
        p.text("controlnet_type", self.controlnet_type.as_str());
        p.text("model", self.model.as_str());
        p.text("prompt", self.prompt.as_str());
        p.optional_text("negative_prompt", &self.negative_prompt);
        p.text("image", self.image.as_str());
        p.scalar("strength", self.strength);
        p.integer("width", self.width);
        p.integer("height", self.height);
        p.integer("steps", self.steps);
        p.scalar("guidance", self.guidance);
        p.integer("seed", self.seed);
        p.text("scheduler", self.scheduler.as_str());
        p.text("output_format", self.output_format.as_str());
        assert(p@ =~= self@.payload());
        p
    }
}

/// The body of a repaint (inpainting) call.
#[derive(Clone, Debug, Default, PartialEq, Eq)]
pub struct RepaintImageRequest {
    /// Identifier of the model to run.
    pub model: String,
    /// Text that guides the repainting.
    pub prompt: String,
    /// Text that the repainting should steer away from.
    pub negative_prompt: Option<String>,
    /// The image to repaint, base64 encoded.
    pub image: String,
    /// The mask of the area to repaint, base64 encoded.
    pub mask_image: String,
    /// How far the masked area is transformed.
    pub strength: Option<Scalar>,
    /// Width of the image in pixels.
    pub width: usize,
    /// Height of the image in pixels.
    pub height: usize,
    /// Number of denoising steps.
    pub steps: usize,
    /// Classifier-free guidance scale.
    pub guidance: Scalar,
    /// Seed that makes the generation repeatable.
    pub seed: usize,
    /// Sampling algorithm that the service runs.
    pub scheduler: String,
    /// File format of the image that comes back.
    pub output_format: String,
}

/// The mathematical content of a [`RepaintImageRequest`].
pub struct RepaintImageRequestView {
    pub model: Seq<char>,
    pub prompt: Seq<char>,
    pub negative_prompt: Option<Seq<char>>,
    pub image: Seq<char>,
    pub mask_image: Seq<char>,
    pub strength: Option<Scalar>,
    pub width: usize,
    pub height: usize,
    pub steps: usize,
    pub guidance: Scalar,
    pub seed: usize,
    pub scheduler: Seq<char>,
    pub output_format: Seq<char>,
}

impl View for RepaintImageRequest {
    type V = RepaintImageRequestView;

    open spec fn view(&self) -> RepaintImageRequestView {
        RepaintImageRequestView {
            model: self.model@,
            prompt: self.prompt@,
            negative_prompt: self.negative_prompt.deep_view(),
            image: self.image@,
            mask_image: self.mask_image@,
            strength: self.strength,
            width: self.width,
            height: self.height,
            steps: self.steps,
            guidance: self.guidance,
            seed: self.seed,
            scheduler: self.scheduler@,
            output_format: self.output_format@,
        }
    }
}

impl RepaintImageRequestView {
    /// The fields of a repaint body, in the order they are written. An optional field
    /// that is absent contributes nothing.
    pub open spec fn payload(self) -> Seq<FieldView> {
        seq![
            text_field("model"@, self.model),
            text_field("prompt"@, self.prompt),
        ]
        + optional_text("negative_prompt"@, self.negative_prompt)
        + seq![
            text_field("image"@, self.image),
            text_field("mask_image"@, self.mask_image),
        ]
        + optional_scalar("strength"@, self.strength)
        + seq![
            integer_field("width"@, self.width),
            integer_field("height"@, self.height),
            integer_field("steps"@, self.steps),
            scalar_field("guidance"@, self.guidance),
            integer_field("seed"@, self.seed),
            text_field("scheduler"@, self.scheduler),
            text_field("output_format"@, self.output_format),
        ]
    }
}

impl RepaintImageRequest {
    /// Lays the request out as the fields to send.
    pub fn payload(&self) -> (p: Payload)
        ensures
            p@ == self@.payload(),
    {
        let mut p = Payload::new();
        p.text("model", self.model.as_str());
        p.text("prompt", self.prompt.as_str());
        p.optional_text("negative_prompt", &self.negative_prompt);
        p.text("image", self.image.as_str());
        p.text("mask_image", self.mask_image.as_str());
        p.optional_scalar("strength", self.strength);
        p.integer("width", self.width);
        p.integer("height", self.height);
        p.integer("steps", self.steps);
        p.scalar("guidance", self.guidance);
        p.integer("seed", self.seed);
        p.text("scheduler", self.scheduler.as_str());
        p.text("output_format", self.output_format.as_str());
        assert(p@ =~= self@.payload());
        p
    }
}

/// The body of an instruction-based edit call.
#[derive(Clone, Debug, Default, PartialEq, Eq)]
pub struct EditImageRequest {
    /// Identifier of the model to run.
    pub model: String,
    /// The editing instruction.
    pub prompt: String,
    /// Text that the edit should steer away from.
    pub negative_prompt: Option<String>,
    /// The image to edit, base64 encoded.
    pub image: String,
    /// How closely the result keeps to the source image.
    pub image_guidance: Scalar,
    /// Number of denoising steps.
    pub steps: usize,
    /// Classifier-free guidance scale.
    pub guidance: Scalar,
    /// Seed that makes the generation repeatable.
    pub seed: usize,
    /// Sampling algorithm that the service runs.
    pub scheduler: String,
    /// File format of the image that comes back.
    pub output_format: String,
}

/// The mathematical content of a [`EditImageRequest`].
pub struct EditImageRequestView {
    pub model: Seq<char>,
    pub prompt: Seq<char>,
    pub negative_prompt: Option<Seq<char>>,
    pub image: Seq<char>,
    pub image_guidance: Scalar,
    pub steps: usize,
    pub guidance: Scalar,
    pub seed: usize,
    pub scheduler: Seq<char>,
    pub output_format: Seq<char>,
}

impl View for EditImageRequest {
    type V = EditImageRequestView;

    open spec fn view(&self) -> EditImageRequestView {
        EditImageRequestView {
            model: self.model@,
            prompt: self.prompt@,
            negative_prompt: self.negative_prompt.deep_view(),
            image: self.image@,
            image_guidance: self.image_guidance,
            steps: self.steps,
            guidance: self.guidance,
            seed: self.seed,
            scheduler: self.scheduler@,
            output_format: self.output_format@,
        }
    }
}

impl EditImageRequestView {
    /// The fields of a edit body, in the order they are written. An optional field
    /// that is absent contributes nothing.
    pub open spec fn payload(self) -> Seq<FieldView> {
        seq![
            text_field("model"@, self.model),
            text_field("prompt"@, self.prompt),
        ]
        + optional_text("negative_prompt"@, self.negative_prompt)
        + seq![
            text_field("image"@, self.image),
            scalar_field("image_guidance"@, self.image_guidance),
            integer_field("steps"@, self.steps),
            scalar_field("guidance"@, self.guidance),
            integer_field("seed"@, self.seed),
            text_field("scheduler"@, self.scheduler),
            text_field("output_format"@, self.output_format),
        ]
    }
}

impl EditImageRequest {
    /// Lays the request out as the fields to send.
    pub fn payload(&self) -> (p: Payload)
        ensures
            p@ == self@.payload(),
    {
        let mut p = Payload::new();
        p.text("model", self.model.as_str());
        p.text("prompt", self.prompt.as_str());
        p.optional_text("negative_prompt", &self.negative_prompt);
        p.text("image", self.image.as_str());
        p.scalar("image_guidance", self.image_guidance);
        p.integer("steps", self.steps);
        p.scalar("guidance", self.guidance);
        p.integer("seed", self.seed);
        p.text("scheduler", self.scheduler.as_str());
        p.text("output_format", self.output_format.as_str());
        assert(p@ =~= self@.payload());
        p
    }
}

/// The path of the text-to-image operation under the service's base address.
pub const TEXT_TO_IMAGE_PATH: &'static str = "/latent-consistency/text-to-image";

/// The path of the image-to-image operation under the service's base address.
pub const IMAGE_TO_IMAGE_PATH: &'static str = "/latent-consistency/image-to-image";

/// The path of the ControlNet operation under the service's base address.
pub const CONTROLNET_PATH: &'static str = "/stable-diffusion/controlnet";

/// The path of the repaint operation under the service's base address.
pub const REPAINT_PATH: &'static str = "/stable-diffusion/inpaint";

/// The path of the edit operation under the service's base address.
pub const EDIT_PATH: &'static str = "/stable-diffusion/instruct";

/// A request of one of the five operations.
#[derive(Clone, Debug, PartialEq, Eq)]
pub enum GenerationRequest {
    TextToImage(TextToImageRequest),
    ImageToImage(ImageToImageRequest),
    ControlNet(ControlNetRequest),
    Repaint(RepaintImageRequest),
    Edit(EditImageRequest),
}

/// The mathematical content of a [`GenerationRequest`].
pub enum GenerationRequestView {
    TextToImage(TextToImageRequestView),
    ImageToImage(ImageToImageRequestView),
    ControlNet(ControlNetRequestView),
    Repaint(RepaintImageRequestView),
    Edit(EditImageRequestView),
}

impl View for GenerationRequest {
    type V = GenerationRequestView;

    open spec fn view(&self) -> GenerationRequestView {
        match *self {
            GenerationRequest::TextToImage(r) => GenerationRequestView::TextToImage(r@),
            GenerationRequest::ImageToImage(r) => GenerationRequestView::ImageToImage(r@),
            GenerationRequest::ControlNet(r) => GenerationRequestView::ControlNet(r@),
            GenerationRequest::Repaint(r) => GenerationRequestView::Repaint(r@),
            GenerationRequest::Edit(r) => GenerationRequestView::Edit(r@),
        }
    }
}

impl GenerationRequestView {
    /// The path that the operation is posted to.
    pub open spec fn path(self) -> Seq<char> {
        match self {
            GenerationRequestView::TextToImage(_) => TEXT_TO_IMAGE_PATH@,
            GenerationRequestView::ImageToImage(_) => IMAGE_TO_IMAGE_PATH@,
            GenerationRequestView::ControlNet(_) => CONTROLNET_PATH@,
            GenerationRequestView::Repaint(_) => REPAINT_PATH@,
            GenerationRequestView::Edit(_) => EDIT_PATH@,
        }
    }

    /// The fields that the operation sends.
    pub open spec fn payload(self) -> Seq<FieldView> {
        match self {
            GenerationRequestView::TextToImage(r) => r.payload(),
            GenerationRequestView::ImageToImage(r) => r.payload(),
            GenerationRequestView::ControlNet(r) => r.payload(),
            GenerationRequestView::Repaint(r) => r.payload(),
            GenerationRequestView::Edit(r) => r.payload(),
        }
    }
}

impl GenerationRequest {
    /// The path that the operation is posted to.
    pub fn path(&self) -> (p: &'static str)
        ensures
            p@ == self@.path(),
    {
        match self {
            GenerationRequest::TextToImage(_) => TEXT_TO_IMAGE_PATH,
            GenerationRequest::ImageToImage(_) => IMAGE_TO_IMAGE_PATH,
            GenerationRequest::ControlNet(_) => CONTROLNET_PATH,
            GenerationRequest::Repaint(_) => REPAINT_PATH,
            GenerationRequest::Edit(_) => EDIT_PATH,
        }
    }

    /// Lays the request out as the fields to send.
    pub fn payload(&self) -> (p: Payload)
        ensures
            p@ == self@.payload(),
    {
        match self {
            GenerationRequest::TextToImage(r) => r.payload(),
            GenerationRequest::ImageToImage(r) => r.payload(),
            GenerationRequest::ControlNet(r) => r.payload(),
            GenerationRequest::Repaint(r) => r.payload(),
            GenerationRequest::Edit(r) => r.payload(),
        }
    }
}

/// A text-to-image body names exactly the fields of its shape, once each and in
/// order: `negative_prompt` and `seed` only where there is a value to send.
pub proof fn lemma_text_to_image_fields(r: TextToImageRequestView)
    ensures
        names(r.payload()) == seq!["prompt"@, "model"@] + name_if(
            r.negative_prompt is Some,
            "negative_prompt"@,
        ) + seq!["width"@, "height"@, "steps"@, "output_format"@] + name_if(
            r.seed is Some,
            "seed"@,
        ),
{
    assert(names(r.payload()) =~= seq!["prompt"@, "model"@] + name_if(
        r.negative_prompt is Some,
        "negative_prompt"@,
    ) + seq!["width"@, "height"@, "steps"@, "output_format"@] + name_if(r.seed is Some, "seed"@));
}

/// An image-to-image body names exactly the fields of its shape, once each and in
/// order: `negative_prompt`, `strength` and `seed` only where there is a value to send.
pub proof fn lemma_image_to_image_fields(r: ImageToImageRequestView)
    ensures
        names(r.payload()) == seq!["model"@, "prompt"@] + name_if(
            r.negative_prompt is Some,
            "negative_prompt"@,
        ) + seq!["image"@] + name_if(r.strength is Some, "strength"@) + seq![
            "steps"@,
            "output_format"@,
        ] + name_if(r.seed is Some, "seed"@),
{
    assert(names(r.payload()) =~= seq!["model"@, "prompt"@] + name_if(
        r.negative_prompt is Some,
        "negative_prompt"@,
    ) + seq!["image"@] + name_if(r.strength is Some, "strength"@) + seq![
        "steps"@,
        "output_format"@,
    ] + name_if(r.seed is Some, "seed"@));
}

/// A ControlNet body names exactly the fields of its shape, once each and in
/// order: `negative_prompt` only where there is a value to send.
pub proof fn lemma_controlnet_fields(r: ControlNetRequestView)
    ensures
        names(r.payload()) == seq!["controlnet_type"@, "model"@, "prompt"@] + name_if(
            r.negative_prompt is Some,
            "negative_prompt"@,
        ) + seq![
            "image"@,
            "strength"@,
            "width"@,
            "height"@,
            "steps"@,
            "guidance"@,
            "seed"@,
            "scheduler"@,
            "output_format"@,
        ],
{
    assert(names(r.payload()) =~= seq!["controlnet_type"@, "model"@, "prompt"@] + name_if(
        r.negative_prompt is Some,
        "negative_prompt"@,
    ) + seq![
        "image"@,
        "strength"@,
        "width"@,
        "height"@,
        "steps"@,
        "guidance"@,
        "seed"@,
        "scheduler"@,
        "output_format"@,
    ]);
}

/// A repaint body names exactly the fields of its shape, once each and in order:
/// `negative_prompt` and `strength` only where there is a value to send.
pub proof fn lemma_repaint_fields(r: RepaintImageRequestView)
    ensures
        names(r.payload()) == seq!["model"@, "prompt"@] + name_if(
            r.negative_prompt is Some,
            "negative_prompt"@,
        ) + seq!["image"@, "mask_image"@] + name_if(r.strength is Some, "strength"@) + seq![
            "width"@,
            "height"@,
            "steps"@,
            "guidance"@,
            "seed"@,
            "scheduler"@,
            "output_format"@,
        ],
{
    assert(names(r.payload()) =~= seq!["model"@, "prompt"@] + name_if(
        r.negative_prompt is Some,
        "negative_prompt"@,
    ) + seq!["image"@, "mask_image"@] + name_if(r.strength is Some, "strength"@) + seq![
        "width"@,
        "height"@,
        "steps"@,
        "guidance"@,
        "seed"@,
        "scheduler"@,
        "output_format"@,
    ]);
}

/// An edit body names exactly the fields of its shape, once each and in order:
/// `negative_prompt` only where there is a value to send.
pub proof fn lemma_edit_fields(r: EditImageRequestView)
    ensures
        names(r.payload()) == seq!["model"@, "prompt"@] + name_if(
            r.negative_prompt is Some,
            "negative_prompt"@,
        ) + seq![
            "image"@,
            "image_guidance"@,
            "steps"@,
            "guidance"@,
            "seed"@,
            "scheduler"@,
            "output_format"@,
        ],
{
    assert(names(r.payload()) =~= seq!["model"@, "prompt"@] + name_if(
        r.negative_prompt is Some,
        "negative_prompt"@,
    ) + seq![
        "image"@,
        "image_guidance"@,
        "steps"@,
        "guidance"@,
        "seed"@,
        "scheduler"@,
        "output_format"@,
    ]);
}

} // verus!
