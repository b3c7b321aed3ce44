//! The dispatcher: credentials, base address, and one method per operation.
//!
//! A method does not touch the network. It returns the one HTTP POST that the
//! operation consists of; whoever owns the transport sends it and hands what came
//! back to [`crate::response::Outcome::resolve`].

use crate::request::{
    lemma_controlnet_fields, lemma_edit_fields, lemma_image_to_image_fields, lemma_repaint_fields,
    lemma_text_to_image_fields, name_if, names, text_field, ControlNetRequest,
    ControlNetRequestView, EditImageRequest, EditImageRequestView, FieldView, GenerationRequest,
    GenerationRequestView, ImageToImageRequest, ImageToImageRequestView, Payload,
    RepaintImageRequest, RepaintImageRequestView, Scalar, TextToImageRequest,
    TextToImageRequestView,
};
use vstd::prelude::*;
use vstd::string::StringExecFns;

verus! {

/// The versioned root of the service.
pub const BASE_URL: &'static str = "https://api.getimg.ai/v1";

/// The model that every ControlNet call runs.
pub const CONTROLNET_MODEL: &'static str = "stable-diffusion-v1-5";

/// The model that every repaint call runs.
pub const REPAINT_MODEL: &'static str = "stable-diffusion-v1-5-inpainting";

/// The model that every edit call runs.
pub const EDIT_MODEL: &'static str = "instruct-pix2pix";

/// One HTTP header.
#[derive(Clone)]
pub struct Header {
    pub name: String,
    pub value: String,
}

impl View for Header {
    type V = (Seq<char>, Seq<char>);

    open spec fn view(&self) -> (Seq<char>, Seq<char>) {
        (self.name@, self.value@)
    }
}

/// One HTTP POST, ready to be sent: where it goes, the headers it carries, and
/// the fields of its JSON body.
#[derive(Clone)]
pub struct HttpPost {
    pub url: String,
    pub headers: Vec<Header>,
    pub body: Payload,
}

/// The mathematical content of an [`HttpPost`].
pub struct HttpPostView {
    pub url: Seq<char>,
    pub headers: Seq<(Seq<char>, Seq<char>)>,
    pub body: Seq<FieldView>,
}

impl View for HttpPost {
    type V = HttpPostView;

    open spec fn view(&self) -> HttpPostView {
        HttpPostView {
            url: self.url@,
            headers: self.headers@.map_values(|h: Header| h@),
            body: self.body@,
        }
    }
}

/// Client of the GetImg service. It holds no state but its credentials and the
/// address of the service, and no call changes it.
#[derive(Clone)]
pub struct Client {
    /// Key that authenticates every call.
    pub api_key: String,
    /// Model that text-to-image and image-to-image calls run.
    pub model: String,
    /// Address of the service.
    pub api_url: &'static str,
}

/// The mathematical content of a [`Client`].
pub struct ClientView {
    pub api_key: Seq<char>,
    pub model: Seq<char>,
    pub api_url: Seq<char>,
}

impl View for Client {
    type V = ClientView;

    open spec fn view(&self) -> ClientView {
        ClientView { api_key: self.api_key@, model: self.model@, api_url: self.api_url@ }
    }
}

impl ClientView {
    /// The headers that every call carries.
    pub open spec fn headers(self) -> Seq<(Seq<char>, Seq<char>)> {
        seq![
            ("Accept"@, "application/json"@),
            ("Authorization"@, "Bearer "@ + self.api_key),
            ("Content-Type"@, "application/json"@),
        ]
    }

    /// The POST that carries `request`.
    pub open spec fn post(self, request: GenerationRequestView) -> HttpPostView {
        HttpPostView {
            url: self.api_url + request.path(),
            headers: self.headers(),
            body: request.payload(),
        }
    }

    /// The text-to-image request for the given arguments. It runs the client's own model.
    pub open spec fn text_to_image(
        self,
        prompt: Seq<char>,
        width: usize,
        height: usize,
        steps: usize,
        output_format: Seq<char>,
        negative_prompt: Option<Seq<char>>,
        seed: Option<usize>,
    ) -> GenerationRequestView {
        GenerationRequestView::TextToImage(
            TextToImageRequestView {
                prompt,
                model: self.model,
                negative_prompt,
                width,
                height,
                steps,
                output_format,
                seed,
            },
        )
    }

    /// The image-to-image request for the given arguments. It runs the client's own
    /// model and always sends the seed.
    pub open spec fn image_to_image(
        self,
        prompt: Seq<char>,
        image: Seq<char>,
        steps: usize,
        seed: usize,
        output_format: Seq<char>,
        negative_prompt: Option<Seq<char>>,
        strength: Option<Scalar>,
    ) -> GenerationRequestView {
        GenerationRequestView::ImageToImage(
            ImageToImageRequestView {
                model: self.model,
                prompt,
                negative_prompt,
                image,
                strength,
                steps,
                output_format,
                seed: Some(seed),
            },
        )
    }

    /// The ControlNet request for the given arguments. It runs [`CONTROLNET_MODEL`],
    /// whatever the client's own model is, and always sends the negative prompt.
    pub open spec fn controlnet(
        self,
        controlnet_type: Seq<char>,
        prompt: Seq<char>,
        negative_prompt: Seq<char>,
        image: Seq<char>,
        strength: Scalar,
        width: usize,
        height: usize,
        steps: usize,
        guidance: Scalar,
        seed: usize,
        scheduler: Seq<char>,
        output_format: Seq<char>,
    ) -> GenerationRequestView {
        GenerationRequestView::ControlNet(
            ControlNetRequestView {
                controlnet_type,
                model: CONTROLNET_MODEL@,
                prompt,
                negative_prompt: Some(negative_prompt),
                image,
                strength,
                width,
                height,
                steps,
                guidance,
                seed,
                scheduler,
                output_format,
            },
        )
    }

    /// The repaint request for the given arguments. It runs [`REPAINT_MODEL`],
    /// whatever the client's own model is.
    pub open spec fn repaint(
        self,
        prompt: Seq<char>,
        negative_prompt: Option<Seq<char>>,
        image: Seq<char>,
        mask_image: Seq<char>,
        strength: Option<Scalar>,
        width: usize,
        height: usize,
        steps: usize,
        guidance: Scalar,
        seed: usize,
        scheduler: Seq<char>,
        output_format: Seq<char>,
    ) -> GenerationRequestView {
        GenerationRequestView::Repaint(
            RepaintImageRequestView {
                model: REPAINT_MODEL@,
                prompt,
                negative_prompt,
                image,
                mask_image,
                strength,
                width,
                height,
                steps,
                guidance,
                seed,
                scheduler,
                output_format,
            },
        )
    }

    /// The edit request for the given arguments. It runs [`EDIT_MODEL`], whatever
    /// the client's own model is.
    pub open spec fn edit(
        self,
        prompt: Seq<char>,
        negative_prompt: Option<Seq<char>>,
        image: Seq<char>,
        image_guidance: Scalar,
        steps: usize,
        guidance: Scalar,
        seed: usize,
        scheduler: Seq<char>,
        output_format: Seq<char>,
    ) -> GenerationRequestView {
        GenerationRequestView::Edit(
            EditImageRequestView {
                model: EDIT_MODEL@,
                prompt,
                negative_prompt,
                image,
                image_guidance,
                steps,
                guidance,
                seed,
                scheduler,
                output_format,
            },
        )
    }
}

/// What `{:?}` shows of a text: the text in double quotes, with the characters
/// escaped that `<str as Debug>::fmt` of std escapes.
pub uninterp spec fn quoted(text: Seq<char>) -> Seq<char>;

/// Calls `format!` of std with `{:?}` on a `&str`, that is `<str as Debug>::fmt`.
///
/// Trusted: what it returns depends on the text alone. Nothing more is claimed
/// of it; the escaping is std's.
#[verifier::external_body]
fn quote(text: &str) -> (shown: String)
    ensures
        shown@ == quoted(text@),
{
    format!("{:?}", text)
}

/// An owned copy of a text that may be absent.
fn owned(text: Option<&str>) -> (copy: Option<String>)
    ensures
        copy.deep_view() == text.deep_view(),
{
    match text {
        Some(t) => Some(t.to_owned()),
        None => None,
    }
}

impl Client {
    /// A client for the service at [`BASE_URL`].
    pub fn new(api_key: &str, model: &str) -> (client: Client)
        ensures
            client@.api_key == api_key@,
            client@.model == model@,
            client@.api_url == BASE_URL@,
    {
        Client { api_key: api_key.to_owned(), model: model.to_owned(), api_url: BASE_URL }
    }

    /// The debug text of a client whose model is shown as `shown_model`.
    pub fn debug_text_around(shown_model: &str) -> (text: String)
        ensures
            text@ == "Client { model: "@ + shown_model@ + " }"@,
    {
        "Client { model: ".to_owned().concat(shown_model).concat(" }")
    }

    /// What is shown of the client for debugging: its model, and nothing of its
    /// API key.
    pub fn debug_text(&self) -> (text: String)
        ensures
            text@ == "Client { model: "@ + quoted(self@.model) + " }"@,
    {
        Client::debug_text_around(quote(self.model.as_str()).as_str())
    }

    /// The headers that every call carries.
    pub fn headers(&self) -> (headers: Vec<Header>)
        ensures
            headers@.map_values(|h: Header| h@) == self@.headers(),
    {
        let mut headers: Vec<Header> = Vec::new();
        headers.push(Header { name: "Accept".to_owned(), value: "application/json".to_owned() });
        headers.push(
            Header {
                name: "Authorization".to_owned(),
                value: "Bearer ".to_owned().concat(self.api_key.as_str()),
            },
        );
        headers.push(
            Header { name: "Content-Type".to_owned(), value: "application/json".to_owned() },
        );
        assert(headers@.map_values(|h: Header| h@) =~= self@.headers());
        headers
    }

    /// The POST that carries `request`.
    pub fn post(&self, request: &GenerationRequest) -> (post: HttpPost)
        ensures
            post@ == self@.post(request@),
    {
        HttpPost {
            url: self.api_url.to_owned().concat(request.path()),
            headers: self.headers(),
            body: request.payload(),
        }
    }

    /// The call that generates an image from a text prompt, with the client's model.
    /// An absent negative prompt or seed is left out of the body.
    pub fn generate_image_from_text(
        &self,
        prompt: &str,
        width: usize,
        height: usize,
        steps: usize,
        output_format: &str,
        negative_prompt: Option<&str>,
        seed: Option<usize>,
    ) -> (post: HttpPost)
        ensures
            post@ == self@.post(
                self@.text_to_image(
                    prompt@,
                    width,
                    height,
                    steps,
                    output_format@,
                    negative_prompt.deep_view(),
                    seed,
                ),
            ),
            post@.url == self@.api_url + "/latent-consistency/text-to-image"@,
            post@.headers == self@.headers(),
            names(post@.body) == seq!["prompt"@, "model"@] + name_if(
                negative_prompt is Some,
                "negative_prompt"@,
            ) + seq!["width"@, "height"@, "steps"@, "output_format"@] + name_if(
                seed is Some,
                "seed"@,
            ),
            post@.body[1] == text_field("model"@, self@.model),
    {
        proof {
            lemma_text_to_image_fields(
                self@.text_to_image(
                    prompt@,
                    width,
                    height,
                    steps,
                    output_format@,
                    negative_prompt.deep_view(),
                    seed,
                )->TextToImage_0,
            );
        }
        let request = TextToImageRequest {
            prompt: prompt.to_owned(),
            model: self.model.clone(),
            negative_prompt: owned(negative_prompt),
            width,
            height,
            steps,
            output_format: output_format.to_owned(),
            seed,
        };
        self.post(&GenerationRequest::TextToImage(request))
    }

    /// The call that generates an image from a reference image and a prompt, with
    /// the client's model. An absent negative prompt or strength is left out of the
    /// body.
    pub fn generate_image_from_image(
        &self,
        prompt: &str,
        image_data: &str,
        steps: usize,
        seed: usize,
        output_format: &str,
        negative_prompt: Option<&str>,
        strength: Option<Scalar>,
    ) -> (post: HttpPost)
        ensures
            post@ == self@.post(
                self@.image_to_image(
                    prompt@,
                    image_data@,
                    steps,
                    seed,
                    output_format@,
                    negative_prompt.deep_view(),
                    strength,
                ),
            ),
            post@.url == self@.api_url + "/latent-consistency/image-to-image"@,
            post@.headers == self@.headers(),
            names(post@.body) == seq!["model"@, "prompt"@] + name_if(
                negative_prompt is Some,
                "negative_prompt"@,
            ) + seq!["image"@] + name_if(strength is Some, "strength"@) + seq![
                "steps"@,
                "output_format"@,
                "seed"@,
            ],
            post@.body[0] == text_field("model"@, self@.model),
    {
        proof {
            let r = self@.image_to_image(
                prompt@,
                image_data@,
                steps,
                seed,
                output_format@,
                negative_prompt.deep_view(),
                strength,
            )->ImageToImage_0;
            lemma_image_to_image_fields(r);
            assert(names(r.payload()) =~= seq!["model"@, "prompt"@] + name_if(
                negative_prompt is Some,
                "negative_prompt"@,
            ) + seq!["image"@] + name_if(strength is Some, "strength"@) + seq![
                "steps"@,
                "output_format"@,
                "seed"@,
            ]);
        }
        let request = ImageToImageRequest {
            model: self.model.clone(),
            prompt: prompt.to_owned(),
            negative_prompt: owned(negative_prompt),
            image: image_data.to_owned(),
            strength,
            steps,
            output_format: output_format.to_owned(),
            seed: Some(seed),
        };
        self.post(&GenerationRequest::ImageToImage(request))
    }

    /// The call that generates an image under ControlNet conditioning. It runs
    /// [`CONTROLNET_MODEL`]; a caller who wants another model writes the request
    /// out and hands it to [`Client::post`].
    pub fn generate_image_using_controlnet(
        &self,
        controlnet: &str,
        prompt: &str,
        negative_prompt: &str,
        image: &str,
        strength: Scalar,
        width: usize,
        height: usize,
        steps: usize,
        guidance: Scalar,
        seed: usize,
        scheduler: &str,
        output_format: &str,
    ) -> (post: HttpPost)
        ensures
            post@ == self@.post(
                self@.controlnet(
                    controlnet@,
                    prompt@,
                    negative_prompt@,
                    image@,
                    strength,
                    width,
                    height,
                    steps,
                    guidance,
                    seed,
                    scheduler@,
                    output_format@,
                ),
            ),
            post@.url == self@.api_url + "/stable-diffusion/controlnet"@,
            post@.headers == self@.headers(),
            names(post@.body) == seq![
                "controlnet_type"@,
                "model"@,
                "prompt"@,
                "negative_prompt"@,
                "image"@,
                "strength"@,
                "width"@,
                "height"@,
                "steps"@,
                "guidance"@,
                "seed"@,
                "scheduler"@,
                "output_format"@,
            ],
            post@.body[1] == text_field("model"@, "stable-diffusion-v1-5"@),
    {
        proof {
            let r = self@.controlnet(
                controlnet@,
                prompt@,
                negative_prompt@,
                image@,
                strength,
                width,
                height,
                steps,
                guidance,
                seed,
                scheduler@,
                output_format@,
            )->ControlNet_0;
            lemma_controlnet_fields(r);
            assert(names(r.payload()) =~= seq![
                "controlnet_type"@,
                "model"@,
                "prompt"@,
                "negative_prompt"@,
                "image"@,
                "strength"@,
                "width"@,
                "height"@,
                "steps"@,
                "guidance"@,
                "seed"@,
                "scheduler"@,
                "output_format"@,
            ]);
        }
        let request = ControlNetRequest {
            controlnet_type: controlnet.to_owned(),
            model: CONTROLNET_MODEL.to_owned(),
            prompt: prompt.to_owned(),
            negative_prompt: Some(negative_prompt.to_owned()),
            image: image.to_owned(),
            strength,
            width,
            height,
            steps,
            guidance,
            seed,
            scheduler: scheduler.to_owned(),
            output_format: output_format.to_owned(),
        };
        self.post(&GenerationRequest::ControlNet(request))
    }

    /// The call that repaints the masked area of an image. It runs
    /// [`REPAINT_MODEL`]; a caller who wants another model writes the request out
    /// and hands it to [`Client::post`].
    pub fn generate_repainted_image(
        &self,
        prompt: &str,
        negative_prompt: Option<&str>,
        image_data: &str,
        mask_image_data: &str,
        strength: Option<Scalar>,
        width: usize,
        height: usize,
        steps: usize,
        guidance: Scalar,
        seed: usize,
        scheduler: &str,
        output_format: &str,
    ) -> (post: HttpPost)
        ensures
            post@ == self@.post(
                self@.repaint(
                    prompt@,
                    negative_prompt.deep_view(),
                    image_data@,
                    mask_image_data@,
                    strength,
                    width,
                    height,
                    steps,
                    guidance,
                    seed,
                    scheduler@,
                    output_format@,
                ),
            ),
            post@.url == self@.api_url + "/stable-diffusion/inpaint"@,
            post@.headers == self@.headers(),
            names(post@.body) == seq!["model"@, "prompt"@] + name_if(
                negative_prompt is Some,
                "negative_prompt"@,
            ) + seq!["image"@, "mask_image"@] + name_if(strength is Some, "strength"@) + seq![
                "width"@,
                "height"@,
                "steps"@,
                "guidance"@,
                "seed"@,
                "scheduler"@,
                "output_format"@,
            ],
            post@.body[0] == text_field("model"@, "stable-diffusion-v1-5-inpainting"@),
    {
        proof {
            lemma_repaint_fields(
                self@.repaint(
                    prompt@,
                    negative_prompt.deep_view(),
                    image_data@,
                    mask_image_data@,
                    strength,
                    width,
                    height,
                    steps,
                    guidance,
                    seed,
                    scheduler@,
                    output_format@,
                )->Repaint_0,
            );
        }
        let request = RepaintImageRequest {
            model: REPAINT_MODEL.to_owned(),
            prompt: prompt.to_owned(),
            negative_prompt: owned(negative_prompt),
            image: image_data.to_owned(),
            mask_image: mask_image_data.to_owned(),
            strength,
            width,
            height,
            steps,
            guidance,
            seed,
            scheduler: scheduler.to_owned(),
            output_format: output_format.to_owned(),
        };
        self.post(&GenerationRequest::Repaint(request))
    }

    /// The call that edits an image as an instruction says. It runs
    /// [`EDIT_MODEL`]; a caller who wants another model writes the request out and
    /// hands it to [`Client::post`].
    pub fn generate_edited_image(
        &self,
        prompt: &str,
        negative_prompt: Option<&str>,
        image_data: &str,
        image_guidance: Scalar,
        steps: usize,
        guidance: Scalar,
        seed: usize,
        scheduler: &str,
        output_format: &str,
    ) -> (post: HttpPost)
        ensures
            post@ == self@.post(
                self@.edit(
                    prompt@,
                    negative_prompt.deep_view(),
                    image_data@,
                    image_guidance,
                    steps,
                    guidance,
                    seed,
                    scheduler@,
                    output_format@,
                ),
            ),
            post@.url == self@.api_url + "/stable-diffusion/instruct"@,
            post@.headers == self@.headers(),
            names(post@.body) == seq!["model"@, "prompt"@] + name_if(
                negative_prompt is Some,
                "negative_prompt"@,
            ) + seq![
                "image"@,
                "image_guidance"@,
                "steps"@,
                "guidance"@,
                "seed"@,
                "scheduler"@,
                "output_format"@,
            ],
            post@.body[0] == text_field("model"@, "instruct-pix2pix"@),
    {
        proof {
            lemma_edit_fields(
                self@.edit(
                    prompt@,
                    negative_prompt.deep_view(),
                    image_data@,
                    image_guidance,
                    steps,
                    guidance,
                    seed,
                    scheduler@,
                    output_format@,
                )->Edit_0,
            );
        }
        let request = EditImageRequest {
            model: EDIT_MODEL.to_owned(),
            prompt: prompt.to_owned(),
            negative_prompt: owned(negative_prompt),
            image: image_data.to_owned(),
            image_guidance,
            steps,
            guidance,
            seed,
            scheduler: scheduler.to_owned(),
            output_format: output_format.to_owned(),
        };
        self.post(&GenerationRequest::Edit(request))
    }
}

} // verus!
