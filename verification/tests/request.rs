use getimg::request::{
    ControlNetRequest, EditImageRequest, Field, GenerationRequest, ImageToImageRequest, Payload,
    RepaintImageRequest, Scalar, TextToImageRequest, Value,
};

fn scalar(x: f64) -> Scalar {
    Scalar { bits: x.to_bits() }
}

fn text(name: &str, value: &str) -> Field {
    Field { name: name.to_string(), value: Value::Text(value.to_string()) }
}

fn integer(name: &str, value: usize) -> Field {
    Field { name: name.to_string(), value: Value::Integer(value) }
}

fn number(name: &str, value: f64) -> Field {
    Field { name: name.to_string(), value: Value::Scalar(scalar(value)) }
}

fn names(payload: &Payload) -> Vec<&str> {
    payload.fields.iter().map(|f| f.name.as_str()).collect()
}

fn text_to_image() -> TextToImageRequest {
    TextToImageRequest {
        prompt: "a photo of an astronaut riding a horse on mars".to_string(),
        model: "lcm-realistic-vision-v5-1".to_string(),
        negative_prompt: Some("Disfigured, cartoon, blurry".to_string()),
        width: 1024,
        height: 512,
        steps: 4,
        output_format: "jpeg".to_string(),
        seed: Some(512),
    }
}

#[test]
fn payload_builders_append_in_order() {
    let mut p = Payload::new();
    assert!(p.fields.is_empty());
    p.text("a", "x");
    p.integer("b", 7);
    p.scalar("c", scalar(0.5));
    assert_eq!(p.fields, vec![text("a", "x"), integer("b", 7), number("c", 0.5)]);
}

#[test]
fn payload_builders_leave_absent_values_out() {
    let mut p = Payload::new();
    p.optional_text("a", &None);
    p.optional_integer("b", None);
    p.optional_scalar("c", None);
    assert!(p.fields.is_empty());
    p.optional_text("a", &Some("x".to_string()));
    p.optional_integer("b", Some(7));
    p.optional_scalar("c", Some(scalar(0.5)));
    assert_eq!(p.fields, vec![text("a", "x"), integer("b", 7), number("c", 0.5)]);
}

#[test]
fn text_to_image_payload_in_full() {
    assert_eq!(
        text_to_image().payload().fields,
        vec![
            text("prompt", "a photo of an astronaut riding a horse on mars"),
            text("model", "lcm-realistic-vision-v5-1"),
            text("negative_prompt", "Disfigured, cartoon, blurry"),
            integer("width", 1024),
            integer("height", 512),
            integer("steps", 4),
            text("output_format", "jpeg"),
            integer("seed", 512),
        ]
    );
}

#[test]
fn text_to_image_payload_without_the_optional_fields() {
    let request = TextToImageRequest { negative_prompt: None, seed: None, ..text_to_image() };
    assert_eq!(
        names(&request.payload()),
        vec!["prompt", "model", "width", "height", "steps", "output_format"]
    );
    let request = TextToImageRequest { negative_prompt: None, ..text_to_image() };
    assert_eq!(
        names(&request.payload()),
        vec!["prompt", "model", "width", "height", "steps", "output_format", "seed"]
    );
    let request = TextToImageRequest { seed: None, ..text_to_image() };
    assert_eq!(
        names(&request.payload()),
        vec!["prompt", "model", "negative_prompt", "width", "height", "steps", "output_format"]
    );
}

#[test]
fn image_to_image_payload() {
    let request = ImageToImageRequest {
        model: "m".to_string(),
        prompt: "p".to_string(),
        negative_prompt: Some("n".to_string()),
        image: "QQ==".to_string(),
        strength: Some(scalar(0.5)),
        steps: 4,
        output_format: "jpeg".to_string(),
        seed: Some(512),
    };
    assert_eq!(
        request.payload().fields,
        vec![
            text("model", "m"),
            text("prompt", "p"),
            text("negative_prompt", "n"),
            text("image", "QQ=="),
            number("strength", 0.5),
            integer("steps", 4),
            text("output_format", "jpeg"),
            integer("seed", 512),
        ]
    );
    let bare = ImageToImageRequest { negative_prompt: None, strength: None, seed: None, ..request };
    assert_eq!(names(&bare.payload()), vec!["model", "prompt", "image", "steps", "output_format"]);
}

#[test]
fn controlnet_payload() {
    let request = ControlNetRequest {
        controlnet_type: "softedge-1.1".to_string(),
        model: "stable-diffusion-v1-5".to_string(),
        prompt: "p".to_string(),
        negative_prompt: Some("n".to_string()),
        image: "QQ==".to_string(),
        strength: scalar(1.0),
        width: 512,
        height: 256,
        steps: 25,
        guidance: scalar(7.5),
        seed: 512,
        scheduler: "euler".to_string(),
        output_format: "png".to_string(),
    };
    assert_eq!(
        request.payload().fields,
        vec![
            text("controlnet_type", "softedge-1.1"),
            text("model", "stable-diffusion-v1-5"),
            text("prompt", "p"),
            text("negative_prompt", "n"),
            text("image", "QQ=="),
            number("strength", 1.0),
            integer("width", 512),
            integer("height", 256),
            integer("steps", 25),
            number("guidance", 7.5),
            integer("seed", 512),
            text("scheduler", "euler"),
            text("output_format", "png"),
        ]
    );
    let bare = ControlNetRequest { negative_prompt: None, ..request };
    assert_eq!(
        names(&bare.payload()),
        vec![
            "controlnet_type",
            "model",
            "prompt",
            "image",
            "strength",
            "width",
            "height",
            "steps",
            "guidance",
            "seed",
            "scheduler",
            "output_format"
        ]
    );
}

#[test]
fn repaint_payload() {
    let request = RepaintImageRequest {
        model: "stable-diffusion-v1-5-inpainting".to_string(),
        prompt: "p".to_string(),
        negative_prompt: Some("n".to_string()),
        image: "QQ==".to_string(),
        mask_image: "Qg==".to_string(),
        strength: Some(scalar(1.0)),
        width: 512,
        height: 256,
        steps: 25,
        guidance: scalar(7.5),
        seed: 512,
        scheduler: "euler".to_string(),
        output_format: "png".to_string(),
    };
    assert_eq!(
        request.payload().fields,
        vec![
            text("model", "stable-diffusion-v1-5-inpainting"),
            text("prompt", "p"),
            text("negative_prompt", "n"),
            text("image", "QQ=="),
            text("mask_image", "Qg=="),
            number("strength", 1.0),
            integer("width", 512),
            integer("height", 256),
            integer("steps", 25),
            number("guidance", 7.5),
            integer("seed", 512),
            text("scheduler", "euler"),
            text("output_format", "png"),
        ]
    );
    let bare = RepaintImageRequest { negative_prompt: None, strength: None, ..request };
    assert_eq!(
        names(&bare.payload()),
        vec![
            "model",
            "prompt",
            "image",
            "mask_image",
            "width",
            "height",
            "steps",
            "guidance",
            "seed",
            "scheduler",
            "output_format"
        ]
    );
}

#[test]
fn edit_payload() {
    let request = EditImageRequest {
        model: "instruct-pix2pix".to_string(),
        prompt: "p".to_string(),
        negative_prompt: Some("n".to_string()),
        image: "QQ==".to_string(),
        image_guidance: scalar(1.5),
        steps: 25,
        guidance: scalar(7.5),
        seed: 54,
        scheduler: "ddim".to_string(),
        output_format: "png".to_string(),
    };
    assert_eq!(
        request.payload().fields,
        vec![
            text("model", "instruct-pix2pix"),
            text("prompt", "p"),
            text("negative_prompt", "n"),
            text("image", "QQ=="),
            number("image_guidance", 1.5),
            integer("steps", 25),
            number("guidance", 7.5),
            integer("seed", 54),
            text("scheduler", "ddim"),
            text("output_format", "png"),
        ]
    );
    let bare = EditImageRequest { negative_prompt: None, ..request };
    assert_eq!(
        names(&bare.payload()),
        vec![
            "model",
            "prompt",
            "image",
            "image_guidance",
            "steps",
            "guidance",
            "seed",
            "scheduler",
            "output_format"
        ]
    );
}

#[test]
fn each_operation_has_its_own_path() {
    let t = text_to_image();
    let request = GenerationRequest::TextToImage(t.clone());
    assert_eq!(request.path(), "/latent-consistency/text-to-image");
    assert_eq!(request.payload(), t.payload());
    assert_eq!(getimg::request::TEXT_TO_IMAGE_PATH, "/latent-consistency/text-to-image");
    assert_eq!(getimg::request::IMAGE_TO_IMAGE_PATH, "/latent-consistency/image-to-image");
    assert_eq!(getimg::request::CONTROLNET_PATH, "/stable-diffusion/controlnet");
    assert_eq!(getimg::request::REPAINT_PATH, "/stable-diffusion/inpaint");
    assert_eq!(getimg::request::EDIT_PATH, "/stable-diffusion/instruct");
}

#[test]
fn a_scalar_keeps_every_bit() {
    for x in [0.0, -0.0, 0.002, 7.5, f64::MAX, f64::MIN_POSITIVE, f64::INFINITY] {
        assert_eq!(f64::from_bits(scalar(x).bits).to_bits(), x.to_bits());
    }
    assert!(f64::from_bits(scalar(f64::NAN).bits).is_nan());
}
