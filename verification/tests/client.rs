use getimg::client::{Client, HttpPost, BASE_URL};
use getimg::request::{
    EditImageRequest, Field, GenerationRequest, Payload, Scalar, TextToImageRequest, Value,
};
use getimg::response::{Body, Error, Json, Member, Outcome, ToImageResponse};
use getimg::utils::{decode, encode};

fn scalar(x: f64) -> Scalar {
    Scalar { bits: x.to_bits() }
}

fn text(name: &str, value: &str) -> Field {
    Field { name: name.to_string(), value: Value::Text(value.to_string()) }
}

fn integer(name: &str, value: usize) -> Field {
    Field { name: name.to_string(), value: Value::Integer(value) }
}

fn number(name: &str, value: f64) -> Field {
    Field { name: name.to_string(), value: Value::Scalar(scalar(value)) }
}

fn headers(post: &HttpPost) -> Vec<(&str, &str)> {
    post.headers.iter().map(|h| (h.name.as_str(), h.value.as_str())).collect()
}

/// Writes a body as the transport does: as one JSON object, field by field.
fn json(payload: &Payload) -> serde_json::Value {
    let mut object = serde_json::Map::new();
    for field in &payload.fields {
        let value = match &field.value {
            Value::Text(s) => serde_json::Value::from(s.as_str()),
            Value::Integer(n) => serde_json::Value::from(*n),
            Value::Scalar(x) => serde_json::Value::from(f64::from_bits(x.bits)),
        };
        assert!(object.insert(field.name.clone(), value).is_none());
    }
    serde_json::Value::Object(object)
}

fn parsed(body: &str) -> serde_json::Value {
    serde_json::from_str(body).unwrap()
}

/// A service that answers every call with the same image.
fn image_reply(image: &str) -> Outcome {
    Outcome::Reply {
        status: 200,
        text: String::new(),
        json: Body::Object(vec![Member {
            name: "image".to_string(),
            value: Json::Text(image.to_string()),
        }]),
    }
}

#[test]
fn new_client_holds_what_it_was_given() {
    let client = Client::new("key", "lcm-realistic-vision-v5-1");
    assert_eq!(client.api_key, "key");
    assert_eq!(client.model, "lcm-realistic-vision-v5-1");
    assert_eq!(client.api_url, "https://api.getimg.ai/v1");
    assert_eq!(BASE_URL, "https://api.getimg.ai/v1");
}

#[test]
fn debug_text_shows_the_model_and_hides_the_key() {
    let client = Client::new("sk-secret", "lcm-realistic-vision-v5-1");
    assert_eq!(client.debug_text(), "Client { model: \"lcm-realistic-vision-v5-1\" }");
    assert!(!client.debug_text().contains("sk-secret"));
    assert_eq!(Client::new("k", "").debug_text(), "Client { model: \"\" }");
    assert_eq!(Client::debug_text_around("\"m\""), "Client { model: \"m\" }");
    assert_eq!(Client::debug_text_around(""), "Client { model:  }");
}

#[test]
fn debug_text_escapes_the_model_as_debug_does() {
    let model = "a\"b\\c\nd";
    let client = Client::new("k", model);
    assert_eq!(client.debug_text(), "Client { model: \"a\\\"b\\\\c\\nd\" }");
    assert_eq!(client.debug_text(), format!("Client {{ model: {:?} }}", model));
}

#[test]
fn every_call_carries_the_three_headers() {
    let client = Client::new("sk-123", "m");
    let expected = vec![
        ("Accept", "application/json"),
        ("Authorization", "Bearer sk-123"),
        ("Content-Type", "application/json"),
    ];
    let one = scalar(1.0);
    let posts = vec![
        client.generate_image_from_text("p", 1, 1, 1, "png", None, None),
        client.generate_image_from_image("p", "i", 1, 1, "png", None, None),
        client.generate_image_using_controlnet("c", "p", "n", "i", one, 1, 1, 1, one, 1, "s", "png"),
        client.generate_repainted_image("p", None, "i", "m", None, 1, 1, 1, one, 1, "s", "png"),
        client.generate_edited_image("p", None, "i", one, 1, one, 1, "s", "png"),
    ];
    for post in &posts {
        assert_eq!(headers(post), expected);
    }
    let h = client.headers();
    assert_eq!(h.len(), 3);
    assert_eq!(h[1].value, "Bearer sk-123");
}

#[test]
fn an_empty_key_is_sent_as_it_is() {
    let post = Client::new("", "m").generate_image_from_text("p", 1, 1, 1, "png", None, None);
    assert_eq!(headers(&post)[1], ("Authorization", "Bearer "));
}

#[test]
fn text_to_image_call() {
    let client = Client::new("key", "lcm-realistic-vision-v5-1");
    let post = client.generate_image_from_text(
        "Rusty crab on the beach",
        512,
        256,
        4,
        "jpeg",
        None,
        Some(512),
    );
    assert_eq!(post.url, "https://api.getimg.ai/v1/latent-consistency/text-to-image");
    assert_eq!(
        post.body.fields,
        vec![
            text("prompt", "Rusty crab on the beach"),
            text("model", "lcm-realistic-vision-v5-1"),
            integer("width", 512),
            integer("height", 256),
            integer("steps", 4),
            text("output_format", "jpeg"),
            integer("seed", 512),
        ]
    );
    assert_eq!(
        json(&post.body),
        parsed(
            r#"{"prompt":"Rusty crab on the beach","model":"lcm-realistic-vision-v5-1",
                "width":512,"height":256,"steps":4,"output_format":"jpeg","seed":512}"#
        )
    );
}

#[test]
fn text_to_image_call_sends_no_null() {
    let client = Client::new("key", "m");
    let post = client.generate_image_from_text("p", 512, 512, 4, "jpeg", None, None);
    assert_eq!(
        json(&post.body),
        parsed(r#"{"prompt":"p","model":"m","width":512,"height":512,"steps":4,"output_format":"jpeg"}"#)
    );
    let post = client.generate_image_from_text("p", 512, 512, 4, "jpeg", Some("n"), None);
    assert_eq!(
        json(&post.body),
        parsed(
            r#"{"prompt":"p","model":"m","negative_prompt":"n","width":512,"height":512,"steps":4,
                "output_format":"jpeg"}"#
        )
    );
}

#[test]
fn image_to_image_call() {
    let client = Client::new("key", "lcm-realistic-vision-v5-1");
    let post = client.generate_image_from_image(
        "a photo of an astronaut riding a crab on mars",
        "QQ==",
        5,
        512,
        "png",
        None,
        Some(scalar(0.5)),
    );
    assert_eq!(post.url, "https://api.getimg.ai/v1/latent-consistency/image-to-image");
    assert_eq!(
        post.body.fields,
        vec![
            text("model", "lcm-realistic-vision-v5-1"),
            text("prompt", "a photo of an astronaut riding a crab on mars"),
            text("image", "QQ=="),
            number("strength", 0.5),
            integer("steps", 5),
            text("output_format", "png"),
            integer("seed", 512),
        ]
    );
    let post = client.generate_image_from_image("p", "QQ==", 5, 0, "png", Some("n"), None);
    assert_eq!(
        json(&post.body),
        parsed(
            r#"{"model":"lcm-realistic-vision-v5-1","prompt":"p","negative_prompt":"n","image":"QQ==",
                "steps":5,"output_format":"png","seed":0}"#
        )
    );
}

#[test]
fn controlnet_call() {
    let client = Client::new("key", "lcm-realistic-vision-v5-1");
    let post = client.generate_image_using_controlnet(
        "softedge-1.1",
        "a photo of an astronaut riding a crab on mars",
        "Disfigured, cartoon, blurry",
        "QQ==",
        scalar(1.0),
        512,
        256,
        25,
        scalar(7.5),
        512,
        "euler",
        "png",
    );
    assert_eq!(post.url, "https://api.getimg.ai/v1/stable-diffusion/controlnet");
    assert_eq!(
        post.body.fields,
        vec![
            text("controlnet_type", "softedge-1.1"),
            text("model", "stable-diffusion-v1-5"),
            text("prompt", "a photo of an astronaut riding a crab on mars"),
            text("negative_prompt", "Disfigured, cartoon, blurry"),
            text("image", "QQ=="),
            number("strength", 1.0),
            integer("width", 512),
            integer("height", 256),
            integer("steps", 25),
            number("guidance", 7.5),
            integer("seed", 512),
            text("scheduler", "euler"),
            text("output_format", "png"),
        ]
    );
}

#[test]
fn repaint_call() {
    let client = Client::new("key", "lcm-realistic-vision-v5-1");
    let post = client.generate_repainted_image(
        "p",
        Some("n"),
        "QQ==",
        "Qg==",
        Some(scalar(1.0)),
        512,
        256,
        25,
        scalar(7.5),
        512,
        "euler",
        "png",
    );
    assert_eq!(post.url, "https://api.getimg.ai/v1/stable-diffusion/inpaint");
    assert_eq!(
        post.body.fields,
        vec![
            text("model", "stable-diffusion-v1-5-inpainting"),
            text("prompt", "p"),
            text("negative_prompt", "n"),
            text("image", "QQ=="),
            text("mask_image", "Qg=="),
            number("strength", 1.0),
            integer("width", 512),
            integer("height", 256),
            integer("steps", 25),
            number("guidance", 7.5),
            integer("seed", 512),
            text("scheduler", "euler"),
            text("output_format", "png"),
        ]
    );
    let post = client.generate_repainted_image(
        "p",
        None,
        "QQ==",
        "Qg==",
        None,
        512,
        256,
        25,
        scalar(7.5),
        512,
        "euler",
        "png",
    );
    assert_eq!(
        json(&post.body),
        parsed(
            r#"{"model":"stable-diffusion-v1-5-inpainting","prompt":"p","image":"QQ==",
                "mask_image":"Qg==","width":512,"height":256,"steps":25,"guidance":7.5,"seed":512,
                "scheduler":"euler","output_format":"png"}"#
        )
    );
}

#[test]
fn edit_call() {
    let client = Client::new("key", "lcm-realistic-vision-v5-1");
    let post = client.generate_edited_image(
        "make it snow",
        Some("n"),
        "QQ==",
        scalar(1.5),
        25,
        scalar(7.5),
        54,
        "ddim",
        "png",
    );
    assert_eq!(post.url, "https://api.getimg.ai/v1/stable-diffusion/instruct");
    assert_eq!(
        post.body.fields,
        vec![
            text("model", "instruct-pix2pix"),
            text("prompt", "make it snow"),
            text("negative_prompt", "n"),
            text("image", "QQ=="),
            number("image_guidance", 1.5),
            integer("steps", 25),
            number("guidance", 7.5),
            integer("seed", 54),
            text("scheduler", "ddim"),
            text("output_format", "png"),
        ]
    );
    let post =
        client.generate_edited_image("p", None, "QQ==", scalar(1.5), 25, scalar(7.5), 54, "ddim", "png");
    assert_eq!(
        json(&post.body),
        parsed(
            r#"{"model":"instruct-pix2pix","prompt":"p","image":"QQ==","image_guidance":1.5,"steps":25,
                "guidance":7.5,"seed":54,"scheduler":"ddim","output_format":"png"}"#
        )
    );
}

#[test]
fn post_of_a_request_written_out_by_name() {
    let client = Client::new("key", "m");
    let request = TextToImageRequest {
        prompt: "p".to_string(),
        model: "another-model".to_string(),
        width: 512,
        height: 512,
        steps: 4,
        output_format: "jpeg".to_string(),
        ..Default::default()
    };
    assert_eq!(request.negative_prompt, None);
    assert_eq!(request.seed, None);
    let post = client.post(&GenerationRequest::TextToImage(request));
    assert_eq!(post.url, "https://api.getimg.ai/v1/latent-consistency/text-to-image");
    assert_eq!(headers(&post)[1], ("Authorization", "Bearer key"));
    assert_eq!(
        json(&post.body),
        parsed(
            r#"{"prompt":"p","model":"another-model","width":512,"height":512,"steps":4,
                "output_format":"jpeg"}"#
        )
    );
    let request = EditImageRequest {
        model: "instruct-pix2pix".to_string(),
        prompt: "p".to_string(),
        image: "QQ==".to_string(),
        ..Default::default()
    };
    let post = client.post(&GenerationRequest::Edit(request));
    assert_eq!(post.url, "https://api.getimg.ai/v1/stable-diffusion/instruct");
    assert_eq!(post.body.fields.len(), 9);
    assert_eq!(post.body.fields[3], number("image_guidance", 0.0));
}

#[test]
fn fixed_models_pay_no_heed_to_the_client() {
    let one = scalar(1.0);
    for model in ["lcm-realistic-vision-v5-1", "", "instruct-pix2pix"] {
        let client = Client::new("key", model);
        let post = client
            .generate_image_using_controlnet("c", "p", "n", "i", one, 1, 1, 1, one, 1, "s", "png");
        assert_eq!(post.body.fields[1], text("model", "stable-diffusion-v1-5"));
        let post =
            client.generate_repainted_image("p", None, "i", "m", None, 1, 1, 1, one, 1, "s", "png");
        assert_eq!(post.body.fields[0], text("model", "stable-diffusion-v1-5-inpainting"));
        let post = client.generate_edited_image("p", None, "i", one, 1, one, 1, "s", "png");
        assert_eq!(post.body.fields[0], text("model", "instruct-pix2pix"));
        let post = client.generate_image_from_text("p", 1, 1, 1, "png", None, None);
        assert_eq!(post.body.fields[1], text("model", model));
        let post = client.generate_image_from_image("p", "i", 1, 1, "png", None, None);
        assert_eq!(post.body.fields[0], text("model", model));
    }
}

#[test]
fn a_client_elsewhere_posts_elsewhere() {
    let client = Client {
        api_key: "key".to_string(),
        model: "m".to_string(),
        api_url: "http://localhost:8080",
    };
    let post = client.generate_image_from_text("p", 1, 1, 1, "png", None, None);
    assert_eq!(post.url, "http://localhost:8080/latent-consistency/text-to-image");
}

#[test]
fn refusal_of_any_call_is_a_service_error() {
    let body = r#"{"error":{"type":"authentication_error"}}"#;
    let client = Client::new("wrong", "m");
    let one = scalar(1.0);
    let posts = vec![
        client.generate_image_from_text("p", 1, 1, 1, "png", None, None),
        client.generate_image_from_image("p", "i", 1, 1, "png", None, None),
        client.generate_image_using_controlnet("c", "p", "n", "i", one, 1, 1, 1, one, 1, "s", "png"),
        client.generate_repainted_image("p", None, "i", "m", None, 1, 1, 1, one, 1, "s", "png"),
        client.generate_edited_image("p", None, "i", one, 1, one, 1, "s", "png"),
    ];
    for post in posts {
        assert_eq!(headers(&post)[1], ("Authorization", "Bearer wrong"));
        let outcome = Outcome::Reply {
            status: 401,
            text: body.to_string(),
            json: Body::Object(vec![Member { name: "error".to_string(), value: Json::Other }]),
        };
        assert_eq!(outcome.resolve(), Err(Error::Service { status: 401, body: body.to_string() }));
    }
}

#[test]
fn success_without_an_image_is_a_decode_error() {
    let client = Client::new("k", "m");
    let post = client.generate_image_from_text("p", 512, 512, 4, "jpeg", None, None);
    assert_eq!(post.url, "https://api.getimg.ai/v1/latent-consistency/text-to-image");
    let body = r#"{"seed":1}"#;
    let outcome = Outcome::Reply {
        status: 200,
        text: body.to_string(),
        json: Body::Object(vec![Member {
            name: "seed".to_string(),
            value: Json::Number { integer: Some(1), scalar: scalar(1.0) },
        }]),
    };
    assert_eq!(outcome.resolve(), Err(Error::Decode { body: body.to_string() }));
}

#[test]
fn a_call_is_sent_once_whatever_comes_of_it() {
    // a service that counts what it is sent and drops every connection
    let mut sent: Vec<HttpPost> = Vec::new();
    let client = Client::new("key", "m");
    sent.push(client.generate_image_from_text("p", 1, 1, 1, "png", None, None));
    let result = Outcome::NoReply { detail: "connection closed".to_string() }.resolve();
    assert_eq!(result, Err(Error::Transport { detail: "connection closed".to_string() }));
    assert_eq!(sent.len(), 1);
}

#[test]
fn two_calls_in_flight_do_not_mix() {
    let client = Client::new("key", "m");
    let first = client.generate_image_from_text("one", 64, 64, 1, "png", None, Some(1));
    let first_again = client.generate_image_from_text("one", 64, 64, 1, "png", None, Some(1));
    let second = client.generate_image_from_image("two", "Mg==", 2, 2, "jpeg", None, None);
    assert_eq!(first.body, first_again.body);
    assert_eq!(first.url, first_again.url);
    assert_eq!(first.body.fields[0], text("prompt", "one"));
    assert_eq!(second.body.fields[1], text("prompt", "two"));
    assert_eq!(client.api_key, "key");
    assert_eq!(client.model, "m");
    // the replies arrive in the other order
    let second_result = image_reply("Mg==").resolve().unwrap();
    let first_result = image_reply("MQ==").resolve().unwrap();
    assert_eq!(decode(&first_result.image), Ok(b"1".to_vec()));
    assert_eq!(decode(&second_result.image), Ok(b"2".to_vec()));
}

#[test]
fn test_client() {
    let api_key = String::new();
    let text_prompt = "a kanban-style task board with three columns: To Do, In Progress, and Done. Each column contains a list of tasks, with the To Do column having the most tasks and the Done column having the fewest. The tasks are color-coded, with the To Do tasks being red, the In Progress tasks being yellow, and the Done tasks being green. The board also has a header that includes the title \"To Do List\" and a search bar.";
    let negative_prompt = Some("Disfigured, cartoon, blurry");
    let client = Client::new(&api_key, "lcm-realistic-vision-v5-1");

    // the service answers each call with an image that names the call
    let answer = |post: &HttpPost| -> ToImageResponse {
        let path = post.url.strip_prefix("https://api.getimg.ai/v1").unwrap();
        image_reply(&encode(path.as_bytes())).resolve().unwrap()
    };

    let post =
        client.generate_image_from_text(text_prompt, 1024, 1024, 4, "jpeg", negative_prompt, Some(512));
    assert_eq!(post.body.fields[0], text("prompt", text_prompt));
    assert_eq!(post.body.fields[2], text("negative_prompt", "Disfigured, cartoon, blurry"));
    let text_response = answer(&post);
    assert_eq!(
        decode(&text_response.image),
        Ok(b"/latent-consistency/text-to-image".to_vec())
    );

    let post = client.generate_image_from_image(
        "a photo of an astronaut riding a horse on mars",
        &text_response.image,
        4,
        512,
        "jpeg",
        negative_prompt,
        Some(scalar(0.5)),
    );
    assert_eq!(post.body.fields[3], text("image", &text_response.image));
    let image_response = answer(&post);

    let post = client.generate_image_using_controlnet(
        "softedge-1.1",
        "a photo of an astronaut riding a horse on mars",
        "Disfigured, cartoon, blurry",
        &image_response.image,
        scalar(1.0),
        512,
        512,
        25,
        scalar(7.5),
        512,
        "euler",
        "png",
    );
    assert_eq!(post.body.fields[4], text("image", &image_response.image));
    let controlnet_response = answer(&post);
    assert_eq!(
        decode(&controlnet_response.image),
        Ok(b"/stable-diffusion/controlnet".to_vec())
    );

    let post = client.generate_repainted_image(
        text_prompt,
        negative_prompt,
        &text_response.image,
        &image_response.image,
        Some(scalar(1.0)),
        512,
        512,
        25,
        scalar(7.5),
        512,
        "euler",
        "png",
    );
    assert_eq!(post.body.fields[3], text("image", &text_response.image));
    assert_eq!(post.body.fields[4], text("mask_image", &image_response.image));
    let repainted_image_response = answer(&post);

    let post = client.generate_edited_image(
        text_prompt,
        negative_prompt,
        &repainted_image_response.image,
        scalar(1.5),
        25,
        scalar(7.5),
        54,
        "ddim",
        "png",
    );
    assert_eq!(post.body.fields[3], text("image", &repainted_image_response.image));
    assert_eq!(post.body.fields[7], integer("seed", 54));
    let edited_image_response = answer(&post);
    assert_eq!(
        decode(&edited_image_response.image),
        Ok(b"/stable-diffusion/instruct".to_vec())
    );
}
