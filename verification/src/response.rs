//! The reply to a call: its shape, and what each outcome of a call resolves to.

use crate::request::Scalar;
use vstd::prelude::*;

verus! {

/// A generated image with what the service says of its making.
#[derive(Clone, Debug, PartialEq, Eq)]
pub struct ToImageResponse {
    /// The image, base64 encoded.
    pub image: String,
    /// The seed that the service used, if it names one.
    pub seed: Option<usize>,
    /// What the generation cost, if the service names it.
    pub cost: Option<Scalar>,
}

/// The mathematical content of a [`ToImageResponse`].
pub struct ToImageResponseView {
    pub image: Seq<char>,
    pub seed: Option<usize>,
    pub cost: Option<Scalar>,
}

impl View for ToImageResponse {
    type V = ToImageResponseView;

    open spec fn view(&self) -> ToImageResponseView {
        ToImageResponseView { image: self.image@, seed: self.seed, cost: self.cost }
    }
}

/// The value of one member of a JSON object, as far as a reply is read.
#[derive(Clone, Debug, PartialEq, Eq)]
pub enum Json {
    /// `null`.
    Null,
    /// A string.
    Text(String),
    /// A number: its value as a scalar and, where it is a whole number that `usize`
    /// holds, that number too.
    Number { integer: Option<usize>, scalar: Scalar },
    /// A boolean, an array or an object.
    Other,
}

/// The mathematical content of a [`Json`].
pub enum JsonView {
    Null,
    Text(Seq<char>),
    Number { integer: Option<usize>, scalar: Scalar },
    Other,
}

impl View for Json {
    type V = JsonView;

    open spec fn view(&self) -> JsonView {
        match *self {
            Json::Null => JsonView::Null,
            Json::Text(s) => JsonView::Text(s@),
            Json::Number { integer, scalar } => JsonView::Number { integer, scalar },
            Json::Other => JsonView::Other,
        }
    }
}

/// One member of a JSON object.
#[derive(Clone, Debug, PartialEq, Eq)]
pub struct Member {
    pub name: String,
    pub value: Json,
}

impl View for Member {
    type V = (Seq<char>, JsonView);

    open spec fn view(&self) -> (Seq<char>, JsonView) {
        (self.name@, self.value@)
    }
}

/// The members of a JSON object, by their views.
pub open spec fn members_view(members: Seq<Member>) -> Seq<(Seq<char>, JsonView)> {
    members.map_values(|m: Member| m@)
}

/// The value of the first member called `name`, if there is one.
pub open spec fn member(members: Seq<(Seq<char>, JsonView)>, name: Seq<char>) -> Option<JsonView>
    decreases members.len(),
{
    if members.len() == 0 {
        None
    } else if members[0].0 == name {
        Some(members[0].1)
    } else {
        member(members.skip(1), name)
    }
}

/// How many members are called `name`.
pub open spec fn times(members: Seq<(Seq<char>, JsonView)>, name: Seq<char>) -> nat
    decreases members.len(),
{
    if members.len() == 0 {
        0
    } else if members[0].0 == name {
        1 + times(members.skip(1), name)
    } else {
        times(members.skip(1), name)
    }
}

/// How the `seed` member reads: absent or `null` is no seed, a whole number is a
/// seed, anything else does not fit the shape.
pub open spec fn seed_of(value: Option<JsonView>) -> Option<Option<usize>> {
    match value {
        None => Some(None),
        Some(JsonView::Null) => Some(None),
        Some(JsonView::Number { integer: Some(n), .. }) => Some(Some(n)),
        Some(_) => None,
    }
}

/// How the `cost` member reads: absent or `null` is no cost, a number is a cost,
/// anything else does not fit the shape.
pub open spec fn cost_of(value: Option<JsonView>) -> Option<Option<Scalar>> {
    match value {
        None => Some(None),
        Some(JsonView::Null) => Some(None),
        Some(JsonView::Number { scalar, .. }) => Some(Some(scalar)),
        Some(_) => None,
    }
}

/// The image reply that a JSON object holds, if it has the shape of one: a string
/// `image`, and `seed` and `cost` as [`seed_of`] and [`cost_of`] accept them, none
/// of the three names more than once. Members of any other name play no part.
pub open spec fn image_reply(members: Seq<(Seq<char>, JsonView)>) -> Option<ToImageResponseView> {
    let image = member(members, "image"@);
    let seed = seed_of(member(members, "seed"@));
    let cost = cost_of(member(members, "cost"@));
    let repeated = times(members, "image"@) > 1 || times(members, "seed"@) > 1 || times(
        members,
        "cost"@,
    ) > 1;
    if repeated {
        None
    } else {
        match (image, seed, cost) {
            (Some(JsonView::Text(image)), Some(seed), Some(cost)) => Some(
                ToImageResponseView { image, seed, cost },
            ),
            _ => None,
        }
    }
}

/// Finds the first member called `name`.
pub fn find<'a>(members: &'a Vec<Member>, name: &str) -> (found: Option<&'a Json>)
    ensures
        found matches Some(value) ==> member(members_view(members@), name@) == Some(value@),
        found is None ==> member(members_view(members@), name@) is None,
{
    let wanted = name.to_owned();
    let mut i: usize = 0;
    assert(members_view(members@).skip(0) =~= members_view(members@));
    while i < members.len()
        invariant
            i <= members.len(),
            wanted@ == name@,
            member(members_view(members@), name@) == member(
                members_view(members@).skip(i as int),
                name@,
            ),
        decreases members.len() - i,
    {
        let ghost rest = members_view(members@).skip(i as int);
        assert(rest[0] == members@[i as int]@);
        assert(rest.skip(1) =~= members_view(members@).skip(i + 1));
        if members[i].name == wanted {
            return Some(&members[i].value);
        }
        i += 1;
    }
    None
}

/// Tells whether more than one member is called `name`.
pub fn repeated(members: &Vec<Member>, name: &str) -> (more: bool)
    ensures
        more == (times(members_view(members@), name@) > 1),
{
    let wanted = name.to_owned();
    let mut seen: usize = 0;
    let mut i: usize = 0;
    assert(members_view(members@).skip(0) =~= members_view(members@));
    while i < members.len()
        invariant
            i <= members.len(),
            seen <= i,
            wanted@ == name@,
            times(members_view(members@), name@) == seen + times(
                members_view(members@).skip(i as int),
                name@,
            ),
        decreases members.len() - i,
    {
        let ghost rest = members_view(members@).skip(i as int);
        assert(rest[0] == members@[i as int]@);
        assert(rest.skip(1) =~= members_view(members@).skip(i + 1));
        if members[i].name == wanted {
            seen += 1;
        }
        i += 1;
    }
    seen > 1
}

impl ToImageResponse {
    /// Reads an image reply out of the members of a JSON object.
    pub fn from_members(members: &Vec<Member>) -> (reply: Option<ToImageResponse>)
        ensures
            reply matches Some(r) ==> image_reply(members_view(members@)) == Some(r@),
            reply is None ==> image_reply(members_view(members@)) is None,
    {
        if repeated(members, "image") || repeated(members, "seed") || repeated(members, "cost") {
            return None;
        }
        let image = match find(members, "image") {
            Some(Json::Text(image)) => image.clone(),
            _ => { return None; },
        };
        let seed = match find(members, "seed") {
            None => None,
            Some(Json::Null) => None,
            Some(Json::Number { integer: Some(n), .. }) => Some(*n),
            Some(_) => { return None; },
        };
        let cost = match find(members, "cost") {
            None => None,
            Some(Json::Null) => None,
            Some(Json::Number { scalar, .. }) => Some(*scalar),
            Some(_) => { return None; },
        };
        Some(ToImageResponse { image, seed, cost })
    }
}

/// What the JSON reader made of the body of a reply.
#[derive(Clone, Debug, PartialEq, Eq)]
pub enum Body {
    /// The body is not JSON.
    Malformed,
    /// The body is a JSON object with these members, each as often as it stands
    /// in the body.
    Object(Vec<Member>),
    /// The body is JSON, but no object.
    Other,
}

/// The mathematical content of a [`Body`].
pub enum BodyView {
    Malformed,
    Object(Seq<(Seq<char>, JsonView)>),
    Other,
}

impl View for Body {
    type V = BodyView;

    open spec fn view(&self) -> BodyView {
        match *self {
            Body::Malformed => BodyView::Malformed,
            Body::Object(members) => BodyView::Object(members_view(members@)),
            Body::Other => BodyView::Other,
        }
    }
}

/// What the transport reports of one call. There is exactly one outcome per call:
/// the library asks for no second attempt.
#[derive(Clone, Debug, PartialEq, Eq)]
pub enum Outcome {
    /// No reply arrived: the connection failed, the name did not resolve, or the
    /// call timed out.
    NoReply { detail: String },
    /// A reply arrived, with this status and body.
    Reply { status: u16, text: String, json: Body },
}

/// The mathematical content of an [`Outcome`].
pub enum OutcomeView {
    NoReply { detail: Seq<char> },
    Reply { status: u16, text: Seq<char>, json: BodyView },
}

impl View for Outcome {
    type V = OutcomeView;

    open spec fn view(&self) -> OutcomeView {
        match *self {
            Outcome::NoReply { detail } => OutcomeView::NoReply { detail: detail@ },
            Outcome::Reply { status, text, json } => OutcomeView::Reply {
                status,
                text: text@,
                json: json@,
            },
        }
    }
}

/// Why a call yielded no image.
#[derive(Clone, Debug, PartialEq, Eq)]
pub enum Error {
    /// No reply arrived.
    Transport { detail: String },
    /// The service refused the call, for want of authorization or otherwise: the
    /// status of its reply is no success. Status and body are as they came.
    Service { status: u16, body: String },
    /// The status of the reply is a success, but its body does not read as an
    /// image reply: it is not JSON, or it is JSON of another shape. The body is
    /// as it came.
    Decode { body: String },
}

/// The mathematical content of an [`Error`].
pub enum ErrorView {
    Transport { detail: Seq<char> },
    Service { status: u16, body: Seq<char> },
    Decode { body: Seq<char> },
}

impl View for Error {
    type V = ErrorView;

    open spec fn view(&self) -> ErrorView {
        match *self {
            Error::Transport { detail } => ErrorView::Transport { detail: detail@ },
            Error::Service { status, body } => ErrorView::Service { status, body: body@ },
            Error::Decode { body } => ErrorView::Decode { body: body@ },
        }
    }
}

/// Whether an HTTP status reports success.
pub open spec fn is_success(status: u16) -> bool {
    200 <= status <= 299
}

/// What an outcome resolves to: no reply is a transport error; a reply whose
/// status is no success is a service error, whatever its body; a reply whose
/// status is a success is the image that its body holds, and a decode error
/// where the body holds none.
pub open spec fn resolved(outcome: OutcomeView) -> Result<ToImageResponseView, ErrorView> {
    match outcome {
        OutcomeView::NoReply { detail } => Err(ErrorView::Transport { detail }),
        OutcomeView::Reply { status, text, json } => {
            if !is_success(status) {
                Err(ErrorView::Service { status, body: text })
            } else {
                match json {
                    BodyView::Object(members) => match image_reply(members) {
                        Some(reply) => Ok(reply),
                        None => Err(ErrorView::Decode { body: text }),
                    },
                    _ => Err(ErrorView::Decode { body: text }),
                }
            }
        },
    }
}

impl Outcome {
    /// Resolves the outcome of a call, once and for all, into the image or the
    /// reason there is none.
    pub fn resolve(self) -> (r: Result<ToImageResponse, Error>)
        ensures
            r matches Ok(reply) ==> resolved(self@) == Ok::<ToImageResponseView, ErrorView>(reply@),
            r matches Err(e) ==> resolved(self@) == Err::<ToImageResponseView, ErrorView>(e@),
    {
        match self {
            Outcome::NoReply { detail } => Err(Error::Transport { detail }),
            Outcome::Reply { status, text, json } => {
                if status < 200 || status > 299 {
                    return Err(Error::Service { status, body: text });
                }
                match json {
                    Body::Object(members) => match ToImageResponse::from_members(&members) {
                        Some(reply) => Ok(reply),
                        None => Err(Error::Decode { body: text }),
                    },
                    _ => Err(Error::Decode { body: text }),
                }
            },
        }
    }
}

/// A member of another name does not change what is found under `name`, wherever
/// in the object it stands.
pub proof fn lemma_member_of_other_name(
    members: Seq<(Seq<char>, JsonView)>,
    at: int,
    extra: (Seq<char>, JsonView),
    name: Seq<char>,
)
    requires
        0 <= at <= members.len(),
        extra.0 != name,
    ensures
        member(members.insert(at, extra), name) == member(members, name),
    decreases members.len(),
{
    let longer = members.insert(at, extra);
    if at == 0 {
        assert(longer.skip(1) =~= members);
    } else {
        assert(longer[0] == members[0]);
        if members[0].0 != name {
            assert(longer.skip(1) =~= members.skip(1).insert(at - 1, extra));
            lemma_member_of_other_name(members.skip(1), at - 1, extra, name);
        }
    }
}

/// A member of another name does not change how many members are called `name`.
pub proof fn lemma_times_of_other_name(
    members: Seq<(Seq<char>, JsonView)>,
    at: int,
    extra: (Seq<char>, JsonView),
    name: Seq<char>,
)
    requires
        0 <= at <= members.len(),
        extra.0 != name,
    ensures
        times(members.insert(at, extra), name) == times(members, name),
    decreases members.len(),
{
    let longer = members.insert(at, extra);
    if at == 0 {
        assert(longer.skip(1) =~= members);
    } else {
        assert(longer[0] == members[0]);
        assert(longer.skip(1) =~= members.skip(1).insert(at - 1, extra));
        lemma_times_of_other_name(members.skip(1), at - 1, extra, name);
    }
}

/// Members that a reply does not know are ignored, not rejected: a member called
/// neither `image` nor `seed` nor `cost` changes nothing of what is read.
pub proof fn lemma_unknown_member_is_ignored(
    members: Seq<(Seq<char>, JsonView)>,
    at: int,
    extra: (Seq<char>, JsonView),
)
    requires
        0 <= at <= members.len(),
        extra.0 != "image"@,
        extra.0 != "seed"@,
        extra.0 != "cost"@,
    ensures
        image_reply(members.insert(at, extra)) == image_reply(members),
{
    lemma_member_of_other_name(members, at, extra, "image"@);
    lemma_member_of_other_name(members, at, extra, "seed"@);
    lemma_member_of_other_name(members, at, extra, "cost"@);
    lemma_times_of_other_name(members, at, extra, "image"@);
    lemma_times_of_other_name(members, at, extra, "seed"@);
    lemma_times_of_other_name(members, at, extra, "cost"@);
}

/// A call that got no reply resolves to a transport error, and to nothing that
/// would ask for another attempt.
pub proof fn lemma_no_reply_is_transport_error(detail: Seq<char>)
    ensures
        resolved(OutcomeView::NoReply { detail }) == Err::<ToImageResponseView, ErrorView>(
            ErrorView::Transport { detail },
        ),
{
}

/// A reply resolves to a service error exactly when its status is no success.
/// The error then holds the status and the body as they came, whatever the body
/// is; it is never a transport error.
pub proof fn lemma_refusal_is_service_error(status: u16, text: Seq<char>, json: BodyView)
    ensures
        resolved(OutcomeView::Reply { status, text, json }) matches Err(
            ErrorView::Service { .. },
        ) <==> !is_success(status),
        !is_success(status) ==> resolved(OutcomeView::Reply { status, text, json }) == Err::<
            ToImageResponseView,
            ErrorView,
        >(ErrorView::Service { status, body: text }),
{
}

/// Under a success status, a body that holds no image reply resolves to a decode
/// error that holds the body as it came: a body that is not JSON, JSON that is no
/// object, and an object that has not the shape of an image reply. It never
/// resolves to an image that the body does not hold.
pub proof fn lemma_success_without_image_is_decode_error(
    status: u16,
    text: Seq<char>,
    json: BodyView,
)
    requires
        is_success(status),
        !(json is Object) || image_reply(json->Object_0) is None,
    ensures
        resolved(OutcomeView::Reply { status, text, json }) == Err::<
            ToImageResponseView,
            ErrorView,
        >(ErrorView::Decode { body: text }),
{
}

/// A reply resolves to an image exactly when its status is a success and its body
/// is a JSON object of the shape of an image reply; the image is then the one read
/// from the body.
pub proof fn lemma_image_iff_success(status: u16, text: Seq<char>, json: BodyView)
    ensures
        resolved(OutcomeView::Reply { status, text, json }) is Ok <==> is_success(status)
            && json is Object && image_reply(json->Object_0) is Some,
        resolved(OutcomeView::Reply { status, text, json }) matches Ok(reply) ==> Some(reply)
            == image_reply(json->Object_0),
{
}

} // verus!
