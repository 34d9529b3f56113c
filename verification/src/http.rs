//! The HTTP-facing surface: each request resolves to a [`Reply`], and the
//! reply's exact value is pinned down by [`qr_reply_model`].

use vstd::prelude::*;
use vstd::string::StringExecFns;

use crate::error::{
    encoding_failure_body, invalid_size_body, missing_data_body, out_of_range_body,
    symbol_failure_body, ServiceError,
};
use crate::query::{all_digits, digit_value, digits_value, is_digit, opt_view, parse_u32_spec, requested_size, validate};
use crate::raster::{encode_png, lemma_raster_side_bounds, png_of, raster_pixels, raster_side};
use crate::symbol::{encode_data, qr_encoding_of};

verus! {

/// Mathematical model of a reply: either a plaintext response with a status
/// code, or a successful PNG response (always status 200, content type
/// `image/png`).
#[allow(inconsistent_fields)]
pub enum ReplyModel {
    /// A plaintext response.
    Text { status: u16, body: Seq<char> },
    /// A PNG image response.
    Png { body: Seq<u8> },
}

/// The outcome of a request: a plaintext response with its status code, or
/// PNG bytes served with status 200, content type `image/png` and
/// `Cache-Control: public, max-age=3600`.
#[allow(inconsistent_fields)]
pub enum Reply {
    /// A plaintext response.
    Text {
        /// The HTTP status code.
        status: u16,
        /// The plaintext body.
        body: String,
    },
    /// A successful PNG image response.
    Png {
        /// The PNG container bytes.
        body: Vec<u8>,
    },
}

impl View for Reply {
    type V = ReplyModel;

    open spec fn view(&self) -> ReplyModel {
        match self {
            Reply::Text { status, body } => ReplyModel::Text { status: *status, body: body@ },
            Reply::Png { body } => ReplyModel::Png { body: body@ },
        }
    }
}

impl Reply {
    /// The HTTP status code of this reply: as classified for a plaintext
    /// response, 200 for a PNG response.
    pub fn status(&self) -> (r: u16)
        ensures
            self@ matches ReplyModel::Text { status, .. } ==> r == status,
            self@ matches ReplyModel::Png { .. } ==> r == 200,
    {
        match self {
            Reply::Text { status, .. } => *status,
            Reply::Png { .. } => 200,
        }
    }

    /// The `Content-Type` header value of this reply: `image/png` for a PNG
    /// response, none (the transport's plaintext default) otherwise.
    pub fn content_type(&self) -> (r: Option<&str>)
        ensures
            self@ matches ReplyModel::Png { .. } ==> r matches Some(ct) && ct@ == "image/png"@,
            self@ matches ReplyModel::Text { .. } ==> r is None,
    {
        match self {
            Reply::Png { .. } => Some("image/png"),
            Reply::Text { .. } => None,
        }
    }

    /// The `Cache-Control` header value of this reply: a successful image
    /// may be publicly cached for an hour; errors carry no caching header.
    pub fn cache_control(&self) -> (r: Option<&str>)
        ensures
            self@ matches ReplyModel::Png { .. } ==> r matches Some(cc) && cc@ == "public, max-age=3600"@,
            self@ matches ReplyModel::Text { .. } ==> r is None,
    {
        match self {
            Reply::Png { .. } => Some("public, max-age=3600"),
            Reply::Text { .. } => None,
        }
    }
}

/// What the renderer pipeline replies for a validated request: the PNG of
/// the upscaled module grid on success; a 400 with the encoder's diagnostic
/// when the payload cannot be encoded; a 500 with the serializer's
/// diagnostic when PNG serialization fails.
pub open spec fn render_model(data: Seq<char>, size: u32) -> ReplyModel {
    match qr_encoding_of(data) {
        Ok(m) => {
            let side = raster_side(m.0 as int, size);
            match png_of(side as nat, raster_pixels(m.1, m.0 as int, size)) {
                Ok(b) => ReplyModel::Png { body: b },
                Err(msg) => ReplyModel::Text { status: 500, body: encoding_failure_body(msg) },
            }
        },
        Err(msg) => ReplyModel::Text { status: 400, body: symbol_failure_body(msg) },
    }
}

/// What the service replies for raw query parameters: a 400 naming the
/// failure when `data` is absent, when `size` does not parse, or when the
/// parsed size (default 200) lies outside [50, 2000]; otherwise the
/// renderer pipeline's reply for the validated request.
pub open spec fn qr_reply_model(data: Option<Seq<char>>, size: Option<Seq<char>>) -> ReplyModel {
    match data {
        Option::None => ReplyModel::Text { status: 400, body: missing_data_body() },
        Option::Some(d) => match requested_size(size) {
            Option::None => ReplyModel::Text { status: 400, body: invalid_size_body() },
            Option::Some(n) => if !(50 <= n <= 2000) {
                ReplyModel::Text { status: 400, body: out_of_range_body() }
            } else {
                render_model(d, n)
            },
        },
    }
}

/// Builds the plaintext reply that resolves `e`.
fn error_reply(e: &ServiceError) -> (r: Reply)
    ensures
        r@ == (ReplyModel::Text { status: e.status_spec(), body: e.body_spec() }),
{
    Reply::Text { status: e.status(), body: e.body() }
}

/// Handles `GET /qr`: validates the raw `data` and `size` parameters, turns
/// the payload into a QR module grid, upscales it to a raster of at least
/// `size × size` pixels, and serializes that raster as PNG bytes. The reply
/// is exactly [`qr_reply_model`] of the parameters.
pub fn qr(data: Option<&str>, size: Option<&str>) -> (r: Reply)
    ensures
        r@ == qr_reply_model(opt_view(data), opt_view(size)),
{
    let query = match validate(data, size) {
        Ok(q) => q,
        Err(e) => {
            return error_reply(&e);
        },
    };
    let symbol = match encode_data(query.data.as_str()) {
        Ok(s) => s,
        Err(m) => {
            return error_reply(&ServiceError::SymbolGenerationFailed(m));
        },
    };
    let raster = symbol.rasterize(query.size);
    match encode_png(raster.side, raster.pixels) {
        Ok(b) => Reply::Png { body: b },
        Err(m) => error_reply(&ServiceError::EncodingFailed(m)),
    }
}

/// The fixed body of the health route.
pub open spec fn root_body() -> Seq<char> {
    "This is the Actix Web in DevBox."@
}

/// Handles `GET /`: always replies 200 with the same fixed plaintext body,
/// whatever happened before — the service keeps no state between requests.
pub fn root() -> (r: Reply)
    ensures
        r@ == (ReplyModel::Text { status: 200, body: root_body() }),
{
    Reply::Text { status: 200, body: String::from_str("This is the Actix Web in DevBox.") }
}

/// Success law: when the encoder accepts the payload and the requested size
/// parses into [50, 2000], the reply is exactly the PNG serialization of a
/// square raster whose side length is at least the requested size.
pub proof fn lemma_success_reply(
    data: Seq<char>,
    size: Option<Seq<char>>,
    n: u32,
    w: nat,
    modules: Seq<bool>,
    png: Seq<u8>,
)
    requires
        requested_size(size) == Some(n),
        50 <= n <= 2000,
        qr_encoding_of(data) == Ok::<(nat, Seq<bool>), Seq<char>>((w, modules)),
        1 <= w,
        png_of(
            raster_side(w as int, n) as nat,
            raster_pixels(modules, w as int, n),
        ) == Ok::<Seq<u8>, Seq<char>>(png),
    ensures
        qr_reply_model(Some(data), size) == (ReplyModel::Png { body: png }),
        raster_side(w as int, n) >= n,
{
    lemma_raster_side_bounds(w as int, n);
}

/// Range-rejection law: any request whose size parameter parses (or
/// defaults) to a value outside [50, 2000] resolves to a 400 whose body
/// names the valid range, before any symbol generation is attempted.
pub proof fn lemma_out_of_range_rejected(data: Option<Seq<char>>, size: Option<Seq<char>>)
    requires
        data is Some,
        requested_size(size) matches Some(n) && !(50 <= n <= 2000),
    ensures
        qr_reply_model(data, size) == (ReplyModel::Text { status: 400, body: out_of_range_body() }),
{
}

/// Missing-field law: any request without a `data` parameter resolves to a
/// 400 whose body names the missing field, whatever the size parameter says.
pub proof fn lemma_missing_data_rejected(size: Option<Seq<char>>)
    ensures
        qr_reply_model(Option::None, size) == (ReplyModel::Text {
            status: 400,
            body: missing_data_body(),
        }),
{
}

/// Determinism law: the reply is a function of the request parameters
/// alone, so two requests with identical `data` and `size` resolve to
/// identical replies — in particular, byte-identical PNG output.
pub proof fn lemma_qr_deterministic(
    data1: Option<Seq<char>>,
    size1: Option<Seq<char>>,
    data2: Option<Seq<char>>,
    size2: Option<Seq<char>>,
)
    requires
        data1 == data2,
        size1 == size2,
    ensures
        qr_reply_model(data1, size1) == qr_reply_model(data2, size2),
{
}

/// Default-size law: a request without a `size` parameter resolves exactly
/// as the same request with `size=200`.
pub proof fn lemma_default_size_equivalence(data: Option<Seq<char>>)
    ensures
        qr_reply_model(data, Option::None) == qr_reply_model(data, Option::Some("200"@)),
{
    reveal_strlit("200");
    let s = "200"@;
    assert(s.len() == 3);
    assert(s[0] == '2' && s[1] == '0' && s[2] == '0');
    let s1 = s.drop_last();
    let s0 = s1.drop_last();
    let e = s0.drop_last();
    assert(e.len() == 0);
    assert(s0.last() == '2' && s1.last() == '0' && s.last() == '0');
    assert(digit_value('2') == 2 && digit_value('0') == 0);
    assert(digits_value(e) == 0);
    assert(digits_value(s0) == 2);
    assert(digits_value(s1) == 20);
    assert(digits_value(s) == 200);
    assert(is_digit(s[0]) && is_digit(s[1]) && is_digit(s[2]));
    assert(all_digits(s));
    assert(parse_u32_spec(s) == Some(200u32));
    assert(requested_size(Option::Some(s)) == requested_size(Option::<Seq<char>>::None));
}

} // verus!
