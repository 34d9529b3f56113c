//! QR symbol construction: the payload is handed to the QR encoder, and the
//! resulting module grid is held as a plain boolean matrix.

use vstd::prelude::*;

verus! {

/// An immutable square grid of QR modules: `true` is a dark module, `false`
/// a light one. Rows are stored consecutively in `modules`.
pub struct QrSymbol {
    /// The modules, row-major, `width * width` of them.
    pub modules: Vec<bool>,
    /// Number of modules per side, without any quiet zone.
    pub width: usize,
}

impl QrSymbol {
    /// A symbol produced by the encoder is square, and its side length is
    /// that of a normal QR version: `4 * v + 17` modules for a version `v`
    /// in 1..=40, so between 21 and 177.
    pub open spec fn wf(&self) -> bool {
        &&& 21 <= self.width <= 177
        &&& self.modules@.len() == self.width * self.width
    }
}

/// What the QR encoder yields for a payload: on success the module count per
/// side and the modules (row-major, dark is `true`); on failure the
/// encoder's diagnostic message.
pub uninterp spec fn qr_encoding_of(data: Seq<char>) -> Result<(nat, Seq<bool>), Seq<char>>;

/// Relies on `qrcode::QrCode::new` (and its accessors `width` and
/// `to_colors`): the symbol, or the error's display message, is a function
/// of the payload bytes alone; a successful encoding picks a normal QR
/// version, whose width is `4 * v + 17` for a version `v` in 1..=40, and
/// carries exactly `width * width` modules.
#[verifier::external_body]
pub(crate) fn encode_data(data: &str) -> (r: Result<QrSymbol, String>)
    ensures
        r matches Ok(s) ==> {
            &&& qr_encoding_of(data@) matches Ok(m)
            &&& s.width as nat == m.0
            &&& s.modules@ == m.1
            &&& s.wf()
        },
        r matches Err(e) ==> qr_encoding_of(data@) matches Err(m) && e@ == m,
{
    match qrcode::QrCode::new(data) {
        Ok(code) => {
            let width = code.width();
            let mut modules = Vec::with_capacity(width * width);
            for color in code.to_colors() {
                modules.push(color == qrcode::Color::Dark);
            }
            Ok(QrSymbol { modules, width })
        },
        Err(e) => Err(format!("{e}")),
    }
}

} // verus!
