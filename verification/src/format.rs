//! Output format selection for the image codec wrapper: maps a
//! caller-supplied format name, case-insensitively, to a supported encoding.

use vstd::prelude::*;

verus! {

/// The encodings the codec wrapper can produce.
#[derive(Clone, Copy, Debug, PartialEq, Eq, Structural)]
pub enum OutputFormat {
    /// JPEG, named "jpeg" or "jpg".
    Jpeg,
    /// PNG, named "png".
    Png,
    /// WebP, named "webp".
    WebP,
}

/// ASCII lowercasing of one byte.
pub open spec fn lower_byte(b: u8) -> u8 {
    if 65 <= b <= 90 {
        (b + 32) as u8
    } else {
        b
    }
}

/// ASCII lowercasing of a byte string.
pub open spec fn lower_bytes(s: Seq<u8>) -> Seq<u8> {
    s.map_values(|b: u8| lower_byte(b))
}

/// The format a name selects: "jpeg" and "jpg" select JPEG, "png" PNG and
/// "webp" WebP, compared after ASCII lowercasing; every other name selects
/// nothing.  The byte values spell the names: 106 112 101 103 is "jpeg",
/// 106 112 103 "jpg", 112 110 103 "png", 119 101 98 112 "webp".
pub open spec fn format_of(name: Seq<u8>) -> Option<OutputFormat> {
    let l = lower_bytes(name);
    if l == seq![106u8, 112u8, 101u8, 103u8] || l == seq![106u8, 112u8, 103u8] {
        Some(OutputFormat::Jpeg)
    } else if l == seq![112u8, 110u8, 103u8] {
        Some(OutputFormat::Png)
    } else if l == seq![119u8, 101u8, 98u8, 112u8] {
        Some(OutputFormat::WebP)
    } else {
        None
    }
}

/// Compares the ASCII lowercasing of `name` against a candidate spelling.
fn matches_lowered(name: &[u8], target: &[u8]) -> (r: bool)
    ensures
        r <==> lower_bytes(name@) == target@,
{
    if name.len() != target.len() {
        proof {
            assert(lower_bytes(name@).len() == name@.len());
        }
        return false;
    }
    let n = name.len();
    let mut i: usize = 0;
    while i < n
        invariant
            n == name@.len(),
            n == target@.len(),
            i <= n,
            forall|k: int| 0 <= k < i ==> lower_bytes(name@)[k] == target@[k],
        decreases n - i,
    {
        let b = name[i];
        let lb: u8 = if b >= 65 && b <= 90 {
            b + 32
        } else {
            b
        };
        proof {
            assert(lower_bytes(name@)[i as int] == lower_byte(name@[i as int]));
        }
        if lb != target[i] {
            proof {
                assert(lower_bytes(name@)[i as int] != target@[i as int]);
            }
            return false;
        }
        i = i + 1;
    }
    proof {
        assert(lower_bytes(name@) =~= target@);
    }
    true
}

/// Selects the output format a name requests, exactly as [`format_of`]
/// states: `None` is the unsupported-format outcome.
pub fn parse_format(name: &[u8]) -> (r: Option<OutputFormat>)
    ensures
        r == format_of(name@),
{
    let jpeg: [u8; 4] = [106, 112, 101, 103];
    let jpg: [u8; 3] = [106, 112, 103];
    let png: [u8; 3] = [112, 110, 103];
    let webp: [u8; 4] = [119, 101, 98, 112];
    proof {
        assert(jpeg@ =~= seq![106u8, 112u8, 101u8, 103u8]);
        assert(jpg@ =~= seq![106u8, 112u8, 103u8]);
        assert(png@ =~= seq![112u8, 110u8, 103u8]);
        assert(webp@ =~= seq![119u8, 101u8, 98u8, 112u8]);
    }
    if matches_lowered(name, jpeg.as_slice()) || matches_lowered(name, jpg.as_slice()) {
        Some(OutputFormat::Jpeg)
    } else if matches_lowered(name, png.as_slice()) {
        Some(OutputFormat::Png)
    } else if matches_lowered(name, webp.as_slice()) {
        Some(OutputFormat::WebP)
    } else {
        None
    }
}

} // verus!
