//! Colour-space identifiers and their extraction from stream metadata.

use crate::text::is_named;
use vstd::prelude::*;

verus! {

/// Colour primaries.
#[allow(non_camel_case_types)]
#[derive(Debug, Clone, Copy, PartialEq, Eq, Structural)]
pub enum ColorPrimaries {
    BT709,
    BT2020,
    DCI_P3,
    BT601_525,
}

/// Transfer functions.
#[allow(non_camel_case_types)]
#[derive(Debug, Clone, Copy, PartialEq, Eq, Structural)]
pub enum ColorTransfer {
    BT709,
    BT2020_10,
    BT2020_12,
    PQ,
    HLG,
    SRGB,
}

/// Colour matrices.
#[allow(non_camel_case_types)]
#[derive(Debug, Clone, Copy, PartialEq, Eq, Structural)]
pub enum ColorMatrix {
    BT709,
    BT2020_NCL,
    BT2020_CL,
    BT601,
}

/// The primaries a metadata name stands for; unknown names fall back to BT.709.
pub open spec fn spec_primaries(name: Seq<char>) -> ColorPrimaries {
    if name == "bt709"@ || name == "BT.709"@ {
        ColorPrimaries::BT709
    } else if name == "bt2020"@ || name == "BT.2020"@ {
        ColorPrimaries::BT2020
    } else if name == "p3"@ || name == "DCI-P3"@ {
        ColorPrimaries::DCI_P3
    } else if name == "bt601"@ || name == "BT.601"@ {
        ColorPrimaries::BT601_525
    } else {
        ColorPrimaries::BT709
    }
}

/// The transfer function a metadata name stands for; unknown names fall back to BT.709.
pub open spec fn spec_transfer(name: Seq<char>) -> ColorTransfer {
    if name == "bt709"@ || name == "BT.709"@ {
        ColorTransfer::BT709
    } else if name == "bt2020-10"@ || name == "BT.2020-10"@ {
        ColorTransfer::BT2020_10
    } else if name == "bt2020-12"@ || name == "BT.2020-12"@ {
        ColorTransfer::BT2020_12
    } else if name == "pq"@ || name == "SMPTE-ST-2084"@ {
        ColorTransfer::PQ
    } else if name == "hlg"@ || name == "HLG"@ {
        ColorTransfer::HLG
    } else if name == "srgb"@ {
        ColorTransfer::SRGB
    } else {
        ColorTransfer::BT709
    }
}

/// The matrix a metadata name stands for; unknown names fall back to BT.709.
pub open spec fn spec_matrix(name: Seq<char>) -> ColorMatrix {
    if name == "bt709"@ || name == "BT.709"@ {
        ColorMatrix::BT709
    } else if name == "bt2020nc"@ || name == "BT.2020-NCL"@ {
        ColorMatrix::BT2020_NCL
    } else if name == "bt2020c"@ || name == "BT.2020-CL"@ {
        ColorMatrix::BT2020_CL
    } else if name == "bt601"@ || name == "BT.601"@ {
        ColorMatrix::BT601
    } else {
        ColorMatrix::BT709
    }
}

/// The primaries named by stream metadata.
pub fn primaries_from_name(name: &String) -> (p: ColorPrimaries)
    ensures
        p == spec_primaries(name@),
{
    if is_named(name, "bt709") || is_named(name, "BT.709") {
        ColorPrimaries::BT709
    } else if is_named(name, "bt2020") || is_named(name, "BT.2020") {
        ColorPrimaries::BT2020
    } else if is_named(name, "p3") || is_named(name, "DCI-P3") {
        ColorPrimaries::DCI_P3
    } else if is_named(name, "bt601") || is_named(name, "BT.601") {
        ColorPrimaries::BT601_525
    } else {
        ColorPrimaries::BT709
    }
}

/// The transfer function named by stream metadata.
pub fn transfer_from_name(name: &String) -> (t: ColorTransfer)
    ensures
        t == spec_transfer(name@),
{
    if is_named(name, "bt709") || is_named(name, "BT.709") {
        ColorTransfer::BT709
    } else if is_named(name, "bt2020-10") || is_named(name, "BT.2020-10") {
        ColorTransfer::BT2020_10
    } else if is_named(name, "bt2020-12") || is_named(name, "BT.2020-12") {
        ColorTransfer::BT2020_12
    } else if is_named(name, "pq") || is_named(name, "SMPTE-ST-2084") {
        ColorTransfer::PQ
    } else if is_named(name, "hlg") || is_named(name, "HLG") {
        ColorTransfer::HLG
    } else if is_named(name, "srgb") {
        ColorTransfer::SRGB
    } else {
        ColorTransfer::BT709
    }
}

/// The matrix named by stream metadata.
pub fn matrix_from_name(name: &String) -> (m: ColorMatrix)
    ensures
        m == spec_matrix(name@),
{
    if is_named(name, "bt709") || is_named(name, "BT.709") {
        ColorMatrix::BT709
    } else if is_named(name, "bt2020nc") || is_named(name, "BT.2020-NCL") {
        ColorMatrix::BT2020_NCL
    } else if is_named(name, "bt2020c") || is_named(name, "BT.2020-CL") {
        ColorMatrix::BT2020_CL
    } else if is_named(name, "bt601") || is_named(name, "BT.601") {
        ColorMatrix::BT601
    } else {
        ColorMatrix::BT709
    }
}

/// The colour space of a stream as named by its metadata: each missing name
/// leaves BT.709, and the stream is HDR exactly when its transfer is PQ.
pub struct ColorSpace {
    pub primaries: ColorPrimaries,
    pub transfer: ColorTransfer,
    pub matrix: ColorMatrix,
    pub is_hdr: bool,
}

/// The colour space named by optional primaries, transfer and matrix names.
pub open spec fn spec_color_space(
    primaries: Option<Seq<char>>,
    transfer: Option<Seq<char>>,
    matrix: Option<Seq<char>>,
) -> ColorSpace {
    let t = match transfer {
        Some(n) => spec_transfer(n),
        None => ColorTransfer::BT709,
    };
    ColorSpace {
        primaries: match primaries {
            Some(n) => spec_primaries(n),
            None => ColorPrimaries::BT709,
        },
        transfer: t,
        matrix: match matrix {
            Some(n) => spec_matrix(n),
            None => ColorMatrix::BT709,
        },
        is_hdr: t == ColorTransfer::PQ,
    }
}

/// The view of an optional name.
pub open spec fn name_view(name: Option<String>) -> Option<Seq<char>> {
    match name {
        Some(s) => Some(s@),
        None => None,
    }
}

/// Extract the colour space from a stream's metadata names.
pub fn color_space_from_names(
    primaries: &Option<String>,
    transfer: &Option<String>,
    matrix: &Option<String>,
) -> (c: ColorSpace)
    ensures
        c == spec_color_space(name_view(*primaries), name_view(*transfer), name_view(*matrix)),
{
    let p = match primaries {
        Some(n) => primaries_from_name(n),
        None => ColorPrimaries::BT709,
    };
    let t = match transfer {
        Some(n) => transfer_from_name(n),
        None => ColorTransfer::BT709,
    };
    let m = match matrix {
        Some(n) => matrix_from_name(n),
        None => ColorMatrix::BT709,
    };
    let is_hdr = match t {
        ColorTransfer::PQ => true,
        _ => false,
    };
    ColorSpace { primaries: p, transfer: t, matrix: m, is_hdr }
}

} // verus!

verus! {

/// Law: both spellings that stream metadata uses for a primaries name
/// (such as `bt709` and `BT.709`) stand for the same primaries, and each
/// names its own value rather than the BT.709 fallback.
pub proof fn law_primaries_spellings_agree()
    ensures
        spec_primaries("bt709"@) == ColorPrimaries::BT709,
        spec_primaries("BT.709"@) == ColorPrimaries::BT709,
        spec_primaries("bt2020"@) == ColorPrimaries::BT2020,
        spec_primaries("BT.2020"@) == ColorPrimaries::BT2020,
        spec_primaries("p3"@) == ColorPrimaries::DCI_P3,
        spec_primaries("DCI-P3"@) == ColorPrimaries::DCI_P3,
        spec_primaries("bt601"@) == ColorPrimaries::BT601_525,
        spec_primaries("BT.601"@) == ColorPrimaries::BT601_525,
{
    reveal_strlit("bt709");
    reveal_strlit("BT.709");
    reveal_strlit("bt2020");
    reveal_strlit("BT.2020");
    reveal_strlit("p3");
    reveal_strlit("DCI-P3");
    reveal_strlit("bt601");
    reveal_strlit("BT.601");
    assert("bt2020"@ != "bt709"@) by {
        assert("bt2020"@.len() != "bt709"@.len());
    }
    assert("bt2020"@ != "BT.709"@) by {
        assert("bt2020"@[0] != "BT.709"@[0]);
    }
    assert("BT.2020"@ != "bt709"@) by {
        assert("BT.2020"@.len() != "bt709"@.len());
    }
    assert("BT.2020"@ != "BT.709"@) by {
        assert("BT.2020"@.len() != "BT.709"@.len());
    }
    assert("p3"@ != "bt709"@) by {
        assert("p3"@.len() != "bt709"@.len());
    }
    assert("p3"@ != "BT.709"@) by {
        assert("p3"@.len() != "BT.709"@.len());
    }
    assert("p3"@ != "bt2020"@) by {
        assert("p3"@.len() != "bt2020"@.len());
    }
    assert("p3"@ != "BT.2020"@) by {
        assert("p3"@.len() != "BT.2020"@.len());
    }
    assert("DCI-P3"@ != "bt709"@) by {
        assert("DCI-P3"@.len() != "bt709"@.len());
    }
    assert("DCI-P3"@ != "BT.709"@) by {
        assert("DCI-P3"@[0] != "BT.709"@[0]);
    }
    assert("DCI-P3"@ != "bt2020"@) by {
        assert("DCI-P3"@[0] != "bt2020"@[0]);
    }
    assert("DCI-P3"@ != "BT.2020"@) by {
        assert("DCI-P3"@.len() != "BT.2020"@.len());
    }
    assert("bt601"@ != "bt709"@) by {
        assert("bt601"@[2] != "bt709"@[2]);
    }
    assert("bt601"@ != "BT.709"@) by {
        assert("bt601"@.len() != "BT.709"@.len());
    }
    assert("bt601"@ != "bt2020"@) by {
        assert("bt601"@.len() != "bt2020"@.len());
    }
    assert("bt601"@ != "BT.2020"@) by {
        assert("bt601"@.len() != "BT.2020"@.len());
    }
    assert("bt601"@ != "p3"@) by {
        assert("bt601"@.len() != "p3"@.len());
    }
    assert("bt601"@ != "DCI-P3"@) by {
        assert("bt601"@.len() != "DCI-P3"@.len());
    }
    assert("BT.601"@ != "bt709"@) by {
        assert("BT.601"@.len() != "bt709"@.len());
    }
    assert("BT.601"@ != "BT.709"@) by {
        assert("BT.601"@[3] != "BT.709"@[3]);
    }
    assert("BT.601"@ != "bt2020"@) by {
        assert("BT.601"@[0] != "bt2020"@[0]);
    }
    assert("BT.601"@ != "BT.2020"@) by {
        assert("BT.601"@.len() != "BT.2020"@.len());
    }
    assert("BT.601"@ != "p3"@) by {
        assert("BT.601"@.len() != "p3"@.len());
    }
    assert("BT.601"@ != "DCI-P3"@) by {
        assert("BT.601"@[0] != "DCI-P3"@[0]);
    }
}

/// Law: both spellings that stream metadata uses for a transfer function name
/// (such as `bt709` and `BT.709`) stand for the same transfer function, and each
/// names its own value rather than the BT.709 fallback.
pub proof fn law_transfer_spellings_agree()
    ensures
        spec_transfer("bt709"@) == ColorTransfer::BT709,
        spec_transfer("BT.709"@) == ColorTransfer::BT709,
        spec_transfer("bt2020-10"@) == ColorTransfer::BT2020_10,
        spec_transfer("BT.2020-10"@) == ColorTransfer::BT2020_10,
        spec_transfer("bt2020-12"@) == ColorTransfer::BT2020_12,
        spec_transfer("BT.2020-12"@) == ColorTransfer::BT2020_12,
        spec_transfer("pq"@) == ColorTransfer::PQ,
        spec_transfer("SMPTE-ST-2084"@) == ColorTransfer::PQ,
        spec_transfer("hlg"@) == ColorTransfer::HLG,
        spec_transfer("HLG"@) == ColorTransfer::HLG,
        spec_transfer("srgb"@) == ColorTransfer::SRGB,
{
    reveal_strlit("bt709");
    reveal_strlit("BT.709");
    reveal_strlit("bt2020-10");
    reveal_strlit("BT.2020-10");
    reveal_strlit("bt2020-12");
    reveal_strlit("BT.2020-12");
    reveal_strlit("pq");
    reveal_strlit("SMPTE-ST-2084");
    reveal_strlit("hlg");
    reveal_strlit("HLG");
    reveal_strlit("srgb");
    assert("bt2020-10"@ != "bt709"@) by {
        assert("bt2020-10"@.len() != "bt709"@.len());
    }
    assert("bt2020-10"@ != "BT.709"@) by {
        assert("bt2020-10"@.len() != "BT.709"@.len());
    }
    assert("BT.2020-10"@ != "bt709"@) by {
        assert("BT.2020-10"@.len() != "bt709"@.len());
    }
    assert("BT.2020-10"@ != "BT.709"@) by {
        assert("BT.2020-10"@.len() != "BT.709"@.len());
    }
    assert("bt2020-12"@ != "bt709"@) by {
        assert("bt2020-12"@.len() != "bt709"@.len());
    }
    assert("bt2020-12"@ != "BT.709"@) by {
        assert("bt2020-12"@.len() != "BT.709"@.len());
    }
    assert("bt2020-12"@ != "bt2020-10"@) by {
        assert("bt2020-12"@[8] != "bt2020-10"@[8]);
    }
    assert("bt2020-12"@ != "BT.2020-10"@) by {
        assert("bt2020-12"@.len() != "BT.2020-10"@.len());
    }
    assert("BT.2020-12"@ != "bt709"@) by {
        assert("BT.2020-12"@.len() != "bt709"@.len());
    }
    assert("BT.2020-12"@ != "BT.709"@) by {
        assert("BT.2020-12"@.len() != "BT.709"@.len());
    }
    assert("BT.2020-12"@ != "bt2020-10"@) by {
        assert("BT.2020-12"@.len() != "bt2020-10"@.len());
    }
    assert("BT.2020-12"@ != "BT.2020-10"@) by {
        assert("BT.2020-12"@[9] != "BT.2020-10"@[9]);
    }
    assert("pq"@ != "bt709"@) by {
        assert("pq"@.len() != "bt709"@.len());
    }
    assert("pq"@ != "BT.709"@) by {
        assert("pq"@.len() != "BT.709"@.len());
    }
    assert("pq"@ != "bt2020-10"@) by {
        assert("pq"@.len() != "bt2020-10"@.len());
    }
    assert("pq"@ != "BT.2020-10"@) by {
        assert("pq"@.len() != "BT.2020-10"@.len());
    }
    assert("pq"@ != "bt2020-12"@) by {
        assert("pq"@.len() != "bt2020-12"@.len());
    }
    assert("pq"@ != "BT.2020-12"@) by {
        assert("pq"@.len() != "BT.2020-12"@.len());
    }
    assert("SMPTE-ST-2084"@ != "bt709"@) by {
        assert("SMPTE-ST-2084"@.len() != "bt709"@.len());
    }
    assert("SMPTE-ST-2084"@ != "BT.709"@) by {
        assert("SMPTE-ST-2084"@.len() != "BT.709"@.len());
    }
    assert("SMPTE-ST-2084"@ != "bt2020-10"@) by {
        assert("SMPTE-ST-2084"@.len() != "bt2020-10"@.len());
    }
    assert("SMPTE-ST-2084"@ != "BT.2020-10"@) by {
        assert("SMPTE-ST-2084"@.len() != "BT.2020-10"@.len());
    }
    assert("SMPTE-ST-2084"@ != "bt2020-12"@) by {
        assert("SMPTE-ST-2084"@.len() != "bt2020-12"@.len());
    }
    assert("SMPTE-ST-2084"@ != "BT.2020-12"@) by {
        assert("SMPTE-ST-2084"@.len() != "BT.2020-12"@.len());
    }
    assert("hlg"@ != "bt709"@) by {
        assert("hlg"@.len() != "bt709"@.len());
    }
    assert("hlg"@ != "BT.709"@) by {
        assert("hlg"@.len() != "BT.709"@.len());
    }
    assert("hlg"@ != "bt2020-10"@) by {
        assert("hlg"@.len() != "bt2020-10"@.len());
    }
    assert("hlg"@ != "BT.2020-10"@) by {
        assert("hlg"@.len() != "BT.2020-10"@.len());
    }
    assert("hlg"@ != "bt2020-12"@) by {
        assert("hlg"@.len() != "bt2020-12"@.len());
    }
    assert("hlg"@ != "BT.2020-12"@) by {
        assert("hlg"@.len() != "BT.2020-12"@.len());
    }
    assert("hlg"@ != "pq"@) by {
        assert("hlg"@.len() != "pq"@.len());
    }
    assert("hlg"@ != "SMPTE-ST-2084"@) by {
        assert("hlg"@.len() != "SMPTE-ST-2084"@.len());
    }
    assert("HLG"@ != "bt709"@) by {
        assert("HLG"@.len() != "bt709"@.len());
    }
    assert("HLG"@ != "BT.709"@) by {
        assert("HLG"@.len() != "BT.709"@.len());
    }
    assert("HLG"@ != "bt2020-10"@) by {
        assert("HLG"@.len() != "bt2020-10"@.len());
    }
    assert("HLG"@ != "BT.2020-10"@) by {
        assert("HLG"@.len() != "BT.2020-10"@.len());
    }
    assert("HLG"@ != "bt2020-12"@) by {
        assert("HLG"@.len() != "bt2020-12"@.len());
    }
    assert("HLG"@ != "BT.2020-12"@) by {
        assert("HLG"@.len() != "BT.2020-12"@.len());
    }
    assert("HLG"@ != "pq"@) by {
        assert("HLG"@.len() != "pq"@.len());
    }
    assert("HLG"@ != "SMPTE-ST-2084"@) by {
        assert("HLG"@.len() != "SMPTE-ST-2084"@.len());
    }
    assert("srgb"@ != "bt709"@) by {
        assert("srgb"@.len() != "bt709"@.len());
    }
    assert("srgb"@ != "BT.709"@) by {
        assert("srgb"@.len() != "BT.709"@.len());
    }
    assert("srgb"@ != "bt2020-10"@) by {
        assert("srgb"@.len() != "bt2020-10"@.len());
    }
    assert("srgb"@ != "BT.2020-10"@) by {
        assert("srgb"@.len() != "BT.2020-10"@.len());
    }
    assert("srgb"@ != "bt2020-12"@) by {
        assert("srgb"@.len() != "bt2020-12"@.len());
    }
    assert("srgb"@ != "BT.2020-12"@) by {
        assert("srgb"@.len() != "BT.2020-12"@.len());
    }
    assert("srgb"@ != "pq"@) by {
        assert("srgb"@.len() != "pq"@.len());
    }
    assert("srgb"@ != "SMPTE-ST-2084"@) by {
        assert("srgb"@.len() != "SMPTE-ST-2084"@.len());
    }
    assert("srgb"@ != "hlg"@) by {
        assert("srgb"@.len() != "hlg"@.len());
    }
    assert("srgb"@ != "HLG"@) by {
        assert("srgb"@.len() != "HLG"@.len());
    }
}

/// Law: both spellings that stream metadata uses for a matrix name
/// (such as `bt709` and `BT.709`) stand for the same matrix, and each
/// names its own value rather than the BT.709 fallback.
pub proof fn law_matrix_spellings_agree()
    ensures
        spec_matrix("bt709"@) == ColorMatrix::BT709,
        spec_matrix("BT.709"@) == ColorMatrix::BT709,
        spec_matrix("bt2020nc"@) == ColorMatrix::BT2020_NCL,
        spec_matrix("BT.2020-NCL"@) == ColorMatrix::BT2020_NCL,
        spec_matrix("bt2020c"@) == ColorMatrix::BT2020_CL,
        spec_matrix("BT.2020-CL"@) == ColorMatrix::BT2020_CL,
        spec_matrix("bt601"@) == ColorMatrix::BT601,
        spec_matrix("BT.601"@) == ColorMatrix::BT601,
{
    reveal_strlit("bt709");
    reveal_strlit("BT.709");
    reveal_strlit("bt2020nc");
    reveal_strlit("BT.2020-NCL");
    reveal_strlit("bt2020c");
    reveal_strlit("BT.2020-CL");
    reveal_strlit("bt601");
    reveal_strlit("BT.601");
    assert("bt2020nc"@ != "bt709"@) by {
        assert("bt2020nc"@.len() != "bt709"@.len());
    }
    assert("bt2020nc"@ != "BT.709"@) by {
        assert("bt2020nc"@.len() != "BT.709"@.len());
    }
    assert("BT.2020-NCL"@ != "bt709"@) by {
        assert("BT.2020-NCL"@.len() != "bt709"@.len());
    }
    assert("BT.2020-NCL"@ != "BT.709"@) by {
        assert("BT.2020-NCL"@.len() != "BT.709"@.len());
    }
    assert("bt2020c"@ != "bt709"@) by {
        assert("bt2020c"@.len() != "bt709"@.len());
    }
    assert("bt2020c"@ != "BT.709"@) by {
        assert("bt2020c"@.len() != "BT.709"@.len());
    }
    assert("bt2020c"@ != "bt2020nc"@) by {
        assert("bt2020c"@.len() != "bt2020nc"@.len());
    }
    assert("bt2020c"@ != "BT.2020-NCL"@) by {
        assert("bt2020c"@.len() != "BT.2020-NCL"@.len());
    }
    assert("BT.2020-CL"@ != "bt709"@) by {
        assert("BT.2020-CL"@.len() != "bt709"@.len());
    }
    assert("BT.2020-CL"@ != "BT.709"@) by {
        assert("BT.2020-CL"@.len() != "BT.709"@.len());
    }
    assert("BT.2020-CL"@ != "bt2020nc"@) by {
        assert("BT.2020-CL"@.len() != "bt2020nc"@.len());
    }
    assert("BT.2020-CL"@ != "BT.2020-NCL"@) by {
        assert("BT.2020-CL"@.len() != "BT.2020-NCL"@.len());
    }
    assert("bt601"@ != "bt709"@) by {
        assert("bt601"@[2] != "bt709"@[2]);
    }
    assert("bt601"@ != "BT.709"@) by {
        assert("bt601"@.len() != "BT.709"@.len());
    }
    assert("bt601"@ != "bt2020nc"@) by {
        assert("bt601"@.len() != "bt2020nc"@.len());
    }
    assert("bt601"@ != "BT.2020-NCL"@) by {
        assert("bt601"@.len() != "BT.2020-NCL"@.len());
    }
    assert("bt601"@ != "bt2020c"@) by {
        assert("bt601"@.len() != "bt2020c"@.len());
    }
    assert("bt601"@ != "BT.2020-CL"@) by {
        assert("bt601"@.len() != "BT.2020-CL"@.len());
    }
    assert("BT.601"@ != "bt709"@) by {
        assert("BT.601"@.len() != "bt709"@.len());
    }
    assert("BT.601"@ != "BT.709"@) by {
        assert("BT.601"@[3] != "BT.709"@[3]);
    }
    assert("BT.601"@ != "bt2020nc"@) by {
        assert("BT.601"@.len() != "bt2020nc"@.len());
    }
    assert("BT.601"@ != "BT.2020-NCL"@) by {
        assert("BT.601"@.len() != "BT.2020-NCL"@.len());
    }
    assert("BT.601"@ != "bt2020c"@) by {
        assert("BT.601"@.len() != "bt2020c"@.len());
    }
    assert("BT.601"@ != "BT.2020-CL"@) by {
        assert("BT.601"@.len() != "BT.2020-CL"@.len());
    }
}

} // verus!
