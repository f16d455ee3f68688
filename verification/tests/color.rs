use mvlc::color::{color_space_from_names, matrix_from_name, primaries_from_name, transfer_from_name};
use mvlc::{ColorMatrix, ColorPrimaries, ColorTransfer};

#[test]
fn test_colorimetry_extraction() {
    let colorimetry = color_space_from_names(
        &Some("bt2020".to_string()),
        &Some("pq".to_string()),
        &Some("bt2020nc".to_string()),
    );

    assert!(matches!(colorimetry.primaries, ColorPrimaries::BT2020));
    assert!(matches!(colorimetry.transfer, ColorTransfer::PQ));
    assert!(matches!(colorimetry.matrix, ColorMatrix::BT2020_NCL));
    assert!(colorimetry.is_hdr);
}

#[test]
fn missing_names_default_to_bt709() {
    let c = color_space_from_names(&None, &None, &None);
    assert_eq!(c.primaries, ColorPrimaries::BT709);
    assert_eq!(c.transfer, ColorTransfer::BT709);
    assert_eq!(c.matrix, ColorMatrix::BT709);
    assert!(!c.is_hdr);
}

#[test]
fn unknown_names_fall_back_to_bt709() {
    assert_eq!(primaries_from_name(&"xyz".to_string()), ColorPrimaries::BT709);
    assert_eq!(transfer_from_name(&"PQ".to_string()), ColorTransfer::BT709);
    assert_eq!(matrix_from_name(&"".to_string()), ColorMatrix::BT709);
}

#[test]
fn both_spellings_are_understood() {
    assert_eq!(primaries_from_name(&"DCI-P3".to_string()), ColorPrimaries::DCI_P3);
    assert_eq!(primaries_from_name(&"BT.601".to_string()), ColorPrimaries::BT601_525);
    assert_eq!(transfer_from_name(&"SMPTE-ST-2084".to_string()), ColorTransfer::PQ);
    assert_eq!(transfer_from_name(&"HLG".to_string()), ColorTransfer::HLG);
    assert_eq!(transfer_from_name(&"bt2020-12".to_string()), ColorTransfer::BT2020_12);
    assert_eq!(transfer_from_name(&"srgb".to_string()), ColorTransfer::SRGB);
    assert_eq!(matrix_from_name(&"BT.2020-CL".to_string()), ColorMatrix::BT2020_CL);
    assert_eq!(matrix_from_name(&"bt601".to_string()), ColorMatrix::BT601);
}

#[test]
fn hlg_is_not_counted_as_hdr() {
    let c = color_space_from_names(&None, &Some("hlg".to_string()), &None);
    assert_eq!(c.transfer, ColorTransfer::HLG);
    assert!(!c.is_hdr);
}
