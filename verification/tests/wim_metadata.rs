use letrecovery::dism::Dism;
use letrecovery::wim::{
    decode_utf16le, determine_image_type_from_info, extract_image_block, extract_xml_tag,
    get_image_major_version_from_xml, image_file_kind, parse_wim_header,
    parse_wim_xml, ImageFileKind, WimError, WimImageType,
};

const XML: &str = "<WIM><TOTALBYTES>1</TOTALBYTES>\
<IMAGE INDEX=\"1\"><NAME>Windows 10 Home</NAME><WINDOWS><INSTALLATIONTYPE>Client</INSTALLATIONTYPE>\
<VERSION><MAJOR>10</MAJOR><MINOR>0</MINOR></VERSION></WINDOWS><TOTALBYTES>15000000000</TOTALBYTES></IMAGE>\
<IMAGE INDEX=\"2\"><DISPLAYNAME> Microsoft Windows Setup (x64) </DISPLAYNAME><NAME>x</NAME></IMAGE>\
</WIM>";

#[test]
fn xml_tags() {
    assert_eq!(extract_xml_tag("<A> x </A>", "A").as_deref(), Some("x"));
    assert_eq!(extract_xml_tag("<A>x", "A"), None);
    assert_eq!(extract_xml_tag("<B>x</B>", "A"), None);
}

#[test]
fn images_from_xml() {
    let images = parse_wim_xml(XML).unwrap();
    assert_eq!(images.len(), 2);
    assert_eq!(images[0].index, 1);
    assert_eq!(images[0].name, "Windows 10 Home");
    assert_eq!(images[0].installation_type, "Client");
    assert_eq!(images[0].major_version, Some(10));
    assert_eq!(images[0].minor_version, Some(0));
    assert_eq!(images[0].size_bytes, 15000000000);
    assert_eq!(images[0].image_type, WimImageType::StandardInstall);
    assert_eq!(images[1].name, "Microsoft Windows Setup (x64)");
    assert_eq!(images[1].image_type, WimImageType::WindowsPE);
}

#[test]
fn xml_without_images_is_an_error() {
    assert_eq!(parse_wim_xml("<WIM></WIM>").unwrap_err(), WimError::NoImages);
    assert_eq!(WimError::NoImages.message(), "未找到有效的镜像信息");
}

#[test]
fn image_blocks_and_versions() {
    let b = extract_image_block(XML, 2).unwrap();
    assert!(b.starts_with("<IMAGE INDEX=\"2\">"));
    assert!(b.ends_with("</IMAGE>"));
    assert!(extract_image_block(XML, 3).is_none());
    assert_eq!(get_image_major_version_from_xml(XML, 1), Ok(10));
    assert_eq!(get_image_major_version_from_xml(XML, 3), Err(WimError::IndexNotFound));
}

#[test]
fn image_types() {
    assert_eq!(determine_image_type_from_info("Windows PE", "", None, 0), WimImageType::WindowsPE);
    assert_eq!(determine_image_type_from_info("x", "WindowsPE", Some(10), 0), WimImageType::WindowsPE);
    assert_eq!(determine_image_type_from_info("Win", "Server", Some(10), 0), WimImageType::StandardInstall);
    assert_eq!(determine_image_type_from_info("Backup", "", None, 2_000_000_000), WimImageType::FullBackup);
    assert_eq!(determine_image_type_from_info("Backup", "", Some(6), 10), WimImageType::FullBackup);
    assert_eq!(determine_image_type_from_info("Data", "", None, 10), WimImageType::Unknown);
}

#[test]
fn utf16_decoding() {
    let bytes: Vec<u8> = "<WIM>镜像</WIM>".encode_utf16().flat_map(|u| u.to_le_bytes()).collect();
    assert_eq!(decode_utf16le(&bytes).unwrap(), "<WIM>镜像</WIM>");
    let mut with_bom = vec![0xFF, 0xFE];
    with_bom.extend_from_slice(&bytes);
    assert!(decode_utf16le(&with_bom).unwrap().ends_with("</WIM>"));
    assert_eq!(decode_utf16le(&[0x41]).unwrap_err(), WimError::TooShort);
    assert_eq!(decode_utf16le(&[0x00, 0xD8]).unwrap_err(), WimError::Utf16Decode);
}

#[test]
fn wim_header() {
    let mut h = [0u8; 208];
    assert_eq!(parse_wim_header(&h).unwrap_err(), WimError::NotWim);
    h[..8].copy_from_slice(b"MSWIM\0\0\0");
    assert_eq!(parse_wim_header(&h).unwrap_err(), WimError::BadXmlLocation);
    h[49] = 0x01; // XML offset 0x100, little-endian at 48
    h[56] = 0x10; // XML size 0x10, little-endian at 56
    assert_eq!(parse_wim_header(&h), Ok((0x100, 0x10)));
}

#[test]
fn win10_detection() {
    assert_eq!(image_file_kind("a.WIM"), Ok(ImageFileKind::Wim));
    assert_eq!(image_file_kind("a.iso"), Err(WimError::UnsupportedFormat));
    assert_eq!(Dism::is_win10_or_11_image_by_ntdll("a.wim", Some(10), Err(WimError::VersionParse)), Ok(true));
    assert_eq!(Dism::is_win10_or_11_image_by_ntdll("a.esd", Some(6), Ok(10)), Ok(false));
    assert_eq!(Dism::is_win10_or_11_image_by_ntdll("a.swm", Some(6), Ok(10)), Ok(true));
    assert_eq!(Dism::is_win10_or_11_image_by_ntdll("a.wim", None, Err(WimError::VersionParse)), Err(WimError::VersionParse));
}
