use pixelguard::file::FileManager;
use pixelguard::file::ImageFormat;

#[test]
fn detect_format_known_extensions() {
    assert_eq!(FileManager::detect_format("x.jpg"), ImageFormat::Jpeg);
    assert_eq!(FileManager::detect_format("x.jpeg"), ImageFormat::Jpeg);
    assert_eq!(FileManager::detect_format("x.png"), ImageFormat::Png);
    assert_eq!(FileManager::detect_format("x.webp"), ImageFormat::WebP);
    assert_eq!(FileManager::detect_format("x.gif"), ImageFormat::Gif);
    assert_eq!(FileManager::detect_format("x.bmp"), ImageFormat::Bmp);
    assert_eq!(FileManager::detect_format("x.tiff"), ImageFormat::Tiff);
    assert_eq!(FileManager::detect_format("x.tif"), ImageFormat::Tiff);
}

#[test]
fn detect_format_ignores_ascii_case() {
    assert_eq!(FileManager::detect_format("x.JPG"), ImageFormat::Jpeg);
    assert_eq!(FileManager::detect_format("x.Png"), ImageFormat::Png);
    assert_eq!(FileManager::detect_format("x.WeBp"), ImageFormat::WebP);
    assert_eq!(FileManager::detect_format("x.TIFF"), ImageFormat::Tiff);
}

#[test]
fn detect_format_unknown_cases() {
    assert_eq!(FileManager::detect_format("x.txt"), ImageFormat::Unknown);
    assert_eq!(FileManager::detect_format("noext"), ImageFormat::Unknown);
    assert_eq!(FileManager::detect_format("dir.png/noext"), ImageFormat::Unknown);
    assert_eq!(FileManager::detect_format(".bashrc"), ImageFormat::Unknown);
    assert_eq!(FileManager::detect_format("x."), ImageFormat::Unknown);
}

#[test]
fn analyze_file_builds_the_descriptor() {
    let f = FileManager::analyze_file(String::from("imgs/photo.PNG"), 12345).unwrap();
    assert_eq!(f.path, "imgs/photo.PNG");
    assert_eq!(f.name, "photo.PNG");
    assert_eq!(f.size, 12345);
    assert_eq!(f.format, ImageFormat::Png);
}

#[test]
fn analyze_file_without_a_name_is_skipped() {
    assert!(FileManager::analyze_file(String::from("imgs/"), 10).is_none());
    assert!(FileManager::analyze_file(String::from(""), 10).is_none());
}

#[test]
fn format_file_size_picks_units() {
    assert_eq!(FileManager::format_file_size(0), "0.0 B");
    assert_eq!(FileManager::format_file_size(512), "512.0 B");
    assert_eq!(FileManager::format_file_size(1023), "1023.0 B");
    assert_eq!(FileManager::format_file_size(1024), "1.0 KB");
    assert_eq!(FileManager::format_file_size(1536), "1.5 KB");
    assert_eq!(FileManager::format_file_size(1024 * 1024), "1.0 MB");
    assert_eq!(FileManager::format_file_size(5 * 1024 * 1024 + 512 * 1024), "5.5 MB");
    assert_eq!(FileManager::format_file_size(1024 * 1024 * 1024), "1.0 GB");
    assert_eq!(FileManager::format_file_size(3 * 1024 * 1024 * 1024 / 2), "1.5 GB");
}

#[test]
fn format_file_size_rounds_half_up() {
    // 1332 bytes are about 1.30 KB and stay at 1.3.
    assert_eq!(FileManager::format_file_size(1332), "1.3 KB");
    // 1126 bytes are about 1.0996 KB and round to 1.1.
    assert_eq!(FileManager::format_file_size(1126), "1.1 KB");
    // 1178 bytes are about 1.1504 KB; the half rounds up to 1.2.
    assert_eq!(FileManager::format_file_size(1178), "1.2 KB");
}
