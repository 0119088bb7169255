use pixelguard::compression::generate_output_path;
use pixelguard::compression::generate_temp_path;
use pixelguard::compression::OutputFormat;

#[test]
fn output_path_per_format() {
    assert_eq!(
        generate_output_path("photos/cat.jpg", "out", OutputFormat::Png),
        "out/cat_compressed.png"
    );
    assert_eq!(
        generate_output_path("photos/cat.jpg", "out", OutputFormat::WebP),
        "out/cat_compressed.webp"
    );
    assert_eq!(
        generate_output_path("photos/cat.jpg", "out", OutputFormat::Jpeg),
        "out/cat_compressed.jpg"
    );
}

#[test]
fn output_path_directory_join() {
    // A trailing slash is not doubled.
    assert_eq!(
        generate_output_path("a/b.png", "out/", OutputFormat::Png),
        "out/b_compressed.png"
    );
    // An empty directory contributes nothing.
    assert_eq!(generate_output_path("a/b.png", "", OutputFormat::Png), "b_compressed.png");
    // Nested directories are kept as given.
    assert_eq!(
        generate_output_path("b.png", "x/y", OutputFormat::Png),
        "x/y/b_compressed.png"
    );
}

#[test]
fn output_path_stem_rules() {
    // Only the last extension is dropped.
    assert_eq!(
        generate_output_path("a/archive.tar.gz", "o", OutputFormat::Png),
        "o/archive.tar_compressed.png"
    );
    // A leading dot opens no extension.
    assert_eq!(
        generate_output_path("/home/.bashrc", "o", OutputFormat::Png),
        "o/.bashrc_compressed.png"
    );
    // A name without any dot is its own stem.
    assert_eq!(generate_output_path("noext", "o", OutputFormat::Png), "o/noext_compressed.png");
    // A trailing dot leaves an empty extension behind.
    assert_eq!(generate_output_path("a/b.", "o", OutputFormat::Png), "o/b_compressed.png");
}

#[test]
fn temp_path_sits_beside_the_output() {
    assert_eq!(generate_temp_path("photos/cat.jpg", "out"), "out/cat_compressed.temp.png");
}

#[test]
fn output_path_is_deterministic() {
    // Identical inputs always derive the identical path.
    let a = generate_output_path("photos/cat.jpg", "out", OutputFormat::WebP);
    let b = generate_output_path("photos/cat.jpg", "out", OutputFormat::WebP);
    assert_eq!(a, b);
}

#[test]
fn same_stem_collides_silently() {
    // Documented limitation: two inputs with one stem share the output path.
    let a = generate_output_path("x/cat.png", "out", OutputFormat::Png);
    let b = generate_output_path("y/cat.bmp", "out", OutputFormat::Png);
    assert_eq!(a, b);
}
