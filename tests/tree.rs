use nativelibs::{
    free_tree, get_bounding_box, read_svg_to_tree, render_tree, BoundingBox, SvgTree, TreeError,
};

fn parse(svg: &str) -> SvgTree {
    read_svg_to_tree(svg.as_bytes()).ok().expect("document should parse")
}

fn size_of(tree: &SvgTree) -> (f32, f32) {
    let bb = get_bounding_box(tree);
    (f32::from_bits(bb.width_bits), f32::from_bits(bb.height_bits))
}

#[test]
fn bounding_box_sanity_test() {
    let svg = r##"
    <svg xmlns="http://www.w3.org/2000/svg">
      <rect width="100" height="100"> </rect>
    </svg>
    "##;
    let tree = parse(svg);
    assert_eq!(size_of(&tree).0, 100.0);
    assert_eq!(size_of(&tree).1, 100.0);
}

#[test]
fn view_box_sanity_test() {
    let svg = r##"
    <svg xmlns="http://www.w3.org/2000/svg" width="1920" height="1080">
    </svg>
    "##;
    let tree = parse(svg);
    assert_eq!(size_of(&tree).0, 1920.0);
    assert_eq!(size_of(&tree).1, 1080.0);
}

#[test]
fn unclosed_tag_gives_parse_error() {
    let svg = r##"<svg xmlns="http://www.w3.org/2000/svg" width="10" height="10"><rect"##;
    assert!(matches!(read_svg_to_tree(svg.as_bytes()), Err(TreeError::Parse(_))));
}

#[test]
fn non_svg_markup_gives_parse_error() {
    assert!(matches!(read_svg_to_tree(b"<html></html>"), Err(TreeError::Parse(_))));
    assert!(matches!(read_svg_to_tree(b""), Err(TreeError::Parse(_))));
}

#[test]
fn invalid_utf8_gives_utf8_error() {
    let mut bytes = br#"<svg xmlns="http://www.w3.org/2000/svg" width="10" height="10">"#.to_vec();
    bytes.push(0xff);
    bytes.extend_from_slice(b"</svg>");
    assert!(matches!(read_svg_to_tree(&bytes), Err(TreeError::InvalidUtf8)));
    // a lone surrogate encoding is not UTF-8 either
    assert!(matches!(read_svg_to_tree(&[0xed, 0xa0, 0x80]), Err(TreeError::InvalidUtf8)));
}

#[test]
fn valid_utf8_is_decoded() {
    let svg = "<svg xmlns=\"http://www.w3.org/2000/svg\" width=\"7\" height=\"3\"><title>é ✓</title></svg>";
    let tree = parse(svg);
    assert_eq!(size_of(&tree), (7.0, 3.0));
}

#[test]
fn repeated_size_queries_agree() {
    let tree = parse(r#"<svg xmlns="http://www.w3.org/2000/svg" width="12.5" height="40"/>"#);
    let first: BoundingBox = get_bounding_box(&tree);
    for _ in 0..5 {
        assert_eq!(get_bounding_box(&tree), first);
    }
    assert_eq!(size_of(&tree), (12.5, 40.0));
}

#[test]
fn render_swaps_first_and_third_channel() {
    let tree = parse(
        r#"<svg xmlns="http://www.w3.org/2000/svg" width="100" height="100">
             <rect width="100" height="100" fill="rgb(255,128,0)"/>
           </svg>"#,
    );
    let img = render_tree(&tree).expect("rendering should succeed");
    assert_eq!(img.width, 100);
    assert_eq!(img.height, 100);
    assert_eq!(img.pixels.len(), 100 * 100 * 4);
    for px in img.pixels.chunks(4) {
        assert_eq!(px, &[0, 128, 255, 255]);
    }
}

#[test]
fn render_truncates_size() {
    let tree = parse(r#"<svg xmlns="http://www.w3.org/2000/svg" width="10.7" height="5.2"/>"#);
    let img = render_tree(&tree).expect("rendering should succeed");
    assert_eq!((img.width, img.height), (10, 5));
    assert_eq!(img.pixels.len(), 10 * 5 * 4);
}

#[test]
fn render_of_empty_document_is_transparent() {
    let tree = parse(r#"<svg xmlns="http://www.w3.org/2000/svg" width="4" height="3"/>"#);
    let img = render_tree(&tree).expect("rendering should succeed");
    assert_eq!(img.pixels, vec![0u8; 4 * 3 * 4]);
}

#[test]
fn render_below_one_pixel_gives_none() {
    let tree = parse(r#"<svg xmlns="http://www.w3.org/2000/svg" width="0.5" height="20"/>"#);
    assert!(render_tree(&tree).is_none());
}

#[test]
fn render_too_wide_gives_none() {
    let tree = parse(r#"<svg xmlns="http://www.w3.org/2000/svg" width="600000000" height="1"/>"#);
    assert!(render_tree(&tree).is_none());
}

#[test]
fn render_leaves_tree_usable() {
    let tree = parse(r#"<svg xmlns="http://www.w3.org/2000/svg" width="2" height="2"/>"#);
    let a = render_tree(&tree).expect("rendering should succeed");
    let b = render_tree(&tree).expect("rendering should succeed");
    assert_eq!(a.pixels, b.pixels);
    assert_eq!(size_of(&tree), (2.0, 2.0));
    free_tree(tree);
}

#[test]
fn free_tree_releases_each_tree_once() {
    for _ in 0..100 {
        let tree = parse(r#"<svg xmlns="http://www.w3.org/2000/svg" width="20" height="20"><circle r="5"/></svg>"#);
        free_tree(tree);
    }
}

#[test]
fn same_bytes_give_same_outcome() {
    let good = br#"<svg xmlns="http://www.w3.org/2000/svg" width="30" height="15"/>"#;
    let a = read_svg_to_tree(good).ok().expect("document should parse");
    let b = read_svg_to_tree(good).ok().expect("document should parse");
    assert_eq!(get_bounding_box(&a), get_bounding_box(&b));
    let bad = br#"<svg xmlns="http://www.w3.org/2000/svg">"#;
    assert!(matches!(read_svg_to_tree(bad), Err(TreeError::Parse(_))));
    assert!(matches!(read_svg_to_tree(bad), Err(TreeError::Parse(_))));
}
