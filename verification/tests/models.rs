use imgtest::models::{names_image, rename_file, ImageFetch, ImageInterface, ImageSource, ImageStruct, Images};

const LINK: &str = "http://www.lanzeva.ru/media/cache/3a/10/3a102f5862e95fc947e61fe70cc6ffda.jpg";

#[test]
fn default_image() {
    let img = ImageStruct::default();
    assert_eq!(img.name, "unnamed.jpg");
    assert_eq!(img.image_type, "jpeg");
    assert!(img.data.is_none());
}

#[test]
fn image_from_url_takes_name_and_type_from_path() {
    let img = ImageStruct::from_url(LINK);
    assert_eq!(img.name, "3a102f5862e95fc947e61fe70cc6ffda.jpg");
    assert_eq!(img.image_type, "jpeg");
    let src = img.data.unwrap();
    assert_eq!(src.url.as_deref(), Some(LINK));
    assert!(src.path.is_none());
    assert!(src.base64.is_none());
}

#[test]
fn png_url() {
    let img = ImageStruct::from_url("https://example.com/pics/cat.photo.png?size=2");
    assert_eq!(img.name, "cat.photo.png");
    assert_eq!(img.image_type, "png");
}

#[test]
fn which_urls_name_images() {
    assert!(names_image(LINK));
    assert!(names_image("https://example.com/a/b.png"));
    assert!(names_image("https://example.com/jpg"));
    assert!(!names_image("https://example.com/"));
    assert!(!names_image("https://example.com/a.gif"));
    assert!(!names_image("https://example.com/a.JPG"));
    assert!(!names_image("data:text/plain,HelloWorld.jpg"));
    assert!(!names_image("not a url.jpg"));
}

#[test]
fn source_without_url_gives_no_name() {
    let src = ImageSource::from_file(&"a".to_string(), &"jpeg".to_string(), &"/tmp/x".to_string());
    assert!(src.extract_filename_and_type_from_url().is_none());
    let from_url = ImageSource::from_url(LINK);
    let (name, typ) = from_url.extract_filename_and_type_from_url().unwrap();
    assert_eq!(name, "3a102f5862e95fc947e61fe70cc6ffda.jpg");
    assert_eq!(typ, "jpeg");
}

#[test]
fn sources_hold_one_kind() {
    let b = ImageSource::from_base64("n", "png", "aGVsbG8=".to_string());
    assert_eq!(b.base64.as_deref(), Some("aGVsbG8="));
    assert!(b.url.is_none() && b.path.is_none());
    let f = ImageStruct::from_file(&"img.png".to_string(), &"png".to_string(), &"/tmp/up/123".to_string());
    assert_eq!(f.name, "img.png");
    assert_eq!(f.image_type, "png");
    assert_eq!(f.data.unwrap().path.as_deref(), Some("/tmp/up/123"));
}

#[test]
fn rename_appends_extension() {
    assert_eq!(rename_file("/tmp/abc", "png"), "/tmp/abc.png");
    assert_eq!(rename_file("", "jpeg"), ".jpeg");
}

#[test]
fn thumbnail_paths() {
    let mut img = ImageStruct::default();
    assert_eq!(img.thumbnail_path().as_deref(), Some("media/thumbnails/unnamed.jpg"));
    for (name, path) in [
        ("sub/a.jpg", "media/thumbnails/sub/a.jpg"),
        ("..a.png", "media/thumbnails/..a.png"),
        ("a..b/c.jpg", "media/thumbnails/a..b/c.jpg"),
        ("", "media/thumbnails/"),
    ] {
        img.name = name.to_string();
        assert_eq!(img.thumbnail_path().as_deref(), Some(path), "{}", name);
    }
}

#[test]
fn names_leading_outside_get_no_thumbnail() {
    let mut img = ImageStruct::default();
    for name in ["/var/abs.png", "../../etc/x.jpg", "..", "a/..", "a/../b.jpg", "/"] {
        img.name = name.to_string();
        assert_eq!(img.thumbnail_path(), None, "{}", name);
    }
}

fn with_source(base64: Option<&str>, url: Option<&str>, path: Option<&str>) -> ImageStruct {
    ImageStruct {
        name: "x.jpg".to_string(),
        image_type: "jpeg".to_string(),
        data: Some(ImageSource {
            base64: base64.map(String::from),
            url: url.map(String::from),
            path: path.map(String::from),
        }),
    }
}

#[test]
fn path_comes_first() {
    match with_source(Some("aGVsbG8="), Some(LINK), Some("/tmp/up/1")).get_image() {
        ImageFetch::OpenFile { from, to } => {
            assert_eq!(from, "/tmp/up/1");
            assert_eq!(to, "/tmp/up/1.jpeg");
        }
        _ => panic!("expected a file"),
    }
}

#[test]
fn url_comes_before_base64() {
    match with_source(Some("aGVsbG8="), Some(LINK), None).get_image() {
        ImageFetch::Download { url, image_type } => {
            assert_eq!(url, LINK);
            assert_eq!(image_type, "jpeg");
        }
        _ => panic!("expected a download"),
    }
}

#[test]
fn base64_is_decoded() {
    match with_source(Some("aGVsbG8gd29ybGQ="), None, None).get_image() {
        ImageFetch::Decoded { bytes, image_type } => {
            assert_eq!(bytes, b"hello world".to_vec());
            assert_eq!(image_type, "jpeg");
        }
        _ => panic!("expected decoded bytes"),
    }
}

#[test]
fn empty_source_has_nothing_to_read() {
    assert!(matches!(with_source(None, None, None).get_image(), ImageFetch::NoSource));
}

#[test]
fn unreadable_sources_are_reported() {
    assert!(with_source(Some("not base64!"), None, None).try_get_image().is_none());
    assert!(ImageStruct::default().try_get_image().is_none());
    assert!(matches!(
        with_source(Some("not base64!"), Some(LINK), None).try_get_image(),
        Some(ImageFetch::Download { .. })
    ));
}

#[test]
fn images_hold_their_list() {
    let imgs = Images { images: vec![ImageStruct::default(), ImageStruct::from_url(LINK)] };
    assert_eq!(imgs.images.len(), 2);
    assert_eq!(imgs.images[1].image_type, "jpeg");
}
