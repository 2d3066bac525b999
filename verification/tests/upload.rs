use imgtest::models::ImageStruct;
use imgtest::upload::{
    field_is_processable, process_entries, push_image_struct_from_file, try_process_entries,
    ContentType, SavedData, UploadedField,
};

fn ct(top: &str, sub: &str) -> Option<ContentType> {
    Some(ContentType { top: top.to_string(), sub: sub.to_string() })
}

fn text(t: &str) -> UploadedField {
    UploadedField { filename: None, content_type: None, data: SavedData::Text(t.to_string()) }
}

fn file(name: Option<&str>, c: Option<ContentType>, path: &str) -> UploadedField {
    UploadedField { filename: name.map(String::from), content_type: c, data: SavedData::File(path.to_string(), 10) }
}

#[test]
fn multipart_form_yields_its_images_in_order() {
    let fields = vec![
        text("this part of text. must be skipped... "),
        file(Some("img.jpg"), ct("image", "jpeg"), "/tmp/upload/a"),
        file(Some("img.png"), ct("image", "png"), "/tmp/upload/b"),
        text("http://www.lanzeva.ru/media/cache/3a/10/3a102f5862e95fc947e61fe70cc6ffda.jpg"),
    ];
    let mut out = b"head".to_vec();
    let imgs = process_entries(&fields, &mut out);
    assert_eq!(out, b"head\n".to_vec());
    assert_eq!(imgs.len(), 3);
    assert_eq!(imgs[0].name, "img.jpg");
    assert_eq!(imgs[0].image_type, "jpeg");
    assert_eq!(imgs[0].data.as_ref().unwrap().path.as_deref(), Some("/tmp/upload/a"));
    assert_eq!(imgs[1].name, "img.png");
    assert_eq!(imgs[1].image_type, "png");
    assert_eq!(imgs[2].name, "3a102f5862e95fc947e61fe70cc6ffda.jpg");
    assert_eq!(imgs[2].image_type, "jpeg");
    assert_eq!(
        imgs[2].data.as_ref().unwrap().url.as_deref(),
        Some("http://www.lanzeva.ru/media/cache/3a/10/3a102f5862e95fc947e61fe70cc6ffda.jpg")
    );
}

#[test]
fn urls_are_normalized_before_use() {
    let fields = vec![text("HTTP://Example.COM/a/../pic.png")];
    let imgs = process_entries(&fields, &mut Vec::new());
    assert_eq!(imgs.len(), 1);
    assert_eq!(imgs[0].name, "pic.png");
    assert_eq!(imgs[0].data.as_ref().unwrap().url.as_deref(), Some("http://example.com/pic.png"));
}

#[test]
fn other_fields_are_skipped() {
    let fields = vec![
        file(Some("doc.txt"), ct("text", "plain"), "/tmp/upload/c"),
        file(None, None, "/tmp/upload/d"),
        UploadedField { filename: None, content_type: None, data: SavedData::Bytes(vec![1, 2, 3]) },
        UploadedField { filename: None, content_type: ct("application", "octet-stream"), data: SavedData::Text("x".to_string()) },
    ];
    let imgs = process_entries(&fields, &mut Vec::new());
    assert!(imgs.is_empty());
}

#[test]
fn file_without_name_gets_empty_name() {
    let fields = vec![file(None, ct("image", "png"), "/tmp/upload/e")];
    let imgs = process_entries(&fields, &mut Vec::new());
    assert_eq!(imgs.len(), 1);
    assert_eq!(imgs[0].name, "");
}

#[test]
fn push_from_file() {
    let mut v = vec![ImageStruct::default()];
    push_image_struct_from_file(&mut v, &"f.png".to_string(), &SavedData::File("/p".to_string(), 1), &"png".to_string());
    assert_eq!(v.len(), 2);
    assert_eq!(v[1].name, "f.png");
    assert_eq!(v[1].image_type, "png");
    assert_eq!(v[1].data.as_ref().unwrap().path.as_deref(), Some("/p"));
}

#[test]
fn image_field_not_saved_as_file_cannot_be_processed() {
    let bad = UploadedField { filename: Some("a.jpg".to_string()), content_type: ct("image", "jpeg"), data: SavedData::Text("abc".to_string()) };
    assert!(!field_is_processable(&bad));
    let fields = vec![text("plain"), bad];
    let mut out = Vec::new();
    assert_eq!(try_process_entries(&fields, &mut out).err(), Some(1));
    assert!(out.is_empty());
}

#[test]
fn url_with_unknown_extension_cannot_be_processed() {
    let fields = vec![text("https://example.com/picture.gif")];
    assert!(!field_is_processable(&fields[0]));
    assert_eq!(try_process_entries(&fields, &mut Vec::new()).err(), Some(0));
}

#[test]
fn good_fields_are_processed_by_the_checked_entry() {
    let fields = vec![text("https://example.com/a.png"), text("no url here")];
    let mut out = Vec::new();
    let imgs = try_process_entries(&fields, &mut out).ok().unwrap();
    assert_eq!(imgs.len(), 1);
    assert_eq!(imgs[0].image_type, "png");
    assert_eq!(out, b"\n".to_vec());
}

#[test]
fn fields_are_processed_one_by_one() {
    let a = vec![text("https://example.com/a.png"), file(Some("b.jpg"), ct("image", "jpeg"), "/tmp/b")];
    let b = vec![text("skip me"), text("https://example.com/c/d.jpg")];
    let both: Vec<UploadedField> = vec![
        text("https://example.com/a.png"),
        file(Some("b.jpg"), ct("image", "jpeg"), "/tmp/b"),
        text("skip me"),
        text("https://example.com/c/d.jpg"),
    ];
    let ia = process_entries(&a, &mut Vec::new());
    let ib = process_entries(&b, &mut Vec::new());
    let iboth = process_entries(&both, &mut Vec::new());
    let names = |v: &Vec<ImageStruct>| v.iter().map(|i| i.name.clone()).collect::<Vec<_>>();
    let mut joined = names(&ia);
    joined.extend(names(&ib));
    assert_eq!(names(&iboth), joined);
    assert_eq!(names(&iboth), vec!["a.png", "b.jpg", "d.jpg"]);
    assert!(iboth.len() <= both.len());
}

#[test]
fn stored_urls_parse_back_to_themselves() {
    let imgs = process_entries(&vec![text("HTTP://Example.COM/a/../pic.png")], &mut Vec::new());
    let stored = imgs[0].data.as_ref().unwrap().url.clone().unwrap();
    let again = process_entries(&vec![text(&stored)], &mut Vec::new());
    assert_eq!(again[0].data.as_ref().unwrap().url.as_deref(), Some(stored.as_str()));
}
