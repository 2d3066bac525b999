use vstd::prelude::*;

use crate::bindings::{parse_url, url_serialization};
use crate::models::{
    ImageSourceView, file_image, images_view, names_image, url_image, url_names_image, ImageInterface, ImageStruct,
    ImageStructView,
};

verus! {

/// How the multipart parser kept the data of one form field.
pub enum SavedData {
    /// A short text value.
    Text(String),
    /// A file written to the given path, with its size in bytes.
    File(String, u64),
    /// Raw bytes.
    Bytes(Vec<u8>),
}

/// The MIME type of a form field, as its lower-case type and subtype
/// (`image` and `jpeg` for `image/jpeg`).
pub struct ContentType {
    pub top: String,
    pub sub: String,
}

/// One field of a `multipart/form-data` request, as the multipart parser
/// saved it.
pub struct UploadedField {
    pub filename: Option<String>,
    pub content_type: Option<ContentType>,
    pub data: SavedData,
}

pub enum SavedDataView {
    Text(Seq<char>),
    File(Seq<char>, u64),
    Bytes(Seq<u8>),
}

pub struct UploadedFieldView {
    pub filename: Option<Seq<char>>,
    pub content_type: Option<(Seq<char>, Seq<char>)>,
    pub data: SavedDataView,
}

impl View for SavedData {
    type V = SavedDataView;

    open spec fn view(&self) -> SavedDataView {
        match self {
            SavedData::Text(t) => SavedDataView::Text(t@),
            SavedData::File(p, n) => SavedDataView::File(p@, *n),
            SavedData::Bytes(b) => SavedDataView::Bytes(b@),
        }
    }
}

/// The view of an optional content type.
pub open spec fn content_type_view(c: Option<ContentType>) -> Option<(Seq<char>, Seq<char>)> {
    match c {
        Some(ct) => Some((ct.top@, ct.sub@)),
        None => None,
    }
}

impl View for UploadedField {
    type V = UploadedFieldView;

    open spec fn view(&self) -> UploadedFieldView {
        UploadedFieldView {
            filename: self.filename.deep_view(),
            content_type: content_type_view(self.content_type),
            data: self.data@,
        }
    }
}

/// The views of a list of fields, in order.
pub open spec fn fields_view(v: Seq<UploadedField>) -> Seq<UploadedFieldView> {
    v.map_values(|f: UploadedField| f@)
}

/// Whether a content type is one of the image types the server takes as
/// uploaded files: `image/jpeg` or `image/png`.
pub open spec fn is_uploaded_image_type(ct: (Seq<char>, Seq<char>)) -> bool {
    ct.0 == "image"@ && (ct.1 == "jpeg"@ || ct.1 == "png"@)
}

/// The name of an uploaded file, empty when the field gives none.
pub open spec fn file_name_or_empty(name: Option<Seq<char>>) -> Seq<char> {
    match name {
        Some(n) => n,
        None => Seq::empty(),
    }
}

/// The image that one field yields, if any: a JPEG or PNG file yields an
/// image of that type named after the file; a field without a content type
/// whose text parses as a URL yields the image at that URL; every other
/// field yields nothing.
pub open spec fn field_image(f: UploadedFieldView) -> Option<ImageStructView> {
    match f.content_type {
        Some(ct) => if is_uploaded_image_type(ct) {
            match f.data {
                SavedDataView::File(path, _) => Some(
                    file_image(file_name_or_empty(f.filename), ct.1, path),
                ),
                _ => None,
            }
        } else {
            None
        },
        None => match f.data {
            SavedDataView::Text(t) => match url_serialization(t) {
                Some(u) => Some(url_image(u)),
                None => None,
            },
            _ => None,
        },
    }
}

/// Whether a field can be processed without failing: a JPEG or PNG field
/// must have been saved as a file, and a URL given as text must name an
/// image with a known extension.
pub open spec fn field_processable(f: UploadedFieldView) -> bool {
    match f.content_type {
        Some(ct) => is_uploaded_image_type(ct) ==> f.data is File,
        None => match f.data {
            SavedDataView::Text(t) => match url_serialization(t) {
                Some(u) => url_names_image(u),
                None => true,
            },
            _ => true,
        },
    }
}

/// The images that a list of fields yields, in the order of the fields.
pub open spec fn collected_images(fields: Seq<UploadedFieldView>) -> Seq<ImageStructView>
    decreases fields.len(),
{
    if fields.len() == 0 {
        Seq::empty()
    } else {
        let rest = collected_images(fields.drop_last());
        match field_image(fields.last()) {
            Some(i) => rest.push(i),
            None => rest,
        }
    }
}

/// Appends to `to_vector` the image of an uploaded file saved in `sd`, named
/// `file_name`, of MIME subtype `sl`.
pub fn push_image_struct_from_file(
    to_vector: &mut Vec<ImageStruct>,
    file_name: &String,
    sd: &SavedData,
    sl: &String,
)
    requires
        sd is File,
    ensures
        images_view(final(to_vector)@) == images_view(old(to_vector)@).push(
            file_image(file_name@, sl@, sd->File_0@),
        ),
{
    match sd {
        SavedData::File(path, _) => {
            let image = ImageStruct::from_file(file_name, sl, path);
            let ghost before = to_vector@;
            to_vector.push(image);
            assert(images_view(to_vector@) =~= images_view(before).push(image@));
        },
        _ => {},
    }
}

/// Whether the lower-case content type `ct` is `image/jpeg` or `image/png`.
fn uploaded_image_type(ct: &ContentType) -> (r: bool)
    ensures
        r == is_uploaded_image_type((ct.top@, ct.sub@)),
{
    let image = String::from_str("image");
    let jpeg = String::from_str("jpeg");
    let png = String::from_str("png");
    ct.top == image && (ct.sub == jpeg || ct.sub == png)
}

/// Whether a field can be processed without failing.
pub fn field_is_processable(f: &UploadedField) -> (r: bool)
    ensures
        r == field_processable(f@),
{
    match &f.content_type {
        Some(ct) => {
            if uploaded_image_type(ct) {
                match &f.data {
                    SavedData::File(_, _) => true,
                    _ => false,
                }
            } else {
                true
            }
        },
        None => match &f.data {
            SavedData::Text(t) => match parse_url(t.as_str()) {
                Some(u) => names_image(u.as_str()),
                None => true,
            },
            _ => true,
        },
    }
}

/// Whether the URL that an image holds, if any, parses again to itself.
pub open spec fn image_url_reparses(img: ImageStructView) -> bool {
    match img.data {
        Some(src) => match src.url {
            Some(u) => url_serialization(u) == Some(u),
            None => true,
        },
        None => true,
    }
}

/// Whether every URL that the images hold parses again to itself.
pub open spec fn urls_reparse(imgs: Seq<ImageStructView>) -> bool {
    forall|i: int| 0 <= i < imgs.len() ==> image_url_reparses(#[trigger] imgs[i])
}

/// Appends to `imgs` the image that field `f` yields, if any.
fn push_field_image(imgs: &mut Vec<ImageStruct>, f: &UploadedField)
    requires
        field_processable(f@),
    ensures
        images_view(final(imgs)@) == match field_image(f@) {
            Some(i) => images_view(old(imgs)@).push(i),
            None => images_view(old(imgs)@),
        },
        urls_reparse(images_view(old(imgs)@)) ==> urls_reparse(images_view(final(imgs)@)),
{
    match &f.content_type {
        Some(ct) => {
            if uploaded_image_type(ct) {
                let file_name = match &f.filename {
                    Some(n) => n.clone(),
                    None => String::new(),
                };
                push_image_struct_from_file(imgs, &file_name, &f.data, &ct.sub);
            }
        },
        None => match &f.data {
            SavedData::Text(t) => match parse_url(t.as_str()) {
                Some(u) => {
                    let image = ImageStruct::from_url(u.as_str());
                    let ghost before = imgs@;
                    imgs.push(image);
                    assert(images_view(imgs@) =~= images_view(before).push(image@));
                },
                None => {},
            },
            _ => {},
        },
    }
}

/// The images that the fields of an upload yield, in order; a blank line is
/// written to `out` once they are collected.
pub fn process_entries(entries: &Vec<UploadedField>, out: &mut Vec<u8>) -> (imgs: Vec<ImageStruct>)
    requires
        forall|i: int| 0 <= i < entries.len() ==> field_processable(#[trigger] entries@[i]@),
    ensures
        images_view(imgs@) == collected_images(fields_view(entries@)),
        urls_reparse(images_view(imgs@)),
        final(out)@ == old(out)@.push(10u8),
{
    let mut imgs: Vec<ImageStruct> = Vec::new();
    let ghost fields = fields_view(entries@);
    assert(images_view(imgs@) =~= collected_images(fields.take(0)));
    for i in 0..entries.len()
        invariant
            fields == fields_view(entries@),
            forall|j: int| 0 <= j < entries.len() ==> field_processable(#[trigger] entries@[j]@),
            images_view(imgs@) == collected_images(fields.take(i as int)),
            urls_reparse(images_view(imgs@)),
    {
        push_field_image(&mut imgs, &entries[i]);
        assert(fields.take(i + 1).drop_last() =~= fields.take(i as int));
        assert(fields.take(i + 1).last() == entries@[i as int]@);
    }
    assert(fields.take(entries.len() as int) =~= fields);
    out.push(10u8);
    imgs
}

/// The images that the fields of an upload yield, as `process_entries`
/// collects them, or the index of the first field that cannot be processed.
pub fn try_process_entries(entries: &Vec<UploadedField>, out: &mut Vec<u8>) -> (r: Result<
    Vec<ImageStruct>,
    usize,
>)
    ensures
        r matches Ok(imgs) ==> {
            &&& forall|i: int| 0 <= i < entries.len() ==> field_processable(#[trigger] entries@[i]@)
            &&& images_view(imgs@) == collected_images(fields_view(entries@))
            &&& urls_reparse(images_view(imgs@))
            &&& final(out)@ == old(out)@.push(10u8)
        },
        r matches Err(k) ==> {
            &&& k < entries.len()
            &&& !field_processable(entries@[k as int]@)
            &&& forall|i: int| 0 <= i < k ==> field_processable(#[trigger] entries@[i]@)
            &&& final(out)@ == old(out)@
        },
{
    for i in 0..entries.len()
        invariant
            forall|j: int| 0 <= j < i ==> field_processable(#[trigger] entries@[j]@),
    {
        if !field_is_processable(&entries[i]) {
            return Err(i);
        }
    }
    Ok(process_entries(entries, out))
}

/// Each field yields at most one image.
pub proof fn at_most_one_image_per_field(fields: Seq<UploadedFieldView>)
    ensures
        collected_images(fields).len() <= fields.len(),
    decreases fields.len(),
{
    if fields.len() > 0 {
        at_most_one_image_per_field(fields.drop_last());
    }
}

/// Fields are processed one by one, each on its own: the images of two
/// lists of fields sent one after the other are the images of the first
/// list followed by those of the second.
pub proof fn fields_processed_independently(a: Seq<UploadedFieldView>, b: Seq<UploadedFieldView>)
    ensures
        collected_images(a + b) == collected_images(a) + collected_images(b),
    decreases b.len(),
{
    if b.len() == 0 {
        assert(a + b =~= a);
        assert(collected_images(a) + collected_images(b) =~= collected_images(a));
    } else {
        fields_processed_independently(a, b.drop_last());
        assert((a + b).drop_last() =~= a + b.drop_last());
        assert((a + b).last() == b.last());
        match field_image(b.last()) {
            Some(i) => {
                assert(collected_images(a) + collected_images(b) =~= (collected_images(a)
                    + collected_images(b.drop_last())).push(i));
            },
            None => {},
        }
    }
}

/// Which fields yield which image. A field of type `image/jpeg` or
/// `image/png` saved as a file yields an image of that subtype, named after
/// the field's file name (empty when it has none), read from the saved file.
/// A field of any other type yields nothing, and neither does a typed field
/// not saved as a file. A field without a type yields, when its text parses
/// as a URL, the image at that URL's serialization, and otherwise nothing.
pub proof fn field_images_by_kind(f: UploadedFieldView)
    ensures
        f.content_type is Some && f.content_type.unwrap().0 == seq!['i', 'm', 'a', 'g', 'e']
            && (f.content_type.unwrap().1 == seq!['j', 'p', 'e', 'g'] || f.content_type.unwrap().1
            == seq!['p', 'n', 'g']) && f.data is File ==> field_image(f) == Some(
            ImageStructView {
                name: if f.filename is Some {
                    f.filename.unwrap()
                } else {
                    Seq::empty()
                },
                image_type: f.content_type.unwrap().1,
                data: Some(
                    ImageSourceView { base64: None, url: None, path: Some(f.data->File_0) },
                ),
            },
        ),
        f.content_type is Some && !(f.content_type.unwrap().0 == seq!['i', 'm', 'a', 'g', 'e'] && (
        f.content_type.unwrap().1 == seq!['j', 'p', 'e', 'g'] || f.content_type.unwrap().1
            == seq!['p', 'n', 'g'])) ==> field_image(f) is None,
        f.content_type is Some && !(f.data is File) ==> field_image(f) is None,
        f.content_type is None && f.data is Text && url_serialization(f.data->Text_0) is Some
            ==> field_image(f) == Some(url_image(url_serialization(f.data->Text_0).unwrap())),
        f.content_type is None && f.data is Text && url_serialization(f.data->Text_0) is None
            ==> field_image(f) is None,
        f.content_type is None && !(f.data is Text) ==> field_image(f) is None,
{
    reveal_strlit("image");
    reveal_strlit("jpeg");
    reveal_strlit("png");
    assert("image"@ =~= seq!['i', 'm', 'a', 'g', 'e']);
    assert("jpeg"@ =~= seq!['j', 'p', 'e', 'g']);
    assert("png"@ =~= seq!['p', 'n', 'g']);
}

/// Which fields can be processed without failing: a field typed
/// `image/jpeg` or `image/png` must be saved as a file, and an untyped text
/// that parses as a URL must name an image; every other field can.
pub proof fn processable_fields(f: UploadedFieldView)
    ensures
        f.content_type is Some && f.content_type.unwrap().0 == seq!['i', 'm', 'a', 'g', 'e']
            && (f.content_type.unwrap().1 == seq!['j', 'p', 'e', 'g'] || f.content_type.unwrap().1
            == seq!['p', 'n', 'g']) ==> (field_processable(f) <==> f.data is File),
        f.content_type is Some && !(f.content_type.unwrap().0 == seq!['i', 'm', 'a', 'g', 'e'] && (
        f.content_type.unwrap().1 == seq!['j', 'p', 'e', 'g'] || f.content_type.unwrap().1
            == seq!['p', 'n', 'g'])) ==> field_processable(f),
        f.content_type is None && f.data is Text && url_serialization(f.data->Text_0) is Some
            ==> (field_processable(f) <==> url_names_image(
            url_serialization(f.data->Text_0).unwrap(),
        )),
        f.content_type is None && !(f.data is Text && url_serialization(f.data->Text_0) is Some)
            ==> field_processable(f),
{
    reveal_strlit("image");
    reveal_strlit("jpeg");
    reveal_strlit("png");
    assert("image"@ =~= seq!['i', 'm', 'a', 'g', 'e']);
    assert("jpeg"@ =~= seq!['j', 'p', 'e', 'g']);
    assert("png"@ =~= seq!['p', 'n', 'g']);
}

/// No fields yield no images, and one more field adds its image, if any,
/// after the images of the fields before it.
pub proof fn images_follow_fields(fields: Seq<UploadedFieldView>, f: UploadedFieldView)
    ensures
        collected_images(Seq::empty()).len() == 0,
        collected_images(fields.push(f)) == if field_image(f) is Some {
            collected_images(fields).push(field_image(f).unwrap())
        } else {
            collected_images(fields)
        },
{
    assert(fields.push(f).drop_last() =~= fields);
}

} // verus!
