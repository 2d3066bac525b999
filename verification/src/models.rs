use vstd::prelude::*;

use crate::bindings::{
    base64_decoded, decode_base64, url_path_segments, url_path_segments_of,
};
use crate::text::{chars_of, concat2, concat3, extension, has_extension};

verus! {

/// Where the bytes of an image come from: a Base64 text, a URL, or a file on
/// the server.
pub struct ImageSource {
    pub base64: Option<String>,
    pub url: Option<String>,
    pub path: Option<String>,
}

/// An image to turn into a thumbnail: its file name, its type (the MIME
/// subtype, such as `jpeg`) and where its bytes come from.
pub struct ImageStruct {
    pub name: String,
    pub image_type: String,
    pub data: Option<ImageSource>,
}

/// The images of one request.
pub struct Images {
    pub images: Vec<ImageStruct>,
}

pub struct ImageSourceView {
    pub base64: Option<Seq<char>>,
    pub url: Option<Seq<char>>,
    pub path: Option<Seq<char>>,
}

pub struct ImageStructView {
    pub name: Seq<char>,
    pub image_type: Seq<char>,
    pub data: Option<ImageSourceView>,
}

impl View for ImageSource {
    type V = ImageSourceView;

    open spec fn view(&self) -> ImageSourceView {
        ImageSourceView {
            base64: self.base64.deep_view(),
            url: self.url.deep_view(),
            path: self.path.deep_view(),
        }
    }
}

/// The view of an optional source.
pub open spec fn source_view(s: Option<ImageSource>) -> Option<ImageSourceView> {
    match s {
        Some(src) => Some(src@),
        None => None,
    }
}

impl View for ImageStruct {
    type V = ImageStructView;

    open spec fn view(&self) -> ImageStructView {
        ImageStructView { name: self.name@, image_type: self.image_type@, data: source_view(self.data) }
    }
}

/// The views of a list of images, in order.
pub open spec fn images_view(v: Seq<ImageStruct>) -> Seq<ImageStructView> {
    v.map_values(|i: ImageStruct| i@)
}

impl View for Images {
    type V = Seq<ImageStructView>;

    open spec fn view(&self) -> Seq<ImageStructView> {
        images_view(self.images@)
    }
}

/// The MIME subtype that the server gives to a URL's file extension: `jpg`
/// is a JPEG image and `png` a PNG image; no other extension is known.
pub open spec fn subtype_for_extension(ext: Seq<char>) -> Option<Seq<char>> {
    if ext == "jpg"@ {
        Some("jpeg"@)
    } else if ext == "png"@ {
        Some("png"@)
    } else {
        None
    }
}

/// A URL that names an image the server can fetch: it parses, it has path
/// segments, and its last segment ends in a known extension.
pub open spec fn url_names_image(url: Seq<char>) -> bool {
    match url_path_segments_of(url) {
        Some(segments) => segments.len() > 0 && subtype_for_extension(
            extension(segments.last()),
        ) is Some,
        None => false,
    }
}

/// The file name and type that a URL gives an image: its last path segment,
/// and the MIME subtype of that segment's extension.
pub open spec fn url_file_name_and_type(url: Seq<char>) -> (Seq<char>, Seq<char>) {
    let segments = url_path_segments_of(url).unwrap();
    (segments.last(), subtype_for_extension(extension(segments.last())).unwrap())
}

/// A source with only a URL.
pub open spec fn url_source(url: Seq<char>) -> ImageSourceView {
    ImageSourceView { base64: None, url: Some(url), path: None }
}

/// A source with only a file path.
pub open spec fn file_source(path: Seq<char>) -> ImageSourceView {
    ImageSourceView { base64: None, url: None, path: Some(path) }
}

/// A source with only a Base64 text.
pub open spec fn base64_source(text: Seq<char>) -> ImageSourceView {
    ImageSourceView { base64: Some(text), url: None, path: None }
}

/// The image that the server makes of a URL.
pub open spec fn url_image(url: Seq<char>) -> ImageStructView {
    ImageStructView {
        name: url_file_name_and_type(url).0,
        image_type: url_file_name_and_type(url).1,
        data: Some(url_source(url)),
    }
}

/// The image that the server makes of an uploaded file.
pub open spec fn file_image(name: Seq<char>, image_type: Seq<char>, path: Seq<char>) -> ImageStructView {
    ImageStructView { name, image_type, data: Some(file_source(path)) }
}

/// The directory that thumbnails are written to.
pub open spec fn thumbnail_dir() -> Seq<char> {
    "media/thumbnails"@
}

/// Whether the `/`-separated component of `name` that begins at `i` is `..`,
/// the parent directory.
pub open spec fn parent_component_at(name: Seq<char>, i: int) -> bool {
    &&& 0 <= i && i + 2 <= name.len()
    &&& name[i] == '.' && name[i + 1] == '.'
    &&& i == 0 || name[i - 1] == '/'
    &&& i + 2 == name.len() || name[i + 2] == '/'
}

/// Whether joining `name` to a directory can lead outside it: `name` is an
/// absolute path, which replaces the directory, or one of its components is
/// `..`.
pub open spec fn leaves_directory(name: Seq<char>) -> bool {
    (name.len() > 0 && name[0] == '/') || exists|i: int| parent_component_at(name, i)
}

/// Where the thumbnail of an image named `name` is written: `name` joined to
/// the thumbnail directory, or `None` when that would lead outside it.
pub open spec fn thumbnail_path_of(name: Seq<char>) -> Option<Seq<char>> {
    if leaves_directory(name) {
        None
    } else {
        Some(thumbnail_dir() + "/"@ + name)
    }
}

/// Every thumbnail is written inside the thumbnail directory: its path is
/// `media/thumbnails/` followed by the image's name, which is no absolute
/// path and holds no `..` component.
pub proof fn thumbnails_stay_inside_their_directory(name: Seq<char>)
    ensures
        thumbnail_path_of(name) matches Some(p) ==> {
            let rest = p.subrange(17, p.len() as int);
            &&& p.subrange(0, 17) == "media/thumbnails/"@
            &&& rest == name
            &&& !(rest.len() > 0 && rest[0] == '/')
            &&& forall|i: int| !parent_component_at(rest, i)
        },
{
    reveal_strlit("media/thumbnails");
    reveal_strlit("/");
    reveal_strlit("media/thumbnails/");
    if let Some(p) = thumbnail_path_of(name) {
        assert(p.subrange(0, 17) =~= "media/thumbnails/"@);
        assert(p.subrange(17, p.len() as int) =~= name);
    }
}

/// Whether joining `name` to a directory can lead outside it.
fn name_leaves_directory(name: &str) -> (r: bool)
    ensures
        r == leaves_directory(name@),
{
    let chars = chars_of(name);
    if chars.len() > 0 && chars[0] == '/' {
        return true;
    }
    let mut i: usize = 0;
    while i < chars.len()
        invariant
            i <= chars.len(),
            chars@ == name@,
            forall|j: int| 0 <= j < i ==> !parent_component_at(name@, j),
        decreases chars.len() - i,
    {
        if i + 1 < chars.len() && chars[i] == '.' && chars[i + 1] == '.' && (i == 0 || chars[i - 1] == '/') && (i + 2
            == chars.len() || chars[i + 2] == '/') {
            assert(parent_component_at(name@, i as int));
            return true;
        }
        i = i + 1;
    }
    assert forall|j: int| !parent_component_at(name@, j) by {
        if 0 <= j && j + 2 <= name@.len() && j >= i {
            assert(false);
        }
    }
    false
}

/// The name a file is given so that its type shows in its extension.
pub open spec fn renamed_path_of(path: Seq<char>, ext: Seq<char>) -> Seq<char> {
    path + "."@ + ext
}

/// How the bytes of an image are obtained.
pub enum ImageFetch {
    /// Rename the file at `from` to `to` and open it there.
    OpenFile { from: String, to: String },
    /// Download the image at `url` into a file whose name ends in
    /// `.{image_type}` and open it.
    Download { url: String, image_type: String },
    /// Write `bytes` into a file whose name ends in `.{image_type}` and open it.
    Decoded { bytes: Vec<u8>, image_type: String },
    /// There is no source to read: the image library's `Unexpected` error.
    NoSource,
}

pub enum ImageFetchView {
    OpenFile { from: Seq<char>, to: Seq<char> },
    Download { url: Seq<char>, image_type: Seq<char> },
    Decoded { bytes: Seq<u8>, image_type: Seq<char> },
    NoSource,
}

impl View for ImageFetch {
    type V = ImageFetchView;

    open spec fn view(&self) -> ImageFetchView {
        match self {
            ImageFetch::OpenFile { from, to } => ImageFetchView::OpenFile { from: from@, to: to@ },
            ImageFetch::Download { url, image_type } => ImageFetchView::Download {
                url: url@,
                image_type: image_type@,
            },
            ImageFetch::Decoded { bytes, image_type } => ImageFetchView::Decoded {
                bytes: bytes@,
                image_type: image_type@,
            },
            ImageFetch::NoSource => ImageFetchView::NoSource,
        }
    }
}

/// Whether a source can be read without failing: a source that is read for
/// its Base64 text (it has no path and no URL) must decode.
pub open spec fn source_readable(src: ImageSourceView) -> bool {
    (src.path is None && src.url is None && src.base64 is Some) ==> base64_decoded(
        src.base64.unwrap(),
    ) is Some
}

/// How the bytes of an image of type `image_type` are obtained from `src`:
/// a file path comes first, then a URL, then a Base64 text.
pub open spec fn fetch_of(src: ImageSourceView, image_type: Seq<char>) -> ImageFetchView {
    if src.path is Some {
        ImageFetchView::OpenFile {
            from: src.path.unwrap(),
            to: renamed_path_of(src.path.unwrap(), image_type),
        }
    } else if src.url is Some {
        ImageFetchView::Download { url: src.url.unwrap(), image_type }
    } else if src.base64 is Some {
        ImageFetchView::Decoded { bytes: base64_decoded(src.base64.unwrap()).unwrap(), image_type }
    } else {
        ImageFetchView::NoSource
    }
}

/// The ways to build an image or its source.
pub trait ImageInterface: Sized {
    /// The URLs that `from_url` accepts.
    spec fn accepts_url(url: Seq<char>) -> bool;

    /// Whether `from_base64` can be called.
    spec fn accepts_base64() -> bool;

    /// Built from a URL, given by its serialization.
    fn from_url(url: &str) -> Self
        requires
            Self::accepts_url(url@),
    ;

    /// Built from an uploaded file stored at `file_path`.
    fn from_file(file_name: &String, file_type: &String, file_path: &String) -> Self;

    /// Built from a Base64 text.
    fn from_base64(file_name: &str, file_type: &str, base64_str: String) -> Self
        requires
            Self::accepts_base64(),
    ;
}

impl ImageInterface for ImageSource {
    open spec fn accepts_url(url: Seq<char>) -> bool {
        true
    }

    open spec fn accepts_base64() -> bool {
        true
    }

    fn from_url(url: &str) -> (r: ImageSource)
        ensures
            r@ == url_source(url@),
    {
        ImageSource { url: Some(String::from_str(url)), base64: None, path: None }
    }

    fn from_file(file_name: &String, file_type: &String, file_path: &String) -> (r: ImageSource)
        ensures
            r@ == file_source(file_path@),
    {
        ImageSource { url: None, base64: None, path: Some(file_path.clone()) }
    }

    fn from_base64(file_name: &str, file_type: &str, base64_str: String) -> (r: ImageSource)
        ensures
            r@ == base64_source(base64_str@),
    {
        ImageSource { url: None, base64: Some(base64_str), path: None }
    }
}

impl ImageSource {
    /// The file name and type that the source's URL gives an image, or
    /// `None` when the source has no URL.
    pub fn extract_filename_and_type_from_url(&self) -> (r: Option<(String, String)>)
        requires
            self.url matches Some(u) ==> url_names_image(u@),
        ensures
            self.url is None ==> r is None,
            self.url matches Some(u) ==> (r matches Some(p) && (p.0@, p.1@)
                == url_file_name_and_type(u@)),
    {
        match &self.url {
            Some(url) => {
                let segments = url_path_segments(url.as_str()).unwrap();
                let filename = segments[segments.len() - 1].clone();
                proof {
                    assert(segments.deep_view()[segments.len() - 1] == segments@[segments.len()
                        - 1]@);
                    reveal_strlit("jpg");
                    reveal_strlit("png");
                    reveal_strlit("jpeg");
                }
                let ext = if has_extension(filename.as_str(), "jpg") {
                    String::from_str("jpeg")
                } else {
                    String::from_str("png")
                };
                Some((filename, ext))
            },
            None => None,
        }
    }
}

impl ImageInterface for ImageStruct {
    open spec fn accepts_url(url: Seq<char>) -> bool {
        url_names_image(url)
    }

    /// Building an image from Base64 alone is not implemented: it is never
    /// to be called.
    open spec fn accepts_base64() -> bool {
        false
    }

    fn from_url(url: &str) -> (r: ImageStruct)
        ensures
            r@ == url_image(url@),
    {
        let ims = ImageSource::from_url(url);
        let pair = ims.extract_filename_and_type_from_url().unwrap();
        ImageStruct { name: pair.0, image_type: pair.1, data: Some(ims) }
    }

    fn from_file(file_name: &String, file_type: &String, file_path: &String) -> (r: ImageStruct)
        ensures
            r@ == file_image(file_name@, file_type@, file_path@),
    {
        let ims = ImageSource::from_file(file_name, file_type, file_path);
        ImageStruct { name: file_name.clone(), image_type: file_type.clone(), data: Some(ims) }
    }

    fn from_base64(file_name: &str, file_type: &str, base64_str: String) -> (r: ImageStruct) {
        ImageStruct { name: String::from_str(file_name), image_type: String::from_str(file_type), data: None }
    }
}

/// Whether `url` names an image the server can fetch.
pub fn names_image(url: &str) -> (r: bool)
    ensures
        r == url_names_image(url@),
{
    match url_path_segments(url) {
        Some(segments) => {
            let last = &segments[segments.len() - 1];
            proof {
                assert(segments.deep_view()[segments.len() - 1] == segments@[segments.len() - 1]@);
                reveal_strlit("jpg");
                reveal_strlit("png");
            }
            has_extension(last.as_str(), "jpg") || has_extension(last.as_str(), "png")
        },
        None => false,
    }
}

impl Default for ImageStruct {
    fn default() -> (r: ImageStruct)
        ensures
            r.name@ == "unnamed.jpg"@,
            r.image_type@ == "jpeg"@,
            r.data is None,
    {
        ImageStruct {
            image_type: String::from_str("jpeg"),
            name: String::from_str("unnamed.jpg"),
            data: None,
        }
    }
}

/// `path` with `.{ext}` appended: the name a file is moved to so that the
/// image library sees its type.
pub fn rename_file(path: &str, ext: &str) -> (r: String)
    ensures
        r@ == renamed_path_of(path@, ext@),
{
    concat3(path, ".", ext)
}

impl ImageStruct {
    /// Where the thumbnail of this image is written: its name joined to the
    /// thumbnail directory, or `None` when that would lead outside it.
    pub fn thumbnail_path(&self) -> (r: Option<String>)
        ensures
            r.deep_view() == thumbnail_path_of(self.name@),
    {
        if name_leaves_directory(self.name.as_str()) {
            None
        } else {
            proof {
                reveal_strlit("media/thumbnails/");
                reveal_strlit("media/thumbnails");
                reveal_strlit("/");
                assert("media/thumbnails/"@ =~= thumbnail_dir() + "/"@);
            }
            Some(concat2("media/thumbnails/", self.name.as_str()))
        }
    }

    /// How the bytes of this image are obtained.
    pub fn get_image(&self) -> (r: ImageFetch)
        requires
            self.data matches Some(src) && source_readable(src@),
        ensures
            r@ == fetch_of(self.data.unwrap()@, self.image_type@),
    {
        let src = self.data.as_ref().unwrap();
        match &src.path {
            Some(path) => ImageFetch::OpenFile {
                from: path.clone(),
                to: rename_file(path.as_str(), self.image_type.as_str()),
            },
            None => match &src.url {
                Some(url) => ImageFetch::Download {
                    url: url.clone(),
                    image_type: self.image_type.clone(),
                },
                None => match &src.base64 {
                    Some(b64) => {
                        let decoded = decode_base64(b64.as_str());
                        let bytes = decoded.unwrap();
                        assert(bytes@ =~= bytes.deep_view());
                        ImageFetch::Decoded { bytes, image_type: self.image_type.clone() }
                    },
                    None => ImageFetch::NoSource,
                },
            },
        }
    }

    /// How the bytes of this image are obtained, or `None` where reading its
    /// source fails: it has no source, or its Base64 text does not decode.
    pub fn try_get_image(&self) -> (r: Option<ImageFetch>)
        ensures
            r is None <==> !(self.data matches Some(src) && source_readable(src@)),
            r matches Some(f) ==> f@ == fetch_of(self.data.unwrap()@, self.image_type@),
    {
        match &self.data {
            None => None,
            Some(src) => {
                if src.path.is_none() && src.url.is_none() {
                    if let Some(b64) = &src.base64 {
                        if decode_base64(b64.as_str()).is_none() {
                            return None;
                        }
                    }
                }
                Some(self.get_image())
            },
        }
    }
}

/// Every image made from a URL is a JPEG or a PNG image, named after the
/// last segment of the URL's path.
pub proof fn url_images_are_jpeg_or_png(url: Seq<char>)
    requires
        url_names_image(url),
    ensures
        url_image(url).image_type == "jpeg"@ || url_image(url).image_type == "png"@,
        url_image(url).name == url_path_segments_of(url).unwrap().last(),
        url_image(url).data == Some(url_source(url)),
{
}

/// Where an image's bytes come from, in terms of its source and its type
/// `t`: a file path comes first, and the file is moved to the path with `.`
/// and `t` appended; then the URL, downloaded as type `t`; then the Base64
/// text, decoded, as type `t`; a source with none of them has nothing to
/// read. Which fetch is chosen does not depend on the fields that come
/// later in this order.
pub proof fn fetch_follows_source_priority(src: ImageSourceView, t: Seq<char>)
    ensures
        src.path matches Some(p) ==> fetch_of(src, t) == (ImageFetchView::OpenFile {
            from: p,
            to: p + seq!['.'] + t,
        }),
        src.path is None && src.url is Some ==> fetch_of(src, t) == (ImageFetchView::Download {
            url: src.url.unwrap(),
            image_type: t,
        }),
        src.path is None && src.url is None && src.base64 is Some ==> fetch_of(src, t) == (
        ImageFetchView::Decoded { bytes: base64_decoded(src.base64.unwrap()).unwrap(), image_type: t }),
        src.path is None && src.url is None && src.base64 is None ==> fetch_of(src, t)
            == ImageFetchView::NoSource,
        source_readable(src) <==> !(src.path is None && src.url is None && src.base64 is Some)
            || base64_decoded(src.base64.unwrap()) is Some,
{
    reveal_strlit(".");
    if let Some(p) = src.path {
        assert("."@ =~= seq!['.']);
    }
}

/// A name that is no absolute path and holds no `..` component always gets
/// a thumbnail, at `media/thumbnails/` followed by the name; a name that is
/// absolute or holds a `..` component gets none.
pub proof fn thumbnail_for_every_name_inside(name: Seq<char>)
    ensures
        (!(name.len() > 0 && name[0] == '/') && forall|i: int|
            #![trigger name[i]]
            !(0 <= i && i + 2 <= name.len() && name[i] == '.' && name[i + 1] == '.' && (i == 0
                || name[i - 1] == '/') && (i + 2 == name.len() || name[i + 2] == '/')))
            ==> thumbnail_path_of(name) == Some(
            seq!['m', 'e', 'd', 'i', 'a', '/', 't', 'h', 'u', 'm', 'b', 'n', 'a', 'i', 'l', 's', '/']
                + name,
        ),
        (name.len() > 0 && name[0] == '/') ==> thumbnail_path_of(name) is None,
        forall|i: int|
            #![trigger name[i]]
            0 <= i && i + 2 <= name.len() && name[i] == '.' && name[i + 1] == '.' && (i == 0
                || name[i - 1] == '/') && (i + 2 == name.len() || name[i + 2] == '/')
                ==> thumbnail_path_of(name) is None,
{
    reveal_strlit("media/thumbnails");
    reveal_strlit("/");
    assert(thumbnail_dir() + "/"@ =~= seq![
        'm', 'e', 'd', 'i', 'a', '/', 't', 'h', 'u', 'm', 'b', 'n', 'a', 'i', 'l', 's', '/'
    ]);
    assert forall|i: int|
        #![trigger name[i]]
        0 <= i && i + 2 <= name.len() && name[i] == '.' && name[i + 1] == '.' && (i == 0
            || name[i - 1] == '/') && (i + 2 == name.len() || name[i + 2] == '/')
        implies thumbnail_path_of(name) is None by {
        assert(parent_component_at(name, i));
    }
}

/// Which URLs name an image, and what image: the URL parses to path
/// segments, and the last segment's text after its last dot (or the whole
/// segment when it has no dot) is `jpg` or `png`; the image is named after
/// that last segment, and its type is `jpeg` for `jpg` and `png` for `png`.
pub proof fn url_images_by_extension(url: Seq<char>)
    ensures
        url_names_image(url) == (url_path_segments_of(url) is Some && url_path_segments_of(
            url,
        ).unwrap().len() > 0 && (extension(url_path_segments_of(url).unwrap().last()) == seq![
            'j',
            'p',
            'g',
        ] || extension(url_path_segments_of(url).unwrap().last()) == seq!['p', 'n', 'g'])),
        url_names_image(url) ==> url_image(url).name == url_path_segments_of(url).unwrap().last(),
        url_names_image(url) && extension(url_path_segments_of(url).unwrap().last()) == seq![
            'j',
            'p',
            'g',
        ] ==> url_image(url).image_type == seq!['j', 'p', 'e', 'g'],
        url_names_image(url) && extension(url_path_segments_of(url).unwrap().last()) == seq![
            'p',
            'n',
            'g',
        ] ==> url_image(url).image_type == seq!['p', 'n', 'g'],
        url_image(url).data == Some(ImageSourceView { base64: None, url: Some(url), path: None }),
{
    reveal_strlit("jpg");
    reveal_strlit("png");
    reveal_strlit("jpeg");
    assert("jpg"@ =~= seq!['j', 'p', 'g']);
    assert("png"@ =~= seq!['p', 'n', 'g']);
    assert("jpeg"@ =~= seq!['j', 'p', 'e', 'g']);
}

/// Each way of building a source fills in exactly one of its three fields,
/// and an image's view holds the views of its fields; a renamed file gets
/// `.` and the extension appended to its path.
pub proof fn sources_and_views(u: Seq<char>, p: Seq<char>, b: Seq<char>, v: Seq<ImageStruct>, e: Seq<char>)
    ensures
        url_source(u) == (ImageSourceView { base64: None, url: Some(u), path: None }),
        file_source(p) == (ImageSourceView { base64: None, url: None, path: Some(p) }),
        base64_source(b) == (ImageSourceView { base64: Some(b), url: None, path: None }),
        images_view(v).len() == v.len(),
        forall|i: int| 0 <= i < v.len() ==> (#[trigger] images_view(v)[i]) == v[i]@,
        renamed_path_of(p, e) == p + seq!['.'] + e,
{
    reveal_strlit(".");
    assert("."@ =~= seq!['.']);
}

} // verus!
