//! Photos of an album: what the album service answers, what the site keeps,
//! and when a cached album may be used again.

use vstd::prelude::*;
use vstd::string::*;

use crate::text::to_chars;

verus! {

/// A photo of the gallery.
#[derive(Debug)]
pub struct Photo {
    /// Where the converted image is served from.
    pub image_path: String,
    /// The caption shown under the image.
    pub caption: String,
    /// The name the image had in the album.
    pub filename: String,
}

/// What the album service answers for an album.
#[derive(Debug)]
pub struct AlbumResponse {
    pub assets: Vec<AssetResponse>,
}

/// One asset of an album.
#[derive(Debug)]
pub struct AssetResponse {
    pub id: String,
    pub original_file_name: String,
    pub exif_info: Option<ExifInfo>,
}

/// The part of an asset's metadata that the gallery shows.
#[derive(Debug)]
pub struct ExifInfo {
    pub description: Option<String>,
}

/// The mathematical value of a [`Photo`].
pub struct PhotoView {
    pub image_path: Seq<char>,
    pub caption: Seq<char>,
    pub filename: Seq<char>,
}

impl View for Photo {
    type V = PhotoView;

    open spec fn view(&self) -> PhotoView {
        PhotoView {
            image_path: self.image_path@,
            caption: self.caption@,
            filename: self.filename@,
        }
    }
}

/// Where the metadata of an album is kept between runs, below the
/// project's directory.
pub open spec fn cache_file_of(album_id: Seq<char>) -> Seq<char> {
    ".immich_cache/"@ + album_id + ".json"@
}

/// Where the metadata of an album is kept between runs, below the
/// project's directory.
pub fn get_cache_file(album_id: &str) -> (path: String)
    ensures
        path@ == cache_file_of(album_id@),
{
    let mut path = String::from_str(".immich_cache/");
    path.append(album_id);
    path.append(".json");
    path
}

/// The address at which the album service answers for an album.
pub open spec fn album_url_of(immich_url: Seq<char>, album_id: Seq<char>) -> Seq<char> {
    immich_url + "/api/albums/"@ + album_id
}

/// The address at which the album service answers for an album.
pub fn album_url(immich_url: &str, album_id: &str) -> (url: String)
    ensures
        url@ == album_url_of(immich_url@, album_id@),
{
    let mut url = String::from_str(immich_url);
    url.append("/api/albums/");
    url.append(album_id);
    url
}

/// The address from which an asset is downloaded as it was uploaded.
pub open spec fn download_url_of(immich_url: Seq<char>, asset_id: Seq<char>) -> Seq<char> {
    immich_url + "/api/assets/"@ + asset_id + "/original"@
}

/// The address from which an asset is downloaded as it was uploaded.
pub fn download_url(immich_url: &str, asset_id: &str) -> (url: String)
    ensures
        url@ == download_url_of(immich_url@, asset_id@),
{
    let mut url = String::from_str(immich_url);
    url.append("/api/assets/");
    url.append(asset_id);
    url.append("/original");
    url
}

/// The name of the file that holds a download while it is converted.
pub fn temporary_file(asset_id: &str) -> (name: String)
    ensures
        name@ == ".tmp_"@ + asset_id@,
{
    let mut name = String::from_str(".tmp_");
    name.append(asset_id);
    name
}

/// Whether a status of the service says that the request went well.
pub open spec fn is_success(status: u16) -> bool {
    200 <= status < 300
}

/// Tells whether a status of the service says that the request went well.
pub fn status_is_success(status: u16) -> (success: bool)
    ensures
        success == is_success(status),
{
    200 <= status && status < 300
}

/// Where the last `c` stands among the first `k` characters of `s`; -1
/// where there is none.
pub open spec fn last_index_of(s: Seq<char>, c: char, k: int) -> int
    decreases k,
{
    if k <= 0 || k > s.len() {
        -1
    } else if s[k - 1] == c {
        k - 1
    } else {
        last_index_of(s, c, k - 1)
    }
}

/// Where a path ends once the slashes and the `.` components at the end of
/// its first `k` characters are dropped: a path names the same file with
/// and without them. A `.` at the very start of the path is no such
/// component and stays.
pub open spec fn trimmed_len(name: Seq<char>, k: int) -> int
    decreases k,
{
    if k <= 0 || k > name.len() {
        0
    } else if name[k - 1] == '/' {
        trimmed_len(name, k - 1)
    } else if k >= 2 && name[k - 1] == '.' && name[k - 2] == '/' {
        trimmed_len(name, k - 2)
    } else {
        k
    }
}

/// The last component of a path, where `/` separates directories: what
/// stands between the last slash and the end, the slashes and `.`
/// components at the end left aside.
pub open spec fn base_name(name: Seq<char>) -> Seq<char> {
    let end = trimmed_len(name, name.len() as int);
    name.subrange(last_index_of(name, '/', end) + 1, end)
}

/// The stem of a file's name: the name up to its last dot. A name without
/// a dot, or whose only dot stands in front, is its own stem.
pub open spec fn stem_of_base(base: Seq<char>) -> Seq<char> {
    let dot = last_index_of(base, '.', base.len() as int);
    if dot <= 0 {
        base
    } else {
        base.take(dot)
    }
}

/// Whether a path names a file: its last component is neither missing
/// nor one of `.` and `..`, which name directories.
pub open spec fn names_file(name: Seq<char>) -> bool {
    base_name(name).len() > 0 && base_name(name) != ".."@ && base_name(name) != "."@
}

/// The stem under which the image of an asset is kept: that of the file
/// that the asset's name names, and `image` where it names none.
pub open spec fn image_stem(name: Seq<char>) -> Seq<char> {
    if names_file(name) {
        stem_of_base(base_name(name))
    } else {
        "image"@
    }
}

/// The name of the converted image of an asset.
pub open spec fn output_name_of(name: Seq<char>) -> Seq<char> {
    image_stem(name) + ".webp"@
}

/// Where the converted image of an asset is served from.
pub open spec fn image_path_of(name: Seq<char>) -> Seq<char> {
    "/static/pics/"@ + output_name_of(name)
}

/// Finds the last `c` among the first `k` characters.
fn find_last(chars: &Vec<char>, c: char, k: usize) -> (found: Option<usize>)
    requires
        k <= chars@.len(),
    ensures
        match found {
            Some(i) => i < k && i == last_index_of(chars@, c, k as int),
            None => last_index_of(chars@, c, k as int) == -1,
        },
{
    let mut i = k;
    while i > 0
        invariant
            i <= k <= chars@.len(),
            last_index_of(chars@, c, k as int) == last_index_of(chars@, c, i as int),
        decreases i,
    {
        if chars[i - 1] == c {
            return Some(i - 1);
        }
        i = i - 1;
    }
    None
}

/// Copies the characters from `from` up to `to` into a text.
fn text_of(chars: &Vec<char>, from: usize, to: usize) -> (text: String)
    requires
        from <= to <= chars@.len(),
    ensures
        text@ == chars@.subrange(from as int, to as int),
{
    let mut text = String::new();
    let mut i = from;
    while i < to
        invariant
            from <= i <= to <= chars@.len(),
            text@ == chars@.subrange(from as int, i as int),
        decreases to - i,
    {
        text.push(chars[i]);
        proof {
            assert(chars@.subrange(from as int, i + 1) =~= chars@.subrange(
                from as int,
                i as int,
            ).push(chars@[i as int]));
        }
        i = i + 1;
    }
    text
}

/// Finds where a path ends once the slashes and the `.` components at its
/// end are dropped.
fn trimmed_end(chars: &Vec<char>) -> (end: usize)
    ensures
        end <= chars@.len(),
        end == trimmed_len(chars@, chars@.len() as int),
{
    let mut end = chars.len();
    while end > 0
        invariant
            end <= chars@.len(),
            trimmed_len(chars@, chars@.len() as int) == trimmed_len(chars@, end as int),
        decreases end,
    {
        if chars[end - 1] == '/' {
            end = end - 1;
        } else if end >= 2 && chars[end - 1] == '.' && chars[end - 2] == '/' {
            end = end - 2;
        } else {
            return end;
        }
    }
    end
}

/// Finds the stem under which the image of an asset is kept.
pub fn stem(name: &str) -> (stem: String)
    ensures
        stem@ == image_stem(name@),
{
    let chars = to_chars(name);
    let end = trimmed_end(&chars);
    let start = match find_last(&chars, '/', end) {
        Some(slash) => slash + 1,
        None => 0,
    };
    let base = text_of(&chars, start, end);
    if start == end || base == String::from_str("..") || base == String::from_str(".") {
        return String::from_str("image");
    }
    let base_chars = to_chars(base.as_str());
    match find_last(&base_chars, '.', base_chars.len()) {
        Some(dot) => {
            if dot == 0 {
                base
            } else {
                let stem = text_of(&base_chars, 0, dot);
                proof {
                    assert(base@.subrange(0, dot as int) =~= base@.take(dot as int));
                }
                stem
            }
        },
        None => base,
    }
}

/// The name of the converted image of an asset.
pub fn output_name(name: &str) -> (output: String)
    ensures
        output@ == output_name_of(name@),
{
    let mut output = stem(name);
    output.append(".webp");
    output
}

/// Where the converted image of an asset is served from.
pub fn image_path(name: &str) -> (path: String)
    ensures
        path@ == image_path_of(name@),
{
    let mut path = String::from_str("/static/pics/");
    path.append(output_name(name).as_str());
    path
}

/// The caption of an asset: the description that its metadata holds, and
/// none where it holds none.
pub open spec fn caption_of(asset: AssetResponse) -> Seq<char> {
    match asset.exif_info {
        Some(info) => match info.description {
            Some(text) => text@,
            None => Seq::empty(),
        },
        None => Seq::empty(),
    }
}

/// The photo that the gallery keeps of an asset.
pub open spec fn photo_of(asset: AssetResponse) -> PhotoView {
    PhotoView {
        image_path: image_path_of(asset.original_file_name@),
        caption: caption_of(asset),
        filename: asset.original_file_name@,
    }
}

/// Makes the photo that the gallery keeps of an asset.
pub fn photo_from_asset(asset: &AssetResponse) -> (photo: Photo)
    ensures
        photo@ == photo_of(*asset),
{
    let caption = match &asset.exif_info {
        Some(info) => match &info.description {
            Some(text) => text.clone(),
            None => String::new(),
        },
        None => String::new(),
    };
    Photo {
        image_path: image_path(asset.original_file_name.as_str()),
        caption,
        filename: asset.original_file_name.clone(),
    }
}

/// The photos that the gallery keeps of the assets of an album, in the
/// album's order.
pub fn photos_of_album(album: &AlbumResponse) -> (photos: Vec<Photo>)
    ensures
        photos@.len() == album.assets@.len(),
        forall|i: int|
            0 <= i < photos@.len() ==> (#[trigger] photos@[i])@ == photo_of(album.assets@[i]),
{
    let mut photos: Vec<Photo> = Vec::new();
    let mut i: usize = 0;
    while i < album.assets.len()
        invariant
            i <= album.assets.len(),
            photos@.len() == i,
            forall|j: int| 0 <= j < i ==> (#[trigger] photos@[j])@ == photo_of(album.assets@[j]),
        decreases album.assets.len() - i,
    {
        photos.push(photo_from_asset(&album.assets[i]));
        i = i + 1;
    }
    photos
}

/// Whether the image of the photo at `i` is at hand.
pub open spec fn present_at(present: Seq<bool>, i: int) -> bool {
    0 <= i < present.len() && present[i]
}

/// Whether the image of each of the first `count` photos is at hand.
pub open spec fn all_present(present: Seq<bool>, count: nat) -> bool {
    forall|i: int| 0 <= i < count ==> #[trigger] present_at(present, i)
}

/// Decides whether a cached album is used again: it is when the image of
/// every photo in it is still at hand, and then it comes back as it was
/// kept. A cache that misses an image is dropped as a whole, and the album
/// is fetched anew.
pub fn reuse_cache(cached: Option<Vec<Photo>>, present: &Vec<bool>) -> (reused: Option<
    Vec<Photo>,
>)
    ensures
        match cached {
            Some(photos) => if all_present(present@, photos@.len()) {
                reused == Some(photos)
            } else {
                reused is None
            },
            None => reused is None,
        },
{
    let photos = cached?;
    let mut i: usize = 0;
    while i < photos.len()
        invariant
            i <= photos.len(),
            cached == Some(photos),
            all_present(present@, i as nat),
        decreases photos.len() - i,
    {
        if i >= present.len() || !present[i] {
            proof {
                assert(!present_at(present@, i as int));
            }
            return None;
        }
        i = i + 1;
    }
    Some(photos)
}

} // verus!
